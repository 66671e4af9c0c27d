use vstd::prelude::*;
use crate::Validator;

verus! {

/// Disjunction of two validators: the right branch is evaluated only if the
/// left fails, and a failure (possible only when both fail) retains both
/// sub-errors.
pub struct Or<A, B>(pub A, pub B);

#[derive(Debug, PartialEq, Clone)]
pub struct OrError<A, B>(pub A, pub B);

impl<A, B, T> Validator<T> for Or<A, B> where A: Validator<T>, B: Validator<T> {
    type Error = OrError<A::Error, B::Error>;

    open spec fn spec_valid(&self, value: T) -> bool {
        self.0.spec_valid(value) || self.1.spec_valid(value)
    }

    open spec fn spec_error(&self, value: T, error: OrError<A::Error, B::Error>) -> bool {
        &&& !self.0.spec_valid(value)
        &&& !self.1.spec_valid(value)
        &&& self.0.spec_error(value, error.0)
        &&& self.1.spec_error(value, error.1)
    }

    fn validate(&self, value: &T) -> (r: Result<(), OrError<A::Error, B::Error>>) {
        let left = match self.0.validate(value) {
            Ok(()) => return Ok(()),
            Err(left) => left,
        };
        let right = match self.1.validate(value) {
            Ok(()) => return Ok(()),
            Err(right) => right,
        };
        Err(OrError(left, right))
    }
}

impl<A, B> Or<A, B> {
    pub fn new(left: A, right: B) -> (r: Self)
        ensures
            r == Or(left, right),
    {
        Self(left, right)
    }
}

/// Disjunction succeeds exactly when at least one branch succeeds, and a
/// failure carries both sub-errors.
pub proof fn lemma_or_semantics<A, B, T>(v: Or<A, B>, value: T, error: OrError<A::Error, B::Error>)
    where A: Validator<T>, B: Validator<T>
    ensures
        v.spec_valid(value) <==> (v.0.spec_valid(value) || v.1.spec_valid(value)),
        v.spec_error(value, error) ==> !v.0.spec_valid(value) && !v.1.spec_valid(value)
            && v.0.spec_error(value, error.0) && v.1.spec_error(value, error.1),
{
}

} // verus!
