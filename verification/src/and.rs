use vstd::prelude::*;
use crate::Validator;

verus! {

/// Conjunction of two validators: both branches are always evaluated, and a
/// failure names exactly the side or sides that failed.
pub struct And<A, B>(pub A, pub B);

#[derive(Debug, PartialEq, Clone)]
pub enum AndError<A, B> {
    Left(A),
    Right(B),
    Both(A, B),
}

impl<A, B, T> Validator<T> for And<A, B> where A: Validator<T>, B: Validator<T> {
    type Error = AndError<A::Error, B::Error>;

    open spec fn spec_valid(&self, value: T) -> bool {
        self.0.spec_valid(value) && self.1.spec_valid(value)
    }

    open spec fn spec_error(&self, value: T, error: AndError<A::Error, B::Error>) -> bool {
        match error {
            AndError::Left(left) => {
                &&& !self.0.spec_valid(value)
                &&& self.1.spec_valid(value)
                &&& self.0.spec_error(value, left)
            },
            AndError::Right(right) => {
                &&& self.0.spec_valid(value)
                &&& !self.1.spec_valid(value)
                &&& self.1.spec_error(value, right)
            },
            AndError::Both(left, right) => {
                &&& !self.0.spec_valid(value)
                &&& !self.1.spec_valid(value)
                &&& self.0.spec_error(value, left)
                &&& self.1.spec_error(value, right)
            },
        }
    }

    fn validate(&self, value: &T) -> (r: Result<(), AndError<A::Error, B::Error>>) {
        match (self.0.validate(value), self.1.validate(value)) {
            (Ok(()), Ok(())) => Ok(()),
            (Err(left), Ok(())) => Err(AndError::Left(left)),
            (Ok(()), Err(right)) => Err(AndError::Right(right)),
            (Err(left), Err(right)) => Err(AndError::Both(left, right)),
        }
    }
}

impl<A, B> And<A, B> {
    pub fn new(left: A, right: B) -> (r: Self)
        ensures
            r == And(left, right),
    {
        Self(left, right)
    }
}

impl<A, B> AndError<A, B> {
    /// The failing sides as one optional slot each: the left error, if any,
    /// and the right error, if any.
    pub fn split(self) -> (r: (Option<A>, Option<B>))
        ensures
            match self {
                AndError::Left(left) => r == (Some(left), None::<B>),
                AndError::Right(right) => r == (None::<A>, Some(right)),
                AndError::Both(left, right) => r == (Some(left), Some(right)),
            },
    {
        match self {
            AndError::Left(left) => (Some(left), None),
            AndError::Right(right) => (None, Some(right)),
            AndError::Both(left, right) => (Some(left), Some(right)),
        }
    }
}

/// Conjunction succeeds exactly when both branches succeed, and a failure
/// identifies exactly the failing side or sides, never omitting one that
/// failed.
pub proof fn lemma_and_semantics<A, B, T>(v: And<A, B>, value: T, error: AndError<A::Error, B::Error>)
    where A: Validator<T>, B: Validator<T>
    ensures
        v.spec_valid(value) <==> (v.0.spec_valid(value) && v.1.spec_valid(value)),
        v.spec_error(value, error) ==> match error {
            AndError::Left(_) => !v.0.spec_valid(value) && v.1.spec_valid(value),
            AndError::Right(_) => v.0.spec_valid(value) && !v.1.spec_valid(value),
            AndError::Both(_, _) => !v.0.spec_valid(value) && !v.1.spec_valid(value),
        },
{
}

} // verus!
