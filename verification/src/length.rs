use vstd::prelude::*;

verus! {

/// Types whose validation-relevant size is a single length.
pub trait HasLength {
    spec fn spec_len(&self) -> nat;

    fn length(&self) -> (n: usize)
        ensures
            n == self.spec_len(),
    ;
}

impl<T> HasLength for Vec<T> {
    open spec fn spec_len(&self) -> nat {
        self@.len()
    }

    fn length(&self) -> (n: usize) {
        self.len()
    }
}

/// Checks a value's length against an optional minimum and an optional
/// maximum bound; a length equal to a bound is valid.
pub struct LengthValidator(pub Option<usize>, pub Option<usize>);

#[derive(Debug, PartialEq, Eq, Structural, Clone)]
pub enum InvalidLengthError {
    TooLong { max: usize, len: usize },
    TooShort { min: usize, len: usize },
}

/// A length satisfies the bounds iff (no minimum or len >= min) and
/// (no maximum or len <= max); boundary equality is valid.
pub open spec fn length_valid(min: Option<usize>, max: Option<usize>, len: nat) -> bool {
    &&& (min matches Some(m) ==> len >= m)
    &&& (max matches Some(m) ==> len <= m)
}

/// The exact failure a length check reports: the violated bound together with
/// the actual length, the minimum checked first.
pub open spec fn length_error_is(
    min: Option<usize>,
    max: Option<usize>,
    len: nat,
    e: InvalidLengthError,
) -> bool {
    if min matches Some(m) && len < m {
        e matches InvalidLengthError::TooShort { min: m2, len: l2 } && min == Some(m2) && l2 == len
    } else {
        e matches InvalidLengthError::TooLong { max: m2, len: l2 } && max == Some(m2) && l2 == len
            && len > m2
    }
}

impl LengthValidator {
    pub fn new(min: Option<usize>, max: Option<usize>) -> (r: Self)
        ensures
            r == LengthValidator(min, max),
    {
        Self(min, max)
    }
}

impl<T: HasLength> crate::Validator<T> for LengthValidator {
    type Error = InvalidLengthError;

    open spec fn spec_valid(&self, value: T) -> bool {
        length_valid(self.0, self.1, value.spec_len())
    }

    open spec fn spec_error(&self, value: T, error: InvalidLengthError) -> bool {
        length_error_is(self.0, self.1, value.spec_len(), error)
    }

    fn validate(&self, value: &T) -> (r: Result<(), InvalidLengthError>) {
        let len = value.length();
        if let Some(min) = self.0 {
            if len < min {
                return Err(InvalidLengthError::TooShort { min, len });
            }
        }
        if let Some(max) = self.1 {
            if len > max {
                return Err(InvalidLengthError::TooLong { max, len });
            }
        }
        Ok(())
    }
}

/// A length satisfies the bounds exactly when (no minimum or the length is at
/// least it) and (no maximum or the length is at most it); a length equal to
/// a bound is valid.
pub proof fn lemma_length_semantics(min: Option<usize>, max: Option<usize>, len: nat)
    ensures
        length_valid(min, max, len) <==> ((min matches Some(m) ==> len >= m) && (
        max matches Some(m) ==> len <= m)),
        min matches Some(m) && len == m && (max matches Some(x) ==> len <= x) ==> length_valid(
            min,
            max,
            len,
        ),
        max matches Some(x) && len == x && (min matches Some(m) ==> len >= m) ==> length_valid(
            min,
            max,
            len,
        ),
{
}

} // verus!
