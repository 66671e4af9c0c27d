use vstd::prelude::*;
use crate::Validator;

verus! {

/// One end of an integer range.
#[derive(Debug, PartialEq, Eq, Structural, Clone, Copy)]
pub enum RangeBound {
    Included(i64),
    Excluded(i64),
    Unbounded,
}

/// Reports a failure exactly when the checked value lies inside the
/// configured range, and success otherwise.
pub struct RangeValidator {
    pub start: RangeBound,
    pub end: RangeBound,
}

/// The failure a range check reports; it carries the configured range.
#[derive(Debug, PartialEq, Eq, Structural, Clone, Copy)]
pub struct NotInRangeError(pub RangeBound, pub RangeBound);

/// Whether `v` is at or above the range's start bound.
pub open spec fn above_start(b: RangeBound, v: i64) -> bool {
    match b {
        RangeBound::Included(s) => v >= s,
        RangeBound::Excluded(s) => v > s,
        RangeBound::Unbounded => true,
    }
}

/// Whether `v` is at or below the range's end bound.
pub open spec fn below_end(b: RangeBound, v: i64) -> bool {
    match b {
        RangeBound::Included(e) => v <= e,
        RangeBound::Excluded(e) => v < e,
        RangeBound::Unbounded => true,
    }
}

impl RangeValidator {
    pub fn new(start: RangeBound, end: RangeBound) -> (r: Self)
        ensures
            r == (RangeValidator { start, end }),
    {
        Self { start, end }
    }

    /// Whether `v` lies inside the configured range.
    pub open spec fn spec_contains(&self, v: i64) -> bool {
        above_start(self.start, v) && below_end(self.end, v)
    }
}

impl Validator<i64> for RangeValidator {
    type Error = NotInRangeError;

    open spec fn spec_valid(&self, value: i64) -> bool {
        !self.spec_contains(value)
    }

    open spec fn spec_error(&self, value: i64, error: NotInRangeError) -> bool {
        error == NotInRangeError(self.start, self.end)
    }

    fn validate(&self, value: &i64) -> (r: Result<(), NotInRangeError>) {
        let v = *value;
        let after_start = match self.start {
            RangeBound::Included(s) => v >= s,
            RangeBound::Excluded(s) => v > s,
            RangeBound::Unbounded => true,
        };
        let before_end = match self.end {
            RangeBound::Included(e) => v <= e,
            RangeBound::Excluded(e) => v < e,
            RangeBound::Unbounded => true,
        };
        if after_start && before_end {
            Err(NotInRangeError(self.start, self.end))
        } else {
            Ok(())
        }
    }
}

} // verus!
