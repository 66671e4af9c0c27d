use vstd::prelude::*;
use crate::length::HasLength;

verus! {

/// Checks that a value's length is not zero.
pub struct NotEmptyValidator;

/// The failure reported for an empty value.
#[derive(Debug, PartialEq, Eq, Structural, Clone)]
pub struct EmptyValueError;

impl<T: HasLength> crate::Validator<T> for NotEmptyValidator {
    type Error = EmptyValueError;

    open spec fn spec_valid(&self, value: T) -> bool {
        value.spec_len() != 0
    }

    open spec fn spec_error(&self, value: T, error: EmptyValueError) -> bool {
        error == EmptyValueError
    }

    fn validate(&self, value: &T) -> (r: Result<(), EmptyValueError>) {
        if value.length() == 0 {
            Err(EmptyValueError)
        } else {
            Ok(())
        }
    }
}

} // verus!
