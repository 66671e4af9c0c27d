use vstd::prelude::*;
use crate::Validator;

verus! {

/// Validates that a byte string is an absolute URL, by the parser of the
/// `url` crate.
pub struct UrlValidator;

/// The failure reported for a byte string that is not an absolute URL.
#[derive(Debug, PartialEq, Eq, Structural, Clone, Copy)]
pub struct InvalidUrlError;

/// Whether the `url` crate accepts the UTF-8 decoding of these bytes as an
/// absolute URL.
pub uninterp spec fn url_accepts(s: Seq<u8>) -> bool;

/// Relies on url::Url::parse: whether it accepts an input is a function of
/// the input alone; bytes that are not UTF-8 are never accepted.
#[verifier::external_body]
fn parse_url_bytes(s: &[u8]) -> (r: bool)
    ensures
        r == url_accepts(s@),
{
    match core::str::from_utf8(s) {
        Ok(text) => url::Url::parse(text).is_ok(),
        Err(_) => false,
    }
}

impl Validator<Vec<u8>> for UrlValidator {
    type Error = InvalidUrlError;

    open spec fn spec_valid(&self, value: Vec<u8>) -> bool {
        url_accepts(value@)
    }

    open spec fn spec_error(&self, value: Vec<u8>, error: InvalidUrlError) -> bool {
        error == InvalidUrlError
    }

    fn validate(&self, value: &Vec<u8>) -> (r: Result<(), InvalidUrlError>) {
        if parse_url_bytes(value.as_slice()) {
            Ok(())
        } else {
            Err(InvalidUrlError)
        }
    }
}

} // verus!
