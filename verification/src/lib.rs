//! A declarative data-validation library: composable validators (leaf checks
//! plus combinators), a parser that turns per-member specification text into a
//! validator expression tree, and a generator that interprets a schema
//! description (a record's members or a tagged union's variants, each with an
//! optional validator expression) as a validate operation whose failures are
//! aggregate values mirroring the schema, one optional slot per sub-validation.

use vstd::prelude::*;

mod text;
mod length;
mod not_empty;
mod and;
mod or;
mod elements;
mod range;
mod tuple;
mod expr;
mod parse;
mod generate;
mod schema;
mod shape;
mod email;
mod ip;
mod url_check;

pub use length::{HasLength, LengthValidator, InvalidLengthError, length_valid, length_error_is, lemma_length_semantics};
pub use not_empty::{NotEmptyValidator, EmptyValueError};
pub use and::{And, AndError, lemma_and_semantics};
pub use or::{Or, OrError, lemma_or_semantics};
pub use elements::{HasElements, ElementsValidator, ElementsInvalid, lemma_elements_semantics};
pub use range::{RangeValidator, NotInRangeError, RangeBound};
pub use tuple::{TupleError2, TupleError3, TupleError4, TupleError5, TupleError6, TupleError7, TupleError8, TupleError9, TupleError10, TupleError11, TupleError12, TupleError13, lemma_tuple2_semantics};
pub use expr::{ValidatorExpr, expr_wf, MAX_TUPLE_ARITY};
pub use shape::{validate_capable, compat, has_type, member_wf, variant_wf, schema_wf, schemas_wf, lemma_well_typed_applicable, ValidatorShape, ErrorShape, GValidatorShape, GErrorShape, abs_vshape, abs_eshape, spec_validator_shape, spec_error_shape, expr_has_shape, shapes_mirror, lemma_shapes_isomorphic, error_fits, lemma_failure_fits_error_shape};
pub use generate::{VariantDesc, variant_desc_ok, variant_matches_desc, build_variant, build_union_schema, member_warnings, members_warnings, variant_warnings, union_warnings, g_compat, lemma_g_compat, compat_check, capable_check, clone_type_ref, validator_shape, error_shape, MemberDesc, GenError, GenErrorKind, GenWarning, member_desc_ok, member_matches_desc, build_members, build_record_schema};
pub use parse::{lemma_spec_parse_total, parse_validator_spec, ParseError, ParseErrorKind, SpecExpr, Parsed, spec_parse, spec_parse_expr, abs_expr, abs_exprs, to_nats};
pub use schema::{TypeRef, Member, Variant, Schema, DynValue, DynError, val_len, applicable, members_applicable, dyn_valid, members_valid, dyn_error_is, member_slots_ok, eval, validate_schema_value, lemma_dataless_variant_always_valid, lemma_union_error_names_data_variant, lemma_record_aggregate, lemma_tuple_aggregate, lemma_elements_aggregate};
pub use email::{EmailValidator, InvalidEmailError};
pub use ip::{IpAddressValidator, InvalidIpError, is_ipv4, is_ipv6, is_ip_text, check_ip};
pub use url_check::{UrlValidator, InvalidUrlError};

verus! {

/// A capability that checks a value of type `T` and reports success or a
/// structured failure of type `Self::Error`.
pub trait Validator<T>: Sized {
    type Error;

    /// Whether `value` passes this validator.
    spec fn spec_valid(&self, value: T) -> bool;

    /// Whether `error` is exactly the failure this validator reports on `value`.
    spec fn spec_error(&self, value: T, error: Self::Error) -> bool;

    fn validate(&self, value: &T) -> (r: Result<(), Self::Error>)
        ensures
            r is Ok <==> self.spec_valid(*value),
            r matches Err(e) ==> self.spec_error(*value, e),
    ;
}

/// A type that declares its own validator, enabling recursive composition:
/// values nested under other validated values are checked by the validator
/// their own type declares.
pub trait Validate: Sized {
    type Checker: Validator<Self>;

    fn validator() -> (r: Self::Checker)
        ensures
            r == Self::validator_spec(),
    ;

    fn validate(&self) -> (r: Result<(), <Self::Checker as Validator<Self>>::Error>)
        ensures
            r is Ok <==> Self::validator_spec().spec_valid(*self),
            r matches Err(e) ==> Self::validator_spec().spec_error(*self, e),
    ;

    /// The validator value that `validator()` returns.
    spec fn validator_spec() -> Self::Checker;
}

/// A validator that accepts every value; its error type has no public
/// constructor, so a failure of it can never be built by callers.
pub struct IgnoreValidator;

/// The error type of validations that cannot fail.
#[derive(Debug, PartialEq, Eq, Clone)]
pub struct NeverError {
    hidden: bool,
}

impl<T> Validator<T> for IgnoreValidator {
    type Error = NeverError;

    open spec fn spec_valid(&self, value: T) -> bool {
        true
    }

    open spec fn spec_error(&self, value: T, error: NeverError) -> bool {
        false
    }

    fn validate(&self, value: &T) -> (r: Result<(), NeverError>) {
        Ok(())
    }
}

} // verus!
