use vstd::prelude::*;

verus! {

/// The expression tree a member's validator specification parses to: leaf
/// checks, combinators over sub-expressions, and delegation to the value
/// type's own declared validator.
#[derive(Debug, PartialEq)]
#[verifier::ext_equal]
pub enum ValidatorExpr {
    NotEmpty,
    Email,
    Url,
    IpAddr,
    Length { min: Option<usize>, max: Option<usize> },
    And(Box<ValidatorExpr>, Box<ValidatorExpr>),
    Or(Box<ValidatorExpr>, Box<ValidatorExpr>),
    Elements(Box<ValidatorExpr>),
    Tuple(Vec<ValidatorExpr>),
    Ignore,
    Default,
}

/// The largest tuple arity an aggregate failure shape exists for.
pub const MAX_TUPLE_ARITY: usize = 13;

/// A well-formed expression: every tuple has between 2 and 13 children.
pub open spec fn expr_wf(e: ValidatorExpr) -> bool
    decreases e,
{
    match e {
        ValidatorExpr::And(l, r) => expr_wf(*l) && expr_wf(*r),
        ValidatorExpr::Or(l, r) => expr_wf(*l) && expr_wf(*r),
        ValidatorExpr::Elements(inner) => expr_wf(*inner),
        ValidatorExpr::Tuple(cs) => 2 <= cs@.len() <= MAX_TUPLE_ARITY && (forall|i: int|
            0 <= i < cs@.len() ==> expr_wf(#[trigger] cs@[i])),
        _ => true,
    }
}

} // verus!
