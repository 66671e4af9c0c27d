use vstd::prelude::*;
use crate::Validator;
use crate::expr::ValidatorExpr;
use crate::not_empty::{NotEmptyValidator, EmptyValueError};
use crate::length::{LengthValidator, InvalidLengthError, length_valid, length_error_is};
use crate::email::{EmailValidator, InvalidEmailError, email_result};
use crate::url_check::{UrlValidator, InvalidUrlError, url_accepts};
use crate::ip::{IpAddressValidator, InvalidIpError, is_ip_text};

verus! {

/// A reference to a member's declared value type.
#[derive(Debug, PartialEq)]
#[verifier::ext_equal]
pub enum TypeRef {
    /// A string of bytes.
    Text,
    /// An ordered homogeneous collection.
    ListOf(Box<TypeRef>),
    /// A fixed-arity heterogeneous sequence.
    TupleOf(Vec<TypeRef>),
    /// A schema-described record or tagged union, by index into the schema set.
    SchemaRef(usize),
}

/// One member of a record or of a variant's payload: its declared value type
/// and its validator expression (an absent specification is `Default`).
#[derive(Debug, PartialEq)]
#[verifier::ext_equal]
pub struct Member {
    pub ty: TypeRef,
    pub expr: ValidatorExpr,
}

/// One variant of a tagged union; a variant without members carries no data
/// and can never fail.
#[derive(Debug, PartialEq)]
#[verifier::ext_equal]
pub struct Variant {
    pub members: Option<Vec<Member>>,
}

/// The shape of one schema type: a record's members or a union's variants.
#[derive(Debug, PartialEq)]
#[verifier::ext_equal]
pub enum Schema {
    Record(Vec<Member>),
    Union(Vec<Variant>),
}

/// A value to validate, mirroring the declared types.
#[derive(Debug, PartialEq)]
#[verifier::ext_equal]
pub enum DynValue {
    /// A string of bytes.
    Text(Vec<u8>),
    /// An ordered collection, or the positions of a fixed-arity sequence.
    List(Vec<DynValue>),
    /// An instance of the record schema at the given index.
    Record(usize, Vec<DynValue>),
    /// An instance of a union schema: schema index, active variant index, and
    /// the variant's payload values.
    Union(usize, usize, Vec<DynValue>),
}

/// A validation failure, structurally mirroring the validator that produced
/// it; composition never discards a failing branch that was evaluated.
#[derive(Debug, PartialEq)]
#[verifier::ext_equal]
pub enum DynError {
    Empty(EmptyValueError),
    Email(InvalidEmailError),
    Url(InvalidUrlError),
    Ip(InvalidIpError),
    Length(InvalidLengthError),
    AndLeft(Box<DynError>),
    AndRight(Box<DynError>),
    AndBoth(Box<DynError>, Box<DynError>),
    OrBoth(Box<DynError>, Box<DynError>),
    /// One optional slot per element.
    Elements(Vec<Option<DynError>>),
    /// One optional slot per position.
    Tuple(Vec<Option<DynError>>),
    /// One optional slot per record member.
    Record(Vec<Option<DynError>>),
    /// The active variant's index and one optional slot per payload member.
    Union(usize, Vec<Option<DynError>>),
}

/// The length a value offers to length-based checks.
pub open spec fn val_len(v: DynValue) -> nat {
    match v {
        DynValue::Text(b) => b@.len(),
        DynValue::List(es) => es@.len(),
        _ => 0,
    }
}

/// Whether an expression can be applied to a value: the value offers what the
/// leaves read, collections run element-wise, and `Default` reaches a value
/// whose own type declares a validator (a schema instance, or a collection of
/// such).
pub open spec fn applicable(schemas: Seq<Schema>, e: ValidatorExpr, v: DynValue) -> bool
    decreases v, e,
{
    match e {
        ValidatorExpr::NotEmpty => v is Text || v is List,
        ValidatorExpr::Length { min, max } => v is Text || v is List,
        ValidatorExpr::Email => v is Text,
        ValidatorExpr::Url => v is Text,
        ValidatorExpr::IpAddr => v is Text,
        ValidatorExpr::And(l, r) => applicable(schemas, *l, v) && applicable(schemas, *r, v),
        ValidatorExpr::Or(l, r) => applicable(schemas, *l, v) && applicable(schemas, *r, v),
        ValidatorExpr::Elements(inner) => v matches DynValue::List(es) && (forall|k: int|
            0 <= k < es@.len() ==> applicable(schemas, *inner, #[trigger] es@[k])),
        ValidatorExpr::Tuple(cs) => v matches DynValue::List(es) && es@.len() == cs@.len()
            && (forall|k: int|
            0 <= k < es@.len() ==> applicable(schemas, cs@[k], #[trigger] es@[k])),
        ValidatorExpr::Ignore => true,
        ValidatorExpr::Default => match v {
            DynValue::Text(_) => false,
            DynValue::List(es) => forall|k: int|
                0 <= k < es@.len() ==> applicable(schemas, ValidatorExpr::Default, #[trigger] es@[k]),
            DynValue::Record(i, fields) => {
                &&& i < schemas.len()
                &&& schemas[i as int] matches Schema::Record(ms)
                &&& members_applicable(schemas, ms@, fields@)
            },
            DynValue::Union(i, j, payload) => {
                &&& i < schemas.len()
                &&& schemas[i as int] matches Schema::Union(vs)
                &&& j < vs@.len()
                &&& match vs@[j as int].members {
                    Option::None => payload@.len() == 0,
                    Option::Some(ms) => members_applicable(schemas, ms@, payload@),
                }
            },
        },
    }
}

/// Whether each member's expression can be applied to the matching field.
pub open spec fn members_applicable(schemas: Seq<Schema>, ms: Seq<Member>, fields: Seq<DynValue>) -> bool
    decreases fields, ValidatorExpr::Ignore,
{
    &&& fields.len() == ms.len()
    &&& forall|k: int| 0 <= k < ms.len()
        ==> applicable(schemas, ms[k].expr, #[trigger] fields[k])
}

/// Whether a value passes an expression: the meaning of every combinator and
/// leaf, with `Default` delegating to the value's own schema.
pub open spec fn dyn_valid(schemas: Seq<Schema>, e: ValidatorExpr, v: DynValue) -> bool
    decreases v, e,
{
    match e {
        ValidatorExpr::NotEmpty => val_len(v) != 0,
        ValidatorExpr::Length { min, max } => length_valid(min, max, val_len(v)),
        ValidatorExpr::Email => v matches DynValue::Text(b) && email_result(b@) is None,
        ValidatorExpr::Url => v matches DynValue::Text(b) && url_accepts(b@),
        ValidatorExpr::IpAddr => v matches DynValue::Text(b) && is_ip_text(b@),
        ValidatorExpr::And(l, r) => dyn_valid(schemas, *l, v) && dyn_valid(schemas, *r, v),
        ValidatorExpr::Or(l, r) => dyn_valid(schemas, *l, v) || dyn_valid(schemas, *r, v),
        ValidatorExpr::Elements(inner) => v matches DynValue::List(es) && (forall|k: int|
            0 <= k < es@.len() ==> dyn_valid(schemas, *inner, #[trigger] es@[k])),
        ValidatorExpr::Tuple(cs) => v matches DynValue::List(es) && es@.len() == cs@.len()
            && (forall|k: int|
            0 <= k < es@.len() ==> dyn_valid(schemas, cs@[k], #[trigger] es@[k])),
        ValidatorExpr::Ignore => true,
        ValidatorExpr::Default => match v {
            DynValue::Text(_) => false,
            DynValue::List(es) => forall|k: int|
                0 <= k < es@.len() ==> dyn_valid(schemas, ValidatorExpr::Default, #[trigger] es@[k]),
            DynValue::Record(i, fields) => {
                &&& i < schemas.len()
                &&& schemas[i as int] matches Schema::Record(ms)
                &&& members_valid(schemas, ms@, fields@)
            },
            DynValue::Union(i, j, payload) => {
                &&& i < schemas.len()
                &&& schemas[i as int] matches Schema::Union(vs)
                &&& j < vs@.len()
                &&& match vs@[j as int].members {
                    Option::None => true,
                    Option::Some(ms) => members_valid(schemas, ms@, payload@),
                }
            },
        },
    }
}

/// Whether every field passes its member's expression.
pub open spec fn members_valid(schemas: Seq<Schema>, ms: Seq<Member>, fields: Seq<DynValue>) -> bool
    decreases fields, ValidatorExpr::Ignore,
{
    &&& fields.len() == ms.len()
    &&& forall|k: int| 0 <= k < ms.len()
        ==> dyn_valid(schemas, ms[k].expr, #[trigger] fields[k])
}

/// Whether `err` is exactly the failure that applying `e` to `v` reports.
pub open spec fn dyn_error_is(schemas: Seq<Schema>, e: ValidatorExpr, v: DynValue, err: DynError) -> bool
    decreases v, e,
{
    match e {
        ValidatorExpr::NotEmpty => err == DynError::Empty(EmptyValueError),
        ValidatorExpr::Length { min, max } => err matches DynError::Length(le)
            && length_error_is(min, max, val_len(v), le),
        ValidatorExpr::Email => v matches DynValue::Text(b) && err matches DynError::Email(ee)
            && email_result(b@) == Some(ee),
        ValidatorExpr::Url => err == DynError::Url(InvalidUrlError),
        ValidatorExpr::IpAddr => err == DynError::Ip(InvalidIpError),
        ValidatorExpr::And(l, r) => match err {
            DynError::AndLeft(le) => {
                &&& !dyn_valid(schemas, *l, v)
                &&& dyn_valid(schemas, *r, v)
                &&& dyn_error_is(schemas, *l, v, *le)
            },
            DynError::AndRight(re) => {
                &&& dyn_valid(schemas, *l, v)
                &&& !dyn_valid(schemas, *r, v)
                &&& dyn_error_is(schemas, *r, v, *re)
            },
            DynError::AndBoth(le, re) => {
                &&& !dyn_valid(schemas, *l, v)
                &&& !dyn_valid(schemas, *r, v)
                &&& dyn_error_is(schemas, *l, v, *le)
                &&& dyn_error_is(schemas, *r, v, *re)
            },
            _ => false,
        },
        ValidatorExpr::Or(l, r) => {
            &&& err matches DynError::OrBoth(le, re)
            &&& !dyn_valid(schemas, *l, v)
            &&& !dyn_valid(schemas, *r, v)
            &&& dyn_error_is(schemas, *l, v, *le)
            &&& dyn_error_is(schemas, *r, v, *re)
        },
        ValidatorExpr::Elements(inner) => {
            &&& v matches DynValue::List(es)
            &&& err matches DynError::Elements(slots)
            &&& slots@.len() == es@.len()
            &&& forall|k: int| 0 <= k < es@.len()
                ==> ((#[trigger] slots@[k]) is Some <==> !dyn_valid(schemas, *inner, es@[k]))
            &&& forall|k: int| 0 <= k < es@.len()
                ==> ((#[trigger] slots@[k]) matches Some(se)
                    ==> dyn_error_is(schemas, *inner, es@[k], se))
        },
        ValidatorExpr::Tuple(cs) => {
            &&& v matches DynValue::List(es)
            &&& es@.len() == cs@.len()
            &&& err matches DynError::Tuple(slots)
            &&& slots@.len() == es@.len()
            &&& forall|k: int| 0 <= k < es@.len()
                ==> ((#[trigger] slots@[k]) is Some <==> !dyn_valid(schemas, cs@[k], es@[k]))
            &&& forall|k: int| 0 <= k < es@.len()
                ==> ((#[trigger] slots@[k]) matches Some(se)
                    ==> dyn_error_is(schemas, cs@[k], es@[k], se))
        },
        ValidatorExpr::Ignore => false,
        ValidatorExpr::Default => match v {
            DynValue::Text(_) => false,
            DynValue::List(es) => {
                &&& err matches DynError::Elements(slots)
                &&& slots@.len() == es@.len()
                &&& forall|k: int| 0 <= k < es@.len()
                    ==> ((#[trigger] slots@[k]) is Some
                        <==> !dyn_valid(schemas, ValidatorExpr::Default, es@[k]))
                &&& forall|k: int| 0 <= k < es@.len()
                    ==> ((#[trigger] slots@[k]) matches Some(se)
                        ==> dyn_error_is(schemas, ValidatorExpr::Default, es@[k], se))
            },
            DynValue::Record(i, fields) => {
                &&& i < schemas.len()
                &&& schemas[i as int] matches Schema::Record(ms)
                &&& err matches DynError::Record(slots)
                &&& member_slots_ok(schemas, ms@, fields@, slots@)
            },
            DynValue::Union(i, j, payload) => {
                &&& i < schemas.len()
                &&& schemas[i as int] matches Schema::Union(vs)
                &&& j < vs@.len()
                &&& vs@[j as int].members matches Some(ms)
                &&& err matches DynError::Union(je, slots)
                &&& je == j
                &&& member_slots_ok(schemas, ms@, payload@, slots@)
            },
        },
    }
}

/// An aggregate failure over members: one optional slot per member, slot `k`
/// present exactly when field `k` fails, holding exactly that failure.
pub open spec fn member_slots_ok(
    schemas: Seq<Schema>,
    ms: Seq<Member>,
    fields: Seq<DynValue>,
    slots: Seq<Option<DynError>>,
) -> bool
    decreases fields, ValidatorExpr::Ignore,
{
    &&& fields.len() == ms.len()
    &&& slots.len() == ms.len()
    &&& forall|k: int| 0 <= k < ms.len()
        ==> ((#[trigger] slots[k]) is Some <==> !dyn_valid(schemas, ms[k].expr, fields[k]))
    &&& forall|k: int| 0 <= k < ms.len()
        ==> ((#[trigger] slots[k]) matches Some(se) ==> dyn_error_is(schemas, ms[k].expr, fields[k], se))
}

/// Validates every element of a list against one expression; all elements are
/// always checked, and a failure has one optional slot per element.
fn eval_elements(schemas: &Vec<Schema>, inner: &ValidatorExpr, es: &Vec<DynValue>) -> (r: Result<
    (),
    Vec<Option<DynError>>,
>)
    requires
        forall|k: int| 0 <= k < es@.len() ==> applicable(schemas@, *inner, #[trigger] es@[k]),
    ensures
        r is Ok <==> (forall|k: int| 0 <= k < es@.len()
            ==> dyn_valid(schemas@, *inner, #[trigger] es@[k])),
        r matches Err(slots) ==> {
            &&& slots@.len() == es@.len()
            &&& forall|k: int| 0 <= k < es@.len()
                ==> ((#[trigger] slots@[k]) is Some <==> !dyn_valid(schemas@, *inner, es@[k]))
            &&& forall|k: int| 0 <= k < es@.len()
                ==> ((#[trigger] slots@[k]) matches Some(se)
                    ==> dyn_error_is(schemas@, *inner, es@[k], se))
        },
    decreases es@, *inner,
{
    let n = es.len();
    let mut slots: Vec<Option<DynError>> = Vec::new();
    let mut any_failed = false;
    let mut i: usize = 0;
    while i < n
        invariant
            n == es@.len(),
            i <= n,
            slots@.len() == i,
            forall|k: int| 0 <= k < es@.len() ==> applicable(schemas@, *inner, #[trigger] es@[k]),
            forall|j: int| 0 <= j < i
                ==> ((#[trigger] slots@[j]) is Some <==> !dyn_valid(schemas@, *inner, es@[j])),
            forall|j: int| 0 <= j < i
                ==> ((#[trigger] slots@[j]) matches Some(se)
                    ==> dyn_error_is(schemas@, *inner, es@[j], se)),
            any_failed <==> exists|j: int| 0 <= j < i && (#[trigger] slots@[j]) is Some,
        decreases n - i,
    {
        let ghost prev = slots@;
        let ghost was_failed = any_failed;
        proof {
            assert(decreases_to!(es@ => es@[i as int]));
        }
        match eval(schemas, inner, &es[i]) {
            Ok(()) => slots.push(None),
            Err(err) => {
                any_failed = true;
                slots.push(Some(err));
            },
        }
        proof {
            assert(forall|j: int| 0 <= j < i ==> slots@[j] == prev[j]);
            assert(slots@[i as int] is Some <==> !dyn_valid(schemas@, *inner, es@[i as int]));
            if was_failed {
                let j = choose|j: int| 0 <= j < i && (#[trigger] prev[j]) is Some;
                assert(slots@[j] is Some);
            }
        }
        i = i + 1;
    }
    if any_failed {
        proof {
            let j = choose|j: int| 0 <= j < n && (#[trigger] slots@[j]) is Some;
            assert(!dyn_valid(schemas@, *inner, es@[j]));
        }
        Err(slots)
    } else {
        proof {
            assert forall|k: int| 0 <= k < es@.len() implies
                dyn_valid(schemas@, *inner, #[trigger] es@[k]) by {
                assert(!(slots@[k] is Some));
            }
        }
        Ok(())
    }
}

/// Validates every member of a record or variant payload unconditionally; a
/// failure has one optional slot per member.
fn validate_members(schemas: &Vec<Schema>, ms: &Vec<Member>, fields: &Vec<DynValue>) -> (r: Result<
    (),
    Vec<Option<DynError>>,
>)
    requires
        members_applicable(schemas@, ms@, fields@),
    ensures
        r is Ok <==> members_valid(schemas@, ms@, fields@),
        r matches Err(slots) ==> member_slots_ok(schemas@, ms@, fields@, slots@),
    decreases fields@, ValidatorExpr::Ignore,
{
    let n = ms.len();
    let mut slots: Vec<Option<DynError>> = Vec::new();
    let mut any_failed = false;
    let mut i: usize = 0;
    while i < n
        invariant
            n == ms@.len(),
            fields@.len() == ms@.len(),
            i <= n,
            slots@.len() == i,
            members_applicable(schemas@, ms@, fields@),
            forall|j: int| 0 <= j < i
                ==> ((#[trigger] slots@[j]) is Some
                    <==> !dyn_valid(schemas@, ms@[j].expr, fields@[j])),
            forall|j: int| 0 <= j < i
                ==> ((#[trigger] slots@[j]) matches Some(se)
                    ==> dyn_error_is(schemas@, ms@[j].expr, fields@[j], se)),
            any_failed <==> exists|j: int| 0 <= j < i && (#[trigger] slots@[j]) is Some,
        decreases n - i,
    {
        let ghost prev = slots@;
        let ghost was_failed = any_failed;
        proof {
            assert(applicable(schemas@, ms@[i as int].expr, fields@[i as int]));
            assert(decreases_to!(fields@ => fields@[i as int]));
        }
        match eval(schemas, &ms[i].expr, &fields[i]) {
            Ok(()) => slots.push(None),
            Err(err) => {
                any_failed = true;
                slots.push(Some(err));
            },
        }
        proof {
            assert(forall|j: int| 0 <= j < i ==> slots@[j] == prev[j]);
            assert(slots@[i as int] is Some <==> !dyn_valid(schemas@, ms@[i as int].expr, fields@[i as int]));
            if was_failed {
                let j = choose|j: int| 0 <= j < i && (#[trigger] prev[j]) is Some;
                assert(slots@[j] is Some);
            }
        }
        i = i + 1;
    }
    if any_failed {
        proof {
            let j = choose|j: int| 0 <= j < n && (#[trigger] slots@[j]) is Some;
            assert(!dyn_valid(schemas@, ms@[j].expr, fields@[j]));
        }
        Err(slots)
    } else {
        proof {
            assert forall|k: int| 0 <= k < ms@.len() implies
                dyn_valid(schemas@, ms@[k].expr, #[trigger] fields@[k]) by {
                assert(!(slots@[k] is Some));
            }
        }
        Ok(())
    }
}

/// Validates every position of a fixed-arity sequence against the matching
/// child expression; all positions are always checked.
fn eval_tuple(schemas: &Vec<Schema>, cs: &Vec<ValidatorExpr>, es: &Vec<DynValue>) -> (r: Result<
    (),
    Vec<Option<DynError>>,
>)
    requires
        es@.len() == cs@.len(),
        forall|k: int| 0 <= k < es@.len() ==> applicable(schemas@, cs@[k], #[trigger] es@[k]),
    ensures
        r is Ok <==> (forall|k: int| 0 <= k < es@.len()
            ==> dyn_valid(schemas@, cs@[k], #[trigger] es@[k])),
        r matches Err(slots) ==> {
            &&& slots@.len() == es@.len()
            &&& forall|k: int| 0 <= k < es@.len()
                ==> ((#[trigger] slots@[k]) is Some <==> !dyn_valid(schemas@, cs@[k], es@[k]))
            &&& forall|k: int| 0 <= k < es@.len()
                ==> ((#[trigger] slots@[k]) matches Some(se)
                    ==> dyn_error_is(schemas@, cs@[k], es@[k], se))
        },
    decreases es@, ValidatorExpr::Ignore,
{
    let n = es.len();
    let mut slots: Vec<Option<DynError>> = Vec::new();
    let mut any_failed = false;
    let mut i: usize = 0;
    while i < n
        invariant
            n == es@.len(),
            es@.len() == cs@.len(),
            i <= n,
            slots@.len() == i,
            forall|k: int| 0 <= k < es@.len() ==> applicable(schemas@, cs@[k], #[trigger] es@[k]),
            forall|j: int| 0 <= j < i
                ==> ((#[trigger] slots@[j]) is Some <==> !dyn_valid(schemas@, cs@[j], es@[j])),
            forall|j: int| 0 <= j < i
                ==> ((#[trigger] slots@[j]) matches Some(se)
                    ==> dyn_error_is(schemas@, cs@[j], es@[j], se)),
            any_failed <==> exists|j: int| 0 <= j < i && (#[trigger] slots@[j]) is Some,
        decreases n - i,
    {
        let ghost prev = slots@;
        let ghost was_failed = any_failed;
        proof {
            assert(decreases_to!(es@ => es@[i as int]));
        }
        match eval(schemas, &cs[i], &es[i]) {
            Ok(()) => slots.push(None),
            Err(err) => {
                any_failed = true;
                slots.push(Some(err));
            },
        }
        proof {
            assert(forall|j: int| 0 <= j < i ==> slots@[j] == prev[j]);
            assert(slots@[i as int] is Some <==> !dyn_valid(schemas@, cs@[i as int], es@[i as int]));
            if was_failed {
                let j = choose|j: int| 0 <= j < i && (#[trigger] prev[j]) is Some;
                assert(slots@[j] is Some);
            }
        }
        i = i + 1;
    }
    if any_failed {
        proof {
            let j = choose|j: int| 0 <= j < n && (#[trigger] slots@[j]) is Some;
            assert(!dyn_valid(schemas@, cs@[j], es@[j]));
        }
        Err(slots)
    } else {
        proof {
            assert forall|k: int| 0 <= k < es@.len() implies
                dyn_valid(schemas@, cs@[k], #[trigger] es@[k]) by {
                assert(!(slots@[k] is Some));
            }
        }
        Ok(())
    }
}

/// Applies a validator expression to a value: one dispatcher interprets every
/// combinator, calling the leaf validators and delegating `Default` to the
/// value's own schema.
pub fn eval(schemas: &Vec<Schema>, e: &ValidatorExpr, v: &DynValue) -> (r: Result<(), DynError>)
    requires
        applicable(schemas@, *e, *v),
    ensures
        r is Ok <==> dyn_valid(schemas@, *e, *v),
        r matches Err(err) ==> dyn_error_is(schemas@, *e, *v, err),
    decreases *v, *e,
{
    match e {
        ValidatorExpr::NotEmpty => {
            let res = match v {
                DynValue::Text(b) => NotEmptyValidator.validate(b),
                DynValue::List(es) => NotEmptyValidator.validate(es),
                _ => unreached(),
            };
            match res {
                Ok(()) => Ok(()),
                Err(err) => Err(DynError::Empty(err)),
            }
        },
        ValidatorExpr::Length { min, max } => {
            let checker = LengthValidator(*min, *max);
            let res = match v {
                DynValue::Text(b) => checker.validate(b),
                DynValue::List(es) => checker.validate(es),
                _ => unreached(),
            };
            match res {
                Ok(()) => Ok(()),
                Err(err) => Err(DynError::Length(err)),
            }
        },
        ValidatorExpr::Email => match v {
            DynValue::Text(b) => match EmailValidator.validate(b) {
                Ok(()) => Ok(()),
                Err(err) => Err(DynError::Email(err)),
            },
            _ => unreached(),
        },
        ValidatorExpr::Url => match v {
            DynValue::Text(b) => match UrlValidator.validate(b) {
                Ok(()) => Ok(()),
                Err(err) => Err(DynError::Url(err)),
            },
            _ => unreached(),
        },
        ValidatorExpr::IpAddr => match v {
            DynValue::Text(b) => match IpAddressValidator.validate(b) {
                Ok(()) => Ok(()),
                Err(err) => Err(DynError::Ip(err)),
            },
            _ => unreached(),
        },
        ValidatorExpr::And(l, r) => {
            let left = eval(schemas, &**l, v);
            let right = eval(schemas, &**r, v);
            match (left, right) {
                (Ok(()), Ok(())) => Ok(()),
                (Err(le), Ok(())) => Err(DynError::AndLeft(Box::new(le))),
                (Ok(()), Err(re)) => Err(DynError::AndRight(Box::new(re))),
                (Err(le), Err(re)) => Err(DynError::AndBoth(Box::new(le), Box::new(re))),
            }
        },
        ValidatorExpr::Or(l, r) => {
            let le = match eval(schemas, &**l, v) {
                Ok(()) => return Ok(()),
                Err(le) => le,
            };
            let re = match eval(schemas, &**r, v) {
                Ok(()) => return Ok(()),
                Err(re) => re,
            };
            Err(DynError::OrBoth(Box::new(le), Box::new(re)))
        },
        ValidatorExpr::Elements(inner) => match v {
            DynValue::List(es) => match eval_elements(schemas, &**inner, es) {
                Ok(()) => Ok(()),
                Err(slots) => Err(DynError::Elements(slots)),
            },
            _ => unreached(),
        },
        ValidatorExpr::Tuple(cs) => match v {
            DynValue::List(es) => match eval_tuple(schemas, cs, es) {
                Ok(()) => Ok(()),
                Err(slots) => Err(DynError::Tuple(slots)),
            },
            _ => unreached(),
        },
        ValidatorExpr::Ignore => Ok(()),
        ValidatorExpr::Default => match v {
            DynValue::Text(_) => unreached(),
            DynValue::List(es) => match eval_elements(schemas, e, es) {
                Ok(()) => Ok(()),
                Err(slots) => Err(DynError::Elements(slots)),
            },
            DynValue::Record(i, fields) => {
                let schema = &schemas[*i];
                match schema {
                    Schema::Record(ms) => match validate_members(schemas, ms, fields) {
                        Ok(()) => Ok(()),
                        Err(slots) => Err(DynError::Record(slots)),
                    },
                    _ => unreached(),
                }
            },
            DynValue::Union(i, j, payload) => {
                let schema = &schemas[*i];
                match schema {
                    Schema::Union(vs) => {
                        let variant = &vs[*j];
                        match &variant.members {
                            Option::None => Ok(()),
                            Option::Some(ms) => match validate_members(schemas, ms, payload) {
                                Ok(()) => Ok(()),
                                Err(slots) => Err(DynError::Union(*j, slots)),
                            },
                        }
                    },
                    _ => unreached(),
                }
            },
        },
    }
}

/// The validate operation the generator emits for a schema instance: the
/// value is checked against its own schema, every member unconditionally.
pub fn validate_schema_value(schemas: &Vec<Schema>, v: &DynValue) -> (r: Result<(), DynError>)
    requires
        applicable(schemas@, ValidatorExpr::Default, *v),
    ensures
        r is Ok <==> dyn_valid(schemas@, ValidatorExpr::Default, *v),
        r matches Err(err) ==> dyn_error_is(schemas@, ValidatorExpr::Default, *v, err),
{
    let root = ValidatorExpr::Default;
    eval(schemas, &root, v)
}

/// A data-less tagged-union case always validates successfully, whatever
/// validator expressions stand on the union's other cases.
pub proof fn lemma_dataless_variant_always_valid(schemas: Seq<Schema>, v: DynValue)
    requires
        ({
            &&& v matches DynValue::Union(i, j, payload)
            &&& i < schemas.len()
            &&& schemas[i as int] matches Schema::Union(vs)
            &&& j < vs@.len()
            &&& vs@[j as int].members is None
        }),
    ensures
        dyn_valid(schemas, ValidatorExpr::Default, v),
{
}

/// A union failure can only name a variant that carries members: no failure
/// exists for a data-less case.
pub proof fn lemma_union_error_names_data_variant(schemas: Seq<Schema>, v: DynValue, err: DynError)
    requires
        v matches DynValue::Union(..),
        dyn_error_is(schemas, ValidatorExpr::Default, v, err),
    ensures
        v matches DynValue::Union(i, j, payload) ==> ({
            &&& err matches DynError::Union(je, slots)
            &&& je == j
            &&& schemas[i as int] matches Schema::Union(vs)
            &&& vs@[j as int].members is Some
        }),
{
}

/// A record failure aggregate has exactly one optional slot per member, slot
/// `k` present exactly when member `k` failed, and the record validates
/// successfully exactly when every slot is absent.
pub proof fn lemma_record_aggregate(
    schemas: Seq<Schema>,
    ms: Seq<Member>,
    fields: Seq<DynValue>,
    slots: Seq<Option<DynError>>,
)
    requires
        member_slots_ok(schemas, ms, fields, slots),
    ensures
        slots.len() == ms.len(),
        forall|k: int| 0 <= k < ms.len()
            ==> ((#[trigger] slots[k]) is Some <==> !dyn_valid(schemas, ms[k].expr, fields[k])),
        members_valid(schemas, ms, fields) <==> (forall|k: int|
            0 <= k < slots.len() ==> (#[trigger] slots[k]) is None),
{
    if forall|k: int| 0 <= k < slots.len() ==> (#[trigger] slots[k]) is None {
        assert forall|k: int| 0 <= k < ms.len() implies
            dyn_valid(schemas, ms[k].expr, #[trigger] fields[k]) by {
            assert(!(slots[k] is Some));
        }
    }
}

/// A tuple of arity `n` checks all `n` positions unconditionally and its
/// failure has exactly `n` optional slots, however many positions failed.
pub proof fn lemma_tuple_aggregate(schemas: Seq<Schema>, e: ValidatorExpr, v: DynValue, err: DynError)
    requires
        e matches ValidatorExpr::Tuple(cs),
        dyn_error_is(schemas, e, v, err),
    ensures
        e matches ValidatorExpr::Tuple(cs) ==> (err matches DynError::Tuple(slots)
            && v matches DynValue::List(es) && slots@.len() == cs@.len()
            && forall|k: int| 0 <= k < cs@.len()
                ==> ((#[trigger] slots@[k]) is Some <==> !dyn_valid(schemas, cs@[k], es@[k]))),
{
}

/// An element-wise failure over a sequence of length `n` has exactly `n`
/// optional slots, slot `k` present exactly when element `k` failed; an empty
/// sequence always validates.
pub proof fn lemma_elements_aggregate(schemas: Seq<Schema>, e: ValidatorExpr, v: DynValue, err: DynError)
    requires
        e matches ValidatorExpr::Elements(inner),
    ensures
        v matches DynValue::List(es) && es@.len() == 0 ==> dyn_valid(schemas, e, v),
        dyn_error_is(schemas, e, v, err) ==> (e matches ValidatorExpr::Elements(inner)
            ==> (err matches DynError::Elements(slots) && v matches DynValue::List(es)
                && slots@.len() == es@.len()
                && forall|k: int| 0 <= k < es@.len()
                    ==> ((#[trigger] slots@[k]) is Some <==> !dyn_valid(schemas, *inner, es@[k])))),
{
}

} // verus!
