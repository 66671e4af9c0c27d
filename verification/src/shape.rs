use vstd::prelude::*;
use crate::expr::{ValidatorExpr, expr_wf};
use crate::schema::{TypeRef, Member, Variant, Schema, DynValue, DynError, applicable,
    members_applicable, dyn_valid, members_valid, dyn_error_is, member_slots_ok};

verus! {

/// Whether a declared type exposes its own validate capability: a schema
/// instance does, and a collection of capable values does element-wise.
pub open spec fn validate_capable(ty: TypeRef) -> bool
    decreases ty,
{
    match ty {
        TypeRef::SchemaRef(_) => true,
        TypeRef::ListOf(t) => validate_capable(*t),
        _ => false,
    }
}

/// Whether an expression is compatible with a declared value type: leaves
/// read what the type offers, `Elements` needs a collection, `Tuple` a
/// matching fixed-arity sequence, and `Default` a type with its own validate
/// capability.
pub open spec fn compat(e: ValidatorExpr, ty: TypeRef) -> bool
    decreases e,
{
    match e {
        ValidatorExpr::NotEmpty => ty is Text || ty is ListOf,
        ValidatorExpr::Length { min, max } => ty is Text || ty is ListOf,
        ValidatorExpr::Email => ty is Text,
        ValidatorExpr::Url => ty is Text,
        ValidatorExpr::IpAddr => ty is Text,
        ValidatorExpr::And(l, r) => compat(*l, ty) && compat(*r, ty),
        ValidatorExpr::Or(l, r) => compat(*l, ty) && compat(*r, ty),
        ValidatorExpr::Elements(inner) => ty matches TypeRef::ListOf(t) && compat(*inner, *t),
        ValidatorExpr::Tuple(cs) => ty matches TypeRef::TupleOf(ts) && cs@.len() == ts@.len()
            && (forall|k: int| 0 <= k < cs@.len() ==> compat(#[trigger] cs@[k], ts@[k])),
        ValidatorExpr::Ignore => true,
        ValidatorExpr::Default => validate_capable(ty),
    }
}

/// Whether a value is of a declared type.
pub open spec fn has_type(schemas: Seq<Schema>, v: DynValue, ty: TypeRef) -> bool
    decreases v, ty,
{
    match ty {
        TypeRef::Text => v is Text,
        TypeRef::ListOf(t) => v matches DynValue::List(es) && (forall|k: int|
            0 <= k < es@.len() ==> has_type(schemas, #[trigger] es@[k], *t)),
        TypeRef::TupleOf(ts) => v matches DynValue::List(es) && es@.len() == ts@.len()
            && (forall|k: int| 0 <= k < es@.len() ==> has_type(schemas, #[trigger] es@[k], ts@[k])),
        TypeRef::SchemaRef(i) => i < schemas.len() && match schemas[i as int] {
            Schema::Record(ms) => {
                &&& v matches DynValue::Record(i2, fields)
                &&& i2 == i
                &&& fields@.len() == ms@.len()
                &&& forall|k: int| 0 <= k < ms@.len()
                    ==> has_type(schemas, #[trigger] fields@[k], ms@[k].ty)
            },
            Schema::Union(vs) => {
                &&& v matches DynValue::Union(i2, j, payload)
                &&& i2 == i
                &&& j < vs@.len()
                &&& match vs@[j as int].members {
                    Option::None => payload@.len() == 0,
                    Option::Some(ms) => payload@.len() == ms@.len() && (forall|k: int|
                        0 <= k < ms@.len() ==> has_type(schemas, #[trigger] payload@[k], ms@[k].ty)),
                }
            },
        },
    }
}

/// A well-formed member: its expression is well formed and compatible with
/// its declared type.
pub open spec fn member_wf(m: Member) -> bool {
    expr_wf(m.expr) && compat(m.expr, m.ty)
}

pub open spec fn variant_wf(v: Variant) -> bool {
    match v.members {
        Option::None => true,
        Option::Some(ms) => forall|k: int| 0 <= k < ms@.len() ==> member_wf(#[trigger] ms@[k]),
    }
}

pub open spec fn schema_wf(s: Schema) -> bool {
    match s {
        Schema::Record(ms) => forall|k: int| 0 <= k < ms@.len() ==> member_wf(#[trigger] ms@[k]),
        Schema::Union(vs) => forall|j: int| 0 <= j < vs@.len() ==> variant_wf(#[trigger] vs@[j]),
    }
}

pub open spec fn schemas_wf(schemas: Seq<Schema>) -> bool {
    forall|i: int| 0 <= i < schemas.len() ==> schema_wf(#[trigger] schemas[i])
}

/// The mathematical mirror of a type reference, with sequences for children.
pub enum GTypeRef {
    Text,
    ListOf(Box<GTypeRef>),
    TupleOf(Seq<GTypeRef>),
    SchemaRef(usize),
}

/// The mathematical value of a type reference.
pub open spec fn ty_view(ty: TypeRef) -> GTypeRef
    decreases ty,
{
    match ty {
        TypeRef::Text => GTypeRef::Text,
        TypeRef::ListOf(t) => GTypeRef::ListOf(Box::new(ty_view(*t))),
        TypeRef::TupleOf(ts) => GTypeRef::TupleOf(ty_views(ts@)),
        TypeRef::SchemaRef(i) => GTypeRef::SchemaRef(i),
    }
}

pub open spec fn ty_views(ts: Seq<TypeRef>) -> Seq<GTypeRef>
    decreases ts,
{
    if ts.len() == 0 {
        Seq::empty()
    } else {
        seq![ty_view(ts[0])] + ty_views(ts.drop_first())
    }
}

/// A value of the declared type can be checked by any expression compatible
/// with that type: generation-time typing guarantees the dispatcher's
/// precondition.
pub proof fn lemma_well_typed_applicable(schemas: Seq<Schema>, e: ValidatorExpr, ty: TypeRef, v: DynValue)
    requires
        schemas_wf(schemas),
        compat(e, ty),
        has_type(schemas, v, ty),
    ensures
        applicable(schemas, e, v),
    decreases v, e,
{
    match e {
        ValidatorExpr::And(l, r) => {
            lemma_well_typed_applicable(schemas, *l, ty, v);
            lemma_well_typed_applicable(schemas, *r, ty, v);
        },
        ValidatorExpr::Or(l, r) => {
            lemma_well_typed_applicable(schemas, *l, ty, v);
            lemma_well_typed_applicable(schemas, *r, ty, v);
        },
        ValidatorExpr::Elements(inner) => {
            if let TypeRef::ListOf(t) = ty {
                if let DynValue::List(es) = v {
                    assert forall|k: int| 0 <= k < es@.len() implies
                        applicable(schemas, *inner, #[trigger] es@[k]) by {
                        lemma_well_typed_applicable(schemas, *inner, *t, es@[k]);
                    }
                }
            }
        },
        ValidatorExpr::Tuple(cs) => {
            if let TypeRef::TupleOf(ts) = ty {
                if let DynValue::List(es) = v {
                    assert forall|k: int| 0 <= k < es@.len() implies
                        applicable(schemas, cs@[k], #[trigger] es@[k]) by {
                        lemma_well_typed_applicable(schemas, cs@[k], ts@[k], es@[k]);
                    }
                }
            }
        },
        ValidatorExpr::Default => {
            match ty {
                TypeRef::Text => {},
                TypeRef::TupleOf(_) => {},
                TypeRef::ListOf(t) => {
                    if let DynValue::List(es) = v {
                        assert forall|k: int| 0 <= k < es@.len() implies
                            applicable(schemas, ValidatorExpr::Default, #[trigger] es@[k]) by {
                            lemma_well_typed_applicable(schemas, ValidatorExpr::Default, *t, es@[k]);
                        }
                    }
                },
                TypeRef::SchemaRef(si) => {
                    assert(schema_wf(schemas[si as int]));
                    match v {
                        DynValue::Record(i, fields) => {
                            if let Schema::Record(ms) = schemas[si as int] {
                                assert(fields@.len() == ms@.len());
                                assert forall|k: int| 0 <= k < ms@.len() implies
                                    applicable(schemas, ms@[k].expr, #[trigger] fields@[k]) by {
                                    assert(member_wf(ms@[k]));
                                    lemma_well_typed_applicable(schemas, ms@[k].expr, ms@[k].ty, fields@[k]);
                                }
                                assert(members_applicable(schemas, ms@, fields@));
                            }
                        },
                        DynValue::Union(i, j, payload) => {
                            if let Schema::Union(vs) = schemas[si as int] {
                                assert(variant_wf(vs@[j as int]));
                                if let Some(ms) = vs@[j as int].members {
                                    assert(payload@.len() == ms@.len());
                                    assert forall|k: int| 0 <= k < ms@.len() implies
                                        applicable(schemas, ms@[k].expr, #[trigger] payload@[k]) by {
                                        assert(member_wf(ms@[k]));
                                        lemma_well_typed_applicable(schemas, ms@[k].expr, ms@[k].ty, payload@[k]);
                                    }
                                    assert(members_applicable(schemas, ms@, payload@));
                                }
                            }
                        },
                        _ => {},
                    }
                },
            }
        },
        _ => {},
    }
}

/// The static shape of the validator instance an expression builds.
#[derive(Debug, PartialEq)]
#[verifier::ext_equal]
pub enum ValidatorShape {
    NotEmptyShape,
    EmailShape,
    UrlShape,
    IpShape,
    LengthShape,
    AndShape(Box<ValidatorShape>, Box<ValidatorShape>),
    OrShape(Box<ValidatorShape>, Box<ValidatorShape>),
    ElementsShape(Box<ValidatorShape>),
    TupleShape(Vec<ValidatorShape>),
    IgnoreShape,
    /// The declared type's own validator shape, by reference.
    DelegateShape(TypeRef),
}

/// The failure shape a validator produces when it fails.
#[derive(Debug, PartialEq)]
#[verifier::ext_equal]
pub enum ErrorShape {
    EmptyValueShape,
    EmailErrorShape,
    UrlErrorShape,
    IpErrorShape,
    LengthErrorShape,
    AndErrorShape(Box<ErrorShape>, Box<ErrorShape>),
    /// A disjunction's failure: both sub-errors.
    PairShape(Box<ErrorShape>, Box<ErrorShape>),
    ElementsErrorShape(Box<ErrorShape>),
    TupleErrorShape(Vec<ErrorShape>),
    /// A failure that can never be built.
    NeverShape,
    /// The declared type's own failure shape, by reference.
    DelegateErrorShape(TypeRef),
}

/// The mathematical mirrors of the shapes, with sequences for children.
pub enum GValidatorShape {
    NotEmptyShape,
    EmailShape,
    UrlShape,
    IpShape,
    LengthShape,
    AndShape(Box<GValidatorShape>, Box<GValidatorShape>),
    OrShape(Box<GValidatorShape>, Box<GValidatorShape>),
    ElementsShape(Box<GValidatorShape>),
    TupleShape(Seq<GValidatorShape>),
    IgnoreShape,
    DelegateShape(GTypeRef),
}

pub enum GErrorShape {
    EmptyValueShape,
    EmailErrorShape,
    UrlErrorShape,
    IpErrorShape,
    LengthErrorShape,
    AndErrorShape(Box<GErrorShape>, Box<GErrorShape>),
    PairShape(Box<GErrorShape>, Box<GErrorShape>),
    ElementsErrorShape(Box<GErrorShape>),
    TupleErrorShape(Seq<GErrorShape>),
    NeverShape,
    DelegateErrorShape(GTypeRef),
}

pub open spec fn abs_vshape(vs: ValidatorShape) -> GValidatorShape
    decreases vs,
{
    match vs {
        ValidatorShape::NotEmptyShape => GValidatorShape::NotEmptyShape,
        ValidatorShape::EmailShape => GValidatorShape::EmailShape,
        ValidatorShape::UrlShape => GValidatorShape::UrlShape,
        ValidatorShape::IpShape => GValidatorShape::IpShape,
        ValidatorShape::LengthShape => GValidatorShape::LengthShape,
        ValidatorShape::AndShape(a, b) => GValidatorShape::AndShape(
            Box::new(abs_vshape(*a)),
            Box::new(abs_vshape(*b)),
        ),
        ValidatorShape::OrShape(a, b) => GValidatorShape::OrShape(
            Box::new(abs_vshape(*a)),
            Box::new(abs_vshape(*b)),
        ),
        ValidatorShape::ElementsShape(a) => GValidatorShape::ElementsShape(Box::new(abs_vshape(*a))),
        ValidatorShape::TupleShape(ss) => GValidatorShape::TupleShape(abs_vshapes(ss@)),
        ValidatorShape::IgnoreShape => GValidatorShape::IgnoreShape,
        ValidatorShape::DelegateShape(t) => GValidatorShape::DelegateShape(ty_view(t)),
    }
}

pub open spec fn abs_vshapes(ss: Seq<ValidatorShape>) -> Seq<GValidatorShape>
    decreases ss,
{
    if ss.len() == 0 {
        Seq::empty()
    } else {
        seq![abs_vshape(ss[0])] + abs_vshapes(ss.drop_first())
    }
}

pub open spec fn abs_eshape(es: ErrorShape) -> GErrorShape
    decreases es,
{
    match es {
        ErrorShape::EmptyValueShape => GErrorShape::EmptyValueShape,
        ErrorShape::EmailErrorShape => GErrorShape::EmailErrorShape,
        ErrorShape::UrlErrorShape => GErrorShape::UrlErrorShape,
        ErrorShape::IpErrorShape => GErrorShape::IpErrorShape,
        ErrorShape::LengthErrorShape => GErrorShape::LengthErrorShape,
        ErrorShape::AndErrorShape(a, b) => GErrorShape::AndErrorShape(
            Box::new(abs_eshape(*a)),
            Box::new(abs_eshape(*b)),
        ),
        ErrorShape::PairShape(a, b) => GErrorShape::PairShape(
            Box::new(abs_eshape(*a)),
            Box::new(abs_eshape(*b)),
        ),
        ErrorShape::ElementsErrorShape(a) => GErrorShape::ElementsErrorShape(Box::new(abs_eshape(*a))),
        ErrorShape::TupleErrorShape(ss) => GErrorShape::TupleErrorShape(abs_eshapes(ss@)),
        ErrorShape::NeverShape => GErrorShape::NeverShape,
        ErrorShape::DelegateErrorShape(t) => GErrorShape::DelegateErrorShape(ty_view(t)),
    }
}

pub open spec fn abs_eshapes(ss: Seq<ErrorShape>) -> Seq<GErrorShape>
    decreases ss,
{
    if ss.len() == 0 {
        Seq::empty()
    } else {
        seq![abs_eshape(ss[0])] + abs_eshapes(ss.drop_first())
    }
}

/// The `Type` transform: the static shape of the validator instance built
/// from an expression against a declared value type.
pub open spec fn spec_validator_shape(e: ValidatorExpr, ty: TypeRef) -> GValidatorShape
    decreases e,
{
    match e {
        ValidatorExpr::NotEmpty => GValidatorShape::NotEmptyShape,
        ValidatorExpr::Email => GValidatorShape::EmailShape,
        ValidatorExpr::Url => GValidatorShape::UrlShape,
        ValidatorExpr::IpAddr => GValidatorShape::IpShape,
        ValidatorExpr::Length { min, max } => GValidatorShape::LengthShape,
        ValidatorExpr::And(l, r) => GValidatorShape::AndShape(
            Box::new(spec_validator_shape(*l, ty)),
            Box::new(spec_validator_shape(*r, ty)),
        ),
        ValidatorExpr::Or(l, r) => GValidatorShape::OrShape(
            Box::new(spec_validator_shape(*l, ty)),
            Box::new(spec_validator_shape(*r, ty)),
        ),
        ValidatorExpr::Elements(inner) => match ty {
            TypeRef::ListOf(t) => GValidatorShape::ElementsShape(
                Box::new(spec_validator_shape(*inner, *t)),
            ),
            _ => GValidatorShape::ElementsShape(
                Box::new(spec_validator_shape(*inner, TypeRef::Text)),
            ),
        },
        ValidatorExpr::Tuple(cs) => match ty {
            TypeRef::TupleOf(ts) => GValidatorShape::TupleShape(spec_validator_shapes(cs@, ts@)),
            _ => GValidatorShape::TupleShape(spec_validator_shapes(cs@, Seq::empty())),
        },
        ValidatorExpr::Ignore => GValidatorShape::IgnoreShape,
        ValidatorExpr::Default => GValidatorShape::DelegateShape(ty_view(ty)),
    }
}

pub open spec fn spec_validator_shapes(es: Seq<ValidatorExpr>, ts: Seq<TypeRef>) -> Seq<GValidatorShape>
    decreases es,
{
    if es.len() == 0 {
        Seq::empty()
    } else {
        let t = if ts.len() == 0 {
            TypeRef::Text
        } else {
            ts[0]
        };
        let ts_rest = if ts.len() == 0 {
            ts
        } else {
            ts.drop_first()
        };
        seq![spec_validator_shape(es[0], t)] + spec_validator_shapes(es.drop_first(), ts_rest)
    }
}

/// The `ErrorType` transform: the failure shape of the validator built from
/// an expression against a declared value type.
pub open spec fn spec_error_shape(e: ValidatorExpr, ty: TypeRef) -> GErrorShape
    decreases e,
{
    match e {
        ValidatorExpr::NotEmpty => GErrorShape::EmptyValueShape,
        ValidatorExpr::Email => GErrorShape::EmailErrorShape,
        ValidatorExpr::Url => GErrorShape::UrlErrorShape,
        ValidatorExpr::IpAddr => GErrorShape::IpErrorShape,
        ValidatorExpr::Length { min, max } => GErrorShape::LengthErrorShape,
        ValidatorExpr::And(l, r) => GErrorShape::AndErrorShape(
            Box::new(spec_error_shape(*l, ty)),
            Box::new(spec_error_shape(*r, ty)),
        ),
        ValidatorExpr::Or(l, r) => GErrorShape::PairShape(
            Box::new(spec_error_shape(*l, ty)),
            Box::new(spec_error_shape(*r, ty)),
        ),
        ValidatorExpr::Elements(inner) => match ty {
            TypeRef::ListOf(t) => GErrorShape::ElementsErrorShape(
                Box::new(spec_error_shape(*inner, *t)),
            ),
            _ => GErrorShape::ElementsErrorShape(Box::new(spec_error_shape(*inner, TypeRef::Text))),
        },
        ValidatorExpr::Tuple(cs) => match ty {
            TypeRef::TupleOf(ts) => GErrorShape::TupleErrorShape(spec_error_shapes(cs@, ts@)),
            _ => GErrorShape::TupleErrorShape(spec_error_shapes(cs@, Seq::empty())),
        },
        ValidatorExpr::Ignore => GErrorShape::NeverShape,
        ValidatorExpr::Default => GErrorShape::DelegateErrorShape(ty_view(ty)),
    }
}

pub open spec fn spec_error_shapes(es: Seq<ValidatorExpr>, ts: Seq<TypeRef>) -> Seq<GErrorShape>
    decreases es,
{
    if es.len() == 0 {
        Seq::empty()
    } else {
        let t = if ts.len() == 0 {
            TypeRef::Text
        } else {
            ts[0]
        };
        let ts_rest = if ts.len() == 0 {
            ts
        } else {
            ts.drop_first()
        };
        seq![spec_error_shape(es[0], t)] + spec_error_shapes(es.drop_first(), ts_rest)
    }
}

/// The validator value an expression denotes has exactly the shape the
/// `Type` transform gives it: constructor for constructor.
pub open spec fn expr_has_shape(e: ValidatorExpr, ty: TypeRef, vs: GValidatorShape) -> bool
    decreases e,
{
    match e {
        ValidatorExpr::NotEmpty => vs == GValidatorShape::NotEmptyShape,
        ValidatorExpr::Email => vs == GValidatorShape::EmailShape,
        ValidatorExpr::Url => vs == GValidatorShape::UrlShape,
        ValidatorExpr::IpAddr => vs == GValidatorShape::IpShape,
        ValidatorExpr::Length { min, max } => vs == GValidatorShape::LengthShape,
        ValidatorExpr::And(l, r) => vs matches GValidatorShape::AndShape(a, b)
            && expr_has_shape(*l, ty, *a) && expr_has_shape(*r, ty, *b),
        ValidatorExpr::Or(l, r) => vs matches GValidatorShape::OrShape(a, b)
            && expr_has_shape(*l, ty, *a) && expr_has_shape(*r, ty, *b),
        ValidatorExpr::Elements(inner) => vs matches GValidatorShape::ElementsShape(a)
            && (ty matches TypeRef::ListOf(t) ==> expr_has_shape(*inner, *t, *a)),
        ValidatorExpr::Tuple(cs) => vs matches GValidatorShape::TupleShape(ss)
            && ss.len() == cs@.len(),
        ValidatorExpr::Ignore => vs == GValidatorShape::IgnoreShape,
        ValidatorExpr::Default => vs == GValidatorShape::DelegateShape(ty_view(ty)),
    }
}

/// The two transforms are structurally isomorphic, node for node.
pub open spec fn shapes_mirror(vs: GValidatorShape, es: GErrorShape) -> bool
    decreases vs,
{
    match vs {
        GValidatorShape::NotEmptyShape => es == GErrorShape::EmptyValueShape,
        GValidatorShape::EmailShape => es == GErrorShape::EmailErrorShape,
        GValidatorShape::UrlShape => es == GErrorShape::UrlErrorShape,
        GValidatorShape::IpShape => es == GErrorShape::IpErrorShape,
        GValidatorShape::LengthShape => es == GErrorShape::LengthErrorShape,
        GValidatorShape::AndShape(a, b) => es matches GErrorShape::AndErrorShape(c, d)
            && shapes_mirror(*a, *c) && shapes_mirror(*b, *d),
        GValidatorShape::OrShape(a, b) => es matches GErrorShape::PairShape(c, d)
            && shapes_mirror(*a, *c) && shapes_mirror(*b, *d),
        GValidatorShape::ElementsShape(a) => es matches GErrorShape::ElementsErrorShape(c)
            && shapes_mirror(*a, *c),
        GValidatorShape::TupleShape(ss) => es matches GErrorShape::TupleErrorShape(tt)
            && tt.len() == ss.len() && (forall|k: int|
            0 <= k < ss.len() ==> shapes_mirror(#[trigger] ss[k], tt[k])),
        GValidatorShape::IgnoreShape => es == GErrorShape::NeverShape,
        GValidatorShape::DelegateShape(t) => es == GErrorShape::DelegateErrorShape(t),
    }
}

/// The three representations stay structurally isomorphic: the validator
/// value has the `Type` shape, and the `Type` and `ErrorType` shapes mirror
/// each other node for node.
pub proof fn lemma_shapes_isomorphic(e: ValidatorExpr, ty: TypeRef)
    ensures
        expr_has_shape(e, ty, spec_validator_shape(e, ty)),
        shapes_mirror(spec_validator_shape(e, ty), spec_error_shape(e, ty)),
    decreases e,
{
    match e {
        ValidatorExpr::And(l, r) => {
            lemma_shapes_isomorphic(*l, ty);
            lemma_shapes_isomorphic(*r, ty);
        },
        ValidatorExpr::Or(l, r) => {
            lemma_shapes_isomorphic(*l, ty);
            lemma_shapes_isomorphic(*r, ty);
        },
        ValidatorExpr::Elements(inner) => {
            match ty {
                TypeRef::ListOf(t) => lemma_shapes_isomorphic(*inner, *t),
                _ => lemma_shapes_isomorphic(*inner, TypeRef::Text),
            }
        },
        ValidatorExpr::Tuple(cs) => {
            match ty {
                TypeRef::TupleOf(ts) => lemma_shape_seqs_isomorphic(cs@, ts@),
                _ => lemma_shape_seqs_isomorphic(cs@, Seq::empty()),
            }
        },
        _ => {},
    }
}

pub proof fn lemma_shape_seqs_isomorphic(es: Seq<ValidatorExpr>, ts: Seq<TypeRef>)
    ensures
        spec_validator_shapes(es, ts).len() == es.len(),
        spec_error_shapes(es, ts).len() == es.len(),
        forall|k: int| 0 <= k < es.len() ==> shapes_mirror(
            #[trigger] spec_validator_shapes(es, ts)[k],
            spec_error_shapes(es, ts)[k],
        ),
    decreases es,
{
    if es.len() > 0 {
        let t = if ts.len() == 0 {
            TypeRef::Text
        } else {
            ts[0]
        };
        let ts_rest = if ts.len() == 0 {
            ts
        } else {
            ts.drop_first()
        };
        lemma_shapes_isomorphic(es[0], t);
        lemma_shape_seqs_isomorphic(es.drop_first(), ts_rest);
        assert forall|k: int| 0 <= k < es.len() implies shapes_mirror(
            #[trigger] spec_validator_shapes(es, ts)[k],
            spec_error_shapes(es, ts)[k],
        ) by {
            if k > 0 {
                assert(spec_validator_shapes(es, ts)[k]
                    == spec_validator_shapes(es.drop_first(), ts_rest)[k - 1]);
                assert(spec_error_shapes(es, ts)[k]
                    == spec_error_shapes(es.drop_first(), ts_rest)[k - 1]);
            }
        }
    }
}

/// Whether a runtime failure lies within a failure shape; behind a delegate
/// shape stands the declared type's own failure shape, where only a variant
/// that carries members has a case.
pub open spec fn error_fits(schemas: Seq<Schema>, err: DynError, es: GErrorShape) -> bool
    decreases err,
{
    match es {
        GErrorShape::EmptyValueShape => err matches DynError::Empty(_),
        GErrorShape::EmailErrorShape => err matches DynError::Email(_),
        GErrorShape::UrlErrorShape => err matches DynError::Url(_),
        GErrorShape::IpErrorShape => err matches DynError::Ip(_),
        GErrorShape::LengthErrorShape => err matches DynError::Length(_),
        GErrorShape::AndErrorShape(a, b) => match err {
            DynError::AndLeft(x) => error_fits(schemas, *x, *a),
            DynError::AndRight(y) => error_fits(schemas, *y, *b),
            DynError::AndBoth(x, y) => error_fits(schemas, *x, *a) && error_fits(schemas, *y, *b),
            _ => false,
        },
        GErrorShape::PairShape(a, b) => err matches DynError::OrBoth(x, y)
            && error_fits(schemas, *x, *a) && error_fits(schemas, *y, *b),
        GErrorShape::ElementsErrorShape(a) => err matches DynError::Elements(slots) && (forall|k: int|
            0 <= k < slots@.len() ==> ((#[trigger] slots@[k]) matches Some(se)
                ==> error_fits(schemas, se, *a))),
        GErrorShape::TupleErrorShape(ss) => err matches DynError::Tuple(slots)
            && slots@.len() == ss.len() && (forall|k: int|
            0 <= k < slots@.len() ==> ((#[trigger] slots@[k]) matches Some(se)
                ==> error_fits(schemas, se, ss[k]))),
        GErrorShape::NeverShape => false,
        GErrorShape::DelegateErrorShape(t) => match t {
            GTypeRef::Text => false,
            GTypeRef::TupleOf(_) => false,
            GTypeRef::ListOf(t2) => err matches DynError::Elements(slots) && (forall|k: int|
                0 <= k < slots@.len() ==> ((#[trigger] slots@[k]) matches Some(se)
                    ==> error_fits(schemas, se, GErrorShape::DelegateErrorShape(*t2)))),
            GTypeRef::SchemaRef(i) => i < schemas.len() && match schemas[i as int] {
                Schema::Record(ms) => {
                    &&& err matches DynError::Record(slots)
                    &&& slots@.len() == ms@.len()
                    &&& forall|k: int| 0 <= k < slots@.len()
                        ==> ((#[trigger] slots@[k]) matches Some(se)
                            ==> error_fits(schemas, se, spec_error_shape(ms@[k].expr, ms@[k].ty)))
                },
                Schema::Union(vs) => {
                    &&& err matches DynError::Union(j, slots)
                    &&& j < vs@.len()
                    &&& vs@[j as int].members matches Some(ms)
                    &&& slots@.len() == ms@.len()
                    &&& forall|k: int| 0 <= k < slots@.len()
                        ==> ((#[trigger] slots@[k]) matches Some(se)
                            ==> error_fits(schemas, se, spec_error_shape(ms@[k].expr, ms@[k].ty)))
                },
            },
        },
    }
}

/// The synthesizer's contract: on a well-typed value, the only failure mode
/// of the validator built from an expression is exactly the shape the
/// `ErrorType` transform gives it.
pub proof fn lemma_failure_fits_error_shape(
    schemas: Seq<Schema>,
    e: ValidatorExpr,
    ty: TypeRef,
    v: DynValue,
    err: DynError,
)
    requires
        schemas_wf(schemas),
        compat(e, ty),
        has_type(schemas, v, ty),
        dyn_error_is(schemas, e, v, err),
    ensures
        error_fits(schemas, err, spec_error_shape(e, ty)),
    decreases v, e,
{
    match e {
        ValidatorExpr::And(l, r) => {
            match err {
                DynError::AndLeft(x) => lemma_failure_fits_error_shape(schemas, *l, ty, v, *x),
                DynError::AndRight(y) => lemma_failure_fits_error_shape(schemas, *r, ty, v, *y),
                DynError::AndBoth(x, y) => {
                    lemma_failure_fits_error_shape(schemas, *l, ty, v, *x);
                    lemma_failure_fits_error_shape(schemas, *r, ty, v, *y);
                },
                _ => {},
            }
        },
        ValidatorExpr::Or(l, r) => {
            if let DynError::OrBoth(x, y) = err {
                lemma_failure_fits_error_shape(schemas, *l, ty, v, *x);
                lemma_failure_fits_error_shape(schemas, *r, ty, v, *y);
            }
        },
        ValidatorExpr::Elements(inner) => {
            if let TypeRef::ListOf(t) = ty {
                if let DynValue::List(es) = v {
                    if let DynError::Elements(slots) = err {
                        assert forall|k: int| 0 <= k < slots@.len() implies
                            ((#[trigger] slots@[k]) matches Some(se)
                                ==> error_fits(schemas, se, spec_error_shape(*inner, *t))) by {
                            if let Some(se) = slots@[k] {
                                assert(0 <= k < es@.len());
                                lemma_failure_fits_error_shape(schemas, *inner, *t, es@[k], se);
                            }
                        }
                    }
                }
            }
        },
        ValidatorExpr::Tuple(cs) => {
            if let TypeRef::TupleOf(ts) = ty {
                if let DynValue::List(es) = v {
                    if let DynError::Tuple(slots) = err {
                        lemma_shape_seqs_isomorphic(cs@, ts@);
                        assert forall|k: int| 0 <= k < slots@.len() implies
                            ((#[trigger] slots@[k]) matches Some(se)
                                ==> error_fits(schemas, se, spec_error_shapes(cs@, ts@)[k])) by {
                            if let Some(se) = slots@[k] {
                                assert(0 <= k < es@.len());
                                lemma_spec_error_shapes_index(cs@, ts@, k);
                                lemma_failure_fits_error_shape(schemas, cs@[k], ts@[k], es@[k], se);
                            }
                        }
                    }
                }
            }
        },
        ValidatorExpr::Default => {
            match ty {
                TypeRef::Text => {},
                TypeRef::TupleOf(_) => {},
                TypeRef::ListOf(t) => {
                    if let DynValue::List(es) = v {
                        if let DynError::Elements(slots) = err {
                            assert(slots@.len() == es@.len());
                            assert forall|k: int| 0 <= k < slots@.len() implies
                                ((#[trigger] slots@[k]) matches Some(se)
                                    ==> error_fits(schemas, se, GErrorShape::DelegateErrorShape(ty_view(*t)))) by {
                                if let Some(se) = slots@[k] {
                                    lemma_failure_fits_error_shape(
                                        schemas,
                                        ValidatorExpr::Default,
                                        *t,
                                        es@[k],
                                        se,
                                    );
                                }
                            }
                        }
                    }
                },
                TypeRef::SchemaRef(si) => {
                    assert(schema_wf(schemas[si as int]));
                    match v {
                        DynValue::Record(i, fields) => {
                            if let DynError::Record(slots) = err {
                                if let Schema::Record(ms) = schemas[si as int] {
                                    assert(i == si);
                                    assert(member_slots_ok(schemas, ms@, fields@, slots@));
                                    assert(slots@.len() == ms@.len());
                                    assert(fields@.len() == ms@.len());
                                    assert forall|k: int| 0 <= k < slots@.len() implies
                                        ((#[trigger] slots@[k]) matches Some(se)
                                            ==> error_fits(
                                            schemas,
                                            se,
                                            spec_error_shape(ms@[k].expr, ms@[k].ty),
                                        )) by {
                                        if let Some(se) = slots@[k] {
                                            assert(member_wf(ms@[k]));
                                            lemma_failure_fits_error_shape(
                                                schemas,
                                                ms@[k].expr,
                                                ms@[k].ty,
                                                fields@[k],
                                                se,
                                            );
                                        }
                                    }
                                }
                            }
                        },
                        DynValue::Union(i, j, payload) => {
                            if let DynError::Union(je, slots) = err {
                                if let Schema::Union(vs) = schemas[si as int] {
                                    assert(variant_wf(vs@[j as int]));
                                    if let Some(ms) = vs@[j as int].members {
                                        assert(i == si);
                                        assert(je == j);
                                        assert(member_slots_ok(schemas, ms@, payload@, slots@));
                                        assert(slots@.len() == ms@.len());
                                        assert(payload@.len() == ms@.len());
                                        assert forall|k: int| 0 <= k < slots@.len() implies
                                            ((#[trigger] slots@[k]) matches Some(se)
                                                ==> error_fits(
                                                schemas,
                                                se,
                                                spec_error_shape(ms@[k].expr, ms@[k].ty),
                                            )) by {
                                            if let Some(se) = slots@[k] {
                                                assert(member_wf(ms@[k]));
                                                lemma_failure_fits_error_shape(
                                                    schemas,
                                                    ms@[k].expr,
                                                    ms@[k].ty,
                                                    payload@[k],
                                                    se,
                                                );
                                            }
                                        }
                                    }
                                }
                            }
                        },
                        _ => {},
                    }
                },
            }
        },
        _ => {},
    }
}

pub proof fn lemma_spec_error_shapes_index(es: Seq<ValidatorExpr>, ts: Seq<TypeRef>, k: int)
    requires
        0 <= k < es.len(),
        es.len() == ts.len(),
    ensures
        spec_error_shapes(es, ts).len() == es.len(),
        spec_error_shapes(es, ts)[k] == spec_error_shape(es[k], ts[k]),
    decreases es,
{
    lemma_shape_seqs_isomorphic(es, ts);
    if k > 0 {
        lemma_spec_error_shapes_index(es.drop_first(), ts.drop_first(), k - 1);
    }
}

} // verus!
