use vstd::prelude::*;
use crate::expr::ValidatorExpr;
use crate::schema::{TypeRef, Member, Variant, Schema};
use crate::shape::{validate_capable, compat, member_wf, variant_wf, schema_wf, ty_view, ty_views,
    ValidatorShape, ErrorShape, abs_vshape, abs_eshape, abs_vshapes, abs_eshapes,
    spec_validator_shape, spec_error_shape, spec_validator_shapes, spec_error_shapes};
use crate::parse::{parse_validator_spec, ParseError, Parsed, SpecExpr, spec_parse, abs_expr, abs_exprs, to_nats};

verus! {

/// Whether a mathematical expression is compatible with a declared type;
/// mirrors `compat` on parsed values.
pub open spec fn g_compat(e: SpecExpr, ty: TypeRef) -> bool
    decreases e,
{
    match e {
        SpecExpr::NotEmpty => ty is Text || ty is ListOf,
        SpecExpr::Length { min, max } => ty is Text || ty is ListOf,
        SpecExpr::Email => ty is Text,
        SpecExpr::Url => ty is Text,
        SpecExpr::IpAddr => ty is Text,
        SpecExpr::And(l, r) => g_compat(*l, ty) && g_compat(*r, ty),
        SpecExpr::Or(l, r) => g_compat(*l, ty) && g_compat(*r, ty),
        SpecExpr::Elements(inner) => ty matches TypeRef::ListOf(t) && g_compat(*inner, *t),
        SpecExpr::Tuple(cs) => ty matches TypeRef::TupleOf(ts) && cs.len() == ts@.len()
            && (forall|k: int| 0 <= k < cs.len() ==> g_compat(#[trigger] cs[k], ts@[k])),
        SpecExpr::Ignore => true,
        SpecExpr::Default => validate_capable(ty),
    }
}

pub proof fn lemma_abs_exprs_index(es: Seq<ValidatorExpr>, k: int)
    requires
        0 <= k < es.len(),
    ensures
        abs_exprs(es).len() == es.len(),
        abs_exprs(es)[k] == abs_expr(es[k]),
    decreases es,
{
    lemma_abs_exprs_len(es);
    if k > 0 {
        lemma_abs_exprs_index(es.drop_first(), k - 1);
    }
}

pub proof fn lemma_abs_exprs_len(es: Seq<ValidatorExpr>)
    ensures
        abs_exprs(es).len() == es.len(),
    decreases es,
{
    if es.len() > 0 {
        lemma_abs_exprs_len(es.drop_first());
    }
}

/// Compatibility is the same judged on the expression tree or on its
/// mathematical value.
pub proof fn lemma_g_compat(e: ValidatorExpr, ty: TypeRef)
    ensures
        g_compat(abs_expr(e), ty) == compat(e, ty),
    decreases e,
{
    match e {
        ValidatorExpr::And(l, r) => {
            lemma_g_compat(*l, ty);
            lemma_g_compat(*r, ty);
        },
        ValidatorExpr::Or(l, r) => {
            lemma_g_compat(*l, ty);
            lemma_g_compat(*r, ty);
        },
        ValidatorExpr::Elements(inner) => {
            if let TypeRef::ListOf(t) = ty {
                lemma_g_compat(*inner, *t);
            }
        },
        ValidatorExpr::Tuple(cs) => {
            if let TypeRef::TupleOf(ts) = ty {
                lemma_abs_exprs_len(cs@);
                assert forall|k: int| 0 <= k < cs@.len() implies
                    g_compat(#[trigger] abs_exprs(cs@)[k], ts@[k]) == compat(cs@[k], ts@[k]) by {
                    lemma_abs_exprs_index(cs@, k);
                    lemma_g_compat(cs@[k], ts@[k]);
                }
                let gs = abs_exprs(cs@);
                assert(abs_expr(e) == SpecExpr::Tuple(gs));
                if forall|k: int| 0 <= k < cs@.len() ==> compat(#[trigger] cs@[k], ts@[k]) {
                    assert forall|k: int| 0 <= k < gs.len() implies
                        g_compat(#[trigger] gs[k], ts@[k]) by {
                        assert(compat(cs@[k], ts@[k]));
                    }
                }
                if forall|k: int| 0 <= k < gs.len() ==> g_compat(#[trigger] gs[k], ts@[k]) {
                    assert forall|k: int| 0 <= k < cs@.len() implies
                        compat(#[trigger] cs@[k], ts@[k]) by {
                        assert(g_compat(abs_exprs(cs@)[k], ts@[k]));
                    }
                }
            }
        },
        _ => {},
    }
}

/// Checks an expression against a declared type.
pub fn compat_check(e: &ValidatorExpr, ty: &TypeRef) -> (b: bool)
    ensures
        b == compat(*e, *ty),
    decreases *e, 0int,
{
    match e {
        ValidatorExpr::NotEmpty => matches!(ty, TypeRef::Text) || matches!(ty, TypeRef::ListOf(_)),
        ValidatorExpr::Length { min, max } => matches!(ty, TypeRef::Text) || matches!(
            ty,
            TypeRef::ListOf(_),
        ),
        ValidatorExpr::Email => matches!(ty, TypeRef::Text),
        ValidatorExpr::Url => matches!(ty, TypeRef::Text),
        ValidatorExpr::IpAddr => matches!(ty, TypeRef::Text),
        ValidatorExpr::And(l, r) => compat_check(&**l, ty) && compat_check(&**r, ty),
        ValidatorExpr::Or(l, r) => compat_check(&**l, ty) && compat_check(&**r, ty),
        ValidatorExpr::Elements(inner) => match ty {
            TypeRef::ListOf(t) => compat_check(&**inner, &**t),
            _ => false,
        },
        ValidatorExpr::Tuple(cs) => match ty {
            TypeRef::TupleOf(ts) => {
                if cs.len() != ts.len() {
                    return false;
                }
                compat_check_from(cs, ts, 0)
            },
            _ => false,
        },
        ValidatorExpr::Ignore => true,
        ValidatorExpr::Default => capable_check(ty),
    }
}

fn compat_check_from(cs: &Vec<ValidatorExpr>, ts: &Vec<TypeRef>, k: usize) -> (b: bool)
    requires
        k <= cs@.len(),
        cs@.len() == ts@.len(),
    ensures
        b == (forall|j: int| k <= j < cs@.len() ==> compat(#[trigger] cs@[j], ts@[j])),
    decreases cs@, cs@.len() - k,
{
    if k == cs.len() {
        true
    } else {
        let head = compat_check(&cs[k], &ts[k]);
        if !head {
            return false;
        }
        compat_check_from(cs, ts, k + 1)
    }
}

/// Checks that a declared type exposes its own validate capability.
pub fn capable_check(ty: &TypeRef) -> (b: bool)
    ensures
        b == validate_capable(*ty),
    decreases *ty,
{
    match ty {
        TypeRef::SchemaRef(_) => true,
        TypeRef::ListOf(t) => capable_check(&**t),
        _ => false,
    }
}

/// A copy of a type reference; it has the same mathematical value as the
/// original, which is all the shape transforms depend on.
pub fn clone_type_ref(ty: &TypeRef) -> (r: TypeRef)
    ensures
        ty_view(r) == ty_view(*ty),
    decreases *ty, 0int,
{
    match ty {
        TypeRef::Text => TypeRef::Text,
        TypeRef::ListOf(t) => {
            let inner = clone_type_ref(&**t);
            TypeRef::ListOf(Box::new(inner))
        },
        TypeRef::TupleOf(ts) => {
            let out = clone_type_refs_from(ts, 0);
            let ghost ov = out@;
            let r = TypeRef::TupleOf(out);
            proof {
                assert(ts@.skip(0) =~= ts@);
                lemma_ty_views_pointwise(ov, ts@);
            }
            r
        },
        TypeRef::SchemaRef(i) => TypeRef::SchemaRef(*i),
    }
}

proof fn lemma_ty_views_pointwise(a: Seq<TypeRef>, b: Seq<TypeRef>)
    requires
        a.len() == b.len(),
        forall|j: int| 0 <= j < a.len() ==> ty_view(#[trigger] a[j]) == ty_view(b[j]),
    ensures
        ty_views(a) == ty_views(b),
    decreases a,
{
    if a.len() > 0 {
        assert forall|j: int| 0 <= j < a.drop_first().len() implies
            ty_view(#[trigger] a.drop_first()[j]) == ty_view(b.drop_first()[j]) by {
            assert(ty_view(a[j + 1]) == ty_view(b[j + 1]));
        }
        lemma_ty_views_pointwise(a.drop_first(), b.drop_first());
    }
}

fn clone_type_refs_from(ts: &Vec<TypeRef>, k: usize) -> (out: Vec<TypeRef>)
    requires
        k <= ts@.len(),
    ensures
        out@.len() == ts@.len() - k,
        forall|j: int| 0 <= j < out@.len() ==> ty_view(#[trigger] out@[j]) == ty_view(
            ts@.skip(k as int)[j],
        ),
    decreases ts@, ts@.len() - k,
{
    if k == ts.len() {
        let out: Vec<TypeRef> = Vec::new();
        out
    } else {
        let head = clone_type_ref(&ts[k]);
        let rest = clone_type_refs_from(ts, k + 1);
        let ghost rest_view = rest@;
        let mut out = rest;
        out.insert(0, head);
        proof {
            assert(out@ =~= seq![head] + rest_view);
            assert forall|j: int| 0 <= j < out@.len() implies
                ty_view(#[trigger] out@[j]) == ty_view(ts@.skip(k as int)[j]) by {
                if j > 0 {
                    assert(ty_view(rest_view[j - 1]) == ty_view(ts@.skip(k as int + 1)[j - 1]));
                    assert(ts@.skip(k as int + 1)[j - 1] == ts@.skip(k as int)[j]);
                }
            }
        }
        out
    }
}

/// The `Type` transform: builds the static shape of the validator instance an
/// expression denotes against a declared type.
pub fn validator_shape(e: &ValidatorExpr, ty: &TypeRef) -> (vs: ValidatorShape)
    ensures
        abs_vshape(vs) == spec_validator_shape(*e, *ty),
    decreases *e, 0int,
{
    match e {
        ValidatorExpr::NotEmpty => ValidatorShape::NotEmptyShape,
        ValidatorExpr::Email => ValidatorShape::EmailShape,
        ValidatorExpr::Url => ValidatorShape::UrlShape,
        ValidatorExpr::IpAddr => ValidatorShape::IpShape,
        ValidatorExpr::Length { min, max } => ValidatorShape::LengthShape,
        ValidatorExpr::And(l, r) => ValidatorShape::AndShape(
            Box::new(validator_shape(&**l, ty)),
            Box::new(validator_shape(&**r, ty)),
        ),
        ValidatorExpr::Or(l, r) => ValidatorShape::OrShape(
            Box::new(validator_shape(&**l, ty)),
            Box::new(validator_shape(&**r, ty)),
        ),
        ValidatorExpr::Elements(inner) => match ty {
            TypeRef::ListOf(t) => ValidatorShape::ElementsShape(
                Box::new(validator_shape(&**inner, &**t)),
            ),
            _ => {
                let text = TypeRef::Text;
                ValidatorShape::ElementsShape(Box::new(validator_shape(&**inner, &text)))
            },
        },
        ValidatorExpr::Tuple(cs) => match ty {
            TypeRef::TupleOf(ts) => {
                let out = validator_shapes_from(cs, ts, 0);
                proof {
                    assert(cs@.skip(0) =~= cs@);
                    assert(types_from(ts@, 0) =~= ts@);
                }
                ValidatorShape::TupleShape(out)
            },
            _ => {
                let empty: Vec<TypeRef> = Vec::new();
                let out = validator_shapes_from(cs, &empty, 0);
                proof {
                    assert(cs@.skip(0) =~= cs@);
                    assert(types_from(Seq::<TypeRef>::empty(), 0) =~= Seq::<TypeRef>::empty());
                }
                ValidatorShape::TupleShape(out)
            },
        },
        ValidatorExpr::Ignore => ValidatorShape::IgnoreShape,
        ValidatorExpr::Default => ValidatorShape::DelegateShape(clone_type_ref(ty)),
    }
}

fn validator_shapes_from(cs: &Vec<ValidatorExpr>, ts: &Vec<TypeRef>, k: usize) -> (out: Vec<
    ValidatorShape,
>)
    requires
        k <= cs@.len(),
    ensures
        abs_vshapes(out@) == spec_validator_shapes(cs@.skip(k as int), types_from(ts@, k as int)),
    decreases cs@, cs@.len() - k,
{
    if k == cs.len() {
        let out: Vec<ValidatorShape> = Vec::new();
        proof {
            assert(cs@.skip(k as int) =~= Seq::<ValidatorExpr>::empty());
        }
        out
    } else {
        let t: &TypeRef = if k < ts.len() {
            &ts[k]
        } else {
            &TEXT_TYPE
        };
        let head = validator_shape(&cs[k], t);
        let rest = validator_shapes_from(cs, ts, k + 1);
        let ghost rest_view = rest@;
        let mut out = rest;
        out.insert(0, head);
        proof {
            let cs_suffix = cs@.skip(k as int);
            let ts_suffix = types_from(ts@, k as int);
            assert(cs_suffix[0] == cs@[k as int]);
            assert(cs_suffix.drop_first() =~= cs@.skip(k as int + 1));
            if (k as int) < ts@.len() {
                assert(ts_suffix[0] == ts@[k as int]);
                assert(ts_suffix.drop_first() =~= types_from(ts@, k as int + 1));
            } else {
                assert(ts_suffix =~= Seq::<TypeRef>::empty());
                assert(types_from(ts@, k as int + 1) =~= Seq::<TypeRef>::empty());
            }
            assert(out@ =~= seq![head] + rest_view);
            assert(out@.drop_first() =~= rest_view);
            assert(abs_vshapes(out@) =~= seq![abs_vshape(head)] + abs_vshapes(rest_view));
        }
        out
    }
}

/// The fixed text type, used where a malformed shape query leaves the element
/// type open.
pub const TEXT_TYPE: TypeRef = TypeRef::Text;

/// The remaining declared types from position `k` on, empty once exhausted.
pub open spec fn types_from(ts: Seq<TypeRef>, k: int) -> Seq<TypeRef> {
    if 0 <= k <= ts.len() {
        ts.skip(k)
    } else {
        Seq::empty()
    }
}

/// The `ErrorType` transform: builds the failure shape of the validator an
/// expression denotes against a declared type.
pub fn error_shape(e: &ValidatorExpr, ty: &TypeRef) -> (es: ErrorShape)
    ensures
        abs_eshape(es) == spec_error_shape(*e, *ty),
    decreases *e, 0int,
{
    match e {
        ValidatorExpr::NotEmpty => ErrorShape::EmptyValueShape,
        ValidatorExpr::Email => ErrorShape::EmailErrorShape,
        ValidatorExpr::Url => ErrorShape::UrlErrorShape,
        ValidatorExpr::IpAddr => ErrorShape::IpErrorShape,
        ValidatorExpr::Length { min, max } => ErrorShape::LengthErrorShape,
        ValidatorExpr::And(l, r) => ErrorShape::AndErrorShape(
            Box::new(error_shape(&**l, ty)),
            Box::new(error_shape(&**r, ty)),
        ),
        ValidatorExpr::Or(l, r) => ErrorShape::PairShape(
            Box::new(error_shape(&**l, ty)),
            Box::new(error_shape(&**r, ty)),
        ),
        ValidatorExpr::Elements(inner) => match ty {
            TypeRef::ListOf(t) => ErrorShape::ElementsErrorShape(
                Box::new(error_shape(&**inner, &**t)),
            ),
            _ => {
                let text = TypeRef::Text;
                ErrorShape::ElementsErrorShape(Box::new(error_shape(&**inner, &text)))
            },
        },
        ValidatorExpr::Tuple(cs) => match ty {
            TypeRef::TupleOf(ts) => {
                let out = error_shapes_from(cs, ts, 0);
                proof {
                    assert(cs@.skip(0) =~= cs@);
                    assert(types_from(ts@, 0) =~= ts@);
                }
                ErrorShape::TupleErrorShape(out)
            },
            _ => {
                let empty: Vec<TypeRef> = Vec::new();
                let out = error_shapes_from(cs, &empty, 0);
                proof {
                    assert(cs@.skip(0) =~= cs@);
                    assert(types_from(Seq::<TypeRef>::empty(), 0) =~= Seq::<TypeRef>::empty());
                }
                ErrorShape::TupleErrorShape(out)
            },
        },
        ValidatorExpr::Ignore => ErrorShape::NeverShape,
        ValidatorExpr::Default => ErrorShape::DelegateErrorShape(clone_type_ref(ty)),
    }
}

fn error_shapes_from(cs: &Vec<ValidatorExpr>, ts: &Vec<TypeRef>, k: usize) -> (out: Vec<ErrorShape>)
    requires
        k <= cs@.len(),
    ensures
        abs_eshapes(out@) == spec_error_shapes(cs@.skip(k as int), types_from(ts@, k as int)),
    decreases cs@, cs@.len() - k,
{
    if k == cs.len() {
        let out: Vec<ErrorShape> = Vec::new();
        proof {
            assert(cs@.skip(k as int) =~= Seq::<ValidatorExpr>::empty());
        }
        out
    } else {
        let t: &TypeRef = if k < ts.len() {
            &ts[k]
        } else {
            &TEXT_TYPE
        };
        let head = error_shape(&cs[k], t);
        let rest = error_shapes_from(cs, ts, k + 1);
        let ghost rest_view = rest@;
        let mut out = rest;
        out.insert(0, head);
        proof {
            let cs_suffix = cs@.skip(k as int);
            let ts_suffix = types_from(ts@, k as int);
            assert(cs_suffix[0] == cs@[k as int]);
            assert(cs_suffix.drop_first() =~= cs@.skip(k as int + 1));
            if (k as int) < ts@.len() {
                assert(ts_suffix[0] == ts@[k as int]);
                assert(ts_suffix.drop_first() =~= types_from(ts@, k as int + 1));
            } else {
                assert(ts_suffix =~= Seq::<TypeRef>::empty());
                assert(types_from(ts@, k as int + 1) =~= Seq::<TypeRef>::empty());
            }
            assert(out@ =~= seq![head] + rest_view);
            assert(out@.drop_first() =~= rest_view);
            assert(abs_eshapes(out@) =~= seq![abs_eshape(head)] + abs_eshapes(rest_view));
        }
        out
    }
}

/// What stands on one member at generation time: its declared value type and
/// its validator specification text, absent for the default.
pub struct MemberDesc {
    pub ty: TypeRef,
    pub text: Option<Vec<u8>>,
}

/// A generation-time failure, fatal for the enclosing schema type.
#[derive(Debug, PartialEq, Eq, Structural, Clone, Copy)]
pub enum GenErrorKind {
    /// The member's specification text does not parse; the parse failure is
    /// carried along.
    BadSpec(ParseError),
    /// The member's validator cannot apply to its declared value type.
    Incompatible,
}

/// A generation-time failure: the member it arose on, and its kind.
#[derive(Debug, PartialEq, Eq, Structural, Clone, Copy)]
pub struct GenError {
    pub member: usize,
    pub kind: GenErrorKind,
}

/// A diagnosed-but-resolved conflict: the member it arose on, and the
/// position of the conflicting option in that member's specification text.
#[derive(Debug, PartialEq, Eq, Structural, Clone, Copy)]
pub struct GenWarning {
    pub member: usize,
    pub pos: usize,
}

/// The conflict warnings member `k`'s specification text contributes: the
/// diagnosed positions of its parse, tagged with the member's index.
pub open spec fn member_warnings(d: MemberDesc, k: int) -> Seq<GenWarning> {
    match d.text {
        Option::None => Seq::empty(),
        Option::Some(text) => match spec_parse(text@) {
            Parsed::POk(se, ws, p) => ws.map_values(
                |pos: nat| GenWarning { member: k as usize, pos: pos as usize },
            ),
            Parsed::PErr(p, kind) => Seq::empty(),
        },
    }
}

/// The warnings of the first `upto` members, in member order.
pub open spec fn members_warnings(descs: Seq<MemberDesc>, upto: int) -> Seq<GenWarning>
    decreases upto,
{
    if upto <= 0 {
        Seq::empty()
    } else {
        members_warnings(descs, upto - 1) + member_warnings(descs[upto - 1], upto - 1)
    }
}

/// What a member description should produce: the default expression for an
/// absent text, else the parse of the text, compatible with the declared type.
pub open spec fn member_desc_ok(d: MemberDesc) -> bool {
    match d.text {
        Option::None => validate_capable(d.ty),
        Option::Some(text) => spec_parse(text@) matches Parsed::POk(se, ws, _) && g_compat(se, d.ty),
    }
}

/// Whether a built member is the one its description asks for.
pub open spec fn member_matches_desc(m: Member, d: MemberDesc) -> bool {
    &&& m.ty == d.ty
    &&& match d.text {
        Option::None => m.expr == ValidatorExpr::Default,
        Option::Some(text) => spec_parse(text@) matches Parsed::POk(se, ws, _)
            && abs_expr(m.expr) == se,
    }
}

/// Builds the members of a record or of a variant's payload from their
/// descriptions: an absent specification means the default validator; a
/// present one is parsed and must be compatible with the declared type.
/// Conflicts that the grammar resolves are returned as warnings.
pub fn build_members(descs: Vec<MemberDesc>) -> (r: Result<(Vec<Member>, Vec<GenWarning>), GenError>)
    ensures
        match r {
            Ok((ms, warns)) => {
                &&& ms@.len() == descs@.len()
                &&& forall|k: int| 0 <= k < descs@.len()
                    ==> member_matches_desc(#[trigger] ms@[k], descs@[k])
                &&& forall|k: int| 0 <= k < descs@.len() ==> member_wf(#[trigger] ms@[k])
                &&& warns@ == members_warnings(descs@, descs@.len() as int)
            },
            Err(ge) => {
                &&& ge.member < descs@.len()
                &&& !member_desc_ok(descs@[ge.member as int])
                &&& match ge.kind {
                    GenErrorKind::BadSpec(pe) => descs@[ge.member as int].text matches Some(text)
                        && spec_parse(text@) == Parsed::PErr(pe.pos as nat, pe.kind),
                    GenErrorKind::Incompatible => true,
                }
            },
        },
        r is Ok <==> (forall|k: int| 0 <= k < descs@.len()
            ==> member_desc_ok(#[trigger] descs@[k])),
{
    let ghost orig = descs@;
    let n = descs.len();
    let mut rest = descs;
    let mut members: Vec<Member> = Vec::new();
    let mut warns: Vec<GenWarning> = Vec::new();
    let mut k: usize = 0;
    while k < n
        invariant
            descs@ == orig,
            n == orig.len(),
            k <= n,
            rest@ == orig.skip(k as int),
            members@.len() == k,
            forall|j: int| 0 <= j < k ==> member_matches_desc(#[trigger] members@[j], orig[j]),
            forall|j: int| 0 <= j < k ==> member_wf(#[trigger] members@[j]),
            forall|j: int| 0 <= j < k ==> member_desc_ok(#[trigger] orig[j]),
            warns@ == members_warnings(orig, k as int),
        decreases n - k,
    {
        let ghost rest_before = rest@;
        let d = rest.remove(0);
        proof {
            assert(d == orig[k as int]);
            assert(rest@ =~= orig.skip(k as int + 1));
        }
        let MemberDesc { ty, text } = d;
        let ghost warns_before = warns@;
        let expr: ValidatorExpr = match text {
            Option::None => ValidatorExpr::Default,
            Option::Some(text) => match parse_validator_spec(text.as_slice()) {
                Ok((e, ws)) => {
                    let ghost contributed = member_warnings(orig[k as int], k as int);
                    proof {
                        assert(contributed.len() == to_nats(ws@).len());
                        assert forall|i: int| 0 <= i < ws@.len() implies
                            #[trigger] contributed[i] == (GenWarning {
                            member: k,
                            pos: ws@[i],
                        }) by {
                            assert(to_nats(ws@)[i] == ws@[i] as nat);
                        }
                    }
                    let mut wi: usize = 0;
                    let wn = ws.len();
                    while wi < wn
                        invariant
                            wi <= wn,
                            wn == ws@.len(),
                            k < orig.len(),
                            contributed == member_warnings(orig[k as int], k as int),
                            contributed.len() == wn,
                            forall|i: int| 0 <= i < ws@.len() ==> #[trigger] contributed[i]
                                == (GenWarning { member: k, pos: ws@[i] }),
                            warns@ == warns_before + contributed.take(wi as int),
                        decreases wn - wi,
                    {
                        warns.push(GenWarning { member: k, pos: ws[wi] });
                        proof {
                            assert(warns@ =~= warns_before + contributed.take(wi + 1));
                        }
                        wi = wi + 1;
                    }
                    proof {
                        assert(contributed.take(wn as int) =~= contributed);
                    }
                    e
                },
                Err(pe) => {
                    proof {
                        assert(orig[k as int].text == Option::Some(text));
                        assert(!member_desc_ok(orig[k as int]));
                    }
                    return Err(GenError { member: k, kind: GenErrorKind::BadSpec(pe) });
                },
            },
        };
        if !compat_check(&expr, &ty) {
            proof {
                lemma_g_compat(expr, ty);
            }
            return Err(GenError { member: k, kind: GenErrorKind::Incompatible });
        }
        proof {
            lemma_g_compat(expr, ty);
        }
        members.push(Member { ty, expr });
        proof {
            assert(members_warnings(orig, k + 1) == members_warnings(orig, k as int)
                + member_warnings(orig[k as int], k as int));
            if orig[k as int].text is None {
                assert(warns@ =~= members_warnings(orig, k + 1));
            }
        }
        k = k + 1;
    }
    Ok((members, warns))
}

/// Assembles a record schema from its members' descriptions; the result is
/// well formed and validates every member unconditionally.
pub fn build_record_schema(descs: Vec<MemberDesc>) -> (r: Result<
    (Schema, Vec<GenWarning>),
    GenError,
>)
    ensures
        match r {
            Ok((s, warns)) => {
                &&& schema_wf(s)
                &&& s matches Schema::Record(ms)
                &&& ms@.len() == descs@.len()
                &&& forall|k: int| 0 <= k < descs@.len()
                    ==> member_matches_desc(#[trigger] ms@[k], descs@[k])
                &&& warns@ == members_warnings(descs@, descs@.len() as int)
            },
            Err(ge) => ge.member < descs@.len() && !member_desc_ok(descs@[ge.member as int]),
        },
        r is Ok <==> (forall|k: int| 0 <= k < descs@.len()
            ==> member_desc_ok(#[trigger] descs@[k])),
{
    match build_members(descs) {
        Ok((ms, warns)) => Ok((Schema::Record(ms), warns)),
        Err(ge) => Err(ge),
    }
}

/// What stands on one union variant at generation time: its payload members'
/// descriptions, absent for a variant that carries no data.
pub struct VariantDesc {
    pub members: Option<Vec<MemberDesc>>,
}

/// The conflict warnings one variant's member specifications contribute.
pub open spec fn variant_warnings(d: VariantDesc) -> Seq<GenWarning> {
    match d.members {
        Option::None => Seq::empty(),
        Option::Some(ds) => members_warnings(ds@, ds@.len() as int),
    }
}

/// The warnings of the first `upto` variants, each tagged with its variant's
/// index, in variant order.
pub open spec fn union_warnings(descs: Seq<VariantDesc>, upto: int) -> Seq<(usize, GenWarning)>
    decreases upto,
{
    if upto <= 0 {
        Seq::empty()
    } else {
        union_warnings(descs, upto - 1) + variant_warnings(descs[upto - 1]).map_values(
            |w: GenWarning| ((upto - 1) as usize, w),
        )
    }
}

/// Every member of the variant, if it has any, can be built.
pub open spec fn variant_desc_ok(d: VariantDesc) -> bool {
    match d.members {
        Option::None => true,
        Option::Some(ds) => forall|k: int| 0 <= k < ds@.len()
            ==> member_desc_ok(#[trigger] ds@[k]),
    }
}

/// Whether a built variant is the one its description asks for: a data-less
/// description yields a data-less variant, which can never fail.
pub open spec fn variant_matches_desc(v: Variant, d: VariantDesc) -> bool {
    match d.members {
        Option::None => v.members is None,
        Option::Some(ds) => v.members matches Some(ms) && ms@.len() == ds@.len()
            && (forall|k: int| 0 <= k < ds@.len()
            ==> member_matches_desc(#[trigger] ms@[k], ds@[k])),
    }
}

/// Builds one union variant from its description.
pub fn build_variant(desc: VariantDesc) -> (r: Result<(Variant, Vec<GenWarning>), GenError>)
    ensures
        match r {
            Ok((v, warns)) => variant_matches_desc(v, desc) && variant_wf(v) && warns@
                == variant_warnings(desc),
            Err(ge) => {
                &&& desc.members matches Some(ds)
                &&& ge.member < ds@.len()
                &&& !member_desc_ok(ds@[ge.member as int])
            },
        },
        r is Ok <==> variant_desc_ok(desc),
{
    match desc.members {
        Option::None => Ok((Variant { members: None }, Vec::new())),
        Option::Some(ds) => match build_members(ds) {
            Ok((ms, warns)) => Ok((Variant { members: Some(ms) }, warns)),
            Err(ge) => Err(ge),
        },
    }
}

/// Assembles a tagged-union schema from its variants' descriptions; a
/// failure names the variant and the member it arose on.
pub fn build_union_schema(descs: Vec<VariantDesc>) -> (r: Result<
    (Schema, Vec<(usize, GenWarning)>),
    (usize, GenError),
>)
    ensures
        match r {
            Ok((s, warns)) => {
                &&& schema_wf(s)
                &&& s matches Schema::Union(vs)
                &&& vs@.len() == descs@.len()
                &&& forall|j: int| 0 <= j < descs@.len()
                    ==> variant_matches_desc(#[trigger] vs@[j], descs@[j])
                &&& warns@ == union_warnings(descs@, descs@.len() as int)
            },
            Err((j, ge)) => j < descs@.len() && !variant_desc_ok(descs@[j as int]),
        },
        r is Ok <==> (forall|j: int| 0 <= j < descs@.len()
            ==> variant_desc_ok(#[trigger] descs@[j])),
{
    let ghost orig = descs@;
    let n = descs.len();
    let mut rest = descs;
    let mut variants: Vec<Variant> = Vec::new();
    let mut warns: Vec<(usize, GenWarning)> = Vec::new();
    let mut j: usize = 0;
    while j < n
        invariant
            descs@ == orig,
            n == orig.len(),
            j <= n,
            rest@ == orig.skip(j as int),
            variants@.len() == j,
            forall|i: int| 0 <= i < j ==> variant_matches_desc(#[trigger] variants@[i], orig[i]),
            forall|i: int| 0 <= i < j ==> variant_wf(#[trigger] variants@[i]),
            forall|i: int| 0 <= i < j ==> variant_desc_ok(#[trigger] orig[i]),
            warns@ == union_warnings(orig, j as int),
        decreases n - j,
    {
        let d = rest.remove(0);
        proof {
            assert(d == orig[j as int]);
            assert(rest@ =~= orig.skip(j as int + 1));
        }
        match build_variant(d) {
            Ok((v, vw)) => {
                let ghost warns_before = warns@;
                let ghost tagged = variant_warnings(orig[j as int]).map_values(
                    |w: GenWarning| (j, w),
                );
                proof {
                    assert(tagged.len() == vw@.len());
                    assert(forall|i: int| 0 <= i < vw@.len() ==> #[trigger] tagged[i] == (
                    j,
                    vw@[i],
                    ));
                }
                let mut wi: usize = 0;
                let wn = vw.len();
                while wi < wn
                    invariant
                        wi <= wn,
                        wn == vw@.len(),
                        tagged.len() == wn,
                        forall|i: int| 0 <= i < wn ==> #[trigger] tagged[i] == (j, vw@[i]),
                        warns@ == warns_before + tagged.take(wi as int),
                    decreases wn - wi,
                {
                    warns.push((j, vw[wi]));
                    proof {
                        assert(warns@ =~= warns_before + tagged.take(wi + 1));
                    }
                    wi = wi + 1;
                }
                proof {
                    assert(tagged.take(wn as int) =~= tagged);
                    assert(union_warnings(orig, j + 1) == union_warnings(orig, j as int)
                        + tagged);
                }
                variants.push(v);
            },
            Err(ge) => {
                return Err((j, ge));
            },
        }
        j = j + 1;
    }
    Ok((Schema::Union(variants), warns))
}

} // verus!
