use validator::{
    build_record_schema, build_union_schema, error_shape, eval, parse_validator_spec,
    validate_schema_value, validator_shape, DynError, DynValue, EmptyValueError, ErrorShape,
    GenErrorKind, InvalidEmailError, Member, MemberDesc, Schema, TypeRef, ValidatorExpr,
    ValidatorShape, VariantDesc,
};

fn bytes(s: &str) -> Vec<u8> {
    s.as_bytes().to_vec()
}

fn text_member(spec: &str) -> MemberDesc {
    MemberDesc { ty: TypeRef::Text, text: Some(bytes(spec)) }
}

#[test]
fn test() {
    // A list member whose elements are validated by their own schema: the
    // element schema requires its text member to be non-empty.
    let element_schema = Schema::Record(vec![Member {
        ty: TypeRef::Text,
        expr: ValidatorExpr::NotEmpty,
    }]);
    let has_list_schema = Schema::Record(vec![Member {
        ty: TypeRef::ListOf(Box::new(TypeRef::SchemaRef(0))),
        expr: ValidatorExpr::Elements(Box::new(ValidatorExpr::Default)),
    }]);
    let schemas = vec![element_schema, has_list_schema];

    let valid = DynValue::Record(
        1,
        vec![DynValue::List(vec![DynValue::Record(0, vec![DynValue::Text(bytes("foobar"))])])],
    );
    validate_schema_value(&schemas, &valid).expect("should be valid");

    let invalid = DynValue::Record(
        1,
        vec![DynValue::List(vec![DynValue::Record(0, vec![DynValue::Text(bytes(""))])])],
    );
    validate_schema_value(&schemas, &invalid).expect_err("should be invalid");
}

#[test]
fn record_aggregates_one_slot_per_member() {
    let (schema, warns) = build_record_schema(vec![
        text_member("email"),
        text_member("url"),
        text_member("length(min=1)"),
    ])
    .expect("generation succeeds");
    assert!(warns.is_empty());
    let schemas = vec![schema];

    let value = DynValue::Record(
        0,
        vec![
            DynValue::Text(bytes("bad")),
            DynValue::Text(bytes("https://x.com")),
            DynValue::Text(bytes("Jo")),
        ],
    );
    let err = validate_schema_value(&schemas, &value).expect_err("overall validation fails");
    match err {
        DynError::Record(slots) => {
            assert_eq!(slots.len(), 3);
            assert_eq!(
                slots[0],
                Some(DynError::Email(InvalidEmailError::ATNotFound))
            );
            assert_eq!(slots[1], None);
            assert_eq!(slots[2], None);
        },
        other => panic!("expected a record aggregate, got {other:?}"),
    }

    let good = DynValue::Record(
        0,
        vec![
            DynValue::Text(bytes("jo@example.com")),
            DynValue::Text(bytes("https://x.com")),
            DynValue::Text(bytes("Jo")),
        ],
    );
    validate_schema_value(&schemas, &good).expect("every member passes");
}

#[test]
fn dataless_union_case_always_validates() {
    let (schema, warns) = build_union_schema(vec![
        VariantDesc { members: Some(vec![text_member("email"), text_member("length(min=8, max=64)")]) },
        VariantDesc { members: None },
    ])
    .expect("generation succeeds");
    assert!(warns.is_empty());
    let schemas = vec![schema];

    let logout = DynValue::Union(0, 1, vec![]);
    validate_schema_value(&schemas, &logout).expect("a data-less case always validates");

    let login_bad = DynValue::Union(0, 0, vec![DynValue::Text(bytes("nope")), DynValue::Text(bytes("short"))]);
    let err = validate_schema_value(&schemas, &login_bad).expect_err("both members fail");
    match err {
        DynError::Union(variant, slots) => {
            assert_eq!(variant, 0);
            assert_eq!(slots.len(), 2);
            assert!(slots[0].is_some());
            assert!(slots[1].is_some());
        },
        other => panic!("expected a union aggregate, got {other:?}"),
    }
}

#[test]
fn dispatcher_handles_tuples_and_combinators() {
    let schemas: Vec<Schema> = Vec::new();
    let (e, _) = parse_validator_spec(b"tuple(email, not_empty)").expect("parses");
    let value = DynValue::List(vec![DynValue::Text(bytes("a@b.cd")), DynValue::Text(bytes(""))]);
    let err = eval(&schemas, &e, &value).expect_err("second position fails");
    match err {
        DynError::Tuple(slots) => {
            assert_eq!(slots.len(), 2);
            assert_eq!(slots[0], None);
            assert_eq!(slots[1], Some(DynError::Empty(EmptyValueError)));
        },
        other => panic!("expected a tuple aggregate, got {other:?}"),
    }

    let (e, _) = parse_validator_spec(b"or(length(max=1), length(min=3))").expect("parses");
    let ok = eval(&schemas, &e, &DynValue::Text(bytes("x")));
    assert!(ok.is_ok());
    let err = eval(&schemas, &e, &DynValue::Text(bytes("xy"))).expect_err("both sides fail");
    assert!(matches!(err, DynError::OrBoth(_, _)));
}

#[test]
fn generation_rejects_bad_specs() {
    let err = build_record_schema(vec![text_member("frobnicate")]).expect_err("unknown name");
    assert_eq!(err.member, 0);
    assert!(matches!(err.kind, GenErrorKind::BadSpec(_)));

    let err = build_record_schema(vec![MemberDesc {
        ty: TypeRef::ListOf(Box::new(TypeRef::Text)),
        text: Some(bytes("email")),
    }])
    .expect_err("an email check cannot apply to a collection");
    assert_eq!(err.member, 0);
    assert_eq!(err.kind, GenErrorKind::Incompatible);

    let err = build_record_schema(vec![MemberDesc { ty: TypeRef::Text, text: None }])
        .expect_err("plain text has no default validator to delegate to");
    assert_eq!(err.kind, GenErrorKind::Incompatible);
}

#[test]
fn generation_warnings_carry_member_and_position() {
    let (_, warns) = build_record_schema(vec![
        text_member("length(min=1)"),
        text_member("length(equal=5, min=1)"),
    ])
    .expect("conflict is resolved, not fatal");
    assert_eq!(warns.len(), 1);
    assert_eq!(warns[0].member, 1);
    assert_eq!(warns[0].pos, 7);
}

#[test]
fn synthesized_shapes_mirror_the_expression() {
    let (e, _) = parse_validator_spec(b"and(not_empty, email)").expect("parses");
    let ty = TypeRef::Text;
    let vs = validator_shape(&e, &ty);
    let es = error_shape(&e, &ty);
    assert_eq!(
        vs,
        ValidatorShape::AndShape(
            Box::new(ValidatorShape::NotEmptyShape),
            Box::new(ValidatorShape::EmailShape)
        )
    );
    assert_eq!(
        es,
        ErrorShape::AndErrorShape(
            Box::new(ErrorShape::EmptyValueShape),
            Box::new(ErrorShape::EmailErrorShape)
        )
    );

    let ty = TypeRef::ListOf(Box::new(TypeRef::SchemaRef(3)));
    let e = ValidatorExpr::Elements(Box::new(ValidatorExpr::Default));
    assert_eq!(
        error_shape(&e, &ty),
        ErrorShape::ElementsErrorShape(Box::new(ErrorShape::DelegateErrorShape(
            TypeRef::SchemaRef(3)
        )))
    );
}
