use validator::{parse_validator_spec, ParseErrorKind, ValidatorExpr};

fn parse(s: &str) -> Result<(ValidatorExpr, Vec<usize>), validator::ParseError> {
    parse_validator_spec(s.as_bytes())
}

fn expr(s: &str) -> ValidatorExpr {
    let (e, warns) = parse(s).expect("should parse");
    assert!(warns.is_empty(), "no warnings expected for {s}");
    e
}

fn error_of(s: &str) -> (usize, ParseErrorKind) {
    let e = parse(s).expect_err("should fail");
    (e.pos, e.kind)
}

#[test]
fn parses_each_leaf_name() {
    assert_eq!(expr("not_empty"), ValidatorExpr::NotEmpty);
    assert_eq!(expr("email"), ValidatorExpr::Email);
    assert_eq!(expr("url"), ValidatorExpr::Url);
    assert_eq!(expr("ip"), ValidatorExpr::IpAddr);
    assert_eq!(expr("ignore"), ValidatorExpr::Ignore);
}

#[test]
fn parses_nested_combinators() {
    assert_eq!(
        expr("and(not_empty, email)"),
        ValidatorExpr::And(
            Box::new(ValidatorExpr::NotEmpty),
            Box::new(ValidatorExpr::Email)
        )
    );
    assert_eq!(
        expr("or( url , ip )"),
        ValidatorExpr::Or(Box::new(ValidatorExpr::Url), Box::new(ValidatorExpr::IpAddr))
    );
    assert_eq!(
        expr("elements(and(not_empty, length(max=3)))"),
        ValidatorExpr::Elements(Box::new(ValidatorExpr::And(
            Box::new(ValidatorExpr::NotEmpty),
            Box::new(ValidatorExpr::Length { min: None, max: Some(3) })
        )))
    );
    assert_eq!(
        expr("tuple(email, url, length(min=1))"),
        ValidatorExpr::Tuple(vec![
            ValidatorExpr::Email,
            ValidatorExpr::Url,
            ValidatorExpr::Length { min: Some(1), max: None },
        ])
    );
}

#[test]
fn parses_length_options() {
    assert_eq!(
        expr("length(min=1)"),
        ValidatorExpr::Length { min: Some(1), max: None }
    );
    assert_eq!(
        expr("length(max=10)"),
        ValidatorExpr::Length { min: None, max: Some(10) }
    );
    assert_eq!(
        expr("length(min=1, max=10)"),
        ValidatorExpr::Length { min: Some(1), max: Some(10) }
    );
    assert_eq!(
        expr("length(equal=5)"),
        ValidatorExpr::Length { min: Some(5), max: Some(5) }
    );
}

#[test]
fn length_equal_conflict_is_diagnosed_but_resolved() {
    let (e, warns) = parse("length(equal=5, min=1)").expect("parsing proceeds");
    assert_eq!(e, ValidatorExpr::Length { min: Some(5), max: Some(5) });
    assert_eq!(warns, vec![7]);

    let (e, warns) = parse("length(min=1, equal=5)").expect("parsing proceeds");
    assert_eq!(e, ValidatorExpr::Length { min: Some(5), max: Some(5) });
    assert_eq!(warns, vec![14]);
}

#[test]
fn later_length_options_win() {
    assert_eq!(
        expr("length(min=1, min=2)"),
        ValidatorExpr::Length { min: Some(2), max: None }
    );
}

#[test]
fn reports_each_parse_failure() {
    assert_eq!(error_of(""), (0, ParseErrorKind::ExpectedName));
    assert_eq!(error_of("foo"), (0, ParseErrorKind::UnknownValidator));
    assert_eq!(error_of("length"), (6, ParseErrorKind::ExpectedOpenParen));
    assert_eq!(error_of("length()"), (7, ParseErrorKind::ExpectedName));
    assert_eq!(error_of("length(big=1)"), (7, ParseErrorKind::UnknownLengthOption));
    assert_eq!(error_of("length(min)"), (10, ParseErrorKind::ExpectedEquals));
    assert_eq!(error_of("length(min=)"), (11, ParseErrorKind::ExpectedNumber));
    assert_eq!(
        error_of("length(min=99999999999999999999999999)"),
        (11, ParseErrorKind::NumberTooLarge)
    );
    assert_eq!(error_of("and(not_empty)"), (13, ParseErrorKind::ExpectedComma));
    assert_eq!(
        error_of("and(not_empty, email"),
        (20, ParseErrorKind::ExpectedCloseParen)
    );
    assert_eq!(error_of("tuple(email)"), (0, ParseErrorKind::TupleArity));
    assert_eq!(error_of("not_empty junk"), (10, ParseErrorKind::TrailingInput));
    assert_eq!(error_of("elements(foo)"), (9, ParseErrorKind::UnknownValidator));
}

#[test]
fn tuple_arity_is_capped_at_thirteen() {
    let thirteen = format!("tuple({})", vec!["email"; 13].join(", "));
    let (e, _) = parse(&thirteen).expect("thirteen children are allowed");
    match e {
        ValidatorExpr::Tuple(children) => assert_eq!(children.len(), 13),
        other => panic!("expected a tuple, got {other:?}"),
    }
    let fourteen = format!("tuple({})", vec!["email"; 14].join(", "));
    let err = parse(&fourteen).expect_err("fourteen children are too many");
    assert_eq!(err.kind, ParseErrorKind::TupleArity);
}
