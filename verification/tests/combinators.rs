use validator::{
    And, AndError, ElementsValidator, EmptyValueError, InvalidLengthError, LengthValidator,
    NotEmptyValidator, NotInRangeError, Or, OrError, RangeBound, RangeValidator, Validator,
    IgnoreValidator,
};

fn bytes(s: &str) -> Vec<u8> {
    s.as_bytes().to_vec()
}

#[test]
fn not_empty_table_test() {
    fn assert_is_empty<T>(value: &T)
    where
        NotEmptyValidator: Validator<T>,
    {
        assert!(NotEmptyValidator.validate(value).is_err(), "Should be empty");
    }
    fn assert_not_empty<T>(value: &T)
    where
        NotEmptyValidator: Validator<T>,
    {
        assert!(NotEmptyValidator.validate(value).is_ok(), "Should not be empty");
    }

    assert_is_empty(&bytes(""));
    assert_is_empty(&Vec::<u8>::new());
    assert_is_empty(&Vec::<String>::new());
    assert_is_empty(&Vec::<u8>::with_capacity(5));

    assert_not_empty(&bytes("foo"));
    assert_not_empty(&vec![1]);
    assert_not_empty(&vec![1, 2, 3]);
}

#[test]
fn range_table_test() {
    fn assert_is_in_range(start: RangeBound, end: RangeBound, value: i64) {
        assert!(
            RangeValidator::new(start, end).validate(&value).is_err(),
            "Should be in range"
        );
    }
    fn assert_is_not_in_range(start: RangeBound, end: RangeBound, value: i64) {
        assert!(
            RangeValidator::new(start, end).validate(&value).is_ok(),
            "Should not be in range"
        );
    }

    assert_is_in_range(RangeBound::Included(0), RangeBound::Excluded(100), 45);
    assert_is_in_range(RangeBound::Included(0), RangeBound::Included(100), 45);
    assert_is_in_range(RangeBound::Included(0), RangeBound::Included(100), 100);
    assert_is_not_in_range(RangeBound::Included(0), RangeBound::Excluded(100), 100);
    assert_is_not_in_range(RangeBound::Included(0), RangeBound::Excluded(100), 101);
    assert_is_not_in_range(RangeBound::Included(0), RangeBound::Included(100), 101);
    assert_is_not_in_range(RangeBound::Included(0), RangeBound::Included(100), -101);
    assert_is_in_range(RangeBound::Included(0), RangeBound::Unbounded, 505);
}

#[test]
fn not_empty_reports_empty_value() {
    assert_eq!(
        NotEmptyValidator.validate(&bytes("")),
        Err(EmptyValueError)
    );
    assert_eq!(NotEmptyValidator.validate(&bytes("x")), Ok(()));
}

#[test]
fn length_bounds_and_errors() {
    let v = LengthValidator::new(Some(1), None);
    assert_eq!(
        v.validate(&bytes("")),
        Err(InvalidLengthError::TooShort { min: 1, len: 0 })
    );
    assert_eq!(v.validate(&bytes("ab")), Ok(()));

    let v = LengthValidator::new(Some(2), Some(4));
    assert_eq!(v.validate(&bytes("ab")), Ok(()));
    assert_eq!(v.validate(&bytes("abcd")), Ok(()));
    assert_eq!(
        v.validate(&bytes("abcde")),
        Err(InvalidLengthError::TooLong { max: 4, len: 5 })
    );
    assert_eq!(
        v.validate(&bytes("a")),
        Err(InvalidLengthError::TooShort { min: 2, len: 1 })
    );

    let unbounded = LengthValidator::new(None, None);
    assert_eq!(unbounded.validate(&bytes("")), Ok(()));
}

#[test]
fn and_names_exactly_the_failing_sides() {
    let v = And::new(NotEmptyValidator, LengthValidator::new(None, Some(3)));
    assert_eq!(v.validate(&bytes("ab")), Ok(()));
    assert_eq!(
        v.validate(&bytes("")),
        Err(AndError::Left(EmptyValueError))
    );
    assert_eq!(
        v.validate(&bytes("abcd")),
        Err(AndError::Right(InvalidLengthError::TooLong { max: 3, len: 4 }))
    );
    let v = And::new(LengthValidator::new(Some(5), None), LengthValidator::new(None, Some(1)));
    assert_eq!(
        v.validate(&bytes("abc")),
        Err(AndError::Both(
            InvalidLengthError::TooShort { min: 5, len: 3 },
            InvalidLengthError::TooLong { max: 1, len: 3 },
        ))
    );
}

#[test]
fn and_error_split_keeps_both_sides() {
    let e: AndError<u8, u8> = AndError::Both(1, 2);
    assert_eq!(e.split(), (Some(1), Some(2)));
    let e: AndError<u8, u8> = AndError::Left(1);
    assert_eq!(e.split(), (Some(1), None));
    let e: AndError<u8, u8> = AndError::Right(2);
    assert_eq!(e.split(), (None, Some(2)));
}

#[test]
fn or_succeeds_if_either_side_does_and_keeps_both_errors() {
    let v = Or::new(LengthValidator::new(None, Some(1)), LengthValidator::new(Some(3), None));
    assert_eq!(v.validate(&bytes("a")), Ok(()));
    assert_eq!(v.validate(&bytes("abc")), Ok(()));
    assert_eq!(
        v.validate(&bytes("ab")),
        Err(OrError(
            InvalidLengthError::TooLong { max: 1, len: 2 },
            InvalidLengthError::TooShort { min: 3, len: 2 },
        ))
    );
}

#[test]
fn elements_reports_one_slot_per_element() {
    let v = ElementsValidator::new(NotEmptyValidator);
    let values = vec![bytes("a"), bytes(""), bytes("c")];
    let err = v.validate(&values).expect_err("middle element is empty");
    assert_eq!(err.slot_count(), 3);
    assert_eq!(*err.index(0), None);
    assert_eq!(*err.index(1), Some(EmptyValueError));
    assert_eq!(*err.index(2), None);

    let empty: Vec<Vec<u8>> = Vec::new();
    assert!(v.validate(&empty).is_ok(), "an empty collection always succeeds");
}

#[test]
fn tuple_checks_every_position() {
    let v = (NotEmptyValidator, LengthValidator::new(None, Some(2)));
    let value = (bytes("a"), bytes("bc"));
    assert_eq!(v.validate(&value), Ok(()));
    let value = (bytes(""), bytes("bcd"));
    let err = v.validate(&value).expect_err("both positions fail");
    assert_eq!(err.0, Some(EmptyValueError));
    assert_eq!(err.1, Some(InvalidLengthError::TooLong { max: 2, len: 3 }));
    let value = (bytes("a"), bytes("bcd"));
    let err = v.validate(&value).expect_err("second position fails");
    assert_eq!(err.0, None);
    assert_eq!(err.1, Some(InvalidLengthError::TooLong { max: 2, len: 3 }));
}

#[test]
fn range_error_carries_the_range() {
    let v = RangeValidator::new(RangeBound::Included(0), RangeBound::Excluded(10));
    assert_eq!(
        v.validate(&5),
        Err(NotInRangeError(RangeBound::Included(0), RangeBound::Excluded(10)))
    );
}

#[test]
fn three_position_tuple_checks_every_position() {
    let v = (NotEmptyValidator, NotEmptyValidator, LengthValidator::new(None, Some(1)));
    let value = (
        "a".as_bytes().to_vec(),
        "".as_bytes().to_vec(),
        "xy".as_bytes().to_vec(),
    );
    let err = v.validate(&value).expect_err("two positions fail");
    assert_eq!(err.0, None);
    assert_eq!(err.1, Some(EmptyValueError));
    assert_eq!(err.2, Some(InvalidLengthError::TooLong { max: 1, len: 2 }));
}

#[test]
fn thirteen_position_tuple_has_one_slot_per_position() {
    let v = (
        NotEmptyValidator, NotEmptyValidator, NotEmptyValidator, NotEmptyValidator,
        NotEmptyValidator, NotEmptyValidator, NotEmptyValidator, NotEmptyValidator,
        NotEmptyValidator, NotEmptyValidator, NotEmptyValidator, NotEmptyValidator,
        NotEmptyValidator,
    );
    let value = (
        bytes("a"), bytes("b"), bytes("c"), bytes("d"), bytes("e"), bytes("f"), bytes("g"),
        bytes("h"), bytes("i"), bytes("j"), bytes("k"), bytes("l"), bytes("m"),
    );
    assert_eq!(v.validate(&value), Ok(()));
    let value = (
        bytes("a"), bytes("b"), bytes("c"), bytes("d"), bytes("e"), bytes("f"), bytes(""),
        bytes("h"), bytes("i"), bytes("j"), bytes("k"), bytes("l"), bytes(""),
    );
    let err = v.validate(&value).expect_err("two positions fail");
    assert_eq!(err.0, None);
    assert_eq!(err.6, Some(EmptyValueError));
    assert_eq!(err.12, Some(EmptyValueError));
    assert_eq!(err.5, None);
}

#[test]
fn ignore_accepts_anything() {
    assert!(IgnoreValidator.validate(&bytes("")).is_ok());
    assert!(IgnoreValidator.validate(&12345u64).is_ok());
}
