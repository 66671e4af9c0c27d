use validator::{
    EmailValidator, InvalidEmailError, InvalidIpError, InvalidUrlError, IpAddressValidator,
    UrlValidator, Validator,
};

fn bytes(s: &str) -> Vec<u8> {
    s.as_bytes().to_vec()
}

fn assert_valid(v: &EmailValidator, s: &str) {
    assert!(v.validate(&bytes(s)).is_ok(), "{s} should be Ok");
}

fn assert_invalid(v: &EmailValidator, s: &str) {
    assert!(v.validate(&bytes(s)).is_err(), "{s} should be Err");
}

#[test]
fn email() {
    let v = EmailValidator;
    assert_valid(&v, "email@example.com");
    assert_valid(&v, "firstname.lastname@example.com");
    assert_valid(&v, "email@subdomain.example.com");
    assert_valid(&v, "firstname+lastname@example.com");
    assert_valid(&v, "email@123.123.123.123");
    assert_valid(&v, "email@[123.123.123.123]");
    assert_valid(&v, "1234567890@example.com");
    assert_valid(&v, "email@example-one.com");
    assert_valid(&v, "_______@example.com");
    assert_valid(&v, "email@example.name");
    assert_valid(&v, "email@example.museum");
    assert_valid(&v, "email@example.co.jp");
    assert_valid(&v, "firstname-lastname@example.com");

    assert_invalid(&v, r#"plainaddress"#);
    assert_invalid(&v, r#"#@%^%#$@#$@#.com"#);
    assert_invalid(&v, r#"@example.com"#);
    assert_invalid(&v, r#"Joe Smith <email@example.com>"#);
    assert_invalid(&v, r#"email.example.com"#);
    assert_invalid(&v, r#"email@example@example.com"#);
    assert_invalid(&v, r#".email@example.com"#);
    assert_invalid(&v, r#"email.@example.com"#);
    assert_invalid(&v, r#"email..email@example.com"#);
    assert_invalid(&v, r#"email@example.com (Joe Smith)"#);
    assert_invalid(&v, r#"email@-example.com"#);
    assert_invalid(&v, r#"email@example..com"#);
    assert_invalid(&v, r#"Abc..123@example.com"#);
    assert_invalid(&v, r#"”(),:;<>[\]@example.com"#);
    assert_invalid(&v, r#"just”not”right@example.com"#);
    assert_invalid(&v, r#"this\ is"really"not\allowed@example.com"#);
}

#[test]
fn email_reports_each_failure_kind() {
    let v = EmailValidator;
    assert_eq!(v.validate(&bytes("")), Err(InvalidEmailError::EmptyValue));
    assert_eq!(
        v.validate(&bytes("plainaddress")),
        Err(InvalidEmailError::ATNotFound)
    );
    assert_eq!(
        v.validate(&bytes("a@b@c.com")),
        Err(InvalidEmailError::MultipleATCharacters)
    );
    let long_user = format!("{}@example.com", "a".repeat(65));
    assert_eq!(
        v.validate(&bytes(&long_user)),
        Err(InvalidEmailError::UserPartTooLong)
    );
    let long_domain = format!("a@{}", "b".repeat(256));
    assert_eq!(
        v.validate(&bytes(&long_domain)),
        Err(InvalidEmailError::DomainPartTooLong)
    );
    assert_eq!(
        v.validate(&bytes(".email@example.com")),
        Err(InvalidEmailError::InvalidUser)
    );
    assert_eq!(
        v.validate(&bytes("email@-example.com")),
        Err(InvalidEmailError::InvalidDomain)
    );
    assert_eq!(
        v.validate(&bytes("email@[999.123.123.123]")),
        Err(InvalidEmailError::InvalidAddr(InvalidIpError))
    );
}

#[test]
fn email_accepts_bracketed_ipv6_domains() {
    let v = EmailValidator;
    assert_eq!(v.validate(&bytes("email@[::1]")), Ok(()));
    assert_eq!(v.validate(&bytes("email@[2001:db8::1]")), Ok(()));
    assert_eq!(
        v.validate(&bytes("email@[:::]")),
        Err(InvalidEmailError::InvalidAddr(InvalidIpError))
    );
}

#[test]
fn ip_accepts_dotted_quads() {
    let v = IpAddressValidator;
    assert_eq!(v.validate(&bytes("127.0.0.1")), Ok(()));
    assert_eq!(v.validate(&bytes("0.0.0.0")), Ok(()));
    assert_eq!(v.validate(&bytes("255.255.255.255")), Ok(()));
    assert_eq!(v.validate(&bytes("256.0.0.1")), Err(InvalidIpError));
    assert_eq!(v.validate(&bytes("01.2.3.4")), Err(InvalidIpError));
    assert_eq!(v.validate(&bytes("1.2.3")), Err(InvalidIpError));
    assert_eq!(v.validate(&bytes("1.2.3.4.5")), Err(InvalidIpError));
    assert_eq!(v.validate(&bytes("1.2.3.x")), Err(InvalidIpError));
    assert_eq!(v.validate(&bytes("")), Err(InvalidIpError));
}

#[test]
fn ip_accepts_each_ipv6_form() {
    let v = IpAddressValidator;
    assert_eq!(v.validate(&bytes("::")), Ok(()));
    assert_eq!(v.validate(&bytes("::1")), Ok(()));
    assert_eq!(v.validate(&bytes("1::")), Ok(()));
    assert_eq!(v.validate(&bytes("1:2:3:4:5:6:7:8")), Ok(()));
    assert_eq!(v.validate(&bytes("2001:db8::8:800:200c:417a")), Ok(()));
    assert_eq!(v.validate(&bytes("0001:0:0:0:0:0:0:1")), Ok(()));
    assert_eq!(v.validate(&bytes("::ffff:192.168.0.1")), Ok(()));
    assert_eq!(v.validate(&bytes("1:2:3:4:5:6:1.2.3.4")), Ok(()));
    assert_eq!(v.validate(&bytes("1:2:3:4:5:6:7::")), Ok(()));
}

#[test]
fn ip_rejects_malformed_ipv6() {
    let v = IpAddressValidator;
    assert_eq!(v.validate(&bytes(":")), Err(InvalidIpError));
    assert_eq!(v.validate(&bytes(":::")), Err(InvalidIpError));
    assert_eq!(v.validate(&bytes("1::2::3")), Err(InvalidIpError));
    assert_eq!(v.validate(&bytes("1:2:3:4:5:6:7")), Err(InvalidIpError));
    assert_eq!(v.validate(&bytes("1:2:3:4:5:6:7:8:9")), Err(InvalidIpError));
    assert_eq!(v.validate(&bytes("1:2:3:4:5:6:7:8::")), Err(InvalidIpError));
    assert_eq!(v.validate(&bytes("12345::")), Err(InvalidIpError));
    assert_eq!(v.validate(&bytes("g::1")), Err(InvalidIpError));
    assert_eq!(v.validate(&bytes("::1.2.3.4:5")), Err(InvalidIpError));
    assert_eq!(v.validate(&bytes("::ffff:1.2.3.04")), Err(InvalidIpError));
    assert_eq!(v.validate(&bytes("1.2.3.4::")), Err(InvalidIpError));
}

#[test]
fn url_goes_through_the_real_parser() {
    let v = UrlValidator;
    assert_eq!(v.validate(&bytes("https://x.com")), Ok(()));
    assert_eq!(v.validate(&bytes("http://example.com/a?b=c")), Ok(()));
    assert_eq!(v.validate(&bytes("notaurl")), Err(InvalidUrlError));
    assert_eq!(v.validate(&bytes("")), Err(InvalidUrlError));
}
