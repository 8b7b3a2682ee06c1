use cvmodtool::{UpdateError, Version};

#[test]
fn parse_simple_triple() {
    let v = Version::parse("1.2.3").unwrap();
    assert_eq!(v, Version::new(1, 2, 3));
}

#[test]
fn parse_large_components() {
    let v = Version::parse("10.0.20348").unwrap();
    assert_eq!(v, Version::new(10, 0, 20348));
}

#[test]
fn parse_rejects_missing_parts() {
    assert!(matches!(Version::parse("1.2"), Err(UpdateError::Parse(_))));
    assert!(matches!(Version::parse("1"), Err(UpdateError::Parse(_))));
    assert!(matches!(Version::parse(""), Err(UpdateError::Parse(_))));
    assert!(matches!(Version::parse("1.2.3.4"), Err(UpdateError::Parse(_))));
}

#[test]
fn parse_rejects_bad_digits() {
    assert!(matches!(Version::parse("1.a.3"), Err(UpdateError::Parse(_))));
    assert!(matches!(Version::parse("1..3"), Err(UpdateError::Parse(_))));
    assert!(matches!(Version::parse("-1.2.3"), Err(UpdateError::Parse(_))));
    assert!(matches!(Version::parse("1.2.3-beta"), Err(UpdateError::Parse(_))));
}

#[test]
fn parse_rejects_leading_zeros() {
    assert!(matches!(Version::parse("01.2.3"), Err(UpdateError::Parse(_))));
    assert!(Version::parse("0.2.3").is_ok());
}

#[test]
fn parse_rejects_overflow() {
    assert!(matches!(
        Version::parse("99999999999999999999.0.0"),
        Err(UpdateError::Parse(_))
    ));
    assert!(Version::parse("18446744073709551615.0.0").is_ok());
}

#[test]
fn extract_strips_leading_v() {
    let v = cvmodtool::version::extract("v2.10.0").unwrap();
    assert_eq!(v, Version::new(2, 10, 0));
    assert!(cvmodtool::version::extract("").is_err());
    assert!(cvmodtool::version::extract("2.10.0").is_err());
}

#[test]
fn ordering_is_lexicographic() {
    let a = Version::new(1, 2, 3);
    let b = Version::new(1, 3, 0);
    let c = Version::new(2, 0, 0);
    assert!(a.lt(&b));
    assert!(b.lt(&c));
    assert!(a.lt(&c));
    assert!(!c.lt(&a));
    assert!(a.le(&a));
    assert!(a.le(&b));
    assert!(!b.le(&a));
}
