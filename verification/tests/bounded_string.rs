use oidc_core::bounded_string::BoundedString;
use oidc_core::bounded_string::ParseError;

#[test]
fn bounded_string_valid() {
    let result = BoundedString::<2, 3>::try_from("123");
    assert!(result.is_ok())
}

#[test]
fn bounded_string_empty() {
    let result = BoundedString::<2, 3>::try_from("");
    assert!(matches!(result, Err(ParseError::Empty)))
}

#[test]
fn bounded_string_too_short() {
    let result = BoundedString::<2, 3>::try_from("1");
    assert!(matches!(result, Err(ParseError::TooShort(_, _))))
}

#[test]
fn bounded_string_too_long() {
    let result = BoundedString::<2, 3>::try_from("1234");
    assert!(matches!(result, Err(ParseError::TooLong(_, _))))
}

#[test]
fn bounded_string_edge_case() {
    let result = BoundedString::<3, 3>::try_from("123");
    assert!(result.is_ok())
}

#[test]
fn bounded_string_edges() {
    assert!(matches!(
        BoundedString::<2, 3>::try_from("1"),
        Err(ParseError::TooShort(2, found)) if found == "1"
    ));
    assert_eq!(BoundedString::<2, 3>::try_from("12").unwrap().as_str(), "12");
    assert_eq!(BoundedString::<2, 3>::try_from("123").unwrap().as_str(), "123");
    assert!(matches!(
        BoundedString::<2, 3>::try_from("1234"),
        Err(ParseError::TooLong(3, found)) if found == "1234"
    ));
    assert_eq!(BoundedString::<2, 3>::try_from(""), Err(ParseError::Empty));
}

#[test]
fn bounded_string_without_a_lower_bound() {
    assert_eq!(BoundedString::<0, 3>::try_from("").unwrap().as_str(), "");
    assert!(BoundedString::<0, 0>::try_from("").is_ok());
    assert_eq!(
        BoundedString::<0, 0>::try_from("a"),
        Err(ParseError::TooLong(0, "a".to_string()))
    );
}

#[test]
fn bounded_string_with_one_as_lower_bound() {
    assert_eq!(BoundedString::<1, 3>::try_from(""), Err(ParseError::Empty));
    assert!(BoundedString::<1, 3>::try_from("a").is_ok());
}

#[test]
fn bounded_string_with_crossed_bounds() {
    assert_eq!(BoundedString::<5, 2>::try_from(""), Err(ParseError::Empty));
    assert_eq!(
        BoundedString::<5, 2>::try_from("abc"),
        Err(ParseError::TooShort(5, "abc".to_string()))
    );
    assert_eq!(
        BoundedString::<5, 2>::try_from("abcdef"),
        Err(ParseError::TooLong(2, "abcdef".to_string()))
    );
}

#[test]
fn bounded_string_counts_bytes() {
    assert!(BoundedString::<2, 3>::try_from("\u{fc}").is_ok());
    assert!(matches!(
        BoundedString::<2, 3>::try_from("\u{fc}\u{fc}"),
        Err(ParseError::TooLong(3, _))
    ));
    assert!(BoundedString::<2, 3>::try_from("\u{20ac}").is_ok());
}

#[test]
fn bounded_string_equality() {
    let one = BoundedString::<2, 3>::try_from("ab").unwrap();
    let same = BoundedString::<2, 3>::try_from("ab").unwrap();
    let other = BoundedString::<2, 3>::try_from("abc").unwrap();
    assert!(one.same_text(&same));
    assert!(!one.same_text(&other));
    assert_eq!(one.clone(), one);
    assert_ne!(one, other);
}
