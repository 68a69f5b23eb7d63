use ww::util::{friendly_join, parse_i32, str_eq};

#[test]
fn test_friendly_join() {
    assert_eq!(friendly_join(vec![]), "");
    assert_eq!(friendly_join(vec!["foo"]), "foo");
    assert_eq!(friendly_join(vec!["foo", "bar"]), "foo and bar");
    assert_eq!(friendly_join(vec!["foo", "bar", "baz"]), "foo, bar, and baz");
}

#[test]
fn parse_plain_numbers() {
    assert_eq!(parse_i32("0"), Some(0));
    assert_eq!(parse_i32("123"), Some(123));
    assert_eq!(parse_i32("-42"), Some(-42));
    assert_eq!(parse_i32("+7"), Some(7));
}

#[test]
fn parse_rejects_junk() {
    assert_eq!(parse_i32(""), None);
    assert_eq!(parse_i32("abc"), None);
    assert_eq!(parse_i32("12a"), None);
    assert_eq!(parse_i32("-"), None);
    assert_eq!(parse_i32("+"), None);
    assert_eq!(parse_i32("1 2"), None);
    assert_eq!(parse_i32(" 1"), None);
}

#[test]
fn parse_at_the_edges() {
    assert_eq!(parse_i32("2147483647"), Some(i32::MAX));
    assert_eq!(parse_i32("2147483648"), None);
    assert_eq!(parse_i32("-2147483648"), Some(i32::MIN));
    assert_eq!(parse_i32("-2147483649"), None);
    assert_eq!(parse_i32("99999999999999999999"), None);
}

#[test]
fn string_equality_by_contents() {
    assert!(str_eq("goto ", "goto "));
    assert!(!str_eq("goto", "goto "));
    assert!(!str_eq("quit", "quiz"));
    assert!(str_eq("", ""));
}
