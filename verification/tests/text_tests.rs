use msoxide::text::fmt_bool;
use msoxide::text::fmt_bool_list;
use msoxide::text::fmt_i64;
use msoxide::text::fmt_row_prefix;
use msoxide::text::fmt_u64;
use msoxide::text::join_list;

#[test]
fn fmt_u64_zero() {
    assert_eq!(fmt_u64(0), "0");
}

#[test]
fn fmt_u64_digits() {
    assert_eq!(fmt_u64(7), "7");
    assert_eq!(fmt_u64(10), "10");
    assert_eq!(fmt_u64(12345), "12345");
    assert_eq!(fmt_u64(u64::MAX), format!("{}", u64::MAX));
}

#[test]
fn fmt_i64_positive() {
    assert_eq!(fmt_i64(42), "42");
    assert_eq!(fmt_i64(0), "0");
}

#[test]
fn fmt_i64_negative() {
    assert_eq!(fmt_i64(-1), "-1");
    assert_eq!(fmt_i64(-42), "-42");
    assert_eq!(fmt_i64(i64::MIN), format!("{}", i64::MIN));
    assert_eq!(fmt_i64(i64::MAX), format!("{}", i64::MAX));
}

#[test]
fn fmt_bool_values() {
    assert_eq!(fmt_bool(true), "true");
    assert_eq!(fmt_bool(false), "false");
}

#[test]
fn row_prefix_matches_right_aligned_format() {
    assert_eq!(fmt_row_prefix(0), format!(":{:>5}: ", 0));
    assert_eq!(fmt_row_prefix(0), ":    0: ");
    assert_eq!(fmt_row_prefix(42), ":   42: ");
    assert_eq!(fmt_row_prefix(99999), ":99999: ");
    assert_eq!(fmt_row_prefix(123456), ":123456: ");
}

#[test]
fn join_list_cases() {
    let empty: Vec<String> = vec![];
    assert_eq!(join_list(&empty, ", "), "");
    let one = vec!["a".to_string()];
    assert_eq!(join_list(&one, ", "), "a");
    let three = vec!["a".to_string(), "b".to_string(), "c".to_string()];
    assert_eq!(join_list(&three, ", "), "a, b, c");
    assert_eq!(join_list(&three, ", "), three.join(", "));
}

#[test]
fn bool_list_matches_debug_format() {
    let empty: Vec<bool> = vec![];
    assert_eq!(fmt_bool_list(&empty), format!("{:?}", empty));
    let bs = vec![true, false, true];
    assert_eq!(fmt_bool_list(&bs), "[true, false, true]");
    assert_eq!(fmt_bool_list(&bs), format!("{:?}", bs));
}
