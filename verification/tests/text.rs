use fmbot::text::{decimal_string, hex_lower_string, join_strings, str_eq};

#[test]
fn decimal_renderings() {
    assert_eq!(decimal_string(0), "0");
    assert_eq!(decimal_string(7), "7");
    assert_eq!(decimal_string(10), "10");
    assert_eq!(decimal_string(1234567890), "1234567890");
    assert_eq!(decimal_string(u128::MAX), u128::MAX.to_string());
}

#[test]
fn hex_renderings() {
    assert_eq!(hex_lower_string(&[]), "");
    assert_eq!(hex_lower_string(&[0x00, 0xff, 0x1a, 0x09]), "00ff1a09");
}

#[test]
fn join_renderings() {
    let parts = vec!["a".to_string(), "".to_string(), "c".to_string()];
    assert_eq!(join_strings(&parts, ", "), "a, , c");
    assert_eq!(join_strings(&Vec::new(), ", "), "");
    assert_eq!(join_strings(&vec!["solo".to_string()], "|"), "solo");
}

#[test]
fn string_equality() {
    assert!(str_eq("week", "week"));
    assert!(!str_eq("week", "Week"));
    assert!(!str_eq("", "a"));
}
