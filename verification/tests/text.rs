use hack_bindgen::text::{decimal_string, escape_ascii_string, join_strings};

#[test]
fn decimals() {
    assert_eq!(decimal_string(0), "0");
    assert_eq!(decimal_string(7), "7");
    assert_eq!(decimal_string(10), "10");
    assert_eq!(decimal_string(1234567890), "1234567890");
    assert_eq!(decimal_string(u128::MAX), u128::MAX.to_string());
}

#[test]
fn escapes() {
    assert_eq!(escape_ascii_string(b"a\t\r\n\\'\"~ "), "a\\t\\r\\n\\\\\\'\\\"~ ");
    assert_eq!(escape_ascii_string(&[0, 0x1f, 0x7f, 0xab]), "\\x00\\x1f\\x7f\\xab");
    let all: Vec<u8> = (0..=255u8).collect();
    assert_eq!(escape_ascii_string(&all), all.escape_ascii().to_string());
}

#[test]
fn joins() {
    let parts = vec!["a".to_string(), "b".to_string(), "c".to_string()];
    assert_eq!(join_strings(&parts, ", "), "a, b, c");
    assert_eq!(join_strings(&vec![], ", "), "");
    assert_eq!(join_strings(&vec!["x".to_string()], ";"), "x");
}
