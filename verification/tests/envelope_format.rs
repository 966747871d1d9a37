use kcidb_restd_rs::envelope::generate_answer;
use kcidb_restd_rs::numfmt::u64_to_decimal;

#[test]
fn envelope_with_message() {
    let body = generate_answer("error", "0", Some(String::from("Empty id")));
    assert_eq!(body, "{\"id\":\"0\",\"status\":\"error\",\"message\":\"Empty id\"}");
}

#[test]
fn envelope_without_message() {
    let body = generate_answer("ok", "7", None);
    assert_eq!(body, "{\"id\":\"7\",\"status\":\"ok\",\"message\":null}");
}

#[test]
fn envelope_escapes_quotes_and_backslashes() {
    let body = generate_answer("x", "0", Some(String::from("a\"b\\c\nd")));
    assert_eq!(body, "{\"id\":\"0\",\"status\":\"x\",\"message\":\"a\\\"b\\\\c\\nd\"}");
}

#[test]
fn envelope_escapes_control_characters() {
    let body = generate_answer("x", "0", Some(String::from("\u{1}\t\r\u{8}\u{c}\u{1f}")));
    assert_eq!(
        body,
        "{\"id\":\"0\",\"status\":\"x\",\"message\":\"\\u0001\\t\\r\\b\\f\\u001f\"}"
    );
}

#[test]
fn envelope_escaping_matches_reference_serializer() {
    let text = "mixed \"quotes\" and \\slashes\\ and\ncontrol \u{3} bytes";
    let ours = generate_answer("s", "i", Some(String::from(text)));
    let quoted = serde_json::to_string(&serde_json::Value::String(String::from(text))).unwrap();
    let expected = format!("{{\"id\":\"i\",\"status\":\"s\",\"message\":{}}}", quoted);
    assert_eq!(ours, expected);
}

#[test]
fn envelope_keeps_unicode_verbatim() {
    let body = generate_answer("ok", "0", Some(String::from("größe 5 バイト")));
    assert_eq!(body, "{\"id\":\"0\",\"status\":\"ok\",\"message\":\"größe 5 バイト\"}");
}

#[test]
fn decimal_rendering() {
    assert_eq!(u64_to_decimal(0), "0");
    assert_eq!(u64_to_decimal(9), "9");
    assert_eq!(u64_to_decimal(10), "10");
    assert_eq!(u64_to_decimal(4096), "4096");
    assert_eq!(u64_to_decimal(u64::MAX), "18446744073709551615");
}
