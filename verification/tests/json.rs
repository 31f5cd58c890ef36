use auracle::json::JsonValue;

#[test]
fn as_i64_reads_only_integers_in_range() {
    assert_eq!(JsonValue::Number("42".into()).as_i64(), Some(42));
    assert_eq!(JsonValue::Number("-7".into()).as_i64(), Some(-7));
    assert_eq!(JsonValue::Number("9223372036854775807".into()).as_i64(), Some(i64::MAX));
    assert_eq!(JsonValue::Number("-9223372036854775808".into()).as_i64(), Some(i64::MIN));
    assert_eq!(JsonValue::Number("9223372036854775808".into()).as_i64(), None);
    assert_eq!(JsonValue::Number("1.0".into()).as_i64(), None);
    assert_eq!(JsonValue::Number("-".into()).as_i64(), None);
    assert_eq!(JsonValue::Number("".into()).as_i64(), None);
    assert_eq!(JsonValue::Str("3".into()).as_i64(), None);
}

#[test]
fn lookups_take_the_last_duplicate() {
    let v = JsonValue::Object(vec![
        ("k".to_string(), JsonValue::Bool(true)),
        ("k".to_string(), JsonValue::Str("x".into())),
    ]);
    assert_eq!(v.get("k"), Some(&JsonValue::Str("x".into())));
    assert_eq!(v.get("k").and_then(|x| x.as_str()), Some("x"));
    assert_eq!(v.get("missing"), None);
    assert_eq!(JsonValue::Array(vec![]).as_array().map(|a| a.len()), Some(0));
    assert_eq!(JsonValue::Null.as_bool(), None);
}
