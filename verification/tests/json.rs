use consumer_rs::json::JsonValue;

fn text(value: &str) -> JsonValue {
    JsonValue::Text(value.to_string())
}

fn sample() -> JsonValue {
    JsonValue::Object(vec![
        ("flag".to_string(), JsonValue::Bool(true)),
        ("count".to_string(), JsonValue::Number(Some(-3))),
        ("ratio".to_string(), JsonValue::Number(None)),
        ("name".to_string(), text("relay")),
        ("nothing".to_string(), JsonValue::Null),
        ("list".to_string(), JsonValue::Array(vec![JsonValue::Bool(false)])),
        ("inner".to_string(), JsonValue::Object(vec![("k".to_string(), text("v"))])),
        ("name".to_string(), text("later")),
        ("".to_string(), text("empty key")),
    ])
}

#[test]
fn members_are_found_by_key() {
    let value = sample();
    assert_eq!(value.get("flag"), Some(&JsonValue::Bool(true)));
    assert_eq!(value.get("nothing"), Some(&JsonValue::Null));
    assert_eq!(value.get(""), Some(&text("empty key")));
    assert_eq!(value.get("missing"), None);
    assert_eq!(value.get("Flag"), None);
    assert_eq!(value.get("fla"), None);
    assert_eq!(value.get("inner").and_then(|inner| inner.get("k")), Some(&text("v")));
}

#[test]
fn first_of_two_members_is_found() {
    assert_eq!(sample().get("name"), Some(&text("relay")));
}

#[test]
fn only_objects_have_members() {
    for value in [
        JsonValue::Null,
        JsonValue::Bool(true),
        JsonValue::Number(Some(0)),
        text("flag"),
        JsonValue::Array(vec![sample()]),
    ] {
        assert_eq!(value.get("flag"), None);
        assert!(!value.is_object());
    }
    assert!(sample().is_object());
    assert!(JsonValue::Object(vec![]).is_object());
}

#[test]
fn scalars_are_read_by_kind() {
    assert_eq!(JsonValue::Bool(true).as_bool(), Some(true));
    assert_eq!(JsonValue::Bool(false).as_bool(), Some(false));
    assert_eq!(JsonValue::Number(Some(1)).as_bool(), None);
    assert_eq!(text("true").as_bool(), None);

    assert_eq!(JsonValue::Number(Some(i64::MIN)).as_i64(), Some(i64::MIN));
    assert_eq!(JsonValue::Number(Some(i64::MAX)).as_i64(), Some(i64::MAX));
    assert_eq!(JsonValue::Number(None).as_i64(), None);
    assert_eq!(text("1").as_i64(), None);
    assert_eq!(JsonValue::Null.as_i64(), None);

    assert_eq!(text("relay").as_str(), Some("relay"));
    assert_eq!(text("").as_str(), Some(""));
    assert_eq!(JsonValue::Null.as_str(), None);
    assert_eq!(JsonValue::Number(Some(1)).as_str(), None);
}
