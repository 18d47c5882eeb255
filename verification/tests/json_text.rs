use ironn::json::JsonValue;

fn obj(pairs: Vec<(&str, JsonValue)>) -> JsonValue {
    JsonValue::Obj(pairs.into_iter().map(|(k, v)| (k.to_string(), v)).collect())
}

#[test]
fn scalars_serialize() {
    assert_eq!(JsonValue::Null.to_json_string(), "null");
    assert_eq!(JsonValue::Bool(true).to_json_string(), "true");
    assert_eq!(JsonValue::Bool(false).to_json_string(), "false");
    assert_eq!(JsonValue::Int(0).to_json_string(), "0");
    assert_eq!(JsonValue::Int(7).to_json_string(), "7");
    assert_eq!(JsonValue::Int(1234567890).to_json_string(), "1234567890");
    assert_eq!(JsonValue::Int(-42).to_json_string(), "-42");
}

#[test]
fn extreme_integers_serialize() {
    assert_eq!(
        JsonValue::Int(i64::MAX).to_json_string(),
        "9223372036854775807"
    );
    assert_eq!(
        JsonValue::Int(i64::MIN).to_json_string(),
        "-9223372036854775808"
    );
}

#[test]
fn strings_are_escaped() {
    assert_eq!(
        JsonValue::Str("a\"b\\c\nd\te\r".to_string()).to_json_string(),
        "\"a\\\"b\\\\c\\nd\\te\\r\""
    );
    assert_eq!(
        JsonValue::Str("\u{1}\u{1f}".to_string()).to_json_string(),
        "\"\\u0001\\u001f\""
    );
    assert_eq!(
        JsonValue::Str("héllo 🚀".to_string()).to_json_string(),
        "\"héllo 🚀\""
    );
}

#[test]
fn collections_serialize() {
    assert_eq!(JsonValue::Arr(vec![]).to_json_string(), "[]");
    assert_eq!(JsonValue::Obj(vec![]).to_json_string(), "{}");
    let v = JsonValue::Arr(vec![
        JsonValue::Int(1),
        JsonValue::Str("two".to_string()),
        JsonValue::Arr(vec![JsonValue::Null]),
    ]);
    assert_eq!(v.to_json_string(), "[1,\"two\",[null]]");
    let o = obj(vec![
        ("a", JsonValue::Int(1)),
        ("b", obj(vec![("c", JsonValue::Bool(false))])),
    ]);
    assert_eq!(o.to_json_string(), "{\"a\":1,\"b\":{\"c\":false}}");
}

#[test]
fn object_round_trips_through_a_json_parser() {
    let v = obj(vec![("a", JsonValue::Int(1))]);
    let parsed: serde_json::Value = serde_json::from_str(&v.to_json_string()).expect("valid JSON");
    let mut expected = serde_json::Map::new();
    expected.insert("a".to_string(), serde_json::Value::Number(1.into()));
    assert_eq!(parsed, serde_json::Value::Object(expected));
}

#[test]
fn nested_document_round_trips_through_a_json_parser() {
    let v = obj(vec![
        ("items", JsonValue::Arr(vec![JsonValue::Int(-5), JsonValue::Str("x\"y".to_string())])),
        ("ok", JsonValue::Bool(true)),
        ("none", JsonValue::Null),
    ]);
    let text = v.to_json_string();
    let parsed: serde_json::Value = serde_json::from_str(&text).expect("valid JSON");
    let mut expected = serde_json::Map::new();
    expected.insert(
        "items".to_string(),
        serde_json::Value::Array(vec![
            serde_json::Value::Number((-5).into()),
            serde_json::Value::String("x\"y".to_string()),
        ]),
    );
    expected.insert("ok".to_string(), serde_json::Value::Bool(true));
    expected.insert("none".to_string(), serde_json::Value::Null);
    assert_eq!(parsed, serde_json::Value::Object(expected));
}

#[test]
fn clone_preserves_the_document() {
    let v = obj(vec![
        ("a", JsonValue::Arr(vec![JsonValue::Int(1), JsonValue::Str("s".to_string())])),
        ("b", JsonValue::Null),
    ]);
    let c = v.clone();
    assert_eq!(c.to_json_string(), v.to_json_string());
}
