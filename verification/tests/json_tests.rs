use gor_keyless_backend::json::{JsonMember, JsonNumber, JsonValue};

fn member(key: &str, value: JsonValue) -> JsonMember {
    JsonMember { key: key.to_string(), value }
}

#[test]
fn members_are_found_by_key() {
    let object = JsonValue::Object(vec![
        member("a", JsonValue::Bool(false)),
        member("value", JsonValue::Number(JsonNumber::Unsigned(9))),
        member("", JsonValue::Null),
    ]);
    assert_eq!(object.get("value"), Some(&JsonValue::Number(JsonNumber::Unsigned(9))));
    assert_eq!(object.get("a"), Some(&JsonValue::Bool(false)));
    assert_eq!(object.get(""), Some(&JsonValue::Null));
    assert_eq!(object.get("Value"), None);
    assert_eq!(object.get("valu"), None);
}

#[test]
fn the_first_of_equal_keys_is_the_member() {
    let object = JsonValue::Object(vec![
        member("k", JsonValue::Number(JsonNumber::Unsigned(1))),
        member("k", JsonValue::Number(JsonNumber::Unsigned(2))),
    ]);
    assert_eq!(object.get("k"), Some(&JsonValue::Number(JsonNumber::Unsigned(1))));
}

#[test]
fn only_objects_have_members() {
    assert_eq!(JsonValue::Null.get("a"), None);
    assert_eq!(JsonValue::Text("a".to_string()).get("a"), None);
    assert_eq!(JsonValue::Array(vec![JsonValue::Null]).get("0"), None);
    assert_eq!(JsonValue::Object(Vec::new()).get("a"), None);
}

#[test]
fn only_non_negative_integers_are_unsigned() {
    assert_eq!(JsonValue::Number(JsonNumber::Unsigned(0)).as_u64(), Some(0));
    assert_eq!(JsonValue::Number(JsonNumber::Unsigned(u64::MAX)).as_u64(), Some(u64::MAX));
    assert_eq!(JsonValue::Number(JsonNumber::Negative(-1)).as_u64(), None);
    assert_eq!(JsonValue::Number(JsonNumber::Double(1.0f64.to_bits())).as_u64(), None);
    assert_eq!(JsonValue::Text("1".to_string()).as_u64(), None);
    assert_eq!(JsonValue::Bool(true).as_u64(), None);
    assert_eq!(JsonValue::Null.as_u64(), None);
}
