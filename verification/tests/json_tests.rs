use graph::json::{clone_json, get_member, insert_member, JsonValue};
use graph::types::Properties;

#[test]
fn members_are_set_in_place_or_appended() {
    let mut ms: Vec<(String, JsonValue)> = Vec::new();
    insert_member(&mut ms, "a".to_string(), JsonValue::Null);
    insert_member(&mut ms, "b".to_string(), JsonValue::Bool(true));
    insert_member(&mut ms, "a".to_string(), JsonValue::Bool(false));
    assert_eq!(ms.len(), 2);
    assert_eq!(ms[0].0, "a");
    assert!(matches!(ms[0].1, JsonValue::Bool(false)));
    let obj = JsonValue::Object(ms);
    assert!(matches!(get_member(&obj, "b"), Some(JsonValue::Bool(true))));
    assert!(get_member(&obj, "c").is_none());
    assert!(get_member(&JsonValue::Null, "a").is_none());
    let copy = clone_json(&obj);
    assert!(matches!(get_member(&copy, "a"), Some(JsonValue::Bool(false))));
}

#[test]
fn properties_keep_the_last_value() {
    let mut p = Properties::new();
    p.insert("k".to_string(), JsonValue::Number("1".to_string()));
    p.insert("k".to_string(), JsonValue::Number("2".to_string()));
    assert!(matches!(p.get("k"), Some(JsonValue::Number(n)) if n == "2"));
    assert!(p.get("z").is_none());
}
