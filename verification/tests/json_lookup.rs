use pbskids_dl::json::JsonValue;

fn object(entries: Vec<(&str, JsonValue)>) -> JsonValue {
    JsonValue::Object(entries.into_iter().map(|(k, v)| (k.to_string(), v)).collect())
}

#[test]
fn get_finds_member() {
    let v = object(vec![("a", JsonValue::Bool(true)), ("b", JsonValue::Null)]);
    assert!(matches!(v.get(&"a".to_string()), Some(JsonValue::Bool(true))));
    assert!(matches!(v.get(&"b".to_string()), Some(JsonValue::Null)));
    assert!(v.get(&"c".to_string()).is_none());
    assert!(JsonValue::Array(vec![]).get(&"a".to_string()).is_none());
}

#[test]
fn path_lookup_follows_members() {
    let v = object(vec![("a", object(vec![("b", JsonValue::Str("x".to_string()))]))]);
    let path = vec!["a".to_string(), "b".to_string()];
    match v.lookup_path(&path) {
        Some(JsonValue::Str(s)) => assert_eq!(s, "x"),
        other => panic!("unexpected {:?}", other),
    }
    assert!(v.lookup_path(&[]).is_some());
    let bad = vec!["a".to_string(), "z".to_string()];
    assert!(v.lookup_path(&bad).is_none());
    match v.into_path(&path) {
        Some(JsonValue::Str(s)) => assert_eq!(s, "x"),
        other => panic!("unexpected {:?}", other),
    }
}

#[test]
fn path_concatenation() {
    let v = object(vec![("a", object(vec![("b", object(vec![("c", JsonValue::Bool(false))]))]))]);
    let whole = vec!["a".to_string(), "b".to_string(), "c".to_string()];
    let first = vec!["a".to_string()];
    let rest = vec!["b".to_string(), "c".to_string()];
    let direct = v.lookup_path(&whole).is_some();
    let stepwise = v.lookup_path(&first).and_then(|w| w.lookup_path(&rest)).is_some();
    assert!(direct && stepwise);
}
