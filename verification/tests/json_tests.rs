use miniclaw::json::Json;

fn object(members: Vec<(&str, Json)>) -> Json {
    Json::Object(members.into_iter().map(|(k, v)| (k.to_string(), v)).collect())
}

#[test]
fn members_are_found_by_name() {
    let doc = object(vec![
        ("a", Json::Bool(true)),
        ("b", Json::Text("x".to_string())),
        ("a", Json::Null),
    ]);
    assert!(matches!(doc.get("a"), Some(Json::Bool(true))));
    assert!(matches!(doc.get("b"), Some(Json::Text(_))));
    assert!(doc.get("c").is_none());
    assert!(doc.get("").is_none());
    assert!(Json::Null.get("a").is_none());
    assert!(Json::Array(vec![doc]).get("a").is_none());
}

#[test]
fn items_are_found_by_position() {
    let list = Json::Array(vec![Json::Number("1".to_string()), Json::Text("two".to_string())]);
    assert!(matches!(list.at(0), Some(Json::Number(_))));
    assert_eq!(list.at(1).and_then(|j| j.as_str()), Some("two"));
    assert!(list.at(2).is_none());
    assert!(Json::Text("ab".to_string()).at(0).is_none());
    assert!(object(vec![("0", Json::Null)]).at(0).is_none());
    assert_eq!(list.as_array().map(|v| v.len()), Some(2));
    assert!(Json::Null.as_array().is_none());
}

#[test]
fn only_strings_have_text() {
    assert_eq!(Json::Text("t".to_string()).as_str(), Some("t"));
    assert_eq!(Json::Text(String::new()).as_str(), Some(""));
    assert_eq!(Json::Number("7".to_string()).as_str(), None);
    assert_eq!(Json::Bool(false).as_str(), None);
    assert_eq!(Json::Null.as_str(), None);
    assert_eq!(Json::Array(Vec::new()).as_str(), None);
    assert_eq!(object(Vec::new()).as_str(), None);
}
