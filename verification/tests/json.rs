use n8n_mcp::json::put;
use n8n_mcp::{Json, Number};

#[test]
fn a_member_is_found_by_its_name() {
    let doc = Json::Object(vec![
        ("a".to_string(), Json::Bool(true)),
        ("b".to_string(), Json::Null),
    ]);
    assert_eq!(doc.get("a"), Some(&Json::Bool(true)));
    assert_eq!(doc.get("b"), Some(&Json::Null));
    assert_eq!(doc.get("c"), None);
    assert_eq!(doc.get(""), None);
}

#[test]
fn the_last_member_of_a_repeated_name_is_found() {
    let doc = Json::Object(vec![
        ("a".to_string(), Json::count(1)),
        ("b".to_string(), Json::count(2)),
        ("a".to_string(), Json::count(3)),
    ]);
    assert_eq!(doc.get("a"), Some(&Json::count(3)));
    assert_eq!(doc.get("b"), Some(&Json::count(2)));
}

#[test]
fn only_an_object_has_members() {
    assert_eq!(Json::Null.get("a"), None);
    assert_eq!(Json::text("a").get("a"), None);
    assert_eq!(Json::Array(vec![Json::text("a")]).get("a"), None);
    assert_eq!(Json::Object(vec![]).get("a"), None);
}

#[test]
fn a_copy_is_equal_to_its_source() {
    let doc = Json::Object(vec![
        ("list".to_string(), Json::Array(vec![
            Json::Null,
            Json::Bool(false),
            Json::Number(Number::Signed(-7)),
            Json::Number(Number::Binary64(0x3ff8_0000_0000_0000)),
            Json::Array(vec![]),
        ])),
        ("inner".to_string(), Json::Object(vec![("k".to_string(), Json::text("v"))])),
    ]);
    assert_eq!(doc.clone(), doc);
}

#[test]
fn documents_are_built_from_parts() {
    assert_eq!(Json::text("x"), Json::Text("x".to_string()));
    assert_eq!(Json::count(255), Json::Number(Number::Unsigned(255)));
    assert_eq!(Json::array(vec![Json::Null]), Json::Array(vec![Json::Null]));
    let mut members = Vec::new();
    put(&mut members, "k", Json::Bool(true));
    put(&mut members, "l", Json::Null);
    assert_eq!(
        Json::object(members),
        Json::Object(vec![("k".to_string(), Json::Bool(true)), ("l".to_string(), Json::Null)])
    );
}
