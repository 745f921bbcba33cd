use launcher_core::common::json::Json;

#[test]
fn decodes_an_object_with_every_kind_of_value() {
    let doc = Json::from_slice(br#"{"a": null, "b": true, "c": 7, "d": -1, "e": "x", "f": [1, "y"]}"#)
        .expect("valid JSON");
    assert_eq!(doc.get("a"), Some(&Json::Null));
    assert_eq!(doc.get("b"), Some(&Json::Bool(true)));
    assert_eq!(doc.get("c"), Some(&Json::Unsigned(7)));
    assert_eq!(doc.get("d"), Some(&Json::Number));
    assert_eq!(doc.get("e"), Some(&Json::Text(String::from("x"))));
    assert_eq!(
        doc.get("f"),
        Some(&Json::Array(vec![Json::Unsigned(1), Json::Text(String::from("y"))]))
    );
    assert_eq!(doc.get("g"), None);
}

#[test]
fn refuses_text_that_is_no_json() {
    assert_eq!(Json::from_slice(b"{\"a\": "), None);
    assert_eq!(Json::from_slice(b""), None);
}

#[test]
fn get_finds_the_first_of_two_members_with_one_key() {
    let doc = Json::Object(vec![
        (String::from("k"), Json::Unsigned(1)),
        (String::from("k"), Json::Unsigned(2)),
    ]);
    assert_eq!(doc.get("k"), Some(&Json::Unsigned(1)));
    assert_eq!(Json::Null.get("k"), None);
}
