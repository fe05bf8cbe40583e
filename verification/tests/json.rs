use ktra::json::Json;

#[test]
fn documents_are_read_member_by_member() {
    let doc = Json::parse("{\"a\":\"x\",\"b\":[1,null,true],\"c\":{\"d\":false}}").unwrap();
    assert_eq!(doc.member("a").unwrap().as_text(), Some("x"));
    let items = doc.member("b").unwrap().as_array().unwrap();
    assert_eq!(items.len(), 3);
    assert_eq!(items[0], Json::Number);
    assert!(items[1].is_null());
    assert_eq!(items[2].as_bool(), Some(true));
    assert_eq!(doc.member("c").unwrap().member("d").unwrap().as_bool(), Some(false));
    assert!(doc.member("z").is_none());
    assert!(items[0].member("a").is_none());
    assert_eq!(items[0].as_text(), None);
}

#[test]
fn text_that_is_no_document_is_refused() {
    assert_eq!(Json::parse("{\"a\":"), None);
    assert_eq!(Json::parse(""), None);
    assert_eq!(Json::parse("\"s\""), Some(Json::Text("s".to_string())));
}
