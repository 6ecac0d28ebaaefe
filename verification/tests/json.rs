use sharpi::json::{parse, Json};

fn text(s: &str) -> Json {
    Json::Text(s.to_string())
}

#[test]
fn scalars_are_read() {
    assert_eq!(parse("null"), Some(Json::Null));
    assert_eq!(parse("true"), Some(Json::Bool(true)));
    assert_eq!(parse("false"), Some(Json::Bool(false)));
    assert_eq!(parse("\"hi\""), Some(text("hi")));
    assert_eq!(parse("12"), Some(Json::Number("12".to_string())));
    assert_eq!(parse("-7"), Some(Json::Number("-7".to_string())));
    assert_eq!(parse("1.5"), Some(Json::Number("1.5".to_string())));
}

#[test]
fn escapes_in_strings_are_resolved() {
    assert_eq!(parse("\"a\\nb\\\"c\""), Some(text("a\nb\"c")));
    assert_eq!(parse("\"\\u00e4\""), Some(text("ä")));
}

#[test]
fn arrays_keep_their_order() {
    assert_eq!(
        parse("[1, \"two\", [], null]"),
        Some(Json::Array(vec![
            Json::Number("1".to_string()),
            text("two"),
            Json::Array(vec![]),
            Json::Null,
        ]))
    );
}

#[test]
fn objects_hold_their_members_by_key() {
    assert_eq!(
        parse("{\"b\": 1, \"a\": {\"c\": \"d\"}}"),
        Some(Json::Object(vec![
            ("a".to_string(), Json::Object(vec![("c".to_string(), text("d"))])),
            ("b".to_string(), Json::Number("1".to_string())),
        ]))
    );
}

#[test]
fn a_repeated_key_keeps_its_last_value() {
    assert_eq!(
        parse("{\"a\": 1, \"a\": 2}"),
        Some(Json::Object(vec![("a".to_string(), Json::Number("2".to_string()))]))
    );
}

#[test]
fn what_is_no_document_is_rejected() {
    assert_eq!(parse(""), None);
    assert_eq!(parse("not json"), None);
    assert_eq!(parse("{\"a\": }"), None);
    assert_eq!(parse("[1, 2"), None);
    assert_eq!(parse("{} trailing"), None);
}

#[test]
fn members_are_found_by_name() {
    let doc = parse("{\"a\": 1, \"b\": \"x\"}").unwrap();
    assert_eq!(doc.member("b"), Some(&text("x")));
    assert_eq!(doc.member("a"), Some(&Json::Number("1".to_string())));
    assert_eq!(doc.member("c"), None);
    assert_eq!(text("a").member("a"), None);
    assert_eq!(Json::Array(vec![text("a")]).member("a"), None);
}

#[test]
fn the_first_member_of_a_name_is_found() {
    let doc = Json::Object(vec![
        ("k".to_string(), text("first")),
        ("k".to_string(), text("second")),
    ]);
    assert_eq!(doc.member("k"), Some(&text("first")));
}

#[test]
fn elements_are_found_by_index() {
    let doc = parse("[\"zero\", \"one\"]").unwrap();
    assert_eq!(doc.element(0), Some(&text("zero")));
    assert_eq!(doc.element(1), Some(&text("one")));
    assert_eq!(doc.element(2), None);
    assert_eq!(Json::Null.element(0), None);
    assert_eq!(Json::Object(vec![]).element(0), None);
}

#[test]
fn only_strings_have_text() {
    assert_eq!(text("t").as_str(), Some("t"));
    assert_eq!(Json::Number("1".to_string()).as_str(), None);
    assert_eq!(Json::Null.as_str(), None);
    assert_eq!(Json::Bool(true).as_str(), None);
}
