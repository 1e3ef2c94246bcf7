use playlist_mirror::json::Json;

fn text(s: &str) -> Json {
    Json::Text(s.to_string())
}

fn object(fields: Vec<(&str, Json)>) -> Json {
    Json::Object(fields.into_iter().map(|(k, v)| (k.to_string(), v)).collect())
}

#[test]
fn parse_reads_an_object() {
    assert_eq!(
        Json::parse(r#"{"url": "http://x/y.mp3"}"#),
        Some(object(vec![("url", text("http://x/y.mp3"))]))
    );
}

#[test]
fn parse_reads_every_kind_of_value() {
    assert_eq!(Json::parse("null"), Some(Json::Null));
    assert_eq!(Json::parse("true"), Some(Json::Bool(true)));
    assert_eq!(Json::parse("false"), Some(Json::Bool(false)));
    assert_eq!(Json::parse("12.5"), Some(Json::Number));
    assert_eq!(Json::parse(r#""a\nb""#), Some(text("a\nb")));
    assert_eq!(
        Json::parse(r#"[1, "two", [null]]"#),
        Some(Json::Array(vec![Json::Number, text("two"), Json::Array(vec![Json::Null])]))
    );
}

#[test]
fn parse_reads_nested_documents() {
    let doc = Json::parse(r#"{"a": {"b": [{"c": "d"}]}}"#);
    assert_eq!(
        doc,
        Some(object(vec![(
            "a",
            object(vec![("b", Json::Array(vec![object(vec![("c", text("d"))])]))])
        )]))
    );
}

#[test]
fn parse_refuses_what_is_no_json() {
    assert_eq!(Json::parse(""), None);
    assert_eq!(Json::parse("{"), None);
    assert_eq!(Json::parse("<html></html>"), None);
    assert_eq!(Json::parse(r#"{"a": 1} trailing"#), None);
    assert_eq!(Json::parse("{'a': 1}"), None);
}

#[test]
fn member_finds_a_field_by_name() {
    let doc = object(vec![("a", text("1")), ("b", text("2"))]);
    assert_eq!(doc.member("a"), Some(&text("1")));
    assert_eq!(doc.member("b"), Some(&text("2")));
    assert_eq!(doc.member("c"), None);
    assert_eq!(doc.member(""), None);
}

#[test]
fn member_takes_the_first_field_of_a_name() {
    let doc = object(vec![("a", text("first")), ("a", text("second"))]);
    assert_eq!(doc.member("a"), Some(&text("first")));
}

#[test]
fn member_finds_nothing_outside_objects() {
    assert_eq!(text("a").member("a"), None);
    assert_eq!(Json::Null.member("a"), None);
    assert_eq!(Json::Array(vec![text("a")]).member("a"), None);
}

#[test]
fn as_array_and_as_str_tell_kinds_apart() {
    let list = Json::Array(vec![Json::Null]);
    assert_eq!(list.as_array(), Some(&vec![Json::Null]));
    assert_eq!(list.as_str(), None);
    assert_eq!(text("x").as_str(), Some("x"));
    assert_eq!(text("x").as_array(), None);
    assert_eq!(Json::Number.as_str(), None);
    assert_eq!(Json::Null.as_array(), None);
}

#[test]
fn member_text_wants_a_text() {
    let doc = object(vec![("url", Json::Null), ("name", text("n")), ("n", Json::Number)]);
    assert_eq!(doc.member_text("name"), Some("n"));
    assert_eq!(doc.member_text("url"), None);
    assert_eq!(doc.member_text("n"), None);
    assert_eq!(doc.member_text("missing"), None);
}
