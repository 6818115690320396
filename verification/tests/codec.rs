use chat_completion::codec::{parse, render};
use chat_completion::json::Json;

fn text(s: &str) -> Json {
    Json::String(s.to_string())
}

#[test]
fn parse_reads_every_kind_of_value() {
    assert_eq!(parse("null"), Ok(Json::Null));
    assert_eq!(parse("true"), Ok(Json::Bool(true)));
    assert_eq!(parse("false"), Ok(Json::Bool(false)));
    assert_eq!(parse("12"), Ok(Json::Number(serde_json::Number::from(12u64))));
    assert_eq!(parse("-3"), Ok(Json::Number(serde_json::Number::from(-3i64))));
    assert_eq!(parse("\"hi\""), Ok(text("hi")));
    assert_eq!(parse("[]"), Ok(Json::Array(vec![])));
    assert_eq!(parse("{}"), Ok(Json::Object(vec![])));
    assert_eq!(
        parse(" [1, \"a\", null] "),
        Ok(Json::Array(vec![
            Json::Number(serde_json::Number::from(1u64)),
            text("a"),
            Json::Null,
        ]))
    );
}

#[test]
fn parse_reads_a_string_member() {
    let doc = parse("{\"city\": \"Paris\"}").unwrap();
    assert_eq!(doc.get_key("city"), Some(&text("Paris")));
    assert_eq!(doc, Json::Object(vec![("city".to_string(), text("Paris"))]));
}

#[test]
fn parse_keeps_the_last_of_repeated_keys() {
    let doc = parse("{\"a\": 1, \"a\": \"kept\"}").unwrap();
    assert_eq!(doc.get_key("a"), Some(&text("kept")));
    assert_eq!(doc, Json::Object(vec![("a".to_string(), text("kept"))]));
}

#[test]
fn parse_undoes_escapes() {
    assert_eq!(parse("\"a\\\"b\\\\c\\n\\u0041\""), Ok(text("a\"b\\c\nA")));
}

#[test]
fn parse_rejects_what_is_not_json() {
    for bad in ["", "{", "{\"a\": }", "[1, 2", "nul", "{\"a\" 1}", "\"open", "{} {}", "'a'"] {
        let outcome = parse(bad);
        assert!(outcome.is_err(), "{:?} was read as {:?}", bad, outcome);
    }
}

#[test]
fn parse_describes_what_it_rejects() {
    let error = parse("{\"a\": }").unwrap_err();
    assert!(!error.detail.is_empty());
    assert!(error.detail.contains("line 1"));
}

#[test]
fn render_writes_compact_text() {
    assert_eq!(render(&Json::Null), "null");
    assert_eq!(render(&Json::Bool(true)), "true");
    assert_eq!(render(&text("Paris")), "\"Paris\"");
    assert_eq!(render(&Json::Number(serde_json::Number::from(42u64))), "42");
    assert_eq!(render(&Json::Array(vec![Json::Null, Json::Bool(false)])), "[null,false]");
    let doc = Json::Object(vec![("city".to_string(), text("Paris"))]);
    assert_eq!(render(&doc), "{\"city\":\"Paris\"}");
}

#[test]
fn render_escapes_what_json_must_escape() {
    assert_eq!(render(&text("a\"b")), "\"a\\\"b\"");
    assert_eq!(render(&text("a\\b")), "\"a\\\\b\"");
    assert_eq!(render(&text("a\nb\tc")), "\"a\\nb\\tc\"");
    assert_eq!(render(&text("\u{1}")), "\"\\u0001\"");
}

#[test]
fn render_writes_one_member_per_key() {
    let doc = Json::Object(vec![
        ("b".to_string(), text("first")),
        ("a".to_string(), Json::Null),
        ("b".to_string(), text("last")),
    ]);
    assert_eq!(render(&doc), "{\"a\":null,\"b\":\"last\"}");
}

#[test]
fn render_then_parse_gives_the_same_members() {
    let doc = Json::Object(vec![
        ("name".to_string(), text("x")),
        (
            "list".to_string(),
            Json::Array(vec![Json::Number(serde_json::Number::from(1u64)), Json::Null]),
        ),
    ]);
    let back = parse(&render(&doc)).unwrap();
    assert_eq!(back.get_key("name"), doc.get_key("name"));
    assert_eq!(back.get_key("list"), doc.get_key("list"));
    assert_eq!(render(&back), render(&doc));
}
