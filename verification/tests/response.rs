use chat_completion::codec::{parse, render};
use chat_completion::config::ConfigError;
use chat_completion::json::Json;
use chat_completion::response::{
    check_status, decode_body, extract_answer, extract_usage, interpret_response, is_success,
    ClientError,
};

fn text(s: &str) -> Json {
    Json::String(s.to_string())
}

#[test]
fn success_is_the_two_hundreds() {
    assert!(!is_success(0));
    assert!(!is_success(100));
    assert!(!is_success(199));
    assert!(is_success(200));
    assert!(is_success(201));
    assert!(is_success(204));
    assert!(is_success(299));
    assert!(!is_success(300));
    assert!(!is_success(301));
    assert!(!is_success(401));
    assert!(!is_success(500));
    assert!(!is_success(u16::MAX));
}

#[test]
fn check_status_rejects_with_the_status() {
    assert_eq!(check_status(200), Ok(()));
    assert_eq!(check_status(299), Ok(()));
    assert_eq!(check_status(401), Err(ClientError::Rejected { status: 401 }));
    assert_eq!(check_status(500), Err(ClientError::Rejected { status: 500 }));
    assert_eq!(check_status(199), Err(ClientError::Rejected { status: 199 }));
    assert_eq!(check_status(300), Err(ClientError::Rejected { status: 300 }));
}

#[test]
fn rejected_response_carries_the_status_and_ignores_the_body() {
    let valid = "{\"choices\":[{\"message\":{\"content\":\"Paris\"}}]}";
    for status in [401u16, 500u16] {
        for body in [valid, "", "not json at all {{{", "{\"error\": \"denied\"}"] {
            assert_eq!(interpret_response(status, body), Err(ClientError::Rejected { status }));
        }
    }
}

#[test]
fn accepted_response_is_parsed() {
    let doc = interpret_response(200, "{\"choices\":[]}").unwrap();
    assert_eq!(doc, Json::Object(vec![("choices".to_string(), Json::Array(vec![]))]));
    assert_eq!(interpret_response(201, "[]"), Ok(Json::Array(vec![])));
}

#[test]
fn accepted_response_with_a_bad_body_is_a_transport_error() {
    assert!(matches!(
        interpret_response(200, "<html>oops</html>"),
        Err(ClientError::Transport { .. })
    ));
    assert!(matches!(decode_body(""), Err(ClientError::Transport { .. })));
    assert_eq!(decode_body("\"ok\""), Ok(text("ok")));
}

#[test]
fn error_kinds_are_told_apart() {
    let config = ClientError::Config(ConfigError::MissingKey);
    let transport = ClientError::Transport { detail: "connection refused".to_string() };
    let rejected = ClientError::Rejected { status: 401 };
    assert_ne!(config, transport);
    assert_ne!(transport, rejected);
    assert_ne!(rejected, config);
    assert_ne!(rejected, ClientError::Rejected { status: 500 });
}

#[test]
fn answer_is_extracted_from_a_response() {
    let doc = parse("{\"choices\":[{\"message\":{\"content\":\"Paris\"}}]}").unwrap();
    assert_eq!(extract_answer(&doc), Some(&text("Paris")));
    assert_eq!(extract_answer(&doc).unwrap().as_str(), Some("Paris"));
    assert_eq!(render(extract_answer(&doc).unwrap()), "\"Paris\"");
}

#[test]
fn answer_is_the_first_choice() {
    let doc = parse(
        "{\"id\":\"x\",\"choices\":[{\"index\":0,\"message\":{\"role\":\"assistant\",\"content\":\"first\"}},{\"message\":{\"content\":\"second\"}}]}",
    )
    .unwrap();
    assert_eq!(extract_answer(&doc), Some(&text("first")));
}

#[test]
fn answer_of_any_kind_is_handed_over_as_it_is() {
    let doc = parse("{\"choices\":[{\"message\":{\"content\":[1,2]}}]}").unwrap();
    assert_eq!(render(extract_answer(&doc).unwrap()), "[1,2]");
    let doc = parse("{\"choices\":[{\"message\":{\"content\":null}}]}").unwrap();
    assert_eq!(extract_answer(&doc), Some(&Json::Null));
}

#[test]
fn no_answer_when_choices_is_empty() {
    let doc = parse("{\"choices\":[]}").unwrap();
    assert_eq!(extract_answer(&doc), None);
}

#[test]
fn no_answer_when_choices_is_missing() {
    let doc = parse("{}").unwrap();
    assert_eq!(extract_answer(&doc), None);
}

#[test]
fn no_answer_when_content_is_missing() {
    let doc = parse("{\"choices\":[{\"message\":{}}]}").unwrap();
    assert_eq!(extract_answer(&doc), None);
}

#[test]
fn no_answer_when_a_level_has_the_wrong_shape() {
    for body in [
        "null",
        "[]",
        "\"choices\"",
        "42",
        "{\"choices\":{\"0\":{\"message\":{\"content\":\"x\"}}}}",
        "{\"choices\":\"none\"}",
        "{\"choices\":[[{\"message\":{\"content\":\"x\"}}]]}",
        "{\"choices\":[{\"message\":[\"content\"]}]}",
        "{\"choices\":[{\"message\":\"content\"}]}",
        "{\"choices\":[{}]}",
        "{\"choices\":[null]}",
        "{\"Choices\":[{\"message\":{\"content\":\"x\"}}]}",
    ] {
        let doc = parse(body).unwrap();
        assert_eq!(extract_answer(&doc), None, "an answer was found in {}", body);
    }
}

#[test]
fn usage_is_surfaced_whole_when_asked_for() {
    let body = "{\"choices\":[],\"usage\":{\"prompt_tokens\":12,\"completion_tokens\":7,\"total_time\":0.25,\"details\":{\"cached\":[1,2]}}}";
    let doc = parse(body).unwrap();
    let usage = extract_usage(&doc, true).unwrap();
    assert_eq!(
        render(usage),
        "{\"completion_tokens\":7,\"details\":{\"cached\":[1,2]},\"prompt_tokens\":12,\"total_time\":0.25}"
    );
    assert_eq!(Some(usage), doc.get_key("usage"));
    assert_eq!(
        usage.get_key("prompt_tokens"),
        Some(&Json::Number(serde_json::Number::from(12u64)))
    );
}

#[test]
fn usage_is_never_surfaced_when_not_asked_for() {
    let with_usage = parse("{\"usage\":{\"prompt_tokens\":12}}").unwrap();
    let without = parse("{\"choices\":[]}").unwrap();
    assert_eq!(extract_usage(&with_usage, false), None);
    assert_eq!(extract_usage(&without, false), None);
    assert_eq!(extract_usage(&Json::Null, false), None);
}

#[test]
fn absent_usage_is_not_an_error() {
    let doc = parse("{\"choices\":[{\"message\":{\"content\":\"Paris\"}}]}").unwrap();
    assert_eq!(extract_usage(&doc, true), None);
    assert_eq!(extract_usage(&Json::Array(vec![]), true), None);
    assert_eq!(extract_answer(&doc), Some(&text("Paris")));
}

#[test]
fn usage_of_any_kind_is_surfaced() {
    let doc = parse("{\"usage\":\"unknown\"}").unwrap();
    assert_eq!(extract_usage(&doc, true), Some(&text("unknown")));
}
