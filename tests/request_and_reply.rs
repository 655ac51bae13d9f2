use lai::cli::UsageError;
use lai::prompt::compose_message;
use lai::request::{build_request, prepare_request, resolve_model, DEFAULT_MODEL, SYSTEM_PROMPT};
use lai::response::{
    extract_content, is_success_status, reply_outcome, status_failure_message,
    unexpected_format_message, Json,
};

fn obj(fields: Vec<(&str, Json)>) -> Json {
    Json::Object(fields.into_iter().map(|(k, v)| (k.to_string(), v)).collect())
}

fn reply_with(content: Json) -> Json {
    obj(vec![(
        "choices",
        Json::Array(vec![obj(vec![("message", obj(vec![("content", content)]))])]),
    )])
}

#[test]
fn empty_prompt_is_refused_whatever_was_piped() {
    for piped in ["", "   ", "some context"] {
        let r = prepare_request("", piped, None);
        assert!(matches!(r, Err(UsageError::MissingPrompt)));
    }
    assert!(matches!(prepare_request("", "x", Some("foo".to_string())), Err(UsageError::MissingPrompt)));
}

#[test]
fn configured_model_overrides_default() {
    let req = match prepare_request("hi", "", Some("foo".to_string())) {
        Ok(r) => r,
        Err(_) => panic!("expected a request"),
    };
    assert_eq!(req.model, "foo");
    assert_eq!(resolve_model(None), "llama3.2");
    assert_eq!(DEFAULT_MODEL, "llama3.2");
    assert_eq!(resolve_model(Some(String::new())), "");
}

#[test]
fn request_carries_system_and_user_messages() {
    let req = match prepare_request("hi", "", None) {
        Ok(r) => r,
        Err(_) => panic!("expected a request"),
    };
    assert_eq!(req.model, "llama3.2");
    assert!(!req.stream);
    assert_eq!(req.messages.len(), 2);
    assert_eq!(req.messages[0].role, "system");
    assert_eq!(req.messages[0].content, SYSTEM_PROMPT);
    assert_eq!(req.messages[1].role, "user");
    assert_eq!(req.messages[1].content, compose_message("hi", ""));
    let b = build_request("m".to_string(), "u".to_string());
    assert_eq!(b.model, "m");
    assert_eq!(b.messages[1].content, "u");
}

#[test]
fn status_codes_split_at_success_range() {
    assert!(is_success_status(200));
    assert!(is_success_status(299));
    assert!(!is_success_status(199));
    assert!(!is_success_status(300));
    assert!(!is_success_status(500));
}

#[test]
fn failed_status_message_shows_status_and_body() {
    let m = status_failure_message("500 Internal Server Error", "\"oops\"");
    assert_eq!(m, "Request failed with status 500 Internal Server Error: \"oops\"");
    assert!(m.contains("Request failed with status 500"));
    assert!(m.contains("oops"));
}

#[test]
fn reply_text_is_printed_with_newline() {
    let reply = reply_with(Json::Str("hello".to_string()));
    assert_eq!(extract_content(&reply), Some("hello".to_string()));
    match reply_outcome(&reply, "unused") {
        Ok(out) => assert_eq!(out, "hello\n"),
        Err(_) => panic!("expected the reply text"),
    }
}

#[test]
fn empty_choices_is_unexpected_format() {
    let reply = obj(vec![("choices", Json::Array(vec![]))]);
    assert_eq!(extract_content(&reply), None);
    let text = "{\"choices\":[]}";
    match reply_outcome(&reply, text) {
        Err(msg) => {
            assert!(msg.contains("Unexpected response format"));
            assert!(msg.contains(text));
            assert_eq!(msg, unexpected_format_message(text));
        }
        Ok(_) => panic!("expected a diagnostic"),
    }
}

#[test]
fn other_shapes_have_no_content() {
    assert_eq!(extract_content(&reply_with(Json::Number("1".to_string()))), None);
    assert_eq!(extract_content(&reply_with(Json::Null)), None);
    assert_eq!(extract_content(&Json::Array(vec![])), None);
    assert_eq!(extract_content(&obj(vec![("choices", obj(vec![]))])), None);
    let first_wins = obj(vec![
        ("choices", Json::Array(vec![obj(vec![("message", obj(vec![("content", Json::Str("a".to_string()))]))])])),
        ("choices", Json::Array(vec![])),
    ]);
    assert_eq!(extract_content(&first_wins), Some("a".to_string()));
    assert_eq!(unexpected_format_message("{}"), "Unexpected response format: {}");
}
