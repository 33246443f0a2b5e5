use openwebui_chat::client::{
    auth_check_result, delete_chat_result, fetch_history_result, fetch_message_result,
    list_models_result, model_ids, submission_result, version_result, ClientError, HttpMethod,
    OpenWebUIClient, ResponseKind,
};
use openwebui_chat::json::{JsonMember, JsonNumber, JsonValue};

fn s(text: &str) -> JsonValue {
    JsonValue::Str(text.to_string())
}

fn obj(members: Vec<(&str, JsonValue)>) -> JsonValue {
    JsonValue::Object(
        members.into_iter().map(|(k, v)| JsonMember { key: k.to_string(), value: v }).collect(),
    )
}

fn member<'a>(v: &'a JsonValue, key: &str) -> &'a JsonValue {
    v.get(key).expect("member should exist")
}

fn client() -> OpenWebUIClient {
    OpenWebUIClient::new("http://server:8080".to_string(), "api-key".to_string())
}

#[test]
fn delete_chat_sends_authenticated_delete_and_returns_response_boolean() {
    let request = client().delete_chat_request("chat-123");
    assert_eq!(request.method, HttpMethod::Delete);
    assert_eq!(request.url, "http://server:8080/api/v1/chats/chat-123");
    assert_eq!(request.bearer.as_deref(), Some("api-key"));
    assert!(delete_chat_result(200, Some(&JsonValue::Bool(true))).unwrap());
    assert!(!delete_chat_result(200, Some(&JsonValue::Bool(false))).unwrap());
    assert!(!delete_chat_result(200, Some(&s("yes"))).unwrap());
}

#[test]
fn delete_chat_returns_false_when_chat_is_not_found() {
    assert!(!delete_chat_result(404, None).expect("404 should map to false"));
    assert!(matches!(delete_chat_result(500, None), Err(ClientError::HttpStatus(500))));
    assert!(matches!(
        delete_chat_result(200, None),
        Err(ClientError::BodyNotJson(ResponseKind::Delete))
    ));
}

#[test]
fn submit_message_sends_requested_web_search_feature() {
    let c = client();
    let submission = c.prepare_submission("Hello", "test-model", None, None, false);
    assert_eq!(submission.request.method, HttpMethod::Post);
    assert_eq!(submission.request.url, "http://server:8080/api/chat/completions");
    assert_eq!(submission.request.bearer.as_deref(), Some("api-key"));
    let payload = submission.request.body.as_ref().unwrap();
    let features = member(payload, "features");
    assert!(matches!(member(features, "web_search"), JsonValue::Bool(false)));
    assert!(payload.get("chat_id").is_none());
    assert!(matches!(member(payload, "parent_id"), JsonValue::Null));
    assert_eq!(payload.str_at("model"), Some("test-model"));

    let body = obj(vec![("chat_id", s("chat-123"))]);
    let result = submission_result(&submission, 200, String::new(), Some(&body))
        .expect("chat submission should succeed");
    assert_eq!(result.chat_id, "chat-123");
    assert_eq!(result.assistant_message_id, submission.assistant_message_id);
    assert_eq!(result.user_message_id.as_deref(), Some(submission.user_message_id.as_str()));
}

#[test]
fn follow_up_names_chat_and_parent_and_keeps_chat_without_server_id() {
    let submission = client().prepare_submission("Again", "m", Some("chat-9"), None, true);
    let payload = submission.request.body.as_ref().unwrap();
    assert_eq!(payload.str_at("chat_id"), Some("chat-9"));
    let parent = payload.str_at("parent_id").expect("follow-up has a parent");
    assert_eq!(parent.len(), 36);
    assert!(matches!(member(member(payload, "features"), "web_search"), JsonValue::Bool(true)));
    assert_eq!(payload.str_at("id"), Some(submission.assistant_message_id.as_str()));
    assert_eq!(payload.str_at("assistant_message_id"), Some(submission.assistant_message_id.as_str()));
    let user = member(member(payload, "metadata"), "user_message");
    assert_eq!(user.str_at("id"), Some(submission.user_message_id.as_str()));
    assert_eq!(user.str_at("content"), Some("Again"));
    match member(payload, "messages") {
        JsonValue::Array(items) => {
            assert_eq!(items.len(), 1);
            assert_eq!(items[0].str_at("role"), Some("user"));
            assert_eq!(items[0].str_at("content"), Some("Again"));
        }
        _ => panic!("messages should be an array"),
    }
    let result = submission_result(&submission, 200, String::new(), Some(&obj(vec![]))).unwrap();
    assert_eq!(result.chat_id, "chat-9");
}

#[test]
fn fresh_identifiers_are_uuid_v4_texts() {
    let submission = client().prepare_submission("x", "m", None, None, false);
    for id in [&submission.user_message_id, &submission.assistant_message_id, &submission.session_id] {
        let chars: Vec<char> = id.chars().collect();
        assert_eq!(chars.len(), 36);
        assert_eq!(chars[8], '-');
        assert_eq!(chars[14], '4');
        assert!("89ab".contains(chars[19]));
    }
    assert_ne!(submission.user_message_id, submission.assistant_message_id);
    assert!(submission.parent_id.is_none());
}

#[test]
fn submission_errors_follow_the_status() {
    let submission = client().prepare_submission("x", "m", None, None, false);
    assert!(matches!(
        submission_result(&submission, 403, "no".into(), None),
        Err(ClientError::SubmissionForbidden)
    ));
    match submission_result(&submission, 500, "boom".into(), None) {
        Err(ClientError::SubmissionFailed { status, body }) => {
            assert_eq!(status, 500);
            assert_eq!(body, "boom");
        }
        _ => panic!("expected failure"),
    }
    assert!(matches!(
        submission_result(&submission, 200, String::new(), None),
        Err(ClientError::BodyNotJson(ResponseKind::Submission))
    ));
}

#[test]
fn fetch_history_returns_all_messages_and_separates_reasoning_from_content() {
    let request = client().chat_request("chat-123");
    assert_eq!(request.method, HttpMethod::Get);
    assert_eq!(request.url, "http://server:8080/api/v1/chats/chat-123");
    assert_eq!(request.bearer.as_deref(), Some("api-key"));
    let body = obj(vec![
        ("title", s("History test")),
        (
            "chat",
            obj(vec![(
                "history",
                obj(vec![(
                    "messages",
                    obj(vec![
                        (
                            "assistant-direct",
                            obj(vec![
                                ("role", s("assistant")),
                                ("content", s("Direct content")),
                                ("done", JsonValue::Bool(true)),
                                ("timestamp", JsonValue::Number(JsonNumber::PosInt(100))),
                            ]),
                        ),
                        (
                            "assistant-fallback",
                            obj(vec![
                                ("role", s("assistant")),
                                ("content", s("")),
                                ("done", JsonValue::Bool(true)),
                                ("timestamp", JsonValue::Number(JsonNumber::PosInt(200))),
                                (
                                    "output",
                                    JsonValue::Array(vec![
                                        obj(vec![
                                            ("type", s("reasoning")),
                                            ("content", JsonValue::Array(vec![obj(vec![("text", s("Reasoning"))])])),
                                        ]),
                                        obj(vec![
                                            ("type", s("message")),
                                            (
                                                "content",
                                                JsonValue::Array(vec![
                                                    obj(vec![("text", s("Fallback "))]),
                                                    obj(vec![("content", s("content"))]),
                                                ]),
                                            ),
                                        ]),
                                    ]),
                                ),
                            ]),
                        ),
                    ]),
                )]),
            )]),
        ),
    ]);

    let history = fetch_history_result(200, "chat-123", Some(&body))
        .expect("history response should succeed");

    assert_eq!(history.chat_id, "chat-123");
    assert_eq!(history.title, "History test");
    assert_eq!(history.messages.len(), 2);
    assert_eq!(history.messages[0].role, "assistant");
    assert_eq!(history.messages[0].content, "Direct content");
    assert!(history.messages[0].done);
    assert_eq!(history.messages[0].timestamp, 100);
    assert_eq!(history.messages[1].content, "Fallback content");
    assert_eq!(history.messages[1].reasoning, Some("Reasoning".to_string()));
    assert_eq!(history.messages[1].timestamp, 200);
}

#[test]
fn fetch_history_errors() {
    match fetch_history_result(404, "gone", None) {
        Err(ClientError::ChatNotFound(id)) => assert_eq!(id, "gone"),
        _ => panic!("expected not found"),
    }
    assert!(matches!(fetch_history_result(502, "c", None), Err(ClientError::HttpStatus(502))));
    assert!(matches!(
        fetch_history_result(200, "c", Some(&obj(vec![("title", s("t"))]))),
        Err(ClientError::MessagesMissing)
    ));
    let defaults = obj(vec![(
        "chat",
        obj(vec![(
            "history",
            obj(vec![("messages", obj(vec![("m", obj(vec![("timestamp", JsonValue::Number(JsonNumber::NegInt(-1)))]))]))]),
        )]),
    )]);
    let history = fetch_history_result(200, "c", Some(&defaults)).unwrap();
    assert_eq!(history.title, "");
    assert_eq!(history.messages[0].role, "unknown");
    assert!(!history.messages[0].done);
    assert_eq!(history.messages[0].timestamp, 0);
}

#[test]
fn fetch_message_finds_the_message_by_id() {
    let body = obj(vec![(
        "chat",
        obj(vec![(
            "history",
            obj(vec![(
                "messages",
                obj(vec![
                    ("a1", obj(vec![("content", s("partial")), ("done", JsonValue::Bool(false))])),
                    ("a2", obj(vec![("content", s("all")), ("done", JsonValue::Bool(true))])),
                ]),
            )]),
        )]),
    )]);
    let m = fetch_message_result(200, "a2", Some(&body)).unwrap().unwrap();
    assert_eq!(m.content, "all");
    assert!(m.done);
    let m = fetch_message_result(200, "a1", Some(&body)).unwrap().unwrap();
    assert!(!m.done);
    assert!(fetch_message_result(200, "a3", Some(&body)).unwrap().is_none());
    assert!(fetch_message_result(404, "a1", None).unwrap().is_none());
    assert!(matches!(fetch_message_result(500, "a1", None), Err(ClientError::HttpStatus(500))));
}

#[test]
fn models_are_read_from_data_or_a_bare_array() {
    let wrapped = obj(vec![(
        "data",
        JsonValue::Array(vec![
            obj(vec![("id", s("llama")), ("name", s("Llama"))]),
            obj(vec![("name", s("named-only"))]),
            obj(vec![("other", s("x"))]),
        ]),
    )]);
    assert_eq!(model_ids(&wrapped), vec!["llama".to_string(), "named-only".to_string()]);
    let bare = JsonValue::Array(vec![obj(vec![("id", s("a"))])]);
    assert_eq!(model_ids(&bare), vec!["a".to_string()]);
    assert!(model_ids(&s("nothing")).is_empty());
    assert_eq!(list_models_result(200, String::new(), Some(&bare)).unwrap(), vec!["a".to_string()]);
    match list_models_result(401, "denied".into(), None) {
        Err(ClientError::ListModelsFailed { status, body }) => {
            assert_eq!(status, 401);
            assert_eq!(body, "denied");
        }
        _ => panic!("expected failure"),
    }
    let request = client().models_request();
    assert_eq!(request.url, "http://server:8080/api/models");
}

#[test]
fn connectivity_checks_version_then_key() {
    let request = client().version_request();
    assert_eq!(request.url, "http://server:8080/api/version");
    assert!(request.bearer.is_none());
    assert_eq!(client().auth_check_request().url, "http://server:8080/api/v1/chats/list");
    assert_eq!(version_result(200, Some(&obj(vec![("version", s("0.6.5"))]))).unwrap(), "0.6.5");
    assert_eq!(version_result(200, None).unwrap(), "unknown");
    assert!(matches!(version_result(503, None), Err(ClientError::ServerStatus(503))));
    assert_eq!(auth_check_result(200, "v".into()).unwrap(), "v");
    assert!(matches!(auth_check_result(401, "v".into()), Err(ClientError::InvalidApiKey)));
    assert!(matches!(auth_check_result(403, "v".into()), Err(ClientError::ApiKeyForbidden)));
    assert!(matches!(auth_check_result(500, "v".into()), Err(ClientError::UnexpectedStatus(500))));
}
