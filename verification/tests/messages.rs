use openwebui_chat::json::{JsonMember, JsonValue};
use openwebui_chat::messages::{extract_content, extract_output_text, extract_reasoning, OutputSelect};

fn s(text: &str) -> JsonValue {
    JsonValue::Str(text.to_string())
}

fn obj(members: Vec<(&str, JsonValue)>) -> JsonValue {
    JsonValue::Object(
        members.into_iter().map(|(k, v)| JsonMember { key: k.to_string(), value: v }).collect(),
    )
}

#[test]
fn extracts_content_and_reasoning_from_separate_output_items() {
    let message = obj(vec![
        ("content", s("")),
        (
            "output",
            JsonValue::Array(vec![
                obj(vec![
                    ("type", s("reasoning")),
                    ("content", JsonValue::Array(vec![obj(vec![("text", s("Consider "))]), obj(vec![("content", s("the prompt."))])])),
                ]),
                obj(vec![
                    ("type", s("message")),
                    ("content", JsonValue::Array(vec![obj(vec![("text", s("Final "))]), obj(vec![("content", s("answer."))])])),
                ]),
                obj(vec![("content", JsonValue::Array(vec![obj(vec![("text", s("Untyped output."))])]))]),
            ]),
        ),
    ]);

    assert_eq!(extract_content(&message), "Final answer.Untyped output.");
    assert_eq!(extract_reasoning(&message), Some("Consider the prompt.".to_string()));
}

#[test]
fn extract_content_prefers_legacy_content_and_omits_reasoning() {
    let message = obj(vec![
        ("content", s("Legacy response")),
        (
            "output",
            JsonValue::Array(vec![obj(vec![
                ("type", s("reasoning")),
                ("content", JsonValue::Array(vec![obj(vec![("text", s("Hidden thought"))])])),
            ])]),
        ),
    ]);

    assert_eq!(extract_content(&message), "Legacy response");
    assert_eq!(extract_reasoning(&message), Some("Hidden thought".to_string()));
}

#[test]
fn no_output_gives_no_text_and_no_reasoning() {
    let message = obj(vec![("role", s("assistant"))]);
    assert_eq!(extract_content(&message), "");
    assert_eq!(extract_reasoning(&message), None);
    assert_eq!(extract_output_text(&JsonValue::Null, OutputSelect::Regular), "");
}

#[test]
fn text_entry_wins_over_content_entry_and_non_strings_are_skipped() {
    let message = obj(vec![(
        "output",
        JsonValue::Array(vec![obj(vec![
            ("type", s("")),
            (
                "content",
                JsonValue::Array(vec![
                    obj(vec![("text", s("A")), ("content", s("B"))]),
                    obj(vec![("text", JsonValue::Bool(true)), ("content", s("C"))]),
                    obj(vec![("text", JsonValue::Null)]),
                ]),
            ),
        ])]),
    )]);
    assert_eq!(extract_content(&message), "AC");
    assert_eq!(extract_output_text(&message, OutputSelect::Reasoning), "");
}
