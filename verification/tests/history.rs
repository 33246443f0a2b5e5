use openwebui_chat::history::{
    history_output, local_history_result, render_history_markdown, HistoryEntry, HistoryError,
    HistoryOutput, HistoryResult,
};
use openwebui_chat::session::LocalMessage;

fn entry(role: &str, content: &str, reasoning: Option<&str>, timestamp: u64) -> HistoryEntry {
    HistoryEntry {
        role: role.to_string(),
        content: content.to_string(),
        reasoning: reasoning.map(|r| r.to_string()),
        done: true,
        timestamp,
    }
}

#[test]
fn markdown_history_paginates_from_the_end_and_includes_reasoning() {
    let messages = vec![
        entry("user", "first", None, 1),
        entry("assistant", "second", Some("because"), 2),
        entry("user", "third", None, 3),
    ];

    let markdown = render_history_markdown("Thread", "chat-123", &messages, 1, 1)
        .expect("valid pagination should render");

    assert_eq!(
        markdown,
        "# Thread\n\n> Session: chat-123 | Page 1/3 | 3 messages total\n\n---\n\n## User\nthird\n"
    );

    let previous_page = render_history_markdown("Thread", "chat-123", &messages, 2, 1)
        .expect("valid pagination should render");
    assert!(previous_page.contains("## Assistant\nsecond"));
    assert!(previous_page.contains("<summary>Reasoning</summary>\n\nbecause"));
    assert!(!previous_page.contains("third"));
}

#[test]
fn markdown_history_reports_pages_beyond_available_messages() {
    let markdown = render_history_markdown("Thread", "chat-123", &[], 2, 10)
        .expect("valid pagination should render");

    assert_eq!(
        markdown,
        "# Thread\n\n> Session: chat-123 | Page 2/0 | 0 messages total\n\n---\n\nPage 2 exceeds total pages (0).\n"
    );
}

#[test]
fn markdown_page_separates_messages_and_shows_other_roles_verbatim() {
    let messages = vec![
        entry("system", "rules", None, 1),
        entry("user", "q", None, 2),
        entry("assistant", "a", Some("r"), 3),
    ];
    let markdown = render_history_markdown("T", "c", &messages, 1, 10).unwrap();
    assert_eq!(
        markdown,
        "# T\n\n> Session: c | Page 1/1 | 3 messages total\n\n---\n\n## system\nrules\n\n---\n\n## User\nq\n\n---\n\n## Assistant\na\n\n<details>\n<summary>Reasoning</summary>\n\nr\n\n</details>\n"
    );
}

#[test]
fn markdown_pages_tile_the_history() {
    let messages: Vec<HistoryEntry> =
        (0..7).map(|i| entry("user", &format!("m{}", i), None, i)).collect();
    // 7 messages, 3 per page: pages hold m4..m6, m1..m3, m0.
    let p1 = render_history_markdown("T", "c", &messages, 1, 3).unwrap();
    let p2 = render_history_markdown("T", "c", &messages, 2, 3).unwrap();
    let p3 = render_history_markdown("T", "c", &messages, 3, 3).unwrap();
    assert!(p1.contains("Page 1/3 | 7 messages total"));
    for (page, shown) in [(&p1, vec![4, 5, 6]), (&p2, vec![1, 2, 3]), (&p3, vec![0])] {
        for i in 0..7 {
            assert_eq!(page.contains(&format!("\nm{}\n", i)), shown.contains(&i));
        }
    }
    let p4 = render_history_markdown("T", "c", &messages, 4, 3).unwrap();
    assert!(p4.ends_with("\nPage 4 exceeds total pages (3).\n"));
}

#[test]
fn markdown_rejects_zero_page_and_page_size() {
    assert_eq!(render_history_markdown("T", "c", &[], 0, 10).err(), Some(HistoryError::PageZero));
    assert_eq!(render_history_markdown("T", "c", &[], 1, 0).err(), Some(HistoryError::PageSizeZero));
}

#[test]
fn local_history_is_titled_by_chat_and_marked_done() {
    let messages = vec![
        LocalMessage { role: "user".into(), content: "Hello".into(), reasoning: None, timestamp: 100 },
        LocalMessage {
            role: "assistant".into(),
            content: "Hi there".into(),
            reasoning: Some("I should greet the user.".into()),
            timestamp: 101,
        },
    ];
    let result = local_history_result("chat-123", messages);
    assert_eq!(result.chat_id, "chat-123");
    assert_eq!(result.title, "Chat chat-123");
    assert_eq!(result.messages.len(), 2);
    assert!(result.messages.iter().all(|m| m.done));
    assert_eq!(result.messages[1].reasoning.as_deref(), Some("I should greet the user."));
    assert_eq!(result.messages[0].timestamp, 100);
}

#[test]
fn history_output_chooses_format_and_defaults() {
    let result = HistoryResult {
        chat_id: "c".into(),
        title: "T".into(),
        messages: vec![entry("user", "x", None, 1)],
    };
    assert!(matches!(history_output(&result, None, None, Some("json")), Ok(HistoryOutput::Json)));
    match history_output(&result, None, None, None) {
        Ok(HistoryOutput::Markdown(text)) => {
            assert!(text.starts_with("# T\n\n> Session: c | Page 1/1 | 1 messages total"))
        }
        _ => panic!("expected markdown"),
    }
    assert_eq!(
        history_output(&result, None, None, Some("yaml")).err(),
        Some(HistoryError::UnsupportedFormat("yaml".into()))
    );
    assert_eq!(history_output(&result, Some(0), None, None).err(), Some(HistoryError::PageZero));
}
