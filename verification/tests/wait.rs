use openwebui_chat::wait::{
    initial_poll_state, wait_step, FetchedMessage, PollAction, PollEvent, WaitResult,
    MAX_CONSECUTIVE_FAILURES,
};

#[test]
fn completed_message_is_notified_and_returned() {
    let (state, action) = wait_step(
        initial_poll_state(),
        PollEvent::Fetched(Some(FetchedMessage {
            content: "answer".into(),
            reasoning: Some("why".into()),
            done: true,
        })),
    );
    assert_eq!(state.consecutive_failures, 0);
    match action {
        PollAction::NotifyAndComplete { content, reasoning } => {
            assert_eq!(content, "answer");
            assert_eq!(reasoning.as_deref(), Some("why"));
        }
        _ => panic!("expected completion"),
    }
}

#[test]
fn unfinished_or_missing_message_keeps_polling() {
    let (_, action) = wait_step(
        initial_poll_state(),
        PollEvent::Fetched(Some(FetchedMessage { content: "".into(), reasoning: None, done: false })),
    );
    assert!(matches!(action, PollAction::Sleep));
    let (_, action) = wait_step(initial_poll_state(), PollEvent::Fetched(None));
    assert!(matches!(action, PollAction::Sleep));
    let (_, action) = wait_step(initial_poll_state(), PollEvent::DeadlineReached);
    assert!(matches!(action, PollAction::ReturnPending));
}

#[test]
fn five_consecutive_failures_give_up_and_answers_reset_the_count() {
    let mut state = initial_poll_state();
    for n in 1..MAX_CONSECUTIVE_FAILURES {
        let (next, action) = wait_step(state, PollEvent::FetchFailed("boom".into()));
        match action {
            PollAction::WarnAndSleep { failures, error } => {
                assert_eq!(failures, n);
                assert_eq!(error, "boom");
            }
            _ => panic!("expected a warning"),
        }
        state = next;
    }
    let (reset, _) = wait_step(state.clone(), PollEvent::Fetched(None));
    assert_eq!(reset.consecutive_failures, 0);
    let (_, action) = wait_step(state, PollEvent::FetchFailed("last".into()));
    match action {
        PollAction::GiveUp { failures, error } => {
            assert_eq!(failures, 5);
            assert_eq!(error, "last");
        }
        _ => panic!("expected to give up"),
    }
}

#[test]
fn wait_results_carry_status_and_ids() {
    let pending = WaitResult::pending("c", "m");
    assert_eq!(pending.status, "pending");
    assert_eq!(pending.content, "");
    assert!(pending.reasoning.is_none());
    assert_eq!(pending.chat_id, "c");
    let done = WaitResult::completed("c", "m", "text".into(), None);
    assert_eq!(done.status, "completed");
    assert_eq!(done.content, "text");
    assert_eq!(done.message_id, "m");
}
