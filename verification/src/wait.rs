//! Waiting for an assistant message to complete: the decisions of the
//! polling loop, as a state machine that the caller drives. The caller
//! checks the deadline, fetches the message, sleeps and notifies; this module
//! decides what to do with each outcome.
use vstd::prelude::*;

verus! {

/// Consecutive failed polls after which waiting gives up.
pub const MAX_CONSECUTIVE_FAILURES: u32 = 5;

/// The assistant message as one poll found it.
#[derive(Clone, Debug)]
pub struct FetchedMessage {
    pub content: String,
    pub reasoning: Option<String>,
    pub done: bool,
}

/// What the caller observed on one turn of the polling loop.
#[derive(Clone, Debug)]
pub enum PollEvent {
    /// The deadline has passed; nothing was fetched.
    DeadlineReached,
    /// The chat was fetched: the message, or `None` when it does not exist yet.
    Fetched(Option<FetchedMessage>),
    /// Fetching the chat failed with this error text.
    FetchFailed(String),
}

/// What the caller must do next.
#[derive(Clone, Debug)]
pub enum PollAction {
    /// Stop waiting and report the message as still pending.
    ReturnPending,
    /// Run the notification command once, then stop and report the message
    /// as completed with this content.
    NotifyAndComplete { content: String, reasoning: Option<String> },
    /// Sleep for the poll interval, then poll again.
    Sleep,
    /// Report poll failure number `failures`, sleep, then poll again.
    WarnAndSleep { failures: u32, error: String },
    /// Report poll failure number `failures` and stop with an error.
    GiveUp { failures: u32, error: String },
}

/// The loop's memory between polls.
#[derive(Clone, Debug)]
pub struct PollState {
    pub consecutive_failures: u32,
}

/// Whether an action ends the wait.
pub open spec fn is_terminal(action: PollAction) -> bool {
    match action {
        PollAction::ReturnPending => true,
        PollAction::NotifyAndComplete { .. } => true,
        PollAction::GiveUp { .. } => true,
        _ => false,
    }
}

/// One turn of the loop: the next state and the action for an event.
pub open spec fn poll_transition(state: PollState, event: PollEvent) -> (PollState, PollAction) {
    match event {
        PollEvent::DeadlineReached => (state, PollAction::ReturnPending),
        PollEvent::Fetched(Some(m)) => if m.done {
            (
                PollState { consecutive_failures: 0 },
                PollAction::NotifyAndComplete { content: m.content, reasoning: m.reasoning },
            )
        } else {
            (PollState { consecutive_failures: 0 }, PollAction::Sleep)
        },
        PollEvent::Fetched(None) => (PollState { consecutive_failures: 0 }, PollAction::Sleep),
        PollEvent::FetchFailed(error) => {
            let failures = (state.consecutive_failures + 1) as u32;
            if failures >= MAX_CONSECUTIVE_FAILURES {
                (PollState { consecutive_failures: failures }, PollAction::GiveUp { failures, error })
            } else {
                (
                    PollState { consecutive_failures: failures },
                    PollAction::WarnAndSleep { failures, error },
                )
            }
        },
    }
}

/// The state in which waiting starts.
pub fn initial_poll_state() -> (state: PollState)
    ensures
        state.consecutive_failures == 0,
{
    PollState { consecutive_failures: 0 }
}

/// Decides one turn of the polling loop. A deadline ends the wait as
/// pending; a completed message ends it with a notification; any answer from
/// the server resets the failure count; a failed poll counts, and the fifth
/// failure in a row ends the wait with an error.
pub fn wait_step(state: PollState, event: PollEvent) -> (r: (PollState, PollAction))
    requires
        state.consecutive_failures < MAX_CONSECUTIVE_FAILURES,
    ensures
        r == poll_transition(state, event),
        !is_terminal(r.1) ==> r.0.consecutive_failures < MAX_CONSECUTIVE_FAILURES,
        event is Fetched ==> r.0.consecutive_failures == 0,
        event is FetchFailed ==> r.0.consecutive_failures == state.consecutive_failures + 1,
{
    match event {
        PollEvent::DeadlineReached => (state, PollAction::ReturnPending),
        PollEvent::Fetched(Some(m)) => {
            if m.done {
                (
                    PollState { consecutive_failures: 0 },
                    PollAction::NotifyAndComplete { content: m.content, reasoning: m.reasoning },
                )
            } else {
                (PollState { consecutive_failures: 0 }, PollAction::Sleep)
            }
        },
        PollEvent::Fetched(None) => (PollState { consecutive_failures: 0 }, PollAction::Sleep),
        PollEvent::FetchFailed(error) => {
            let failures = state.consecutive_failures + 1;
            if failures >= MAX_CONSECUTIVE_FAILURES {
                (PollState { consecutive_failures: failures }, PollAction::GiveUp { failures, error })
            } else {
                (
                    PollState { consecutive_failures: failures },
                    PollAction::WarnAndSleep { failures, error },
                )
            }
        },
    }
}

/// The actions of a whole wait over a sequence of events, up to and
/// including the first action that ends it.
pub open spec fn run_actions(state: PollState, events: Seq<PollEvent>) -> Seq<PollAction>
    decreases events.len(),
{
    if events.len() == 0 {
        Seq::empty()
    } else {
        let (next, action) = poll_transition(state, events[0]);
        if is_terminal(action) {
            seq![action]
        } else {
            seq![action] + run_actions(next, events.drop_first())
        }
    }
}

/// During a wait, every action but the last one sleeps and polls again: the
/// wait ends at most once, and the notification of a completed message is
/// given at most once, as the last action.
pub proof fn lemma_wait_ends_once(state: PollState, events: Seq<PollEvent>)
    ensures
        run_actions(state, events).len() <= events.len(),
        forall|i: int|
            0 <= i < run_actions(state, events).len() - 1 ==> !is_terminal(
                #[trigger] run_actions(state, events)[i],
            ),
        forall|i: int, j: int|
            0 <= i < run_actions(state, events).len() && 0 <= j < run_actions(state, events).len()
                && #[trigger] run_actions(state, events)[i] is NotifyAndComplete
                && #[trigger] run_actions(state, events)[j] is NotifyAndComplete ==> i == j && j
                == run_actions(state, events).len() - 1,
    decreases events.len(),
{
    if events.len() > 0 {
        let (next, action) = poll_transition(state, events[0]);
        if !is_terminal(action) {
            lemma_wait_ends_once(next, events.drop_first());
            let rest = run_actions(next, events.drop_first());
            let acts = run_actions(state, events);
            assert(acts == seq![action] + rest);
            assert forall|i: int| 0 <= i < acts.len() - 1 implies !is_terminal(#[trigger] acts[i]) by {
                if i > 0 {
                    assert(acts[i] == rest[i - 1]);
                }
            }
            assert forall|i: int, j: int|
                0 <= i < acts.len() && 0 <= j < acts.len() && #[trigger] acts[i] is NotifyAndComplete
                    && #[trigger] acts[j] is NotifyAndComplete implies i == j && j == acts.len()
                - 1 by {
                if i > 0 {
                    assert(acts[i] == rest[i - 1]);
                }
                if j > 0 {
                    assert(acts[j] == rest[j - 1]);
                }
            }
        }
    }
}

/// A wait gives up only after failed polls in a row: when it ends with
/// giving up, the last five events it consumed (all of them, when it
/// consumed fewer) are failures, and together with the failures counted
/// before it started they make at least five.
pub proof fn lemma_give_up_after_consecutive_failures(state: PollState, events: Seq<PollEvent>)
    requires
        state.consecutive_failures < MAX_CONSECUTIVE_FAILURES,
        run_actions(state, events).len() > 0,
        run_actions(state, events).last() is GiveUp,
    ensures
        ({
            let n = run_actions(state, events).len();
            &&& n + state.consecutive_failures >= MAX_CONSECUTIVE_FAILURES
            &&& forall|j: int|
                0 <= j < n && j >= n - MAX_CONSECUTIVE_FAILURES ==> #[trigger] events[j] is FetchFailed
        }),
    decreases events.len(),
{
    let (next, action) = poll_transition(state, events[0]);
    let acts = run_actions(state, events);
    let n = acts.len();
    if is_terminal(action) {
        assert(acts == seq![action]);
    } else {
        lemma_wait_ends_once(next, events.drop_first());
        let rest = run_actions(next, events.drop_first());
        assert(acts == seq![action] + rest);
        assert(rest.len() > 0);
        assert(rest.last() == acts.last());
        lemma_give_up_after_consecutive_failures(next, events.drop_first());
        assert forall|j: int|
            0 <= j < n && j >= n - MAX_CONSECUTIVE_FAILURES implies #[trigger] events[j] is FetchFailed by {
            if j == 0 {
                if !(events[0] is FetchFailed) {
                    assert(next.consecutive_failures == 0);
                }
            } else {
                assert(events.drop_first()[j - 1] == events[j]);
            }
        }
    }
}

/// Five failed polls in a row from the start end the wait with an error on
/// the fifth, and not before.
pub proof fn lemma_five_failures_give_up(events: Seq<PollEvent>)
    requires
        events.len() >= 5,
        forall|j: int| 0 <= j < 5 ==> #[trigger] events[j] is FetchFailed,
    ensures
        run_actions(PollState { consecutive_failures: 0 }, events).len() == 5,
        run_actions(PollState { consecutive_failures: 0 }, events)[4] is GiveUp,
{
    let e1 = events.drop_first();
    let e2 = e1.drop_first();
    let e3 = e2.drop_first();
    let e4 = e3.drop_first();
    assert(events[0] is FetchFailed);
    assert(e1[0] == events[1]);
    assert(e2[0] == events[2]);
    assert(e3[0] == events[3]);
    assert(e4[0] == events[4]);
    let s4 = PollState { consecutive_failures: 4 };
    let s3 = PollState { consecutive_failures: 3 };
    let s2 = PollState { consecutive_failures: 2 };
    let s1 = PollState { consecutive_failures: 1 };
    assert(run_actions(s4, e4).len() == 1 && run_actions(s4, e4)[0] is GiveUp);
    assert(run_actions(s3, e3) == seq![poll_transition(s3, e3[0]).1] + run_actions(s4, e4));
    assert(run_actions(s2, e2) == seq![poll_transition(s2, e2[0]).1] + run_actions(s3, e3));
    assert(run_actions(s1, e1) == seq![poll_transition(s1, e1[0]).1] + run_actions(s2, e2));
}

/// The result reported when waiting ends.
#[derive(Clone, Debug)]
pub struct WaitResult {
    /// `"completed"` or `"pending"`.
    pub status: String,
    pub content: String,
    pub reasoning: Option<String>,
    pub chat_id: String,
    pub message_id: String,
}

impl WaitResult {
    /// The result when the deadline passed before the message completed:
    /// status `"pending"`, no content and no reasoning.
    pub fn pending(chat_id: &str, message_id: &str) -> (r: WaitResult)
        ensures
            r.status@ == "pending"@,
            r.content@ == Seq::<char>::empty(),
            r.reasoning is None,
            r.chat_id@ == chat_id@,
            r.message_id@ == message_id@,
    {
        WaitResult {
            status: "pending".to_owned(),
            content: String::new(),
            reasoning: None,
            chat_id: chat_id.to_owned(),
            message_id: message_id.to_owned(),
        }
    }

    /// The result for a completed message: status `"completed"` with its
    /// content and reasoning.
    pub fn completed(
        chat_id: &str,
        message_id: &str,
        content: String,
        reasoning: Option<String>,
    ) -> (r: WaitResult)
        ensures
            r.status@ == "completed"@,
            r.content == content,
            r.reasoning == reasoning,
            r.chat_id@ == chat_id@,
            r.message_id@ == message_id@,
    {
        WaitResult {
            status: "completed".to_owned(),
            content,
            reasoning,
            chat_id: chat_id.to_owned(),
            message_id: message_id.to_owned(),
        }
    }
}

/// A message that is still being written never ends the wait, whatever it
/// holds so far: the loop sleeps and polls again, with no failure counted.
pub proof fn lemma_unfinished_message_keeps_waiting(state: PollState, m: FetchedMessage)
    requires
        !m.done,
    ensures
        poll_transition(state, PollEvent::Fetched(Some(m))).1 is Sleep,
        poll_transition(state, PollEvent::Fetched(Some(m))).0.consecutive_failures == 0,
{
}

/// A wait completes only on a message that is done, and reports exactly that
/// message's content and reasoning: whenever a wait's action completes it,
/// the event it answers is a fetched message whose done flag is set.
pub proof fn lemma_completion_only_when_done(state: PollState, events: Seq<PollEvent>, i: int)
    requires
        0 <= i < run_actions(state, events).len(),
        run_actions(state, events)[i] is NotifyAndComplete,
    ensures
        i < events.len(),
        events[i] matches PollEvent::Fetched(Some(m)) && m.done && run_actions(state, events)[i]
            == (PollAction::NotifyAndComplete { content: m.content, reasoning: m.reasoning }),
    decreases events.len(),
{
    let (next, action) = poll_transition(state, events[0]);
    let acts = run_actions(state, events);
    if is_terminal(action) {
        assert(acts == seq![action]);
    } else {
        let rest = run_actions(next, events.drop_first());
        assert(acts == seq![action] + rest);
        if i == 0 {
            assert(acts[0] == action);
        } else {
            assert(acts[i] == rest[i - 1]);
            lemma_completion_only_when_done(next, events.drop_first(), i - 1);
            assert(events.drop_first()[i - 1] == events[i]);
        }
    }
}

} // verus!
