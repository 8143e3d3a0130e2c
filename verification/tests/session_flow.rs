//! The session state machine driven end to end against a shared state:
//! handshakes, name conflicts, chat fan-out, termination cleanup, and lag
//! reporting.

use chat::client;
use chat::server::{Error, Inbound, Message, Session, State};

fn join(name: &str) -> Inbound {
    Inbound::Intent(client::Message::Join(name.to_string()))
}

fn say(text: &str) -> Inbound {
    Inbound::Intent(client::Message::Say(text.to_string()))
}

#[test]
fn two_clients_chat_and_part() {
    // A joins as "alice"; B's claim of "alice" is refused; B joins as
    // "bob"; both observe Joined("bob"); A's line reaches both; A's
    // departure reaches B; "alice" is then free for a third client.
    let mut st = State::default();
    let mut a = Session::new();
    let mut b = Session::new();

    assert_eq!(a.handle_inbound(&mut st, join("alice")), None);
    assert!(a.is_active());
    assert_eq!(
        b.handle_inbound(&mut st, join("alice")),
        Some(Message::Fault(Error::UsernameTaken))
    );
    assert!(!b.is_active());
    assert_eq!(b.handle_inbound(&mut st, join("bob")), None);
    assert!(b.is_active());

    // A subscribed before publishing its own Joined, so it sees both.
    assert_eq!(a.poll_hub(&st), Some(Message::Joined("alice".to_string())));
    assert_eq!(a.poll_hub(&st), Some(Message::Joined("bob".to_string())));
    assert_eq!(b.poll_hub(&st), Some(Message::Joined("bob".to_string())));

    assert_eq!(a.handle_inbound(&mut st, say("hi")), None);
    let said = Message::Said("alice".to_string(), "hi".to_string());
    assert_eq!(a.poll_hub(&st), Some(said.clone()));
    assert_eq!(b.poll_hub(&st), Some(said));

    assert_eq!(a.handle_inbound(&mut st, Inbound::Closed), None);
    assert!(a.is_terminated());
    assert_eq!(b.poll_hub(&st), Some(Message::Left("alice".to_string())));
    assert!(!st.is_registered(&"alice".to_string()));

    let mut c = Session::new();
    assert_eq!(c.handle_inbound(&mut st, join("alice")), None);
    assert!(c.is_active());
}

#[test]
fn terminated_name_is_released_at_once() {
    let mut st = State::default();
    let mut a = Session::new();
    a.handle_inbound(&mut st, join("alice"));
    assert!(st.is_registered(&"alice".to_string()));
    a.handle_inbound(&mut st, Inbound::Intent(client::Message::Leave));
    assert!(a.is_terminated());
    assert!(!st.is_registered(&"alice".to_string()));
}

#[test]
fn malformed_frames_are_reported_and_survived() {
    let mut st = State::default();
    let mut a = Session::new();
    assert_eq!(
        a.handle_inbound(&mut st, Inbound::Malformed),
        Some(Message::Fault(Error::Internal))
    );
    assert!(!a.is_terminated());
    assert_eq!(a.handle_inbound(&mut st, join("alice")), None);
    assert!(a.is_active());
    assert_eq!(
        a.handle_inbound(&mut st, Inbound::Malformed),
        Some(Message::Fault(Error::Internal))
    );
    assert!(a.is_active());
}

#[test]
fn closing_before_joining_leaves_no_trace() {
    let mut st = State::default();
    let mut a = Session::new();
    assert_eq!(a.handle_inbound(&mut st, Inbound::Closed), None);
    assert!(a.is_terminated());
    assert_eq!(st.published(), 0);
}

#[test]
fn intents_without_meaning_in_phase_are_ignored() {
    let mut st = State::default();
    let mut a = Session::new();
    // Say and Leave before any successful Join do nothing.
    assert_eq!(a.handle_inbound(&mut st, say("early")), None);
    assert_eq!(
        a.handle_inbound(&mut st, Inbound::Intent(client::Message::Leave)),
        None
    );
    assert!(!a.is_active() && !a.is_terminated());
    assert_eq!(st.published(), 0);
    a.handle_inbound(&mut st, join("alice"));
    // A second Join while active is ignored.
    assert_eq!(a.handle_inbound(&mut st, join("again")), None);
    assert_eq!(a.name().map(|s| s.as_str()), Some("alice"));
    assert!(!st.is_registered(&"again".to_string()));
}

#[test]
fn terminate_runs_cleanup_for_a_failed_writer() {
    // The cleanup path a driver takes when a wire write fails: the hub and
    // registry are cleaned exactly as for an explicit leave.
    let mut st = State::default();
    let mut a = Session::new();
    let mut b = Session::new();
    a.handle_inbound(&mut st, join("alice"));
    b.handle_inbound(&mut st, join("bob"));
    b.poll_hub(&st);
    a.terminate(&mut st);
    assert!(a.is_terminated());
    assert!(!st.is_registered(&"alice".to_string()));
    assert_eq!(b.poll_hub(&st), Some(Message::Left("alice".to_string())));
    // Terminating a session that never joined has no side effects.
    let before = st.published();
    let mut c = Session::new();
    c.terminate(&mut st);
    assert!(c.is_terminated());
    assert_eq!(st.published(), before);
}

#[test]
fn stalled_session_is_told_exactly_what_it_lost() {
    // B stalls while A floods the hub past its capacity of 64: B's next
    // poll reports the exact loss, then resumes after the drop window.
    let mut st = State::default();
    let mut a = Session::new();
    let mut b = Session::new();
    a.handle_inbound(&mut st, join("alice")); // event 0: Joined(alice)
    b.handle_inbound(&mut st, join("bob")); // event 1: Joined(bob)
    for i in 0..101u32 {
        // events 2..=102
        a.handle_inbound(&mut st, say(&format!("l{i}")));
    }
    // 103 events published; B's cursor is 1; the oldest retained event is
    // 103 - 64 = 39, so 38 events are gone for B.
    assert_eq!(b.poll_hub(&st), Some(Message::Fault(Error::Lost(38))));
    assert_eq!(
        b.poll_hub(&st),
        Some(Message::Said("alice".to_string(), "l37".to_string()))
    );
}
