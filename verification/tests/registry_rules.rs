//! The registry alone: atomic claim, idempotent removal, and reuse.

use chat::server::State;
use chat::BincodeCodec;

#[test]
fn a_name_is_claimed_at_most_once() {
    let mut st = State::default();
    assert!(st.try_register(&"alice".to_string()));
    assert!(!st.try_register(&"alice".to_string()));
    assert!(st.try_register(&"bob".to_string()));
    assert!(st.is_registered(&"alice".to_string()));
    assert!(st.is_registered(&"bob".to_string()));
}

#[test]
fn unregister_is_idempotent() {
    let mut st = State::default();
    st.unregister(&"ghost".to_string());
    assert!(st.try_register(&"alice".to_string()));
    st.unregister(&"alice".to_string());
    st.unregister(&"alice".to_string());
    assert!(!st.is_registered(&"alice".to_string()));
    assert!(st.try_register(&"alice".to_string()));
}

#[test]
fn a_fresh_state_is_empty() {
    let st = State::default();
    assert!(!st.is_registered(&"anyone".to_string()));
    assert_eq!(st.published(), 0);
}

#[test]
fn the_empty_name_is_a_name_like_any_other() {
    let mut st = State::default();
    assert!(st.try_register(&String::new()));
    assert!(!st.try_register(&String::new()));
    st.unregister(&String::new());
    assert!(!st.is_registered(&String::new()));
}

#[test]
fn codec_marker_constructs() {
    let _sender_side: BincodeCodec<u32> = BincodeCodec::new();
}
