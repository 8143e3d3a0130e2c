//! Behavior of the bounded fan-out hub: ordered delivery, late subscription,
//! and the lag-drop policy with its exact loss counts.

use chat::hub::{Hub, Receipt};
use chat::server::Message;

#[test]
fn publish_then_receive_in_order() {
    let mut h = Hub::new(8);
    let mut s = h.subscribe();
    h.publish(Message::Joined("a".to_string()));
    h.publish(Message::Said("a".to_string(), "hi".to_string()));
    h.publish(Message::Left("a".to_string()));
    assert_eq!(h.recv(&mut s), Receipt::Event(Message::Joined("a".to_string())));
    assert_eq!(
        h.recv(&mut s),
        Receipt::Event(Message::Said("a".to_string(), "hi".to_string()))
    );
    assert_eq!(h.recv(&mut s), Receipt::Event(Message::Left("a".to_string())));
    assert_eq!(h.recv(&mut s), Receipt::Empty);
}

#[test]
fn late_subscriber_misses_earlier_events() {
    let mut h = Hub::new(8);
    h.publish(Message::Joined("a".to_string()));
    let mut s = h.subscribe();
    assert_eq!(h.recv(&mut s), Receipt::Empty);
    h.publish(Message::Left("a".to_string()));
    assert_eq!(h.recv(&mut s), Receipt::Event(Message::Left("a".to_string())));
}

#[test]
fn publish_with_no_subscribers_is_discarded() {
    let mut h = Hub::new(4);
    h.publish(Message::Said("a".to_string(), "into the void".to_string()));
    assert_eq!(h.published(), 1);
    let mut s = h.subscribe();
    assert_eq!(h.recv(&mut s), Receipt::Empty);
}

#[test]
fn backlog_of_exactly_capacity_is_not_lagged() {
    let mut h = Hub::new(4);
    let mut s = h.subscribe();
    for i in 0..4u32 {
        h.publish(Message::Said("a".to_string(), format!("m{i}")));
    }
    assert_eq!(
        h.recv(&mut s),
        Receipt::Event(Message::Said("a".to_string(), "m0".to_string()))
    );
}

#[test]
fn backlog_one_past_capacity_drops_one() {
    let mut h = Hub::new(4);
    let mut s = h.subscribe();
    for i in 0..5u32 {
        h.publish(Message::Said("a".to_string(), format!("m{i}")));
    }
    assert_eq!(h.recv(&mut s), Receipt::Lagged(1));
    assert_eq!(
        h.recv(&mut s),
        Receipt::Event(Message::Said("a".to_string(), "m1".to_string()))
    );
}

#[test]
fn stalled_subscriber_reports_exact_loss_then_resumes() {
    // A subscriber stalls while 100 events are published with capacity 64:
    // its next receive reports exactly 36 dropped events, and reading
    // resumes with the event just past the drop window, no duplicates.
    let mut h = Hub::new(64);
    let mut s = h.subscribe();
    for i in 0..100u32 {
        h.publish(Message::Said("a".to_string(), format!("m{i}")));
    }
    assert_eq!(h.recv(&mut s), Receipt::Lagged(36));
    for i in 36..100u32 {
        assert_eq!(
            h.recv(&mut s),
            Receipt::Event(Message::Said("a".to_string(), format!("m{i}")))
        );
    }
    assert_eq!(h.recv(&mut s), Receipt::Empty);
}

#[test]
fn lag_is_reported_once_per_drop_window() {
    let mut h = Hub::new(2);
    let mut s = h.subscribe();
    for i in 0..5u32 {
        h.publish(Message::Said("a".to_string(), format!("m{i}")));
    }
    assert_eq!(h.recv(&mut s), Receipt::Lagged(3));
    assert_eq!(
        h.recv(&mut s),
        Receipt::Event(Message::Said("a".to_string(), "m3".to_string()))
    );
    assert_eq!(
        h.recv(&mut s),
        Receipt::Event(Message::Said("a".to_string(), "m4".to_string()))
    );
    assert_eq!(h.recv(&mut s), Receipt::Empty);
}

#[test]
fn each_subscriber_advances_independently() {
    let mut h = Hub::new(8);
    let mut s1 = h.subscribe();
    h.publish(Message::Joined("a".to_string()));
    let mut s2 = h.subscribe();
    h.publish(Message::Joined("b".to_string()));
    assert_eq!(h.recv(&mut s1), Receipt::Event(Message::Joined("a".to_string())));
    assert_eq!(h.recv(&mut s2), Receipt::Event(Message::Joined("b".to_string())));
    assert_eq!(h.recv(&mut s1), Receipt::Event(Message::Joined("b".to_string())));
    assert_eq!(h.recv(&mut s2), Receipt::Empty);
}
