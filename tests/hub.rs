use chat_relay::event::ChatEvent;
use chat_relay::hub::{Delivery, Hub, PublishError, MAX_CAPACITY};

fn message(user: &str, content: &str) -> ChatEvent {
    ChatEvent::Message { user: user.to_string(), content: content.to_string() }
}

fn numbered(i: usize) -> ChatEvent {
    message("n", &i.to_string())
}

#[test]
fn new_rejects_capacity_out_of_range() {
    assert!(Hub::new(0).is_none());
    assert!(Hub::new(MAX_CAPACITY + 1).is_none());
    assert_eq!(Hub::new(16).unwrap().capacity(), 16);
    assert_eq!(Hub::new(1).unwrap().capacity(), 1);
}

#[test]
fn publish_without_subscribers_fails() {
    let hub = Hub::new(16).unwrap();
    assert_eq!(hub.publish(message("a", "b")), Err(PublishError::NoSubscribers));
}

#[test]
fn publish_reports_live_subscribers() {
    let hub = Hub::new(16).unwrap();
    let _a = hub.subscribe();
    let _b = hub.subscribe();
    assert_eq!(hub.publish(message("a", "b")), Ok(2));
}

#[test]
fn fan_out_reaches_every_subscriber_once_in_order() {
    let hub = Hub::new(16).unwrap();
    let mut subs: Vec<_> = (0..5).map(|_| hub.subscribe()).collect();
    for i in 0..3 {
        assert_eq!(hub.publish(numbered(i)), Ok(5));
    }
    for s in subs.iter_mut() {
        for i in 0..3 {
            assert_eq!(s.poll(), Delivery::Event(numbered(i)));
        }
        assert_eq!(s.poll(), Delivery::Empty);
    }
}

#[test]
fn late_subscriber_misses_earlier_events() {
    let hub = Hub::new(16).unwrap();
    let mut early = hub.subscribe();
    hub.publish(message("alice", "first")).unwrap();
    let mut late = hub.subscribe();
    assert_eq!(late.poll(), Delivery::Empty);
    hub.publish(message("alice", "second")).unwrap();
    assert_eq!(late.poll(), Delivery::Event(message("alice", "second")));
    assert_eq!(late.poll(), Delivery::Empty);
    assert_eq!(early.poll(), Delivery::Event(message("alice", "first")));
    assert_eq!(early.poll(), Delivery::Event(message("alice", "second")));
}

#[test]
fn overflow_signals_lag_then_resumes() {
    let hub = Hub::new(4).unwrap();
    let mut slow = hub.subscribe();
    for i in 0..10 {
        hub.publish(numbered(i)).unwrap();
    }
    // The oldest six were dropped; the four newest remain, in order.
    assert_eq!(slow.poll(), Delivery::Lagged(6));
    for i in 6..10 {
        assert_eq!(slow.poll(), Delivery::Event(numbered(i)));
    }
    assert_eq!(slow.poll(), Delivery::Empty);
    hub.publish(numbered(10)).unwrap();
    assert_eq!(slow.poll(), Delivery::Event(numbered(10)));
}

#[test]
fn stalled_subscriber_does_not_hold_back_others() {
    let hub = Hub::new(2).unwrap();
    let _stalled = hub.subscribe();
    let mut active = hub.subscribe();
    for i in 0..1000 {
        assert_eq!(hub.publish(numbered(i)), Ok(2));
        assert_eq!(active.poll(), Delivery::Event(numbered(i)));
    }
}

#[test]
fn dropped_hub_closes_subscriptions() {
    let hub = Hub::new(4).unwrap();
    let mut sub = hub.subscribe();
    hub.publish(numbered(1)).unwrap();
    drop(hub);
    assert_eq!(sub.poll(), Delivery::Event(numbered(1)));
    assert_eq!(sub.poll(), Delivery::Closed);
}
