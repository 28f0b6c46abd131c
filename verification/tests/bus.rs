use std::cell::RefCell;
use std::rc::Rc;
use sse_client::bus::PubSub;

#[test]
fn subscribe_to_event() {
    let mut bus: PubSub<fn(&str)> = PubSub::new();

    fn handler(message: &str) {
        assert_eq!(message, "test message");
    }

    fn do_not_call_me(message: &str) {
        panic!("should not call this listener {}", message);
    }

    bus.subscribe("event_name", handler);
    bus.subscribe("another_event", do_not_call_me);

    bus.publish("event_name", "test message");
}

#[test]
fn register_more_than_one_listener_for_event() {
    let mut bus: PubSub<fn(&str)> = PubSub::new();

    fn handler(message: &str) {
        assert_eq!(message, "test message");
    }

    fn another_handler(message: &str) {
        assert_eq!(message, "test message");
    }

    bus.subscribe("event_name", handler);
    bus.subscribe("event_name", another_handler);

    bus.publish("event_name", "test message");
}

#[test]
fn do_nothing_when_published_event_with_no_listeners() {
    let bus: PubSub<fn(&str)> = PubSub::new();
    bus.publish("event_name", "test message");
}

#[test]
fn pub_sub_calls_listeners_in_subscription_order() {
    let log = Rc::new(RefCell::new(Vec::new()));
    let mut bus: PubSub<Box<dyn Fn(&str)>> = PubSub::new();
    let first = Rc::clone(&log);
    bus.subscribe("e", Box::new(move |m: &str| first.borrow_mut().push(format!("1:{}", m))));
    let second = Rc::clone(&log);
    bus.subscribe("e", Box::new(move |m: &str| second.borrow_mut().push(format!("2:{}", m))));
    let other = Rc::clone(&log);
    bus.subscribe("f", Box::new(move |m: &str| other.borrow_mut().push(format!("3:{}", m))));
    bus.publish("e", "x");
    assert_eq!(*log.borrow(), vec!["1:x".to_string(), "2:x".to_string()]);
}
