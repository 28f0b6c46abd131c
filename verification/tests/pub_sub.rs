use std::sync::mpsc;
use sse_client::pub_sub::Bus;

#[test]
fn should_trigger_listener() {
    let (tx, rx) = mpsc::channel();
    let mut bus: Bus<String> = Bus::new();
    bus.subscribe("event".to_string(), Box::new(move |data| {
        tx.send(data).unwrap();
    }));

    bus.publish("event".to_string(), "data".to_string());

    let message = rx.recv().unwrap();
    assert_eq!(message, "data");
}

#[test]
fn should_allow_multiple_listener_for_same_event() {
    let (tx, rx) = mpsc::channel();
    let tx2 = tx.clone();
    let mut bus: Bus<String> = Bus::new();

    bus.subscribe("event".to_string(), Box::new(move |data| {
        tx.send(data).unwrap();
    }));

    bus.subscribe("event".to_string(), Box::new(move |data| {
        tx2.send(data).unwrap();
    }));

    bus.publish("event".to_string(), "data".to_string());

    let message = rx.recv().unwrap();
    let message2 = rx.recv().unwrap();
    assert_eq!(message, "data");
    assert_eq!(message2, "data");
}

#[test]
fn should_trigger_only_listener_for_published_event() {
    let (tx, rx) = mpsc::channel();
    let tx2 = tx.clone();
    let mut bus: Bus<String> = Bus::new();

    bus.subscribe("event".to_string(), Box::new(move |data| {
        tx.send(data).unwrap();
    }));

    bus.subscribe("another event".to_string(), Box::new(move |data| {
        tx2.send(data).unwrap();
    }));

    bus.publish("event".to_string(), "data".to_string());

    let message = rx.recv().unwrap();
    assert_eq!(message, "data");
    assert!(rx.try_recv().is_err());
}

#[test]
fn should_work_with_other_types() {
    let (tx, rx) = mpsc::channel();
    let mut bus: Bus<i32> = Bus::new();
    bus.subscribe("event".to_string(), Box::new(move |data| {
        tx.send(data).unwrap();
    }));

    bus.publish("event".to_string(), 3);

    let message = rx.recv().unwrap();
    assert_eq!(message, 3);
}

#[test]
fn should_not_break_when_publish_to_event_with_no_subscribers() {
    let bus: Bus<String> = Bus::new();
    bus.publish("event".to_string(), "data".to_string());
}
