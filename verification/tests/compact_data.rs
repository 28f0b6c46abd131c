use sse_client::compact_data::{Event, EventBuilder, EventBuilderState};

#[test]
fn mod_should_start_with_empty_state() {
    let e = EventBuilder::new();
    let event = e.build();

    assert_eq!(e.state(), EventBuilderState::EMPTY);
    assert_eq!(event, None);
}

#[test]
fn mod_should_set_message_as_default_event_type() {
    let mut e = EventBuilder::new();
    e.update("data: test");

    let event = e.build().unwrap();

    assert_eq!(e.state(), EventBuilderState::PENDING);
    assert_eq!(event.type_, String::from("message"));
}

#[test]
fn mod_should_change_status_to_complete_when_empty_message_received() {
    let mut e = EventBuilder::new();
    e.update("data: test");
    e.update("");

    e.build().unwrap();

    assert_eq!(e.state(), EventBuilderState::COMPLETE);
}

#[test]
fn mod_should_remain_as_empty_if_empty_message_is_received_while_buffer_is_empty() {
    let mut e = EventBuilder::new();
    e.update("");

    let event = e.build();

    assert_eq!(e.state(), EventBuilderState::EMPTY);
    assert_eq!(event, None);
}

#[test]
fn mod_should_fill_data_field() {
    let mut e = EventBuilder::new();
    e.update("data: test");

    let event = e.build().unwrap();

    assert_eq!(event.data, String::from("test"));
}

#[test]
fn mod_should_fill_event_type_field() {
    let mut e = EventBuilder::new();
    e.update("event: some_event");

    let event = e.build().unwrap();

    assert_eq!(event.type_, String::from("some_event"));
}

#[test]
fn mod_should_incrementally_fill_event_fields() {
    let expected_event = Event {
        type_: String::from("some_event"),
        data: String::from("test"),
    };
    let mut e = EventBuilder::new();
    e.update("event: some_event");
    e.update("data: test");

    let event = e.build().unwrap();

    assert_eq!(event, expected_event);
}

#[test]
fn mod_should_change_status_to_empty_when_event_is_complete_and_empty_message_is_received() {
    let mut e = EventBuilder::new();
    e.update("data: test");
    e.update("");
    e.update("");

    let event = e.build();

    assert_eq!(e.state(), EventBuilderState::EMPTY);
    assert_eq!(event, None);
}

#[test]
fn mod_should_start_clean_event_after_previous_is_completed() {
    let expected_event = Event {
        type_: String::from("message"),
        data: String::from("test2"),
    };
    let mut e = EventBuilder::new();
    e.update("event: some_event");
    e.update("data: test");
    e.update("");
    e.update("data: test2");

    let event = e.build().unwrap();

    assert_eq!(e.state(), EventBuilderState::PENDING);
    assert_eq!(event, expected_event);
}

#[test]
fn mod_should_ignore_updates_started_with_colon() {
    let expected_event = Event {
        type_: String::from("some_event"),
        data: String::from("test"),
    };
    let mut e = EventBuilder::new();
    e.update("event: some_event");
    e.update(":some commentary");
    e.update("data: test");

    let event = e.build().unwrap();

    assert_eq!(event, expected_event);
}

// Further cases of the compact builder.

#[test]
fn compact_value_stops_at_second_colon() {
    let mut e = EventBuilder::new();
    e.update("event:  some:id ");
    let event = e.build().unwrap();
    assert_eq!(event.type_, String::from("some"));
    assert_eq!(event.data, String::from(""));
}

#[test]
fn compact_unknown_field_starts_an_event() {
    let mut e = EventBuilder::new();
    e.update("id: 7");
    assert_eq!(e.state(), EventBuilderState::PENDING);
    assert_eq!(
        e.build(),
        Some(Event { type_: String::from("message"), data: String::new() })
    );
}

#[test]
fn compact_clone_keeps_fields() {
    let event = Event { type_: String::from("t"), data: String::from("d") };
    assert_eq!(event.clone(), event);
}

#[test]
fn compact_lines_without_colon_are_ignored() {
    let mut e = EventBuilder::new();
    e.update("this is a random message");
    assert_eq!(e.state(), EventBuilderState::EMPTY);
    assert_eq!(e.build(), None);
    e.update("event: some_event");
    e.update("this is a random message");
    assert_eq!(e.state(), EventBuilderState::PENDING);
    assert_eq!(
        e.build(),
        Some(Event { type_: String::from("some_event"), data: String::new() })
    );
}
