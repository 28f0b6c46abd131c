use sse_client::data::{EventBuilder, EventBuilderState, EventData};

#[test]
fn data_should_start_with_empty_state() {
    let e = EventBuilder::new();

    assert_eq!(e.get_event(), EventBuilderState::Empty);
}

#[test]
fn data_should_set_message_as_default_event_type() {
    let mut e = EventBuilder::new();
    e.update("data: test");

    if let EventBuilderState::Pending(event) = e.get_event() {
        assert_eq!(event.event, Some("message".to_string()));
    } else {
        panic!("event should be pending");
    }
}

#[test]
fn data_should_change_status_to_complete_when_empty_message_received() {
    let mut e = EventBuilder::new();
    e.update("data: test");
    e.update("");

    if let EventBuilderState::Complete(event) = e.get_event() {
        assert_eq!(event.data, Some("test".to_string()));
    } else {
        panic!("event should be complete");
    }
}

#[test]
fn data_should_remain_as_empty_if_empty_message_is_received_while_buffer_is_empty() {
    let mut e = EventBuilder::new();
    e.update("");

    assert_eq!(e.get_event(), EventBuilderState::Empty);
}

#[test]
fn data_should_fill_data_field() {
    let mut e = EventBuilder::new();
    e.update("data: test");

    if let EventBuilderState::Pending(event) = e.get_event() {
        assert_eq!(event.data, Some("test".to_string()));
    } else {
        panic!("event should be pending");
    }
}

#[test]
fn data_should_fill_event_type_field() {
    let mut e = EventBuilder::new();
    e.update("event: some_event");

    if let EventBuilderState::Pending(event) = e.get_event() {
        assert_eq!(event.event, Some("some_event".to_string()));
    } else {
        panic!("event should be pending");
    }
}

#[test]
fn should_fill_event_id_field() {
    let mut e = EventBuilder::new();
    e.update("id: 123abc");

    if let EventBuilderState::Pending(event) = e.get_event() {
        assert_eq!(event.id, Some("123abc".to_string()));
    } else {
        panic!("event should be pending");
    }
}

#[test]
fn data_should_incrementally_fill_event_fields() {
    let expected_event = EventData::new()
        .event("some_event")
        .data("test")
        .build();
    let mut e = EventBuilder::new();
    e.update("event: some_event");
    e.update("data: test");

    if let EventBuilderState::Pending(event) = e.get_event() {
        assert_eq!(event, expected_event);
    } else {
        panic!("event should be pending");
    }
}

#[test]
fn data_should_change_status_to_empty_when_event_is_complete_and_empty_message_is_received() {
    let mut e = EventBuilder::new();

    e.update("data: test");
    e.update("");
    e.update("");

    assert_eq!(e.get_event(), EventBuilderState::Empty);
}

#[test]
fn data_should_start_clean_event_after_previous_is_completed() {
    let expected_event = EventData::new()
        .event("message")
        .data("test2")
        .build();
    let mut e = EventBuilder::new();

    e.update("event: some_event");
    e.update("data: test");
    e.update("");
    e.update("data: test2");

    if let EventBuilderState::Pending(event) = e.get_event() {
        assert_eq!(event, expected_event);
    } else {
        panic!("event should be pending");
    }
}

#[test]
fn data_should_ignore_updates_started_with_colon() {
    let expected_event = EventData::new()
        .event("some_event")
        .data("test")
        .build();
    let mut e = EventBuilder::new();

    e.update("event: some_event");
    e.update(":some commentary");
    e.update("data: test");

    if let EventBuilderState::Pending(event) = e.get_event() {
        assert_eq!(event, expected_event);
    } else {
        panic!("event should be pending");
    }
}

#[test]
fn should_return_event_on_update() {
    let mut e = EventBuilder::new();
    assert_eq!(e.update("event: some_event"), e.get_event());
    assert_eq!(e.update("data: test"), e.get_event());
}

#[test]
fn should_parse_messages_even_with_colons() {
    let expected_event = EventData::new()
        .event("some:id:with:colons")
        .data("some:data:with:colons")
        .build();
    let mut e = EventBuilder::new();

    e.update("event: some:id:with:colons");
    e.update("data: some:data:with:colons");

    if let EventBuilderState::Pending(event) = e.get_event() {
        assert_eq!(event, expected_event);
    } else {
        panic!("event should be pending");
    }
}

#[test]
fn should_be_empty_when_only_comments_received() {
    let mut e = EventBuilder::new();

    e.update(":hi");
    e.update("");

    assert_eq!(e.get_event(), EventBuilderState::Empty);
}

#[test]
fn should_ignore_messages_without_colon() {
    let expected_event = EventData::new()
        .event("some_event")
        .data("test")
        .build();
    let mut e = EventBuilder::new();

    e.update("event: some_event");
    e.update("this is a random message that should be ignored");
    e.update("data: test");

    if let EventBuilderState::Pending(event) = e.get_event() {
        assert_eq!(event, expected_event);
    } else {
        panic!("event should be pending");
    }
}

// Further cases of the builder.

#[test]
fn data_lines_are_joined_with_line_feeds() {
    let mut e = EventBuilder::new();
    e.update("data: YHOO");
    e.update("data: +2");
    e.update("data: 10");
    let state = e.update("");

    if let EventBuilderState::Complete(event) = state {
        assert_eq!(event.data, Some("YHOO\n+2\n10".to_string()));
        assert_eq!(event.event, Some("message".to_string()));
    } else {
        panic!("event should be complete");
    }
}

#[test]
fn retry_field_and_unknown_fields() {
    let mut e = EventBuilder::new();
    e.update("retry: 3000");
    e.update("foo: bar");
    let expected = EventData::new().event("message").retry("3000").build();

    assert_eq!(e.get_event(), EventBuilderState::Pending(expected));
}

#[test]
fn values_are_trimmed_of_unicode_white_space() {
    let mut e = EventBuilder::new();
    e.update("data:\u{a0}\t value \u{3000}");

    if let EventBuilderState::Pending(event) = e.get_event() {
        assert_eq!(event.data, Some("value".to_string()));
    } else {
        panic!("event should be pending");
    }
}

#[test]
fn field_without_value_is_empty() {
    let mut e = EventBuilder::new();
    e.update("id:");

    if let EventBuilderState::Pending(event) = e.get_event() {
        assert_eq!(event.id, Some(String::new()));
    } else {
        panic!("event should be pending");
    }
}

#[test]
fn clear_empties_the_builder() {
    let mut e = EventBuilder::new();
    e.update("data: x");
    e.clear();
    assert_eq!(e.get_event(), EventBuilderState::Empty);
}

#[test]
fn event_data_builds_every_field() {
    let event = EventData::new().event("a").data("b").id("c").retry("d").build();
    assert_eq!(event.event, Some("a".to_string()));
    assert_eq!(event.data, Some("b".to_string()));
    assert_eq!(event.id, Some("c".to_string()));
    assert_eq!(event.retry, Some("d".to_string()));
    let empty = sse_client::data::Event::new();
    assert_eq!(empty, EventData::new().build());
    assert_eq!(empty.clone(), empty);
}
