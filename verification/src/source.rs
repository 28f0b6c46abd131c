//! How an event source turns stream lines into events on its bus: events
//! completed by the builder go to the listeners of their type, errors go to the
//! `error` listeners, and the opening of the stream to the `stream_opened` ones.
use vstd::prelude::*;
use crate::data::{
    next_state, BuilderView, Event, EventBuilder, EventBuilderState, EventData, EventView,
};
use crate::pub_sub::{heard, Bus};

verus! {

/// `listener` has been called with an event whose fields are `e`.
pub open spec fn notified<L: Fn(Event)>(listener: L, e: EventView) -> bool {
    exists|ev: Event| ev@ == e && #[trigger] call_ensures(listener, (ev,), ())
}

proof fn lemma_heard_is_notified<L: Fn(Event)>(listener: L, ev: Event)
    requires
        heard(listener, ev),
    ensures
        notified(listener, ev@),
{
    let d = choose|d: Event| cloned(ev, d) && call_ensures(listener, (d,), ());
    assert(d@ == ev@);
}

/// The event published when the stream opens.
pub open spec fn stream_opened_event() -> EventView {
    EventView { event: Some("stream_opened"@), data: None, id: None, retry: None }
}

/// The event published for a connection error with `message`.
pub open spec fn error_event(message: Seq<char>) -> EventView {
    EventView { event: Some("error"@), data: Some(message), id: None, retry: None }
}

/// Tells the `stream_opened` listeners that the stream opened.
pub fn publish_initial_stream_event<L: Fn(Event)>(event_bus: &Bus<Event, L>)
    requires
        event_bus.listeners_accept_any(),
    ensures
        forall|i: int|
            0 <= i < event_bus.listeners("stream_opened"@).len() ==> notified(
                #[trigger] event_bus.listeners("stream_opened"@)[i],
                stream_opened_event(),
            ),
{
    let event = EventData::new().event("stream_opened").build();
    let ghost published = event;
    event_bus.publish(String::from_str("stream_opened"), event);
    proof {
        assert forall|i: int| 0 <= i < event_bus.listeners("stream_opened"@).len() implies notified(
            #[trigger] event_bus.listeners("stream_opened"@)[i],
            stream_opened_event(),
        ) by {
            lemma_heard_is_notified(event_bus.listeners("stream_opened"@)[i], published);
        }
    }
}

/// Tells the `error` listeners about a connection error.
pub fn publish_error<L: Fn(Event)>(event_bus: &Bus<Event, L>, message: &str)
    requires
        event_bus.listeners_accept_any(),
    ensures
        forall|i: int|
            0 <= i < event_bus.listeners("error"@).len() ==> notified(
                #[trigger] event_bus.listeners("error"@)[i],
                error_event(message@),
            ),
{
    let event = EventData::new().event("error").data(message).build();
    let ghost published = event;
    event_bus.publish(String::from_str("error"), event);
    proof {
        assert forall|i: int| 0 <= i < event_bus.listeners("error"@).len() implies notified(
            #[trigger] event_bus.listeners("error"@)[i],
            error_event(message@),
        ) by {
            lemma_heard_is_notified(event_bus.listeners("error"@)[i], published);
        }
    }
}

/// Feeds a stream line to the builder. When the line completes an event, the
/// event goes to the listeners of its type, its id (if any) becomes the last
/// event id, and the builder starts over empty.
pub fn handle_message<L: Fn(Event)>(
    message: &str,
    event_builder: &mut EventBuilder,
    event_bus: &Bus<Event, L>,
    last_event_id: &mut Option<String>,
)
    requires
        event_bus.listeners_accept_any(),
    ensures
        match next_state(old(event_builder)@, message@) {
            BuilderView::Complete(e) => {
                &&& final(event_builder)@ == BuilderView::Empty
                &&& e.id is Some ==> (*final(last_event_id) matches Some(id) && id@ == e.id.unwrap())
                &&& e.id is None ==> *final(last_event_id) == *old(last_event_id)
                &&& e.event matches Some(t) ==> forall|i: int|
                    0 <= i < event_bus.listeners(t).len() ==> notified(
                        #[trigger] event_bus.listeners(t)[i],
                        e,
                    )
            },
            st => final(event_builder)@ == st && *final(last_event_id) == *old(last_event_id),
        },
{
    let state = event_builder.update(message);
    if let EventBuilderState::Complete(event) = state {
        if let Some(id) = &event.id {
            *last_event_id = Some(id.clone());
        }
        let name = match &event.event {
            Some(e) => Some(e.clone()),
            None => None,
        };
        let ghost published = event;
        if let Some(name) = name {
            let ghost t = name@;
            event_bus.publish(name, event);
            proof {
                assert forall|i: int| 0 <= i < event_bus.listeners(t).len() implies notified(
                    #[trigger] event_bus.listeners(t)[i],
                    published@,
                ) by {
                    lemma_heard_is_notified(event_bus.listeners(t)[i], published);
                }
            }
        }
        event_builder.clear();
    }
}

} // verus!
