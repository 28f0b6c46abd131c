//! A compact event builder that keeps only an event's type and data.
//!
//! In a line with a colon, the text before the first colon names the field,
//! and the text between the first and the second colon (or the end of the
//! line), trimmed, is its value. Only `data` and `event` are kept; any other
//! line with a colon still starts an event. Lines without a colon are ignored.
//! A blank line completes the event, and the blank line after that drops it.
use vstd::prelude::*;
use crate::text::{chars_of, find_char, find_from, trim, trim_bounds, spells};

verus! {

#[derive(Debug, PartialEq)]
pub struct Event {
    pub type_: String,
    pub data: String,
}

pub struct EventView {
    pub type_: Seq<char>,
    pub data: Seq<char>,
}

impl View for Event {
    type V = EventView;

    open spec fn view(&self) -> EventView {
        EventView { type_: self.type_@, data: self.data@ }
    }
}

impl Clone for Event {
    fn clone(&self) -> (res: Self)
        ensures
            res@ == self@,
    {
        Event { type_: self.type_.clone(), data: self.data.clone() }
    }
}

#[allow(non_camel_case_types)]
#[derive(Debug, PartialEq, Eq, Structural, Clone, Copy)]
pub enum EventBuilderState {
    EMPTY,
    PENDING,
    COMPLETE,
}

/// Builds one event at a time; holds an event exactly when its state is not `EMPTY`.
pub struct EventBuilder {
    pending_event: Option<Event>,
    event_state: EventBuilderState,
}

pub open spec fn event_view(e: Option<Event>) -> Option<EventView> {
    match e {
        Some(e) => Some(e@),
        None => None,
    }
}

/// The event a field line starts from when no event is pending.
pub open spec fn fresh_event() -> EventView {
    EventView { type_: "message"@, data: ""@ }
}

/// The field name of a line: everything before its first colon.
pub open spec fn field_name(line: Seq<char>) -> Seq<char> {
    line.take(find_from(line, ':', 0))
}

/// The field value of a line: what lies between its first and its second
/// colon (or its end), trimmed.
pub open spec fn field_value(line: Seq<char>) -> Seq<char> {
    let first = find_from(line, ':', 0);
    trim(line.subrange(first + 1, find_from(line, ':', first + 1)))
}

/// The line holds a colon.
pub open spec fn has_colon(line: Seq<char>) -> bool {
    find_from(line, ':', 0) < line.len()
}

/// `e` with the field named by the line set to its value.
pub open spec fn with_field(e: EventView, line: Seq<char>) -> EventView {
    if field_name(line) == "data"@ {
        EventView { data: field_value(line), ..e }
    } else if field_name(line) == "event"@ {
        EventView { type_: field_value(line), ..e }
    } else {
        e
    }
}

/// The builder's state and event after one line.
pub open spec fn next(
    st: EventBuilderState,
    pending: Option<EventView>,
    line: Seq<char>,
) -> (EventBuilderState, Option<EventView>) {
    if line.len() == 0 {
        match st {
            EventBuilderState::COMPLETE => (EventBuilderState::EMPTY, None),
            EventBuilderState::PENDING => (EventBuilderState::COMPLETE, pending),
            EventBuilderState::EMPTY => (st, pending),
        }
    } else if !has_colon(line) {
        (st, pending)
    } else {
        let base = if st == EventBuilderState::PENDING {
            pending.unwrap()
        } else {
            fresh_event()
        };
        (EventBuilderState::PENDING, Some(with_field(base, line)))
    }
}

impl View for EventBuilder {
    type V = (EventBuilderState, Option<EventView>);

    closed spec fn view(&self) -> (EventBuilderState, Option<EventView>) {
        (self.event_state, event_view(self.pending_event))
    }
}

impl EventBuilder {
    #[verifier::type_invariant]
    closed spec fn holds_event_unless_empty(self) -> bool {
        (self.event_state == EventBuilderState::EMPTY) == (self.pending_event is None)
    }

    pub fn new() -> (res: EventBuilder)
        ensures
            res@ == (EventBuilderState::EMPTY, None::<EventView>),
    {
        EventBuilder { pending_event: None, event_state: EventBuilderState::EMPTY }
    }

    /// Takes in the next line of the stream.
    pub fn update(&mut self, message: &str)
        ensures
            final(self)@ == next(old(self)@.0, old(self)@.1, message@),
            (old(self)@.0 == EventBuilderState::EMPTY) == (old(self)@.1 is None),
            (final(self)@.0 == EventBuilderState::EMPTY) == (final(self)@.1 is None),
    {
        proof {
            use_type_invariant(&*self);
        }
        if message.is_empty() {
            self.finalize_event();
        } else if has_colon_char(message) {
            let event = self.update_event(message);
            *self = EventBuilder { pending_event: Some(event), event_state: EventBuilderState::PENDING };
        }
    }

    fn finalize_event(&mut self)
        requires
            old(self).event_state == EventBuilderState::EMPTY <==> old(self).pending_event is None,
        ensures
            final(self)@ == next(old(self)@.0, old(self)@.1, Seq::empty()),
    {
        match self.event_state {
            EventBuilderState::COMPLETE => {
                *self = EventBuilder { pending_event: None, event_state: EventBuilderState::EMPTY };
            },
            EventBuilderState::PENDING => {
                self.event_state = EventBuilderState::COMPLETE;
            },
            _ => {},
        }
    }

    fn update_event(&self, message: &str) -> (res: Event)
        requires
            message@.len() > 0,
            has_colon(message@),
            self.event_state == EventBuilderState::EMPTY <==> self.pending_event is None,
        ensures
            (EventBuilderState::PENDING, Some(res@)) == next(self@.0, self@.1, message@),
    {
        let pending_event = match self.event_state {
            EventBuilderState::PENDING => {
                match &self.pending_event {
                    Some(e) => e.clone(),
                    None => Event { type_: String::from_str("message"), data: String::from_str("") },
                }
            },
            _ => Event { type_: String::from_str("message"), data: String::from_str("") },
        };
        let (name, value) = parse_field(message);
        let name_chars = chars_of(name);
        let n = name_chars.len();
        proof {
            assert(name_chars@.subrange(0, n as int) =~= name_chars@);
        }
        if spells(&name_chars, 0, n, "data") {
            Event { data: String::from_str(value), ..pending_event }
        } else if spells(&name_chars, 0, n, "event") {
            Event { type_: String::from_str(value), ..pending_event }
        } else {
            pending_event
        }
    }

    /// The event being built or completed, if any.
    pub fn build(&self) -> (res: Option<Event>)
        ensures
            event_view(res) == self@.1,
    {
        match &self.pending_event {
            Some(e) => Some(e.clone()),
            None => None,
        }
    }

    pub fn state(&self) -> (res: EventBuilderState)
        ensures
            res == self@.0,
    {
        self.event_state
    }
}

fn has_colon_char(message: &str) -> (res: bool)
    ensures
        res == has_colon(message@),
{
    let chars = chars_of(message);
    find_char(&chars, ':', 0) < chars.len()
}

/// Splits a line into the text before its first colon and the trimmed text
/// between its first and second colon.
fn parse_field<'a>(message: &'a str) -> (res: (&'a str, &'a str))
    requires
        find_from(message@, ':', 0) < message@.len(),
    ensures
        res.0@ == field_name(message@),
        res.1@ == field_value(message@),
{
    let chars = chars_of(message);
    let len = chars.len();
    let first = find_char(&chars, ':', 0);
    assert(first < len);
    let second = find_char(&chars, ':', first + 1);
    let (from, to) = trim_bounds(&chars, first + 1, second);
    proof {
        assert(chars@.subrange(0, first as int) =~= message@.take(first as int));
    }
    (message.substring_char(0, first), message.substring_char(from, to))
}

/// Feeding a blank line twice to a builder holding a completed event empties it,
/// and an empty builder stays empty on a blank line.
pub proof fn law_blank_lines(e: Option<EventView>)
    ensures
        next(EventBuilderState::COMPLETE, e, Seq::empty()) == (EventBuilderState::EMPTY, None::<EventView>),
        next(EventBuilderState::EMPTY, e, Seq::empty()) == (EventBuilderState::EMPTY, e),
        next(EventBuilderState::PENDING, e, Seq::empty()) == (EventBuilderState::COMPLETE, e),
{
}

/// A non-blank line without a colon leaves the builder as it was.
pub proof fn law_lines_without_colon_change_nothing(
    st: EventBuilderState,
    pending: Option<EventView>,
    line: Seq<char>,
)
    requires
        line.len() > 0,
        !has_colon(line),
    ensures
        next(st, pending, line) == (st, pending),
{
}

/// Any non-blank line with a colon leaves the builder pending, with an event whose fields
/// other than the one named by the line are those it had (or those of a fresh
/// `message` event when none was pending).
pub proof fn law_line_leaves_pending(
    st: EventBuilderState,
    pending: Option<EventView>,
    line: Seq<char>,
)
    requires
        line.len() > 0,
        has_colon(line),
        (st == EventBuilderState::EMPTY) == (pending is None),
    ensures
        next(st, pending, line).0 == EventBuilderState::PENDING,
        next(st, pending, line).1 is Some,
        field_name(line) != "data"@ ==> next(st, pending, line).1.unwrap().data == (
        if st == EventBuilderState::PENDING {
            pending.unwrap().data
        } else {
            ""@
        }),
        field_name(line) != "event"@ ==> next(st, pending, line).1.unwrap().type_ == (
        if st == EventBuilderState::PENDING {
            pending.unwrap().type_
        } else {
            "message"@
        }),
{
}

/// A line with a colon sets only the field it names: a `data` line sets the
/// data and keeps the type, an `event` line sets the type and keeps the data,
/// and any other line keeps both.
pub proof fn law_line_changes_only_its_field(e: EventView, line: Seq<char>)
    requires
        line.len() > 0,
        has_colon(line),
    ensures
        next(EventBuilderState::PENDING, Some(e), line) matches (_, Some(after)) && {
            let name = field_name(line);
            &&& (name != seq!['d', 'a', 't', 'a'] ==> after.data == e.data)
            &&& (name != seq!['e', 'v', 'e', 'n', 't'] ==> after.type_ == e.type_)
            &&& (name == seq!['d', 'a', 't', 'a'] ==> after.data == field_value(line))
            &&& (name == seq!['e', 'v', 'e', 'n', 't'] ==> after.type_ == field_value(line))
        },
{
    reveal_strlit("event");
    reveal_strlit("data");
    assert("event"@ =~= seq!['e', 'v', 'e', 'n', 't']);
    assert("data"@ =~= seq!['d', 'a', 't', 'a']);
}

} // verus!
