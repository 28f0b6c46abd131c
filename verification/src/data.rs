//! Events of an event stream and the builder that assembles them line by line.
//!
//! A line `name: value` sets the field `name` of the event being built; a blank
//! line completes it; lines that start with `:` (comments) and lines without a
//! colon are ignored. Several `data` lines join their values with a line feed.
use vstd::prelude::*;
use crate::text::{chars_of, find_char, find_from, trim, trim_bounds, spells};

verus! {

/// Event data sent by server
#[derive(Debug, PartialEq)]
pub struct Event {
    /// Represents message `event` field.
    pub event: Option<String>,
    /// Represents message `data` field.
    pub data: Option<String>,
    /// Represents message `id` field.
    pub id: Option<String>,
    /// Represents message `retry` field.
    pub retry: Option<String>,
}

/// The fields of an event, as character sequences.
pub struct EventView {
    pub event: Option<Seq<char>>,
    pub data: Option<Seq<char>>,
    pub id: Option<Seq<char>>,
    pub retry: Option<Seq<char>>,
}

/// Progress of the builder: nothing yet, an event being filled, or an event
/// completed by a blank line.
#[derive(Debug, PartialEq)]
pub enum EventBuilderState {
    Empty,
    Pending(Event),
    Complete(Event),
}

pub enum BuilderView {
    Empty,
    Pending(EventView),
    Complete(EventView),
}

pub open spec fn text_view(o: Option<String>) -> Option<Seq<char>> {
    match o {
        Some(s) => Some(s@),
        None => None,
    }
}

impl View for Event {
    type V = EventView;

    open spec fn view(&self) -> EventView {
        EventView {
            event: text_view(self.event),
            data: text_view(self.data),
            id: text_view(self.id),
            retry: text_view(self.retry),
        }
    }
}

impl View for EventBuilderState {
    type V = BuilderView;

    open spec fn view(&self) -> BuilderView {
        match self {
            EventBuilderState::Empty => BuilderView::Empty,
            EventBuilderState::Pending(e) => BuilderView::Pending(e@),
            EventBuilderState::Complete(e) => BuilderView::Complete(e@),
        }
    }
}

/// The event with no field set.
pub open spec fn blank_event() -> EventView {
    EventView { event: None, data: None, id: None, retry: None }
}

/// The event a first field line starts from: of type `message`, nothing else set.
pub open spec fn message_event() -> EventView {
    EventView { event: Some("message"@), data: None, id: None, retry: None }
}

/// The line is a field line: not empty, not a comment, and holds a colon.
pub open spec fn is_field_line(line: Seq<char>) -> bool {
    &&& line.len() > 0
    &&& line[0] != ':'
    &&& find_from(line, ':', 0) < line.len()
}

/// The field name of a line: everything before its first colon.
pub open spec fn field_name(line: Seq<char>) -> Seq<char> {
    line.take(find_from(line, ':', 0))
}

/// The field value of a line: everything after its first colon, trimmed.
pub open spec fn field_value(line: Seq<char>) -> Seq<char> {
    trim(line.skip(find_from(line, ':', 0) + 1))
}

/// `e` with the field `name` set to `value`; a `data` value is appended to the
/// data already there, after a line feed; unknown names change nothing.
pub open spec fn with_field(e: EventView, name: Seq<char>, value: Seq<char>) -> EventView {
    if name == "event"@ {
        EventView { event: Some(value), ..e }
    } else if name == "data"@ {
        EventView {
            data: Some(
                match e.data {
                    Some(d) => d + "\n"@ + value,
                    None => value,
                },
            ),
            ..e
        }
    } else if name == "id"@ {
        EventView { id: Some(value), ..e }
    } else if name == "retry"@ {
        EventView { retry: Some(value), ..e }
    } else {
        e
    }
}

/// What a blank line does to the builder.
pub open spec fn finalized(st: BuilderView) -> BuilderView {
    match st {
        BuilderView::Complete(_) => BuilderView::Empty,
        BuilderView::Pending(e) => BuilderView::Complete(e),
        BuilderView::Empty => BuilderView::Empty,
    }
}

/// The event a field line is applied to.
pub open spec fn event_in_progress(st: BuilderView) -> EventView {
    match st {
        BuilderView::Pending(e) => e,
        _ => message_event(),
    }
}

/// The builder after one line.
pub open spec fn next_state(st: BuilderView, line: Seq<char>) -> BuilderView {
    if line.len() == 0 {
        finalized(st)
    } else if is_field_line(line) {
        BuilderView::Pending(
            with_field(event_in_progress(st), field_name(line), field_value(line)),
        )
    } else {
        st
    }
}

/// The builder after the lines, in order.
pub open spec fn after_lines(st: BuilderView, lines: Seq<Seq<char>>) -> BuilderView
    decreases lines.len(),
{
    if lines.len() == 0 {
        st
    } else {
        after_lines(next_state(st, lines[0]), lines.drop_first())
    }
}

/// The fields of `lines` applied, in order, to `e`.
pub open spec fn with_fields(e: EventView, lines: Seq<Seq<char>>) -> EventView
    decreases lines.len(),
{
    if lines.len() == 0 {
        e
    } else {
        with_fields(with_field(e, field_name(lines[0]), field_value(lines[0])), lines.drop_first())
    }
}

fn copy_text(o: &Option<String>) -> (res: Option<String>)
    ensures
        text_view(res) == text_view(*o),
{
    match o {
        Some(s) => Some(s.clone()),
        None => None,
    }
}

impl Clone for Event {
    fn clone(&self) -> (res: Self)
        ensures
            res@ == self@,
    {
        Event {
            event: copy_text(&self.event),
            data: copy_text(&self.data),
            id: copy_text(&self.id),
            retry: copy_text(&self.retry),
        }
    }
}

impl Clone for EventBuilderState {
    fn clone(&self) -> (res: Self)
        ensures
            res@ == self@,
    {
        match self {
            EventBuilderState::Empty => EventBuilderState::Empty,
            EventBuilderState::Pending(e) => EventBuilderState::Pending(e.clone()),
            EventBuilderState::Complete(e) => EventBuilderState::Complete(e.clone()),
        }
    }
}

impl Event {
    pub fn new() -> (res: Event)
        ensures
            res@ == blank_event(),
    {
        Event { event: None, data: None, id: None, retry: None }
    }
}

/// Builder of an `Event`, one field at a time.
pub struct EventData {
    event: Option<String>,
    data: Option<String>,
    id: Option<String>,
    retry: Option<String>,
}

impl View for EventData {
    type V = EventView;

    closed spec fn view(&self) -> EventView {
        EventView {
            event: text_view(self.event),
            data: text_view(self.data),
            id: text_view(self.id),
            retry: text_view(self.retry),
        }
    }
}

impl Default for EventData {
    fn default() -> (res: Self)
        ensures
            res@ == blank_event(),
    {
        EventData { event: None, data: None, id: None, retry: None }
    }
}

impl EventData {
    pub fn new() -> (res: Self)
        ensures
            res@ == blank_event(),
    {
        Self::default()
    }

    pub fn event(self, event: &str) -> (res: Self)
        ensures
            res@ == (EventView { event: Some(event@), ..self@ }),
    {
        EventData { event: Some(String::from_str(event)), ..self }
    }

    pub fn data(self, data: &str) -> (res: Self)
        ensures
            res@ == (EventView { data: Some(data@), ..self@ }),
    {
        EventData { data: Some(String::from_str(data)), ..self }
    }

    pub fn id(self, id: &str) -> (res: Self)
        ensures
            res@ == (EventView { id: Some(id@), ..self@ }),
    {
        EventData { id: Some(String::from_str(id)), ..self }
    }

    pub fn retry(self, retry: &str) -> (res: Self)
        ensures
            res@ == (EventView { retry: Some(retry@), ..self@ }),
    {
        EventData { retry: Some(String::from_str(retry)), ..self }
    }

    pub fn build(self) -> (res: Event)
        ensures
            res@ == self@,
    {
        Event { event: self.event, data: self.data, id: self.id, retry: self.retry }
    }
}

/// Assembles events from the lines of an event stream.
pub struct EventBuilder {
    pending_event: EventBuilderState,
}

impl View for EventBuilder {
    type V = BuilderView;

    closed spec fn view(&self) -> BuilderView {
        self.pending_event@
    }
}

/// Splits a field line at its first colon: the name before it, and the value
/// after it with white space trimmed.
fn parse_field<'a>(message: &'a str) -> (res: (&'a str, &'a str))
    requires
        find_from(message@, ':', 0) < message@.len(),
    ensures
        res.0@ == field_name(message@),
        res.1@ == field_value(message@),
{
    let chars = chars_of(message);
    let colon = find_char(&chars, ':', 0);
    let len = chars.len();
    assert(colon < len);
    let (from, to) = trim_bounds(&chars, colon + 1, len);
    proof {
        assert(chars@.subrange(colon + 1, chars@.len() as int) =~= message@.skip(colon + 1));
        assert(chars@.subrange(0, colon as int) =~= message@.take(colon as int));
    }
    (message.substring_char(0, colon), message.substring_char(from, to))
}

impl EventBuilder {
    pub fn new() -> (res: EventBuilder)
        ensures
            res@ == BuilderView::Empty,
    {
        EventBuilder { pending_event: EventBuilderState::Empty }
    }

    /// Takes in the next line of the stream and returns the builder's state after it.
    pub fn update(&mut self, message: &str) -> (res: EventBuilderState)
        ensures
            final(self)@ == next_state(old(self)@, message@),
            res@ == final(self)@,
    {
        let chars = chars_of(message);
        if chars.len() == 0 {
            self.finalize_event();
        } else if chars[0] != ':' && find_char(&chars, ':', 0) < chars.len() {
            self.pending_event = self.update_event(message);
        }
        self.get_event()
    }

    fn finalize_event(&mut self)
        ensures
            final(self)@ == finalized(old(self)@),
    {
        self.pending_event = match &self.pending_event {
            EventBuilderState::Complete(_) => EventBuilderState::Empty,
            EventBuilderState::Pending(event) => EventBuilderState::Complete(event.clone()),
            EventBuilderState::Empty => EventBuilderState::Empty,
        };
    }

    fn update_event(&self, message: &str) -> (res: EventBuilderState)
        requires
            is_field_line(message@),
        ensures
            res@ == BuilderView::Pending(
                with_field(
                    event_in_progress(self@),
                    field_name(message@),
                    field_value(message@),
                ),
            ),
    {
        let pending_event = match &self.pending_event {
            EventBuilderState::Pending(e) => e.clone(),
            _ => EventData::new().event("message").build(),
        };
        let (name, value) = parse_field(message);
        let name_chars = chars_of(name);
        let n = name_chars.len();
        let updated = if spells(&name_chars, 0, n, "event") {
            Event { event: Some(String::from_str(value)), ..pending_event }
        } else if spells(&name_chars, 0, n, "data") {
            let data = match pending_event.data {
                Some(d) => {
                    let mut joined = d;
                    joined.append("\n");
                    joined.append(value);
                    joined
                },
                None => String::from_str(value),
            };
            Event { data: Some(data), ..pending_event }
        } else if spells(&name_chars, 0, n, "id") {
            Event { id: Some(String::from_str(value)), ..pending_event }
        } else if spells(&name_chars, 0, n, "retry") {
            Event { retry: Some(String::from_str(value)), ..pending_event }
        } else {
            pending_event
        };
        proof {
            assert(name_chars@.subrange(0, n as int) =~= name_chars@);
        }
        EventBuilderState::Pending(updated)
    }

    /// Drops whatever the builder holds.
    pub fn clear(&mut self)
        ensures
            final(self)@ == BuilderView::Empty,
    {
        self.pending_event = EventBuilderState::Empty;
    }

    pub fn get_event(&self) -> (res: EventBuilderState)
        ensures
            res@ == self@,
    {
        self.pending_event.clone()
    }
}

/// A comment line, or any other non-empty line without a colon, leaves the
/// builder as it was.
pub proof fn law_ignored_lines_change_nothing(st: BuilderView, line: Seq<char>)
    requires
        line.len() > 0,
        !is_field_line(line),
    ensures
        next_state(st, line) == st,
{
}

/// A completed event is handed out once: the blank line after it empties the
/// builder, and a blank line on an empty builder keeps it empty.
pub proof fn law_blank_line_after_completion_empties(e: EventView)
    ensures
        next_state(BuilderView::Complete(e), Seq::empty()) == BuilderView::Empty,
        next_state(BuilderView::Empty, Seq::empty()) == BuilderView::Empty,
        next_state(BuilderView::Pending(e), Seq::empty()) == BuilderView::Complete(e),
{
}

proof fn lemma_pending_block(e: EventView, lines: Seq<Seq<char>>)
    requires
        forall|i: int| 0 <= i < lines.len() ==> is_field_line(#[trigger] lines[i]),
    ensures
        after_lines(BuilderView::Pending(e), lines.push(Seq::empty())) == BuilderView::Complete(
            with_fields(e, lines),
        ),
    decreases lines.len(),
{
    let all = lines.push(Seq::<char>::empty());
    if lines.len() == 0 {
        assert(all[0].len() == 0);
        assert(all.drop_first().len() == 0);
        assert(after_lines(BuilderView::Complete(e), all.drop_first()) == BuilderView::Complete(e));
    } else {
        let rest = lines.drop_first();
        assert(is_field_line(lines[0]));
        assert(all[0] == lines[0]);
        assert(all.drop_first() =~= rest.push(Seq::empty()));
        assert forall|i: int| 0 <= i < rest.len() implies is_field_line(#[trigger] rest[i]) by {
            assert(rest[i] == lines[i + 1]);
        }
        let e1 = with_field(e, field_name(lines[0]), field_value(lines[0]));
        assert(next_state(BuilderView::Pending(e), all[0]) == BuilderView::Pending(e1));
        lemma_pending_block(e1, rest);
        assert(with_fields(e, lines) == with_fields(e1, rest));
    }
}

/// A block of field lines closed by a blank line, fed to an idle builder (empty,
/// or holding an event already completed), completes one event: the `message`
/// event with the block's fields applied in order. Nothing of an earlier event
/// carries over.
pub proof fn law_block_completes_event(st: BuilderView, lines: Seq<Seq<char>>)
    requires
        st is Empty || st is Complete,
        lines.len() > 0,
        forall|i: int| 0 <= i < lines.len() ==> is_field_line(#[trigger] lines[i]),
    ensures
        after_lines(st, lines.push(Seq::empty())) == BuilderView::Complete(
            with_fields(message_event(), lines),
        ),
{
    let all = lines.push(Seq::<char>::empty());
    let rest = lines.drop_first();
    assert(is_field_line(lines[0]));
    assert(all[0] == lines[0]);
    assert(all.drop_first() =~= rest.push(Seq::empty()));
    assert forall|i: int| 0 <= i < rest.len() implies is_field_line(#[trigger] rest[i]) by {
        assert(rest[i] == lines[i + 1]);
    }
    lemma_pending_block(
        with_field(message_event(), field_name(lines[0]), field_value(lines[0])),
        rest,
    );
}

/// An event whose lines set no `event` field is a `message` event.
pub proof fn law_event_type_defaults_to_message(lines: Seq<Seq<char>>)
    requires
        forall|i: int| 0 <= i < lines.len() ==> field_name(#[trigger] lines[i]) != "event"@,
    ensures
        with_fields(message_event(), lines).event == Some("message"@),
    decreases lines.len(),
{
    if lines.len() > 0 {
        let rest = lines.drop_first();
        assert(field_name(lines[0]) != "event"@);
        assert forall|i: int| 0 <= i < rest.len() implies field_name(#[trigger] rest[i])
            != "event"@ by {
            assert(rest[i] == lines[i + 1]);
        }
        lemma_type_kept(with_field(message_event(), field_name(lines[0]), field_value(lines[0])), rest);
    }
}

proof fn lemma_type_kept(e: EventView, lines: Seq<Seq<char>>)
    requires
        forall|i: int| 0 <= i < lines.len() ==> field_name(#[trigger] lines[i]) != "event"@,
    ensures
        with_fields(e, lines).event == e.event,
    decreases lines.len(),
{
    if lines.len() > 0 {
        let rest = lines.drop_first();
        assert(field_name(lines[0]) != "event"@);
        assert forall|i: int| 0 <= i < rest.len() implies field_name(#[trigger] rest[i])
            != "event"@ by {
            assert(rest[i] == lines[i + 1]);
        }
        lemma_type_kept(with_field(e, field_name(lines[0]), field_value(lines[0])), rest);
    }
}

/// A field line sets the field it names and changes no other field of the
/// pending event: an `event`, `id` or `retry` line sets that field to the value;
/// a `data` line appends the value, after a line feed when there was data
/// already; a line naming anything else leaves the event as it was.
pub proof fn law_field_line_changes_only_its_field(e: EventView, line: Seq<char>)
    requires
        is_field_line(line),
    ensures
        next_state(BuilderView::Pending(e), line) matches BuilderView::Pending(after) && {
            let name = field_name(line);
            let value = field_value(line);
            &&& (name != seq!['e', 'v', 'e', 'n', 't'] ==> after.event == e.event)
            &&& (name != seq!['d', 'a', 't', 'a'] ==> after.data == e.data)
            &&& (name != seq!['i', 'd'] ==> after.id == e.id)
            &&& (name != seq!['r', 'e', 't', 'r', 'y'] ==> after.retry == e.retry)
            &&& (name == seq!['e', 'v', 'e', 'n', 't'] ==> after.event == Some(value))
            &&& (name == seq!['i', 'd'] ==> after.id == Some(value))
            &&& (name == seq!['r', 'e', 't', 'r', 'y'] ==> after.retry == Some(value))
            &&& (name == seq!['d', 'a', 't', 'a'] ==> after.data == Some(
                match e.data {
                    Some(d) => d + seq!['\n'] + value,
                    None => value,
                },
            ))
        },
{
    reveal_strlit("event");
    reveal_strlit("data");
    reveal_strlit("id");
    reveal_strlit("retry");
    reveal_strlit("\n");
    assert("event"@ =~= seq!['e', 'v', 'e', 'n', 't']);
    assert("data"@ =~= seq!['d', 'a', 't', 'a']);
    assert("id"@ =~= seq!['i', 'd']);
    assert("retry"@ =~= seq!['r', 'e', 't', 'r', 'y']);
    assert("\n"@ =~= seq!['\n']);
}

} // verus!
