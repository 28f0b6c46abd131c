//! The decisions of an event-stream connection: what a response's status line
//! and headers mean, when the stream opens, and what to do when it fails, closes
//! or is redirected, including the reconnection backoff. The reading, writing and
//! waiting happen outside; they hand each line or failure to these functions and
//! carry out what they return.
use vstd::prelude::*;
use vstd::string::StringSliceAdditionalSpecFns;
use vstd::utf8::{decode_utf8, is_char_boundary};
use crate::location::{parsed_url, StreamUrl, UrlParts};
use crate::text::{chars_of, spells, trim_end, trim_end_bounds};

verus! {

broadcast use vstd::utf8::group_utf8_lib;

/// Client state
#[derive(Debug, PartialEq, Eq, Structural, Clone, Copy)]
pub enum State {
    /// State when trying to connect or reconnect to stream.
    Connecting,
    /// Stream is open.
    Open,
    /// State when connection is closed and client won't try to reconnect.
    Closed,
}

/// How a connection attempt or an open stream ended.
#[derive(Debug, PartialEq)]
pub enum StreamAction {
    /// Report the error and connect again, after a while.
    Reconnect(String),
    /// Report the error and stop.
    Close(String),
    /// Connect to another address for now.
    Move(StreamUrl),
    /// Connect to another address from now on.
    MovePermanently(StreamUrl),
}

pub enum ActionView {
    Reconnect(Seq<char>),
    Close(Seq<char>),
    Move(UrlParts),
    MovePermanently(UrlParts),
}

impl View for StreamAction {
    type V = ActionView;

    open spec fn view(&self) -> ActionView {
        match self {
            StreamAction::Reconnect(e) => ActionView::Reconnect(e@),
            StreamAction::Close(e) => ActionView::Close(e@),
            StreamAction::Move(u) => ActionView::Move(u@),
            StreamAction::MovePermanently(u) => ActionView::MovePermanently(u@),
        }
    }
}

/// The characters of `line` from its byte `i` on.
pub open spec fn text_from_byte(line: &str, i: int) -> Seq<char> {
    decode_utf8(line.spec_bytes().subrange(i, line.spec_bytes().len() as int))
}

pub open spec fn is_digit(c: char) -> bool {
    '0' <= c && c <= '9'
}

pub open spec fn digit_value(c: char) -> int {
    c as int - '0' as int
}

/// The number that three characters spell, as `i32::from_str` reads them: three
/// digits, or a sign followed by two digits.
pub open spec fn three_char_number(s: Seq<char>) -> Option<int> {
    if s.len() != 3 || !is_digit(s[1]) || !is_digit(s[2]) {
        None
    } else if is_digit(s[0]) {
        Some(100 * digit_value(s[0]) + 10 * digit_value(s[1]) + digit_value(s[2]))
    } else if s[0] == '+' {
        Some(10 * digit_value(s[1]) + digit_value(s[2]))
    } else if s[0] == '-' {
        Some(-(10 * digit_value(s[1]) + digit_value(s[2])))
    } else {
        None
    }
}

/// The status of a status line: what follows its ninth byte, without trailing
/// white space (`HTTP/1.1 200 OK` gives `200 OK`).
pub open spec fn status_text(line: &str) -> Seq<char> {
    trim_end(text_from_byte(line, 9))
}

/// A status line the client can read: its status starts after byte 9 and begins
/// with a three-character number.
pub open spec fn status_line_ok(line: &str) -> bool {
    &&& is_char_boundary(line.spec_bytes(), 9)
    &&& status_text(line).len() >= 3
    &&& three_char_number(status_text(line).take(3)) is Some
}

/// The status code of a status line the client can read.
pub open spec fn status_code_of(line: &str) -> int {
    three_char_number(status_text(line).take(3)).unwrap()
}

pub open spec fn is_redirect(code: int) -> bool {
    code == 301 || code == 302 || code == 303 || code == 307
}

/// What a status code means: a stream or a redirection to follow (`Ok`), or how
/// the attempt ends, with the status as the error.
pub open spec fn status_outcome(code: int, status: Seq<char>) -> Result<int, ActionView> {
    if code == 200 || is_redirect(code) {
        Ok(code)
    } else if code == 204 {
        Err(ActionView::Close(status))
    } else if 200 <= code <= 299 {
        Err(ActionView::Reconnect(status))
    } else {
        Err(ActionView::Close(status))
    }
}

fn digit(c: char) -> (res: Option<i32>)
    ensures
        res is Some <==> is_digit(c),
        res matches Some(d) ==> d == digit_value(c) && 0 <= d <= 9,
{
    if '0' <= c && c <= '9' {
        Some((c as u32 - '0' as u32) as i32)
    } else {
        None
    }
}

fn read_three_char_number(chars: &Vec<char>) -> (res: Option<i32>)
    requires
        chars@.len() >= 3,
    ensures
        res is Some <==> three_char_number(chars@.take(3)) is Some,
        res matches Some(n) ==> n == three_char_number(chars@.take(3)).unwrap(),
{
    let ghost s = chars@.take(3);
    assert(s[0] == chars@[0] && s[1] == chars@[1] && s[2] == chars@[2]);
    match (digit(chars[1]), digit(chars[2])) {
        (Some(d1), Some(d2)) => {
            match digit(chars[0]) {
                Some(d0) => Some(100 * d0 + 10 * d1 + d2),
                None => {
                    if chars[0] == '+' {
                        Some(10 * d1 + d2)
                    } else if chars[0] == '-' {
                        Some(-(10 * d1 + d2))
                    } else {
                        None
                    }
                },
            }
        },
        _ => None,
    }
}

/// The code and status text of a status line, or `None` when the client
/// cannot read it.
fn parse_status_line(line: &str) -> (res: Option<(i32, String)>)
    ensures
        res is Some <==> status_line_ok(line),
        res matches Some((code, status)) ==> code == status_code_of(line) && status@
            == status_text(line),
{
    if !line.is_char_boundary(9) {
        return None;
    }
    let (_, rest) = line.split_at(9);
    proof {
        assert(rest@ == text_from_byte(line, 9));
    }
    let chars = chars_of(rest);
    let end = trim_end_bounds(&chars, 0, chars.len());
    proof {
        assert(chars@.subrange(0, chars@.len() as int) =~= chars@);
        assert(chars@.subrange(0, end as int) == status_text(line));
    }
    if end < 3 {
        return None;
    }
    proof {
        assert(chars@.take(3) =~= status_text(line).take(3));
    }
    match read_three_char_number(&chars) {
        Some(code) => Some((code, rest.substring_char(0, end).to_owned())),
        None => None,
    }
}

/// Whether the client can read `line` as a status line.
pub fn status_line_is_valid(line: &str) -> (res: bool)
    ensures
        res == status_line_ok(line),
{
    parse_status_line(line).is_some()
}

/// Reads the status line of a response.
pub fn validate_status_code(line: &str) -> (res: Result<i32, StreamAction>)
    requires
        status_line_ok(line),
    ensures
        match res {
            Ok(code) => status_outcome(status_code_of(line), status_text(line)) == Ok::<
                int,
                ActionView,
            >(code as int),
            Err(action) => status_outcome(status_code_of(line), status_text(line)) == Err::<
                int,
                ActionView,
            >(action@),
        },
{
    let (status_code, status) = parse_status_line(line).unwrap();
    if status_code == 200 || status_code == 301 || status_code == 302 || status_code == 303
        || status_code == 307 {
        Ok(status_code)
    } else if status_code == 204 {
        Err(StreamAction::Close(status))
    } else if 200 <= status_code && status_code <= 299 {
        Err(StreamAction::Reconnect(status))
    } else {
        Err(StreamAction::Close(status))
    }
}

/// `needle` occurs in `hay`.
pub open spec fn has_text(hay: Seq<char>, needle: Seq<char>) -> bool {
    exists|i: int|
        0 <= i && i + needle.len() <= hay.len() && #[trigger] hay.subrange(i, i + needle.len())
            == needle
}

/// `line` begins with `prefix`.
pub open spec fn begins_with(line: Seq<char>, prefix: Seq<char>) -> bool {
    prefix.len() <= line.len() && line.take(prefix.len() as int) == prefix
}

fn contains_text(hay: &str, needle: &str) -> (res: bool)
    ensures
        res == has_text(hay@, needle@),
{
    let h = chars_of(hay);
    let n = chars_of(needle);
    if n.len() > h.len() {
        return false;
    }
    if n.len() == 0 {
        proof {
            assert(hay@.subrange(0, 0int + needle@.len()) =~= needle@);
        }
        return true;
    }
    let hl = h.len();
    let nl = n.len();
    let last = hl - nl;
    let mut i: usize = 0;
    while i <= last
        invariant
            hl == h@.len(),
            nl == n@.len(),
            h@ == hay@,
            n@ == needle@,
            1 <= n@.len() <= h@.len(),
            last == h@.len() - n@.len(),
            i <= last + 1,
            forall|k: int|
                0 <= k < i ==> #[trigger] h@.subrange(k, k + n@.len()) != n@,
        decreases last + 1 - i,
    {
        if spells(&h, i, i + nl, needle) {
            return true;
        }
        i = i + 1;
    }
    proof {
        assert forall|k: int|
            0 <= k && k + needle@.len() <= hay@.len() implies #[trigger] hay@.subrange(
            k,
            k + needle@.len(),
        ) != needle@ by {
            assert(k < i);
        }
    }
    false
}

fn begins_with_text(line: &Vec<char>, prefix: &str) -> (res: bool)
    ensures
        res == begins_with(line@, prefix@),
{
    let p = chars_of(prefix);
    if p.len() > line.len() {
        return false;
    }
    let res = spells(line, 0, p.len(), prefix);
    proof {
        assert(line@.subrange(0, p@.len() as int) =~= line@.take(p@.len() as int));
    }
    res
}

/// Checks the `Content-Type` header: the stream must be an event stream.
pub fn validate_content_type(line: &str) -> (res: Result<(), StreamAction>)
    ensures
        res is Ok <==> has_text(line@, "text/event-stream"@),
        res matches Err(action) ==> action@ == ActionView::Close("Wrong Content-Type"@),
{
    if contains_text(line, "text/event-stream") {
        Ok(())
    } else {
        Err(StreamAction::Close(String::from_str("Wrong Content-Type")))
    }
}

/// The address a `Location` header line gives: what follows its tenth byte.
pub open spec fn location_text(line: &str) -> Seq<char> {
    text_from_byte(line, 10)
}

/// A `Location` line the client can follow under `status_code`: its address
/// starts after byte 10 and, for a redirection, parses as a URL.
pub open spec fn location_ok(line: &str, status_code: int) -> bool {
    &&& is_char_boundary(line.spec_bytes(), 10)
    &&& is_redirect(status_code) ==> parsed_url(location_text(line)) is Some
}

/// What a `Location` header means under a status code: a move for good (301),
/// a move for now (302, 303, 307), or nothing.
pub open spec fn location_outcome(line: &str, status_code: int) -> Result<(), ActionView> {
    if status_code == 301 {
        Err(ActionView::MovePermanently(parsed_url(location_text(line)).unwrap()))
    } else if is_redirect(status_code) {
        Err(ActionView::Move(parsed_url(location_text(line)).unwrap()))
    } else {
        Ok(())
    }
}

/// Follows the `Location` header of a redirection.
pub fn handle_new_location(line: &str, status_code: i32) -> (res: Result<(), StreamAction>)
    requires
        location_ok(line, status_code as int),
    ensures
        match res {
            Ok(()) => location_outcome(line, status_code as int) == Ok::<(), ActionView>(()),
            Err(action) => location_outcome(line, status_code as int) == Err::<(), ActionView>(
                action@,
            ),
        },
{
    let (_, location) = line.split_at(10);
    proof {
        assert(location@ == location_text(line));
    }
    if status_code == 301 || status_code == 302 || status_code == 303 || status_code == 307 {
        match StreamUrl::parse(location) {
            Ok(url) => {
                if status_code == 301 {
                    Err(StreamAction::MovePermanently(url))
                } else {
                    Err(StreamAction::Move(url))
                }
            },
            Err(_) => Ok(()),
        }
    } else {
        Ok(())
    }
}

/// Whether the `Location` line can be followed under `status_code`.
fn location_can_be_followed(line: &str, status_code: i32) -> (res: bool)
    ensures
        res == location_ok(line, status_code as int),
{
    if !line.is_char_boundary(10) {
        return false;
    }
    if status_code == 301 || status_code == 302 || status_code == 303 || status_code == 307 {
        let (_, location) = line.split_at(10);
        proof {
            assert(location@ == location_text(line));
        }
        StreamUrl::parse(location).is_ok()
    } else {
        true
    }
}

/// What a line of the response head did.
#[derive(Debug, PartialEq, Eq, Structural, Clone, Copy)]
pub enum HeaderStep {
    /// The head ended: the stream is open.
    Opened,
    /// A header was read; the head goes on.
    Read,
}

/// What a line of the response head means under `status_code`: `None` where
/// the line cannot be handled (a `Location` line that cannot be followed).
pub open spec fn header_outcome(line: &str, status_code: int) -> Option<
    Result<HeaderStep, ActionView>,
> {
    if line@.len() == 0 {
        Some(Ok(HeaderStep::Opened))
    } else if begins_with(line@, "Content-Type"@) {
        if has_text(line@, "text/event-stream"@) {
            Some(Ok(HeaderStep::Read))
        } else {
            Some(Err(ActionView::Close("Wrong Content-Type"@)))
        }
    } else if begins_with(line@, "Location:"@) {
        if !location_ok(line, status_code) {
            None
        } else {
            match location_outcome(line, status_code) {
                Ok(()) => Some(Ok(HeaderStep::Read)),
                Err(action) => Some(Err(action)),
            }
        }
    } else {
        Some(Ok(HeaderStep::Read))
    }
}

/// Marks the stream open, notifies the open listener (if there is one), and
/// resets the count of failed attempts.
pub fn handle_open_connection<F: Fn()>(state: &mut State, on_open: &Option<F>, failed_attempts: &mut u32)
    requires
        on_open matches Some(f) ==> call_requires(f, ()),
    ensures
        *final(state) == State::Open,
        *final(failed_attempts) == 0,
        on_open matches Some(f) ==> call_ensures(f, (), ()),
{
    *state = State::Open;
    if let Some(f) = on_open {
        f();
    }
    *failed_attempts = 0;
}

/// Handles a line of the response head. A blank line ends the head: the stream
/// opens and the open listener is notified. `None` where the line cannot be
/// handled: a `Location` line whose address does not start on a character
/// boundary at byte 10, or does not parse as a URL under a redirection.
pub fn handle_headers<F: Fn()>(
    line: &str,
    state: &mut State,
    on_open: &Option<F>,
    failed_attempts: &mut u32,
    status_code: i32,
) -> (res: Option<Result<HeaderStep, StreamAction>>)
    requires
        on_open matches Some(f) ==> call_requires(f, ()),
    ensures
        match res {
            Some(Ok(step)) => header_outcome(line, status_code as int) == Some(
                Ok::<HeaderStep, ActionView>(step),
            ),
            Some(Err(action)) => header_outcome(line, status_code as int) == Some(
                Err::<HeaderStep, ActionView>(action@),
            ),
            None => header_outcome(line, status_code as int) is None,
        },
        res == Some(Ok::<HeaderStep, StreamAction>(HeaderStep::Opened)) ==> *final(state)
            == State::Open && *final(failed_attempts) == 0 && (on_open matches Some(f)
            ==> call_ensures(f, (), ())),
        res != Some(Ok::<HeaderStep, StreamAction>(HeaderStep::Opened)) ==> *final(state)
            == *old(state) && *final(failed_attempts) == *old(failed_attempts),
{
    let chars = chars_of(line);
    if chars.len() == 0 {
        handle_open_connection(state, on_open, failed_attempts);
        Some(Ok(HeaderStep::Opened))
    } else if begins_with_text(&chars, "Content-Type") {
        match validate_content_type(line) {
            Ok(()) => Some(Ok(HeaderStep::Read)),
            Err(action) => Some(Err(action)),
        }
    } else if begins_with_text(&chars, "Location:") {
        if !location_can_be_followed(line, status_code) {
            None
        } else {
            match handle_new_location(line, status_code) {
                Ok(()) => Some(Ok(HeaderStep::Read)),
                Err(action) => Some(Err(action)),
            }
        }
    } else {
        Some(Ok(HeaderStep::Read))
    }
}

/// What a line read from the connection is.
#[derive(Debug, PartialEq, Eq, Structural, Clone, Copy)]
pub enum LineStep {
    /// A line of the response head, with what it did.
    Header(HeaderStep),
    /// A line of the stream, to be handed to the message listener.
    Message,
    /// A line that arrived after the client closed: no listener hears of it.
    Dropped,
}

/// Handles a line read from the connection: while connecting, it belongs to the
/// response head; while open, it is a line of the stream; once the client has
/// closed, it is dropped. `None` where `handle_headers` gives `None`.
pub fn read_line_step<F: Fn()>(
    line: &str,
    state: &mut State,
    on_open: &Option<F>,
    failed_attempts: &mut u32,
    status_code: i32,
) -> (res: Option<Result<LineStep, StreamAction>>)
    requires
        on_open matches Some(f) ==> call_requires(f, ()),
    ensures
        *old(state) == State::Open ==> res == Some(Ok::<LineStep, StreamAction>(LineStep::Message))
            && *final(state) == *old(state) && *final(failed_attempts) == *old(failed_attempts),
        *old(state) == State::Closed ==> res == Some(Ok::<LineStep, StreamAction>(LineStep::Dropped))
            && *final(state) == *old(state) && *final(failed_attempts) == *old(failed_attempts),
        *old(state) == State::Connecting ==> match res {
            Some(Ok(LineStep::Header(step))) => header_outcome(line, status_code as int) == Some(
                Ok::<HeaderStep, ActionView>(step),
            ),
            Some(Ok(LineStep::Message)) => false,
            Some(Ok(LineStep::Dropped)) => false,
            Some(Err(action)) => header_outcome(line, status_code as int) == Some(
                Err::<HeaderStep, ActionView>(action@),
            ),
            None => header_outcome(line, status_code as int) is None,
        },
        *old(state) == State::Connecting && res == Some(
            Ok::<LineStep, StreamAction>(LineStep::Header(HeaderStep::Opened)),
        ) ==> *final(state) == State::Open && *final(failed_attempts) == 0 && (on_open matches Some(
            f,
        ) ==> call_ensures(f, (), ())),
        *old(state) == State::Connecting && res != Some(
            Ok::<LineStep, StreamAction>(LineStep::Header(HeaderStep::Opened)),
        ) ==> *final(state) == *old(state) && *final(failed_attempts) == *old(failed_attempts),
{
    match *state {
        State::Connecting => match handle_headers(line, state, on_open, failed_attempts, status_code) {
            Some(Ok(step)) => Some(Ok(LineStep::Header(step))),
            Some(Err(action)) => Some(Err(action)),
            None => None,
        },
        State::Open => Some(Ok(LineStep::Message)),
        State::Closed => Some(Ok(LineStep::Dropped)),
    }
}

/// The end of the stream: expected once the client closed it, otherwise a
/// reason to reconnect.
pub fn stream_ended(state: State) -> (res: Result<(), StreamAction>)
    ensures
        state == State::Closed ==> res is Ok,
        state != State::Closed ==> (res matches Err(action) && action@ == ActionView::Reconnect(
            "connection closed by server"@,
        )),
{
    match state {
        State::Closed => Ok(()),
        _ => Err(StreamAction::Reconnect(String::from_str("connection closed by server"))),
    }
}

/// Hands a line of the stream to the message listener, if there is one.
pub fn handle_messages<F: Fn(String)>(line: String, on_message: &Option<F>)
    requires
        on_message matches Some(f) ==> call_requires(f, (line,)),
    ensures
        on_message matches Some(f) ==> call_ensures(f, (line,), ()),
{
    if let Some(f) = on_message {
        f(line);
    }
}

/// Hands an error message to the error listener, if there is one.
pub fn handle_error<F: Fn(String)>(message: String, on_error: &Option<F>)
    requires
        on_error matches Some(f) ==> call_requires(f, (message,)),
    ensures
        on_error matches Some(f) ==> call_ensures(f, (message,), ()),
{
    if let Some(f) = on_error {
        f(message);
    }
}

/// Wait before the first reconnection, in milliseconds.
pub const INITIAL_RECONNECTION_TIME_IN_MS: u64 = 500;

/// The largest count of failed attempts whose reconnection wait fits a `u64`.
pub const MAX_FAILED_ATTEMPTS: u32 = 60;

pub open spec fn pow2(n: nat) -> nat
    decreases n,
{
    if n == 0 {
        1
    } else {
        2 * pow2((n - 1) as nat)
    }
}

/// The wait, in milliseconds, before reconnecting after `attempts` failed
/// attempts in a row: 500, then 15, 45, 105, ... more.
pub open spec fn reconnection_delay(attempts: nat) -> int {
    INITIAL_RECONNECTION_TIME_IN_MS + 15 * (pow2(attempts) - 1)
}

proof fn lemma_pow2_monotonic(a: nat, b: nat)
    requires
        a <= b,
    ensures
        1 <= pow2(a) <= pow2(b),
    decreases b,
{
    if b == 0 {
        assert(pow2(0) == 1);
    } else if a == b {
        lemma_pow2_monotonic(0, (b - 1) as nat);
    } else {
        lemma_pow2_monotonic(a, (b - 1) as nat);
    }
}

/// The wait before reconnecting after `attempts` failed attempts in a row.
pub fn reconnection_time(attempts: u32) -> (res: u64)
    requires
        attempts <= MAX_FAILED_ATTEMPTS,
    ensures
        res == reconnection_delay(attempts as nat),
{
    let mut power: u64 = 1;
    let mut i: u32 = 0;
    proof {
        reveal_with_fuel(pow2, 61);
        assert(pow2(60) == 1152921504606846976);
    }
    while i < attempts
        invariant
            i <= attempts <= 60,
            power == pow2(i as nat),
            pow2(60) == 1152921504606846976,
        decreases attempts - i,
    {
        proof {
            lemma_pow2_monotonic((i + 1) as nat, 60);
            assert(pow2((i + 1) as nat) == 2 * pow2(i as nat));
        }
        power = power * 2;
        i = i + 1;
    }
    proof {
        lemma_pow2_monotonic(attempts as nat, 60);
    }
    INITIAL_RECONNECTION_TIME_IN_MS + (15 * (power - 1))
}

/// What the client does once a connection attempt or stream has ended.
#[derive(Debug, PartialEq)]
pub enum Reaction {
    /// Report `error`, wait `delay_ms` milliseconds, then connect to `url`.
    Retry { error: String, delay_ms: u64, url: StreamUrl },
    /// Report `error` and stop.
    Stop { error: String },
    /// Connect to `connection_url`; after a failure, come back to `url`.
    Follow { url: StreamUrl, connection_url: StreamUrl },
    /// The client was closed: do nothing more, report nothing.
    Halt,
}

pub enum ReactionView {
    Retry { error: Seq<char>, delay_ms: int, url: UrlParts },
    Stop { error: Seq<char> },
    Follow { url: UrlParts, connection_url: UrlParts },
    Halt,
}

impl View for Reaction {
    type V = ReactionView;

    open spec fn view(&self) -> ReactionView {
        match self {
            Reaction::Retry { error, delay_ms, url } => ReactionView::Retry {
                error: error@,
                delay_ms: *delay_ms as int,
                url: url@,
            },
            Reaction::Stop { error } => ReactionView::Stop { error: error@ },
            Reaction::Follow { url, connection_url } => ReactionView::Follow {
                url: url@,
                connection_url: connection_url@,
            },
            Reaction::Halt => ReactionView::Halt,
        }
    }
}

/// The reaction to `action` of a client in state `state` whose stream lives
/// at `url`, with its state and count of failed attempts afterwards. A closed
/// client stays closed whatever the action: it neither reconnects nor reports.
pub open spec fn reaction(action: ActionView, url: UrlParts, state: State, attempts: nat) -> (
    ReactionView,
    State,
    nat,
) {
    if state == State::Closed {
        (ReactionView::Halt, State::Closed, attempts)
    } else {
        match action {
            ActionView::Reconnect(error) => (
                ReactionView::Retry { error, delay_ms: reconnection_delay(attempts), url },
                State::Connecting,
                attempts + 1,
            ),
            ActionView::Close(error) => (ReactionView::Stop { error }, State::Closed, attempts),
            ActionView::Move(to) => (
                ReactionView::Follow { url, connection_url: to },
                State::Connecting,
                attempts,
            ),
            ActionView::MovePermanently(to) => (
                ReactionView::Follow { url: to, connection_url: to },
                State::Connecting,
                attempts,
            ),
        }
    }
}

/// Decides what to do once a connection attempt or stream has ended with
/// `action`. A client that was closed meanwhile halts, stays closed and reports
/// nothing. Otherwise: reconnect after the backoff wait (counting the failure),
/// stop, or follow a redirection; the client is connecting again in every case
/// but `Close`, after which it is closed.
pub fn react(action: StreamAction, url: StreamUrl, state: &mut State, failed_attempts: &mut u32)
    -> (res: Reaction)
    requires
        *old(state) != State::Closed && action is Reconnect ==> *old(failed_attempts)
            <= MAX_FAILED_ATTEMPTS,
    ensures
        (res@, *final(state), *final(failed_attempts) as nat) == reaction(
            action@,
            url@,
            *old(state),
            *old(failed_attempts) as nat,
        ),
        *old(state) == State::Closed ==> *final(state) == State::Closed && res == Reaction::Halt,
{
    if *state == State::Closed {
        return Reaction::Halt;
    }
    match action {
        StreamAction::Reconnect(error) => {
            *state = State::Connecting;
            let delay_ms = reconnection_time(*failed_attempts);
            *failed_attempts = *failed_attempts + 1;
            Reaction::Retry { error, delay_ms, url }
        },
        StreamAction::Close(error) => {
            *state = State::Closed;
            Reaction::Stop { error }
        },
        StreamAction::Move(to) => {
            *state = State::Connecting;
            Reaction::Follow { url, connection_url: to }
        },
        StreamAction::MovePermanently(to) => {
            *state = State::Connecting;
            let connection_url = to.clone();
            Reaction::Follow { url: to, connection_url }
        },
    }
}

/// Whether a new connection attempt may start: not once the client has closed.
pub fn may_connect(state: State) -> (res: bool)
    ensures
        res == (state != State::Closed),
{
    state != State::Closed
}

/// A closed client stays closed: whatever ended its last attempt, it neither
/// retries, follows a redirection nor reports an error.
pub proof fn law_closed_client_stays_closed(action: ActionView, url: UrlParts, attempts: nat)
    ensures
        reaction(action, url, State::Closed, attempts) == (ReactionView::Halt, State::Closed, attempts),
{
}

/// Every failed attempt in a row makes the next wait longer.
pub proof fn law_backoff_grows(attempts: nat)
    ensures
        reconnection_delay(attempts) < reconnection_delay(attempts + 1),
{
    assert(pow2(attempts + 1) == 2 * pow2(attempts));
    lemma_pow2_monotonic(0, attempts);
}

/// Once the stream has opened (which resets the count of failed attempts), the
/// next failure waits the initial time again.
pub proof fn law_open_stream_resets_backoff(error: Seq<char>, url: UrlParts)
    ensures
        reaction(ActionView::Reconnect(error), url, State::Open, 0).0 == (ReactionView::Retry {
            error,
            delay_ms: INITIAL_RECONNECTION_TIME_IN_MS as int,
            url,
        }),
{
    assert(pow2(0) == 1);
}

/// After a temporary redirection, a lost connection is retried at the
/// first address; after a permanent one, at the new address.
pub proof fn law_reconnection_target_after_redirect(
    origin: UrlParts,
    to: UrlParts,
    error: Seq<char>,
    attempts: nat,
)
    ensures
        ({
            let (r, _, n) = reaction(ActionView::Move(to), origin, State::Open, attempts);
            &&& r == (ReactionView::Follow { url: origin, connection_url: to })
            &&& (reaction(ActionView::Reconnect(error), origin, State::Connecting, n).0 matches ReactionView::Retry {
                url,
                ..
            } && url == origin)
        }),
        ({
            let (r, _, n) = reaction(ActionView::MovePermanently(to), origin, State::Open, attempts);
            &&& r == (ReactionView::Follow { url: to, connection_url: to })
            &&& (reaction(ActionView::Reconnect(error), to, State::Connecting, n).0 matches ReactionView::Retry {
                url,
                ..
            } && url == to)
        }),
{
}

pub open spec fn digit_char(d: int) -> char {
    if d == 0 {
        '0'
    } else if d == 1 {
        '1'
    } else if d == 2 {
        '2'
    } else if d == 3 {
        '3'
    } else if d == 4 {
        '4'
    } else if d == 5 {
        '5'
    } else if d == 6 {
        '6'
    } else if d == 7 {
        '7'
    } else if d == 8 {
        '8'
    } else {
        '9'
    }
}

/// The decimal digits of `n`, most significant first, with no leading zero.
pub open spec fn decimal(n: nat) -> Seq<char>
    decreases n,
{
    if n < 10 {
        seq![digit_char(n as int)]
    } else {
        decimal(n / 10).push(digit_char((n % 10) as int))
    }
}

fn digit_text(d: u16) -> (res: &'static str)
    requires
        d < 10,
    ensures
        res@ == seq![digit_char(d as int)],
{
    match d {
        0 => {
            proof {
                reveal_strlit("0");
            }
            "0"
        },
        1 => {
            proof {
                reveal_strlit("1");
            }
            "1"
        },
        2 => {
            proof {
                reveal_strlit("2");
            }
            "2"
        },
        3 => {
            proof {
                reveal_strlit("3");
            }
            "3"
        },
        4 => {
            proof {
                reveal_strlit("4");
            }
            "4"
        },
        5 => {
            proof {
                reveal_strlit("5");
            }
            "5"
        },
        6 => {
            proof {
                reveal_strlit("6");
            }
            "6"
        },
        7 => {
            proof {
                reveal_strlit("7");
            }
            "7"
        },
        8 => {
            proof {
                reveal_strlit("8");
            }
            "8"
        },
        _ => {
            proof {
                reveal_strlit("9");
            }
            "9"
        },
    }
}

/// Appends the decimal digits of `n` to `text`.
fn push_decimal(text: &mut String, n: u16)
    ensures
        final(text)@ == old(text)@ + decimal(n as nat),
    decreases n,
{
    if n >= 10 {
        push_decimal(text, n / 10);
    }
    text.append(digit_text(n % 10));
    proof {
        if n >= 10 {
            assert(old(text)@ + decimal((n / 10) as nat) + seq![digit_char((n % 10) as int)]
                =~= old(text)@ + decimal(n as nat));
        } else {
            assert(n % 10 == n);
        }
    }
}

/// The `host:port` address of a URL: its host, `localhost` when it has none,
/// followed by its port (given or the scheme's default) when it has one.
pub open spec fn host_address(url: UrlParts) -> Seq<char> {
    let host = match url.1 {
        Some(h) => h,
        None => "localhost"@,
    };
    match url.2 {
        Some(port) => host + ":"@ + decimal(port as nat),
        None => host,
    }
}

/// The `host:port` address to connect to for `url`.
pub fn get_host(url: &StreamUrl) -> (res: String)
    ensures
        res@ == host_address(url@),
{
    let mut host = match &url.host {
        Some(h) => h.clone(),
        None => String::from_str("localhost"),
    };
    if let Some(port) = url.port {
        host.append(":");
        push_decimal(&mut host, port);
    }
    host
}

/// The request that opens a stream: a `GET` of `path` from `host`, accepting
/// event streams, and naming the last event id seen, if any.
pub open spec fn request_text(path: Seq<char>, host: Seq<char>, last_event_id: Option<Seq<char>>) -> Seq<char> {
    let extra_headers = match last_event_id {
        Some(id) => "Last-Event-ID: "@ + id + "\r\n"@,
        None => ""@,
    };
    "GET "@ + path + " HTTP/1.1\r\nAccept: text/event-stream\r\nHost: "@ + host + "\r\n"@
        + extra_headers + "\r\n"@
}

/// Writes the request that opens a stream at `path` on `host`.
pub fn handshake_request(path: &str, host: &str, last_event_id: &Option<String>) -> (res: String)
    ensures
        res@ == request_text(
            path@,
            host@,
            match last_event_id {
                Some(id) => Some(id@),
                None => None,
            },
        ),
{
    let mut extra_headers = String::from_str("");
    if let Some(last_id) = last_event_id {
        extra_headers.append("Last-Event-ID: ");
        extra_headers.append(last_id.as_str());
        extra_headers.append("\r\n");
    }
    let mut request = String::from_str("GET ");
    request.append(path);
    request.append(" HTTP/1.1\r\nAccept: text/event-stream\r\nHost: ");
    request.append(host);
    request.append("\r\n");
    request.append(extra_headers.as_str());
    request.append("\r\n");
    proof {
        reveal_strlit("");
        if last_event_id is Some {
            assert(extra_headers@ =~= "Last-Event-ID: "@ + last_event_id.unwrap()@ + "\r\n"@);
        }
    }
    request
}

/// The request that reopens a stream names the last event id it saw, as a
/// `Last-Event-ID` header line.
pub proof fn law_request_names_last_event_id(path: Seq<char>, host: Seq<char>, id: Seq<char>)
    ensures
        has_text(request_text(path, host, Some(id)), "Last-Event-ID: "@ + id + "\r\n"@),
{
    let head = "GET "@ + path + " HTTP/1.1\r\nAccept: text/event-stream\r\nHost: "@ + host
        + "\r\n"@;
    let header = "Last-Event-ID: "@ + id + "\r\n"@;
    let whole = request_text(path, host, Some(id));
    assert(whole =~= head + header + "\r\n"@);
    assert(whole.subrange(head.len() as int, head.len() + header.len() as int) =~= header);
}

/// Only a success status other than 200 and 204 is retried; 200 and the
/// redirections 301, 302, 303 and 307 go on; every other status, from the 1xx,
/// 3xx, 4xx and 5xx ranges and beyond, closes the client with the status as its
/// error.
pub proof fn law_status_classes(code: int, status: Seq<char>)
    ensures
        (status_outcome(code, status) matches Err(ActionView::Reconnect(e))) <==> (200 < code
            < 300 && code != 204),
        status_outcome(code, status) matches Err(ActionView::Reconnect(e)) ==> e == status,
        (status_outcome(code, status) is Ok) <==> (code == 200 || code == 301 || code == 302
            || code == 303 || code == 307),
        status_outcome(code, status) matches Ok(c) ==> c == code,
        (code < 200 || code >= 300) && code != 301 && code != 302 && code != 303 && code != 307
            ==> status_outcome(code, status) == Err::<int, ActionView>(ActionView::Close(status)),
        code == 204 ==> status_outcome(code, status) == Err::<int, ActionView>(
            ActionView::Close(status),
        ),
{
}

/// A `Content-Type` header keeps the stream exactly when it names
/// `text/event-stream` anywhere in the line; otherwise the client closes with
/// the error `Wrong Content-Type`.
pub proof fn law_content_type_header(line: &str, status_code: int)
    requires
        line@.len() >= 12 && line@.take(12) == seq![
            'C', 'o', 'n', 't', 'e', 'n', 't', '-', 'T', 'y', 'p', 'e'
        ],
    ensures
        header_outcome(line, status_code) == Some(Ok::<HeaderStep, ActionView>(HeaderStep::Read))
            <==> exists|i: int|
            0 <= i && i + 17 <= line@.len() && #[trigger] line@.subrange(i, i + 17) == seq![
                't', 'e', 'x', 't', '/', 'e', 'v', 'e', 'n', 't', '-', 's', 't', 'r', 'e', 'a', 'm'
            ],
        header_outcome(line, status_code) != Some(
            Ok::<HeaderStep, ActionView>(HeaderStep::Read),
        ) ==> header_outcome(line, status_code) == Some(
            Err::<HeaderStep, ActionView>(ActionView::Close("Wrong Content-Type"@)),
        ),
{
    reveal_strlit("Content-Type");
    reveal_strlit("text/event-stream");
    assert("Content-Type"@ =~= seq!['C', 'o', 'n', 't', 'e', 'n', 't', '-', 'T', 'y', 'p', 'e']);
    assert("text/event-stream"@ =~= seq![
        't', 'e', 'x', 't', '/', 'e', 'v', 'e', 'n', 't', '-', 's', 't', 'r', 'e', 'a', 'm'
    ]);
    assert(begins_with(line@, "Content-Type"@));
}

/// Every reconnection of a client that is not closed counts as a failure,
/// whether it was connecting or open: the count grows by one, the client is
/// connecting again, and it retries the same address with the same error. The
/// first wait is 500 ms, and each further failure in a row waits twice as
/// long, less 485 ms (500, 515, 545, 605, ...).
pub proof fn law_each_failure_counts(error: Seq<char>, url: UrlParts, state: State, attempts: nat)
    requires
        state != State::Closed,
    ensures
        ({
            let (first, state1, count1) = reaction(ActionView::Reconnect(error), url, state, attempts);
            let (second, _, count2) = reaction(ActionView::Reconnect(error), url, state1, count1);
            &&& count1 == attempts + 1
            &&& count2 == attempts + 2
            &&& state1 == State::Connecting
            &&& (first matches ReactionView::Retry { error: e1, delay_ms: w1, url: u1 }
                && e1 == error && u1 == url && (attempts == 0 ==> w1 == 500)
                && (second matches ReactionView::Retry { delay_ms: w2, url: u2, .. }
                    && u2 == url && w2 == 2 * w1 - 485))
        }),
{
    assert(pow2(attempts + 1) == 2 * pow2(attempts));
    assert(pow2(0) == 1);
}

/// The value of a numeral: its digits read in base 10.
pub open spec fn numeral_value(digits: Seq<char>) -> int
    decreases digits.len(),
{
    if digits.len() == 0 {
        0
    } else {
        10 * numeral_value(digits.drop_last()) + (digits.last() as int - '0' as int)
    }
}

proof fn lemma_digit_char(d: int)
    requires
        0 <= d <= 9,
    ensures
        '0' <= digit_char(d) <= '9',
        digit_char(d) as int - '0' as int == d,
{
}

/// The port in a host address is written in base 10 with no leading zero:
/// every character is a digit, the first is not `0` unless the number is 0,
/// and the digits read back give the number.
pub proof fn law_port_numeral(n: nat)
    ensures
        decimal(n).len() > 0,
        forall|i: int| 0 <= i < decimal(n).len() ==> '0' <= #[trigger] decimal(n)[i] <= '9',
        n > 0 ==> decimal(n)[0] != '0',
        n == 0 ==> decimal(n) == seq!['0'],
        numeral_value(decimal(n)) == n,
    decreases n,
{
    if n < 10 {
        lemma_digit_char(n as int);
        assert(decimal(n).drop_last().len() == 0);
        assert(numeral_value(decimal(n).drop_last()) == 0);
        assert(decimal(n).last() == digit_char(n as int));
    } else {
        lemma_digit_char((n % 10) as int);
        law_port_numeral(n / 10);
        let d = decimal(n);
        let h = decimal(n / 10);
        assert(d == h.push(digit_char((n % 10) as int)));
        assert(d.drop_last() =~= h);
        assert(d[0] == h[0]);
        assert(10 * (n / 10) + n % 10 == n) by (nonlinear_arith);
        assert(d.last() == digit_char((n % 10) as int));
        assert(numeral_value(d) == 10 * numeral_value(h) + (d.last() as int - '0' as int));
        assert(forall|i: int| 0 <= i < h.len() ==> d[i] == h[i]);
    }
}

} // verus!
