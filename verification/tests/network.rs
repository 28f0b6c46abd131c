use std::sync::mpsc;
use sse_client::location::StreamUrl;
use sse_client::network::{
    get_host, handle_error, handle_headers, handle_messages, handle_new_location,
    handle_open_connection, handshake_request, may_connect, react, read_line_step, reconnection_time,
    status_line_is_valid, stream_ended, validate_content_type, validate_status_code, HeaderStep,
    LineStep, Reaction, State, StreamAction,
};

const NO_LISTENER: Option<fn()> = None;

fn url(text: &str) -> StreamUrl {
    StreamUrl::parse(text).unwrap()
}

#[test]
fn should_use_port_80_as_default_when_no_port_provided() {
    let url = StreamUrl::parse("http://localhost").unwrap();
    let host = get_host(&url);

    assert_eq!(host, String::from("localhost:80"));
}

#[test]
fn should_use_port_443_as_default_when_https_and_no_port_provided() {
    let url = StreamUrl::parse("https://localhost").unwrap();
    let host = get_host(&url);

    assert_eq!(host, String::from("localhost:443"));
}

#[test]
fn host_keeps_an_explicit_port() {
    assert_eq!(get_host(&url("http://example.com:1456/sub")), "example.com:1456");
    assert_eq!(get_host(&url("http://127.0.0.1:7/")), "127.0.0.1:7");
}

#[test]
fn host_without_port_or_host() {
    let no_port = url("foo://example.com/x");
    assert_eq!(no_port.port, None);
    assert_eq!(get_host(&no_port), "example.com");
    let no_host = url("data:text/plain,Stuff");
    assert_eq!(no_host.host, None);
    assert_eq!(get_host(&no_host), "localhost");
}

#[test]
fn url_parse_reads_its_parts() {
    let u = url("http://localhost:8080/sub?x=1");
    assert_eq!(u.text, "http://localhost:8080/sub?x=1");
    assert_eq!(u.host, Some("localhost".to_string()));
    assert_eq!(u.port, Some(8080));
    assert_eq!(u.path, "/sub");
    assert!(StreamUrl::parse("127.0.0.1:1236/sub").is_err());
    assert_eq!(u.clone(), u);
}

#[test]
fn status_codes_that_open_or_redirect() {
    assert_eq!(validate_status_code("HTTP/1.1 200 OK\r\n"), Ok(200));
    for code in ["301", "302", "303", "307"] {
        let line = format!("HTTP/1.1 {} Moved\r\n", code);
        assert_eq!(validate_status_code(&line), Ok(code.parse::<i32>().unwrap()));
    }
}

#[test]
fn status_500_closes_with_its_status_text() {
    assert_eq!(
        validate_status_code("HTTP/1.1 500 Internal Server Error\r\n"),
        Err(StreamAction::Close("500 Internal Server Error".to_string()))
    );
}

#[test]
fn status_204_closes_and_other_2xx_reconnect() {
    assert_eq!(
        validate_status_code("HTTP/1.1 204 No Content\r\n"),
        Err(StreamAction::Close("204 No Content".to_string()))
    );
    assert_eq!(
        validate_status_code("HTTP/1.1 202 Accepted\r\n"),
        Err(StreamAction::Reconnect("202 Accepted".to_string()))
    );
    assert_eq!(
        validate_status_code("HTTP/1.1 205 Reset Content"),
        Err(StreamAction::Reconnect("205 Reset Content".to_string()))
    );
}

#[test]
fn status_with_sign_is_read_as_a_number() {
    assert_eq!(
        validate_status_code("HTTP/1.1 +20 odd"),
        Err(StreamAction::Close("+20 odd".to_string()))
    );
}

#[test]
fn status_lines_that_cannot_be_read() {
    assert!(status_line_is_valid("HTTP/1.1 200 OK"));
    assert!(!status_line_is_valid("HTTP/1.1"));
    assert!(!status_line_is_valid("HTTP/1.1 20 \r\n"));
    assert!(!status_line_is_valid("HTTP/1.1 2x0 OK"));
    assert!(!status_line_is_valid("HTTP/1.1\u{e9}00 OK"));
    assert_eq!(validate_status_code("HTTP/1.\u{e9}200 OK"), Ok(200));
}

#[test]
fn content_type_must_be_event_stream() {
    assert_eq!(validate_content_type("Content-Type: text/event-stream"), Ok(()));
    assert_eq!(
        validate_content_type("Content-Type: application/json"),
        Err(StreamAction::Close("Wrong Content-Type".to_string()))
    );
}

#[test]
fn location_under_redirections() {
    let line = "Location: http://localhost:9000/sub";
    assert_eq!(
        handle_new_location(line, 301),
        Err(StreamAction::MovePermanently(url("http://localhost:9000/sub")))
    );
    assert_eq!(
        handle_new_location(line, 307),
        Err(StreamAction::Move(url("http://localhost:9000/sub")))
    );
    assert_eq!(handle_new_location(line, 200), Ok(()));
}

#[test]
fn headers_of_a_response() {
    let mut state = State::Connecting;
    let mut attempts = 4;
    assert_eq!(
        handle_headers("Content-Type: text/event-stream", &mut state, &NO_LISTENER, &mut attempts, 200),
        Some(Ok(HeaderStep::Read))
    );
    assert_eq!(
        handle_headers("Date: Thu, 24 May 2018 12:26:38 GMT", &mut state, &NO_LISTENER, &mut attempts, 200),
        Some(Ok(HeaderStep::Read))
    );
    assert_eq!((state.clone(), attempts), (State::Connecting, 4));
    assert_eq!(handle_headers("", &mut state, &NO_LISTENER, &mut attempts, 200), Some(Ok(HeaderStep::Opened)));
    assert_eq!((state, attempts), (State::Open, 0));
}

#[test]
fn headers_that_end_the_attempt() {
    let mut state = State::Connecting;
    let mut attempts = 0;
    assert_eq!(
        handle_headers("Content-Type: application/json", &mut state, &NO_LISTENER, &mut attempts, 200),
        Some(Err(StreamAction::Close("Wrong Content-Type".to_string())))
    );
    assert_eq!(
        handle_headers("Location: http://other:1/sub", &mut state, &NO_LISTENER, &mut attempts, 302),
        Some(Err(StreamAction::Move(url("http://other:1/sub"))))
    );
    assert_eq!(handle_headers("Location: not a url", &mut state, &NO_LISTENER, &mut attempts, 302), None);
    assert_eq!(handle_headers("Location:", &mut state, &NO_LISTENER, &mut attempts, 200), None);
    assert_eq!(
        handle_headers("Location: not a url", &mut state, &NO_LISTENER, &mut attempts, 200),
        Some(Ok(HeaderStep::Read))
    );
    assert_eq!(state, State::Connecting);
}

#[test]
fn lines_after_the_head_are_messages() {
    let mut state = State::Open;
    let mut attempts = 0;
    assert_eq!(
        read_line_step("data: some message", &mut state, &NO_LISTENER, &mut attempts, 200),
        Some(Ok(LineStep::Message))
    );
    let mut connecting = State::Connecting;
    assert_eq!(
        read_line_step("", &mut connecting, &NO_LISTENER, &mut attempts, 200),
        Some(Ok(LineStep::Header(HeaderStep::Opened)))
    );
    assert_eq!(connecting, State::Open);
}

#[test]
fn open_connection_resets_attempts() {
    let mut state = State::Connecting;
    let mut attempts = 9;
    let (tx, rx) = mpsc::channel();
    handle_open_connection(&mut state, &Some(move || tx.send("open").unwrap()), &mut attempts);
    assert_eq!((state, attempts), (State::Open, 0));
    assert_eq!(rx.recv().unwrap(), "open");
    assert!(rx.try_recv().is_err());
}

#[test]
fn end_of_stream() {
    assert_eq!(stream_ended(State::Closed), Ok(()));
    assert_eq!(
        stream_ended(State::Open),
        Err(StreamAction::Reconnect("connection closed by server".to_string()))
    );
}

#[test]
fn reconnection_backoff_grows_exponentially() {
    assert_eq!(reconnection_time(0), 500);
    assert_eq!(reconnection_time(1), 515);
    assert_eq!(reconnection_time(3), 605);
    assert_eq!(reconnection_time(60), 500 + 15 * ((1u64 << 60) - 1));
}

#[test]
fn reactions_to_stream_endings() {
    let origin = url("http://localhost:1/sub");
    let mut state = State::Open;
    let mut attempts = 2;
    let r = react(StreamAction::Reconnect("boom".to_string()), origin.clone(), &mut state, &mut attempts);
    assert_eq!(r, Reaction::Retry { error: "boom".to_string(), delay_ms: 545, url: origin.clone() });
    assert_eq!((state.clone(), attempts), (State::Connecting, 3));

    let r = react(StreamAction::Close("500 x".to_string()), origin.clone(), &mut state, &mut attempts);
    assert_eq!(r, Reaction::Stop { error: "500 x".to_string() });
    assert_eq!((state.clone(), attempts), (State::Closed, 3));

    let other = url("http://localhost:2/sub");
    state = State::Open;
    let r = react(StreamAction::Move(other.clone()), origin.clone(), &mut state, &mut attempts);
    assert_eq!(r, Reaction::Follow { url: origin.clone(), connection_url: other.clone() });
    assert_eq!(state, State::Connecting);

    let r = react(StreamAction::MovePermanently(other.clone()), origin, &mut state, &mut attempts);
    assert_eq!(r, Reaction::Follow { url: other.clone(), connection_url: other });
}

#[test]
fn handshake_names_the_last_event_id() {
    assert_eq!(
        handshake_request("/sub", "localhost:80", &None),
        "GET /sub HTTP/1.1\r\nAccept: text/event-stream\r\nHost: localhost:80\r\n\r\n"
    );
    assert_eq!(
        handshake_request("/sub", "localhost:80", &Some("helpMe".to_string())),
        "GET /sub HTTP/1.1\r\nAccept: text/event-stream\r\nHost: localhost:80\r\nLast-Event-ID: helpMe\r\n\r\n"
    );
}

#[test]
fn callbacks_get_lines_and_errors() {
    let (tx, rx) = mpsc::channel();
    let on_message = Some(move |line: String| tx.send(line).unwrap());
    handle_messages("data: some message".to_string(), &on_message);
    assert_eq!(rx.recv().unwrap(), "data: some message");
    let none: Option<fn(String)> = None;
    handle_error("ignored".to_string(), &none);
    let (etx, erx) = mpsc::channel();
    handle_error("Wrong Content-Type".to_string(), &Some(move |m: String| etx.send(m).unwrap()));
    assert_eq!(erx.recv().unwrap(), "Wrong Content-Type");
}

#[test]
fn closed_client_halts_without_reporting() {
    let origin = url("http://localhost:1/sub");
    let mut attempts = 3;
    for action in [
        StreamAction::Reconnect("connection closed by server".to_string()),
        StreamAction::Close("500 x".to_string()),
        StreamAction::Move(url("http://localhost:2/sub")),
        StreamAction::MovePermanently(url("http://localhost:2/sub")),
    ] {
        let mut state = State::Closed;
        assert_eq!(react(action, origin.clone(), &mut state, &mut attempts), Reaction::Halt);
        assert_eq!((state.clone(), attempts), (State::Closed, 3));
    }
    let mut state = State::Closed;
    assert_eq!(react(StreamAction::Reconnect("e".to_string()), origin, &mut state, &mut 1000), Reaction::Halt);
    assert!(!may_connect(State::Closed));
    assert!(may_connect(State::Connecting));
    assert!(may_connect(State::Open));
}

#[test]
fn lines_after_close_are_dropped() {
    let mut state = State::Closed;
    let mut attempts = 0;
    assert_eq!(
        read_line_step("data: late", &mut state, &NO_LISTENER, &mut attempts, 200),
        Some(Ok(LineStep::Dropped))
    );
    assert_eq!(state, State::Closed);
}

#[test]
fn blank_line_of_the_head_notifies_the_open_listener() {
    let (tx, rx) = mpsc::channel();
    let on_open = Some(move || tx.send("open").unwrap());
    let mut state = State::Connecting;
    let mut attempts = 5;
    assert_eq!(
        handle_headers("Content-Type: text/event-stream", &mut state, &on_open, &mut attempts, 200),
        Some(Ok(HeaderStep::Read))
    );
    assert!(rx.try_recv().is_err());
    assert_eq!(
        read_line_step("", &mut state, &on_open, &mut attempts, 200),
        Some(Ok(LineStep::Header(HeaderStep::Opened)))
    );
    assert_eq!(rx.recv().unwrap(), "open");
    assert_eq!((state, attempts), (State::Open, 0));
}
