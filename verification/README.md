# sse_client

A client for streams of Server-Sent Events, written in Verus.

`src/` is the verified library: the event-stream line format and the event
builders (`data`, `compact_data`), listeners by name and publishing
(`registry`, `pub_sub`, `bus`), stream addresses parsed with the `url` crate
(`location`), the decisions of the connection — status lines, headers,
redirections, reconnection backoff, the opening request (`network`) — and how
stream lines become events on a bus (`source`).

`app/` holds what runs around it: the threads, sockets and locks of
`EventSource` and `EventStream`, the optional TLS stream, a local test server
and a small sample program. They read and write, and ask the library what each
line or failure means.
