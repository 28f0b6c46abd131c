//! Client for streams of Server-Sent Events: parsing of the event-stream
//! format, event routing to listeners, and the decisions of the connection
//! state machine (status codes, headers, redirections, reconnection backoff).
//!
//! - `data`: events and the builder that assembles them from stream lines.
//! - `compact_data`: a builder that keeps only an event's type and data.
//! - `registry`, `pub_sub`, `bus`: listeners by name, and publishing to them.
//! - `location`: stream addresses, parsed with the `url` crate.
//! - `network`: status lines, headers, redirections, reconnection and requests.
//! - `source`: how stream lines become events on a bus.
//! - `text`: white space, trimming and searching within lines.
use vstd::prelude::*;

pub mod text;
pub mod data;
pub mod compact_data;
pub mod registry;
pub mod pub_sub;
pub mod bus;
pub mod location;
pub mod network;
pub mod source;

verus! {

} // verus!
