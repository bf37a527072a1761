//! Request planning and response classification for a desktop client of a
//! remote control-plane API.
//!
//! A call has three steps. The library plans the request: it normalises the
//! base URL and the path, joins them, has the result parsed as a URL, checks
//! its scheme and attaches the token and the payload (`request`). The
//! caller sends what was planned and reads the response in full. The
//! library then turns status and body into a reply or a failure
//! (`response`). Every failure, the caller's own among them, is one value of
//! `error::BridgeError` and has one line of text.
//!
//! Contracts are stated over the views of the types: texts as sequences of
//! characters, requests, replies and failures as plain mathematical values.
//! `laws` holds what follows for every request and every response.

pub mod error;
pub mod json;
pub mod laws;
pub mod method;
pub mod request;
pub mod response;
pub mod target;
pub mod text;
