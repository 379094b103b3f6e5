//! A small network traffic harness: a sink that discards what it reads, a
//! source that writes random alphanumeric payloads on a fixed tick, and an
//! HTTP responder that answers every request with an empty body.
//!
//! This crate holds what the three modes decide and compute; sockets, timers
//! and the async runtime stay with the caller.
pub mod payload;
pub mod responder;
pub mod sink;
pub mod source;
