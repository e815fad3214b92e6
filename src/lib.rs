//! A client-side driver core for smart lights that speak a JSON command
//! protocol over UDP.
//!
//! The library does no I/O itself: it encodes the requests to send, decodes
//! the replies handed back to it, and decides how a device session and a
//! discovery scan evolve from each outcome.
pub mod codec;
pub mod session;
pub mod discovery;
