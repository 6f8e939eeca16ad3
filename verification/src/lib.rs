//! Core of an outbound TCP tunnel: connection strategy with one-shot
//! proxy-to-direct fallback, emission of the HTTP CONNECT request line,
//! and a resumable validator for the proxy's CONNECT response that stops
//! exactly at the first byte of tunneled payload.
//!
//! The I/O itself (opening sockets, reading and writing bytes) is left to
//! the caller; this crate decides what to connect to, what to write, and
//! how to interpret every byte that comes back.

pub mod endpoints;
pub mod laws;
pub mod request;
pub mod response;
pub mod session;
pub mod strategy;
pub mod utf8;
