//! Server-side handshake and request/reply codec for the SOCKS protocol,
//! version 5.
//!
//! The crate turns the byte buffers received from a client into typed protocol
//! values, sequences the handshake through a chain of phase types, and turns
//! typed replies back into their exact wire bytes. Every function is a pure
//! function of its arguments; all I/O is left to the caller.
//!
//! Each wire format is given twice: as a specification function over `Seq<u8>`
//! and as executable code whose contract refers to that specification.

pub mod wire;
pub mod request_error;
pub mod address;
pub mod command;
pub mod authentication;
pub mod messages;
pub mod client;
