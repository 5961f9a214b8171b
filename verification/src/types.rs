//! Plain-value payloads for the error taxonomy.
//!
//! The worker reports failures as values of these types; the session layer
//! itself only ever produces `ChannelError`. All of them are plain data so
//! that contracts and callers can speak about them exactly.

use vstd::prelude::*;

verus! {

/// An I/O failure reaching or reading the gateway, reported by the worker.
/// Carries the operating-system error code of the failed socket operation.
#[derive(Clone, Copy, Debug, PartialEq, Eq, Structural)]
pub struct SocketError {
    pub code: i32,
}

/// An in-process rendezvous channel broke: the other side is gone.
/// Mirrors the empty receive-error of the underlying channel; there is
/// nothing more to know than that the channel is severed.
#[derive(Clone, Copy, Debug, PartialEq, Eq, Structural)]
pub struct ChannelError;

/// The worker received protocol data it could not interpret.
#[derive(Clone, Copy, Debug, PartialEq, Eq, Structural)]
pub enum ParsingError {
    /// The packet ended before a complete response could be read.
    Truncated,
    /// The version field held an unsupported value.
    InvalidVersion(u8),
    /// The opcode field held an unknown value.
    InvalidOpcode(u8),
}

} // verus!
