//! Client-side session fabric for the Port Control Protocol (PCP).
//!
//! The crate provides the in-process coordination layer between an
//! application-facing session handle and a background worker that speaks
//! the wire protocol with the gateway: mapping requests travel to the
//! worker over an ordered event channel, identifiers come back on a
//! per-request reply channel, failures arrive out-of-band on a shared
//! error channel, and each mapping's lifecycle is published through a
//! lock-free, single-writer state cell.
//!
//! What a channel hands over at run time depends on the peer thread, so
//! the channel operations themselves are trusted, thin wrappers in
//! `chan`; everything this crate decides about their outcomes — how a
//! reply settles a request, how channel failures classify as errors,
//! how the worker must absorb `Shutdown` — is verified logic with an
//! exact contract.

use vstd::prelude::*;

pub mod chan;
pub mod event;
pub mod handle;
pub mod map;
pub mod state;
pub mod types;
pub mod worker;

verus! {

/// Marker for the address family a session is generic over.
///
/// The wire-level meaning of an address belongs to the worker; this layer
/// only keeps requests of different families apart at the type level.
pub trait IpAddress: Sized {

}

/// IPv4 address carried as its 32 raw bits.
#[derive(Clone, Copy, Debug, PartialEq, Eq, Structural)]
pub struct Ipv4 {
    pub bits: u32,
}

/// IPv6 address carried as its 128 raw bits, split in two halves.
#[derive(Clone, Copy, Debug, PartialEq, Eq, Structural)]
pub struct Ipv6 {
    pub high: u64,
    pub low: u64,
}

impl IpAddress for Ipv4 {

}

impl IpAddress for Ipv6 {

}

/// Opaque correlation token the worker assigns to an accepted mapping.
pub type MappingId = u64;

} // verus!
