//! Mapping descriptors.
//!
//! A descriptor says which port translation the application wants; the
//! session layer never interprets it, it only carries it to the worker
//! inside an event. Inbound and outbound descriptors form a closed set of
//! tagged variants dispatched through the one request operation.

use vstd::prelude::*;
use crate::IpAddress;

verus! {

/// Request that the gateway forward an external port to a local one.
pub struct InboundMap<Ip: IpAddress> {
    pub internal_address: Ip,
    pub internal_port: u16,
    pub lifetime_seconds: u32,
}

/// Request that the gateway keep an outbound flow to a remote peer open.
pub struct OutboundMap<Ip: IpAddress> {
    pub internal_address: Ip,
    pub internal_port: u16,
    pub remote_address: Ip,
    pub remote_port: u16,
    pub lifetime_seconds: u32,
}

/// Marker for the descriptor kinds the request operation accepts.
pub trait Mapping<Ip: IpAddress>: Sized {
}

impl<Ip: IpAddress> Mapping<Ip> for InboundMap<Ip> {

}

impl<Ip: IpAddress> Mapping<Ip> for OutboundMap<Ip> {

}

/// The closed union of the two descriptor kinds: what one request
/// operation dispatches on.
pub enum MapPayload<Ip: IpAddress> {
    Inbound(InboundMap<Ip>),
    Outbound(OutboundMap<Ip>),
}

} // verus!
