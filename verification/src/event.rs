//! Events: the messages a session handle sends to its worker.

use vstd::prelude::*;
use std::sync::mpsc::Sender;
use crate::IpAddress;
use crate::MappingId;
use crate::handle::RequestType;
use crate::map::InboundMap;
use crate::map::MapPayload;
use crate::map::OutboundMap;
use crate::state::AtomicState;
use crate::state::State;

verus! {

/// Message from the session handle to the worker, delivered in send
/// order over one channel.
///
/// A mapping event carries the descriptor and renewal policy together
/// with everything the worker needs to answer: a share of the lifecycle
/// state cell it alone will write, the reply sender for the one
/// identifier-or-absence answer, and the alert sender for later
/// lifecycle notifications. `Shutdown` asks the worker to stop and is
/// idempotent on the worker's side.
#[verifier::reject_recursive_types(Ip)]
pub enum Event<Ip: IpAddress> {
    InboundMap(InboundMap<Ip>, RequestType, AtomicState, Sender<Option<MappingId>>, Sender<State>),
    OutboundMap(
        OutboundMap<Ip>,
        RequestType,
        AtomicState,
        Sender<Option<MappingId>>,
        Sender<State>,
    ),
    Shutdown,
}

impl<Ip: IpAddress> Event<Ip> {
    /// Builds the mapping event for one request: the descriptor and the
    /// renewal policy pass through unchanged into the variant the
    /// payload's tag selects, together with the given state cell, reply
    /// sender and alert sender.
    pub fn for_mapping(
        payload: MapPayload<Ip>,
        kind: RequestType,
        cell: AtomicState,
        reply: Sender<Option<MappingId>>,
        alerts: Sender<State>,
    ) -> (ev: Event<Ip>)
        ensures
            payload matches MapPayload::Inbound(m) ==> ev == Event::InboundMap(
                m,
                kind,
                cell,
                reply,
                alerts,
            ),
            payload matches MapPayload::Outbound(m) ==> ev == Event::OutboundMap(
                m,
                kind,
                cell,
                reply,
                alerts,
            ),
    {
        match payload {
            MapPayload::Inbound(m) => Event::InboundMap(m, kind, cell, reply, alerts),
            MapPayload::Outbound(m) => Event::OutboundMap(m, kind, cell, reply, alerts),
        }
    }
}

} // verus!
