//! Mapping lifecycle state and the lock-free cell that publishes it.
//!
//! The cell is written by the worker alone and read by any number of
//! application threads; a plain atomic store/load pair is enough because
//! there is a single writer by construction.

use vstd::prelude::*;
use core::sync::atomic::AtomicU8;
use core::sync::atomic::Ordering;
use std::sync::Arc;
use std::sync::mpsc::Receiver;
use std::sync::mpsc::Sender;
use crate::IpAddress;
use crate::MappingId;
use crate::chan;
use crate::event::Event;
use crate::handle::Error;
use crate::types::ChannelError;

verus! {

/// Lifecycle phase of one mapping as the application observes it.
///
/// `Requested` is set when the request is created, before any worker
/// reply; the worker advances the state from there. `Expired` and
/// `Deleted` are terminal: a mapping never leaves them.
#[derive(Clone, Copy, Debug, PartialEq, Eq, Structural)]
pub enum State {
    /// The request was submitted and no reply has been processed yet.
    Requested,
    /// The gateway accepted the mapping and it is live.
    Granted,
    /// The worker is renewing the mapping before it lapses.
    Renewing,
    /// The mapping's lifetime ran out without renewal.
    Expired,
    /// The mapping was released or removed by the gateway.
    Deleted,
}

/// Whether a state is terminal: once reached, the mapping never leaves it.
pub open spec fn is_terminal(s: State) -> bool {
    s is Expired || s is Deleted
}

/// Which writes the single writer may perform: anything from a live
/// state, nothing out of a terminal one.
pub open spec fn transition_ok(from: State, to: State) -> bool {
    is_terminal(from) ==> to == from
}

/// Runtime view of `transition_ok`, for a worker that wants to check a
/// step before storing it.
pub fn may_transition(from: State, to: State) -> (r: bool)
    ensures
        r == transition_ok(from, to),
{
    match from {
        State::Expired => to == State::Expired,
        State::Deleted => to == State::Deleted,
        _ => true,
    }
}

/// A terminal state admits no transition but staying put.
///
/// Law: lifecycle transitions never regress from a terminal state.
pub proof fn lemma_terminal_state_is_final(from: State, to: State)
    ensures
        is_terminal(from) && transition_ok(from, to) ==> to == from,
{
}

/// The tag under which a state is stored in the atomic cell.
pub open spec fn spec_tag_of_state(s: State) -> u8 {
    match s {
        State::Requested => 0,
        State::Granted => 1,
        State::Renewing => 2,
        State::Expired => 3,
        State::Deleted => 4,
    }
}

/// The state a stored tag stands for; unknown tags read as `Requested`,
/// so decoding is total.
pub open spec fn spec_state_of_tag(t: u8) -> State {
    if t == 1 {
        State::Granted
    } else if t == 2 {
        State::Renewing
    } else if t == 3 {
        State::Expired
    } else if t == 4 {
        State::Deleted
    } else {
        State::Requested
    }
}

/// Encodes a state as its cell tag.
pub fn tag_of_state(s: State) -> (t: u8)
    ensures
        t == spec_tag_of_state(s),
{
    match s {
        State::Requested => 0,
        State::Granted => 1,
        State::Renewing => 2,
        State::Expired => 3,
        State::Deleted => 4,
    }
}

/// Decodes a cell tag back to the state it stands for.
pub fn state_of_tag(t: u8) -> (s: State)
    ensures
        s == spec_state_of_tag(t),
{
    if t == 1 {
        State::Granted
    } else if t == 2 {
        State::Renewing
    } else if t == 3 {
        State::Expired
    } else if t == 4 {
        State::Deleted
    } else {
        State::Requested
    }
}

/// Encoding a state and decoding the tag gives the state back: the cell
/// never garbles what the worker stored.
pub proof fn lemma_state_tag_round_trip(s: State)
    ensures
        spec_state_of_tag(spec_tag_of_state(s)) == s,
{
}

/// Lock-free lifecycle state cell: one writer (the worker), any number
/// of readers, shared through an internal reference count.
pub struct AtomicState {
    cell: Arc<AtomicU8>,
}

impl AtomicState {
    /// Creates a fresh cell holding `s`.
    pub fn new(s: State) -> AtomicState {
        AtomicState { cell: Arc::new(AtomicU8::new(tag_of_state(s))) }
    }

    /// Relies on std::sync::Arc::clone: the returned cell shares the same
    /// atomic as `self`, so readers observe the single writer's stores.
    #[verifier::external_body]
    pub fn share(&self) -> AtomicState {
        AtomicState { cell: Arc::clone(&self.cell) }
    }

    /// Reads the current state; never blocks, never fails.
    pub fn read(&self) -> State {
        state_of_tag(self.cell.load(Ordering::SeqCst))
    }

    /// Stores a new state; meant to be called by the worker alone, which
    /// makes the plain store safe without compare-and-swap.
    pub fn write(&self, s: State) {
        self.cell.store(tag_of_state(s), Ordering::SeqCst);
    }
}

/// Per-mapping handle, created only once a request succeeded.
///
/// It wraps the worker-assigned identifier, a share of the lifecycle
/// state cell, a clone of the event sender retained for follow-up
/// commands owned by the worker side, and the private alert receiver.
#[verifier::reject_recursive_types(Ip)]
pub struct MapHandle<Ip: IpAddress> {
    id: MappingId,
    state: AtomicState,
    to_client: Sender<Event<Ip>>,
    alerts: Receiver<State>,
}

impl<Ip: IpAddress> MapHandle<Ip> {
    /// The identifier the worker assigned to this mapping.
    pub closed spec fn spec_id(&self) -> MappingId {
        self.id
    }

    /// The share of the lifecycle state cell this handle reads.
    pub closed spec fn spec_state_cell(&self) -> AtomicState {
        self.state
    }

    /// The event sender retained for follow-up commands.
    pub closed spec fn spec_event_sender(&self) -> Sender<Event<Ip>> {
        self.to_client
    }

    /// The alert receiver this handle consumes.
    pub closed spec fn spec_alert_receiver(&self) -> Receiver<State> {
        self.alerts
    }

    /// Wraps an accepted mapping: exactly the given identifier, state
    /// cell, retained sender and alert receiver end up in the handle.
    pub fn new(
        id: MappingId,
        state: AtomicState,
        to_client: Sender<Event<Ip>>,
        alerts: Receiver<State>,
    ) -> (h: MapHandle<Ip>)
        ensures
            h.spec_id() == id,
            h.spec_state_cell() == state,
            h.spec_event_sender() == to_client,
            h.spec_alert_receiver() == alerts,
    {
        MapHandle { id, state, to_client, alerts }
    }

    /// Returns the mapping's identifier.
    pub fn id(&self) -> (r: MappingId)
        ensures
            r == self.spec_id(),
    {
        self.id
    }

    /// The retained event sender, for correlated follow-up commands
    /// such as an explicit release; what such commands mean is owned by
    /// the worker side.
    pub fn event_sender(&self) -> (r: &Sender<Event<Ip>>)
        ensures
            *r == self.spec_event_sender(),
    {
        &self.to_client
    }

    /// Reads the mapping's current lifecycle state; never blocks.
    pub fn current_state(&self) -> State {
        self.state.read()
    }

    /// Blocks for the next lifecycle alert from the worker; once the
    /// worker is gone and the alert channel severed, it yields a
    /// `Channel` error instead of blocking forever.
    pub fn wait_alert(&self) -> (r: Result<State, Error>)
        ensures
            r matches Err(e) ==> e == Error::Channel(ChannelError),
    {
        match chan::recv(&self.alerts) {
            Ok(s) => Ok(s),
            Err(c) => Err(Error::Channel(c)),
        }
    }

    /// Returns the next pending lifecycle alert, if any; never blocks.
    pub fn poll_alert(&self) -> Option<State> {
        crate::handle::poll_to_option(chan::try_recv(&self.alerts))
    }
}

} // verus!
