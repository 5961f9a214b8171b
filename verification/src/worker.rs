//! The worker's side of a session: its channel ends and the shutdown
//! discipline it must follow.
//!
//! The wire protocol itself lives outside this crate; what is fixed
//! here is the event stream the worker consumes, the error channel it
//! feeds, and the rule that `Shutdown` is an idempotent, terminal
//! signal.

use vstd::prelude::*;
use std::sync::mpsc::Receiver;
use std::sync::mpsc::Sender;
use crate::IpAddress;
use crate::chan;
use crate::chan::Poll;
use crate::event::Event;
use crate::handle::Error;
use crate::types::ChannelError;

verus! {

/// The worker's end of a session: the event receiver it drains in send
/// order and the error sender it posts failures on.
#[verifier::reject_recursive_types(Ip)]
pub struct WorkerLink<Ip: IpAddress> {
    events: Receiver<Event<Ip>>,
    errors: Sender<Error>,
}

impl<Ip: IpAddress> WorkerLink<Ip> {
    /// The event receiver this link drains.
    pub closed spec fn spec_event_receiver(&self) -> Receiver<Event<Ip>> {
        self.events
    }

    /// The error sender this link posts on.
    pub closed spec fn spec_error_sender(&self) -> Sender<Error> {
        self.errors
    }

    /// Bundles the worker's two channel ends: exactly the given event
    /// receiver and the given error sender.
    pub fn new(events: Receiver<Event<Ip>>, errors: Sender<Error>) -> (w: WorkerLink<Ip>)
        ensures
            w.spec_event_receiver() == events,
            w.spec_error_sender() == errors,
    {
        WorkerLink { events, errors }
    }

    /// Blocks for the next event; once every session and mapping handle
    /// is gone and the queue drained, reports the channel severed so the
    /// worker can stop.
    pub fn next_event(&self) -> Result<Event<Ip>, ChannelError> {
        chan::recv(&self.events)
    }

    /// Returns the next pending event, if any; never blocks.
    pub fn poll_event(&self) -> Poll<Event<Ip>> {
        chan::try_recv(&self.events)
    }

    /// Posts one error for the application side to consume; reports
    /// whether the session handle was still there to receive it.
    pub fn post_error(&self, e: Error) -> bool {
        chan::send(&self.errors, e)
    }
}

/// Where the worker stands in its own termination.
#[derive(Clone, Copy, Debug, PartialEq, Eq, Structural)]
pub enum Phase {
    /// Processing mapping events.
    Running,
    /// A `Shutdown` was absorbed; the worker is winding down.
    Stopping,
    /// The worker has terminated.
    Stopped,
}

/// What the worker does with one event.
#[derive(Clone, Copy, Debug, PartialEq, Eq, Structural)]
pub enum Reaction {
    /// Process the mapping event through the wire protocol.
    Dispatch,
    /// Begin winding down: the first `Shutdown` takes effect.
    BeginShutdown,
    /// Do nothing: the event arrived at or past termination.
    Ignore,
}

/// The phase after absorbing one event: only the first `Shutdown` in
/// `Running` moves the worker, to `Stopping`; every later event leaves
/// the phase alone once the worker is past `Running`.
pub open spec fn phase_after(p: Phase, shutdown: bool) -> Phase {
    if p is Running && shutdown {
        Phase::Stopping
    } else {
        p
    }
}

/// The reaction one event provokes: mapping events are dispatched only
/// while running; a `Shutdown` takes effect only once; everything at or
/// past termination is a no-op.
pub open spec fn reaction_to(p: Phase, shutdown: bool) -> Reaction {
    if p is Running {
        if shutdown {
            Reaction::BeginShutdown
        } else {
            Reaction::Dispatch
        }
    } else {
        Reaction::Ignore
    }
}

/// Absorbs one event into the worker's termination discipline,
/// returning the next phase and the reaction the event provokes.
pub fn absorb_event<Ip: IpAddress>(p: Phase, ev: &Event<Ip>) -> (r: (Phase, Reaction))
    ensures
        r.0 == phase_after(p, *ev is Shutdown),
        r.1 == reaction_to(p, *ev is Shutdown),
{
    let shutdown = matches!(ev, Event::Shutdown);
    match p {
        Phase::Running => if shutdown {
            (Phase::Stopping, Reaction::BeginShutdown)
        } else {
            (Phase::Running, Reaction::Dispatch)
        },
        Phase::Stopping => (Phase::Stopping, Reaction::Ignore),
        Phase::Stopped => (Phase::Stopped, Reaction::Ignore),
    }
}

/// Law: `Shutdown` is idempotent. After one `Shutdown` is absorbed, a
/// second one neither moves the phase nor provokes any worker-visible
/// side effect — so an explicit `shutdown()` followed by the handle's
/// destructor triggers termination exactly once.
pub proof fn lemma_shutdown_idempotent(p: Phase)
    ensures
        phase_after(phase_after(p, true), true) == phase_after(p, true),
        reaction_to(phase_after(p, true), true) == Reaction::Ignore,
{
}

/// Law: termination is monotonic. Absorbing any event never moves the
/// worker back toward `Running`, and a stopped worker stays stopped.
pub proof fn lemma_phase_never_regresses(p: Phase, shutdown: bool)
    ensures
        p is Stopping ==> phase_after(p, shutdown) == p,
        p is Stopped ==> phase_after(p, shutdown) == p,
{
}

} // verus!
