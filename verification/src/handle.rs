//! The session handle and the request orchestration around it.

use vstd::prelude::*;
use std::sync::mpsc::Receiver;
use std::sync::mpsc::Sender;
use crate::IpAddress;
use crate::MappingId;
use crate::chan;
use crate::chan::Poll;
use crate::event::Event;
use crate::map::InboundMap;
use crate::map::MapPayload;
use crate::map::Mapping;
use crate::map::OutboundMap;
use crate::state::AtomicState;
use crate::state::MapHandle;
use crate::state::State;
use crate::types::ChannelError;
use crate::types::ParsingError;
use crate::types::SocketError;
use crate::worker::WorkerLink;

verus! {

/// Error produced by a session operation.
#[derive(Clone, Copy, Debug, PartialEq, Eq, Structural)]
pub enum Error {
    /// The worker hit an I/O failure reaching or reading the gateway.
    Socket(SocketError),
    /// An in-process channel broke: the other side is gone.
    Channel(ChannelError),
    /// The worker received protocol data it could not interpret.
    Parsing(ParsingError),
}

impl From<SocketError> for Error {
    fn from(err: SocketError) -> Self {
        Self::Socket(err)
    }
}

impl vstd::std_specs::convert::FromSpecImpl<SocketError> for Error {
    open spec fn obeys_from_spec() -> bool {
        true
    }

    open spec fn from_spec(err: SocketError) -> Error {
        Error::Socket(err)
    }
}

impl From<ChannelError> for Error {
    fn from(err: ChannelError) -> Self {
        Self::Channel(err)
    }
}

impl vstd::std_specs::convert::FromSpecImpl<ChannelError> for Error {
    open spec fn obeys_from_spec() -> bool {
        true
    }

    open spec fn from_spec(err: ChannelError) -> Error {
        Error::Channel(err)
    }
}

impl From<ParsingError> for Error {
    fn from(err: ParsingError) -> Self {
        Self::Parsing(err)
    }
}

impl vstd::std_specs::convert::FromSpecImpl<ParsingError> for Error {
    open spec fn obeys_from_spec() -> bool {
        true
    }

    open spec fn from_spec(err: ParsingError) -> Error {
        Error::Parsing(err)
    }
}

/// Renewal policy attached to one mapping request; pure data for the
/// worker, which alone honors it.
#[derive(Clone, Copy, Debug, PartialEq, Eq, Structural)]
pub enum RequestType {
    /// Map once and let the mapping lapse.
    Once,
    /// Auto-renew up to the given number of times.
    Repeat(usize),
    /// Renew indefinitely until told to stop.
    KeepAlive,
}

/// What one reply from the worker means for the pending request.
#[derive(Clone, Copy, Debug, PartialEq, Eq, Structural)]
pub enum Verdict {
    /// The worker accepted the mapping under this identifier.
    Accept(MappingId),
    /// The worker turned the request down; the cause waits on the error
    /// channel.
    Rejected,
    /// The reply channel broke before any reply arrived.
    Severed,
}

/// The verdict each possible reply-channel outcome stands for.
pub open spec fn reply_verdict(r: Result<Option<MappingId>, ChannelError>) -> Verdict {
    match r {
        Ok(Some(id)) => Verdict::Accept(id),
        Ok(None) => Verdict::Rejected,
        Err(_) => Verdict::Severed,
    }
}

/// Classifies what came off a reply channel; total over every outcome.
pub fn judge_reply(r: Result<Option<MappingId>, ChannelError>) -> (v: Verdict)
    ensures
        v == reply_verdict(r),
{
    match r {
        Ok(Some(id)) => Verdict::Accept(id),
        Ok(None) => Verdict::Rejected,
        Err(_) => Verdict::Severed,
    }
}

/// A delivered identifier is accepted as exactly that identifier, an
/// absence reply is rejected, and a broken reply channel is severed:
/// no reply outcome is dropped or misfiled.
pub proof fn lemma_reply_verdict_exact(r: Result<Option<MappingId>, ChannelError>)
    ensures
        r matches Ok(Some(id)) ==> reply_verdict(r) == Verdict::Accept(id),
        r == Ok::<Option<MappingId>, ChannelError>(None) ==> reply_verdict(r) == Verdict::Rejected,
        r is Err ==> reply_verdict(r) == Verdict::Severed,
{
}

/// The error a blocking receive on the error channel yields: the posted
/// error itself, or a `Channel` error when the channel is severed.
pub open spec fn received_error(r: Result<Error, ChannelError>) -> Error {
    match r {
        Ok(e) => e,
        Err(c) => Error::Channel(c),
    }
}

/// Turns the outcome of a blocking error-channel receive into the error
/// it stands for; total, so a broken channel never aborts the caller.
pub fn classify_received(r: Result<Error, ChannelError>) -> (e: Error)
    ensures
        e == received_error(r),
{
    match r {
        Ok(e) => e,
        Err(c) => Error::from(c),
    }
}

/// Once the worker's side of the error channel is gone, the receive
/// outcome is severed and classifies as a `Channel` error, never as
/// silence.
pub proof fn lemma_severed_error_channel_classifies_as_channel(r: Result<Error, ChannelError>)
    ensures
        r is Err ==> received_error(r) == Error::Channel(ChannelError),
{
}

/// Turns a non-blocking receive outcome into an optional value: only a
/// pending value is reported; an empty and a severed queue both read as
/// nothing pending.
pub fn poll_to_option<T>(p: Poll<T>) -> (r: Option<T>)
    ensures
        p matches Poll::Received(t) ==> r == Some(t),
        !(p is Received) ==> r is None,
{
    match p {
        Poll::Received(t) => Some(t),
        Poll::Empty => None,
        Poll::Severed => None,
    }
}

/// A handle to a PCP session: the single logical owner of the event
/// sender and the error-channel receiver.
#[verifier::reject_recursive_types(Ip)]
pub struct Handle<Ip: IpAddress> {
    to_client: Sender<Event<Ip>>,
    from_client: Receiver<Error>,
}

/// A request that was sent to the worker and awaits its reply.
///
/// Holding it instead of blocking lets a caller act as its own worker
/// or interleave submissions; `Handle::conclude` turns it into the final
/// result.
pub struct Pending {
    /// The private reply channel the worker answers on, exactly once.
    reply: Receiver<Option<MappingId>>,
    /// The private alert channel for later lifecycle notifications.
    alerts: Receiver<State>,
    /// The requesting side's share of the lifecycle state cell.
    state: AtomicState,
}

impl Pending {
    /// The request's share of the lifecycle state cell, allocated at
    /// submission holding `Requested`.
    pub closed spec fn spec_state_cell(&self) -> AtomicState {
        self.state
    }

    /// The request's private alert receiver, paired with the alert
    /// sender that travelled to the worker.
    pub closed spec fn spec_alert_receiver(&self) -> Receiver<State> {
        self.alerts
    }
}

/// Settles the outcome of sending a mapping event: a delivered event
/// leaves the request pending exactly as allocated; a failed send — the
/// worker's receiver is gone — is a `Channel` error, never silence and
/// never a panic.
pub fn settle_submission(sent: bool, pending: Pending) -> (r: Result<Pending, Error>)
    ensures
        sent ==> r == Ok::<Pending, Error>(pending),
        !sent ==> r == Err::<Pending, Error>(Error::Channel(ChannelError)),
{
    if sent {
        Ok(pending)
    } else {
        Err(Error::Channel(ChannelError))
    }
}

/// Settles one reply verdict into the request's final result.
///
/// An accepted identifier yields a mapping handle wrapping exactly that
/// identifier, the request's own state cell and alert receiver, and the
/// given follow-up sender. A rejection yields the error fetched from
/// the error channel (or a `Channel` error if none could be fetched
/// because that channel was severed too). A severed reply channel
/// yields a `Channel` error.
pub fn settle_verdict<Ip: IpAddress>(
    verdict: Verdict,
    fetched: Option<Error>,
    pending: Pending,
    follow_up: Sender<Event<Ip>>,
) -> (r: Result<MapHandle<Ip>, Error>)
    ensures
        verdict matches Verdict::Accept(id) ==> r matches Ok(h) && h.spec_id() == id
            && h.spec_state_cell() == pending.spec_state_cell() && h.spec_alert_receiver()
            == pending.spec_alert_receiver() && h.spec_event_sender() == follow_up,
        verdict is Rejected ==> r == (match fetched {
            Some(e) => Err::<MapHandle<Ip>, Error>(e),
            None => Err::<MapHandle<Ip>, Error>(Error::Channel(ChannelError)),
        }),
        verdict is Severed ==> r == Err::<MapHandle<Ip>, Error>(Error::Channel(ChannelError)),
{
    let Pending { reply: _, alerts, state } = pending;
    match verdict {
        Verdict::Accept(id) => Ok(MapHandle::new(id, state, follow_up, alerts)),
        Verdict::Rejected => match fetched {
            Some(e) => Err(e),
            None => Err(Error::Channel(ChannelError)),
        },
        Verdict::Severed => Err(Error::Channel(ChannelError)),
    }
}

impl<Ip: IpAddress> Handle<Ip> {
    /// The event sender this handle feeds the worker through.
    pub closed spec fn spec_event_sender(&self) -> Sender<Event<Ip>> {
        self.to_client
    }

    /// The error receiver this handle consumes.
    pub closed spec fn spec_error_receiver(&self) -> Receiver<Error> {
        self.from_client
    }

    /// Builds a handle from the two channel ends it owns: exactly the
    /// given event sender and the given error receiver.
    pub fn new(to_client: Sender<Event<Ip>>, from_client: Receiver<Error>) -> (h: Handle<Ip>)
        ensures
            h.spec_event_sender() == to_client,
            h.spec_error_receiver() == from_client,
    {
        Handle { to_client, from_client }
    }

    /// Waits for an error to arrive.
    ///
    /// Blocks until the worker posts an error; if the worker is gone and
    /// the channel severed, it yields a `Channel` error instead of
    /// blocking forever. `classify_received` states exactly which error
    /// each receive outcome becomes.
    pub fn wait_err(&self) -> Error {
        classify_received(chan::recv(&self.from_client))
    }

    /// Returns `Some(error)` if an error is pending, `None` otherwise;
    /// never blocks. `poll_to_option` states exactly how each poll
    /// outcome is reported.
    pub fn poll_err(&self) -> Option<Error> {
        poll_to_option(chan::try_recv(&self.from_client))
    }

    /// Signals the worker to stop; best effort, a failure to send means
    /// the worker is already gone. Consuming the handle also runs its
    /// destructor, which repeats the signal — the worker treats
    /// `Shutdown` as idempotent, so the repeat is a no-op there.
    pub fn shutdown(self) {
        chan::send(&self.to_client, Event::Shutdown);
    }

    /// Sends one mapping request to the worker without blocking for the
    /// reply.
    ///
    /// Allocates the fresh reply channel, alert channel and state cell
    /// (initialized `Requested`), wraps them with the descriptor into
    /// the matching event — `Event::for_mapping` fixes exactly what is
    /// sent — and sends it. `settle_submission` fixes what each send
    /// outcome yields: the only failure this side can produce is a
    /// severed event channel, reported as `Channel`.
    pub fn submit(&self, payload: MapPayload<Ip>, kind: RequestType) -> (r: Result<
        Pending,
        Error,
    >)
        ensures
            r matches Err(e) ==> e == Error::Channel(ChannelError),
    {
        let (reply_tx, reply_rx) = chan::channel();
        let (alert_tx, alert_rx) = chan::channel();
        let state = AtomicState::new(State::Requested);
        let ev = Event::for_mapping(payload, kind, state.share(), reply_tx, alert_tx);
        let sent = chan::send(&self.to_client, ev);
        settle_submission(sent, Pending { reply: reply_rx, alerts: alert_rx, state })
    }

    /// Blocks for the worker's one reply to a submitted request and
    /// settles it.
    ///
    /// `judge_reply` fixes what each reply outcome means and
    /// `settle_verdict` fixes what each verdict yields: a delivered
    /// identifier becomes a mapping handle wrapping that identifier and
    /// the request's own state cell and alert receiver; an absence
    /// reply yields the error fetched by `wait_err`, which the worker
    /// posts no later than the absence; a severed reply channel yields
    /// a `Channel` error.
    pub fn conclude(&self, pending: Pending) -> (r: Result<MapHandle<Ip>, Error>)
        ensures
            r matches Ok(h) ==> h.spec_state_cell() == pending.spec_state_cell()
                && h.spec_alert_receiver() == pending.spec_alert_receiver(),
    {
        let verdict = judge_reply(chan::recv(&pending.reply));
        let fetched = if matches!(verdict, Verdict::Rejected) {
            Some(self.wait_err())
        } else {
            None
        };
        settle_verdict(verdict, fetched, pending, chan::clone_sender(&self.to_client))
    }

    /// The one request operation: submits the tagged descriptor and
    /// blocks for the reply. Both `Request` impls dispatch through it.
    pub fn request_payload(&self, payload: MapPayload<Ip>, kind: RequestType) -> Result<
        MapHandle<Ip>,
        Error,
    > {
        match self.submit(payload, kind) {
            Ok(pending) => self.conclude(pending),
            Err(e) => Err(e),
        }
    }
}

impl<Ip: IpAddress> Drop for Handle<Ip> {
    /// Relies on std::sync::mpsc::Sender::send, as `chan::send` does:
    /// best-effort `Shutdown` on destruction, so that dropping the
    /// handle never leaks a running worker; harmless after an explicit
    /// `shutdown`, which the worker absorbs idempotently.
    #[verifier::external_body]
    fn drop(&mut self)
        opens_invariants none
        no_unwind
    {
        self.to_client.send(Event::Shutdown).ok();
    }
}

/// The request API, uniform over the descriptor kind: same protocol,
/// different event variant.
pub trait Request<Ip: IpAddress, M: Mapping<Ip>> {
    /// Requests one mapping and blocks until it is accepted or fails.
    fn request(&self, map: M, kind: RequestType) -> Result<MapHandle<Ip>, Error>;
}

impl<Ip: IpAddress> Request<Ip, InboundMap<Ip>> for Handle<Ip> {
    fn request(&self, map: InboundMap<Ip>, kind: RequestType) -> Result<MapHandle<Ip>, Error> {
        self.request_payload(MapPayload::Inbound(map), kind)
    }
}

impl<Ip: IpAddress> Request<Ip, OutboundMap<Ip>> for Handle<Ip> {
    fn request(&self, map: OutboundMap<Ip>, kind: RequestType) -> Result<MapHandle<Ip>, Error> {
        self.request_payload(MapPayload::Outbound(map), kind)
    }
}

/// Creates a session: the application's handle and the worker's link,
/// joined by a fresh event channel and a fresh error channel.
pub fn session<Ip: IpAddress>() -> (Handle<Ip>, WorkerLink<Ip>) {
    let (to_client, events) = chan::channel();
    let (errors, from_client) = chan::channel();
    (Handle::new(to_client, from_client), WorkerLink::new(events, errors))
}

} // verus!
