//! Trusted boundary around the standard in-process channels.
//!
//! Every cross-thread handoff in the crate goes through the ordered,
//! unbounded channels of `std::sync::mpsc`. What a send or receive
//! returns depends on the other thread, so none of these items promises
//! more than the shape of its result; the verified callers state exactly
//! what they do with each possible outcome.

use vstd::prelude::*;
use std::sync::mpsc::Receiver;
use std::sync::mpsc::Sender;
use crate::types::ChannelError;

verus! {

/// Relies on std::sync::mpsc::Sender being the sending half of an
/// ordered, unbounded channel; values sent from one thread arrive in
/// send order.
#[verifier::external_type_specification]
#[verifier::external_body]
#[verifier::reject_recursive_types(T)]
pub struct ExSender<T>(Sender<T>);

/// Relies on std::sync::mpsc::Receiver being the receiving half of the
/// same channel.
#[verifier::external_type_specification]
#[verifier::external_body]
#[verifier::reject_recursive_types(T)]
pub struct ExReceiver<T>(Receiver<T>);

/// Outcome of a non-blocking receive.
pub enum Poll<T> {
    /// A value was pending and is handed over.
    Received(T),
    /// Nothing is pending; senders are still alive.
    Empty,
    /// Nothing is pending and every sender is gone.
    Severed,
}

/// Relies on std::sync::mpsc::channel: returns the two halves of a fresh
/// ordered, unbounded channel; it never panics.
#[verifier::external_body]
pub fn channel<T>() -> (Sender<T>, Receiver<T>)
    no_unwind
{
    std::sync::mpsc::channel()
}

/// Relies on std::sync::mpsc::Sender::send: queues the value for the
/// receiver and reports whether the receiver was still alive; it never
/// blocks and never panics.
#[verifier::external_body]
pub fn send<T>(s: &Sender<T>, t: T) -> bool
    no_unwind
{
    s.send(t).is_ok()
}

/// Relies on std::sync::mpsc::Sender::clone: the clone feeds the same
/// receiver as `s`; it never panics.
#[verifier::external_body]
pub fn clone_sender<T>(s: &Sender<T>) -> Sender<T>
    no_unwind
{
    s.clone()
}

/// Relies on std::sync::mpsc::Receiver::recv: blocks until a value
/// arrives, or reports the channel severed once every sender is gone and
/// the queue is drained; it never panics.
#[verifier::external_body]
pub fn recv<T>(r: &Receiver<T>) -> Result<T, ChannelError>
    no_unwind
{
    match r.recv() {
        Ok(t) => Ok(t),
        Err(_) => Err(ChannelError),
    }
}

/// Relies on std::sync::mpsc::Receiver::try_recv: never blocks; hands
/// over a pending value, or says whether the queue was merely empty or
/// severed for good; it never panics.
#[verifier::external_body]
pub fn try_recv<T>(r: &Receiver<T>) -> Poll<T>
    no_unwind
{
    match r.try_recv() {
        Ok(t) => Poll::Received(t),
        Err(std::sync::mpsc::TryRecvError::Empty) => Poll::Empty,
        Err(std::sync::mpsc::TryRecvError::Disconnected) => Poll::Severed,
    }
}

} // verus!
