//! Bounded channels, as far as the library uses them.
//!
//! The channels are `flume`'s. What Verus knows of them is stated here and
//! nowhere proved: which message arrives, and whether one arrives at all, depends
//! on what other threads and tasks do, so the contracts promise nothing of it.

use vstd::prelude::*;

verus! {

/// `flume::Sender`, the sending end of a channel.
#[verifier::external_type_specification]
#[verifier::external_body]
#[verifier::reject_recursive_types(T)]
pub struct ExSender<T>(flume::Sender<T>);

/// `flume::Receiver`, the receiving end of a channel.
#[verifier::external_type_specification]
#[verifier::external_body]
#[verifier::reject_recursive_types(T)]
pub struct ExReceiver<T>(flume::Receiver<T>);

/// Calls `flume::bounded`: a new channel that holds at most `capacity`
/// messages, as its two connected ends.
#[verifier::external_body]
pub(crate) fn bounded<T>(capacity: usize) -> (ends: (flume::Sender<T>, flume::Receiver<T>)) {
    flume::bounded(capacity)
}

/// Calls `flume::Sender::send`: blocks while the channel is full, then hands
/// `msg` over. Returns whether the message was taken; it is not when every
/// receiving end is gone.
#[verifier::external_body]
pub(crate) fn send<T>(tx: &flume::Sender<T>, msg: T) -> (taken: bool) {
    tx.send(msg).is_ok()
}

/// Calls `flume::Receiver::recv`: blocks until a message arrives and returns
/// it, or returns `None` once every sending end is gone and nothing is queued.
#[verifier::external_body]
pub(crate) fn recv<T>(rx: &flume::Receiver<T>) -> (msg: Option<T>) {
    rx.recv().ok()
}

/// Calls `Receiver::clone`: one more receiving end of the same channel. Each
/// message goes to one receiving end only. A receiving end holds nothing but
/// its channel, so as a value the new end is the one it was made from.
#[verifier::external_body]
pub(crate) fn share<T>(rx: &flume::Receiver<T>) -> (other: flume::Receiver<T>)
    ensures
        other == *rx,
{
    rx.clone()
}

/// A channel of capacity one, used to hand a single value from one side to the
/// other.
pub(crate) fn rendezvous<T>() -> (ends: (flume::Sender<T>, flume::Receiver<T>)) {
    bounded(1)
}

} // verus!
