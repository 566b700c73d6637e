//! The bridge from a thread that blocks to the tasks of a scheduler.
//!
//! A thread that runs no task cannot await one. It has a task of the scheduler
//! do the waiting: that task awaits what the thread wants to know and sends it
//! through a channel of capacity one, on whose other end the thread blocks.

use crate::channel::rendezvous;
use futures::FutureExt;
use vstd::future::FutureAdditionalSpecFns;
use vstd::prelude::*;

verus! {

/// The two ends of one channel of capacity one, for a single crossing.
///
/// The ends are private and only `Bridge::new` puts them here, both from one
/// call of `flume::bounded`: whatever arrives on `rx` was sent on `tx`.
#[verifier::reject_recursive_types(M)]
pub struct Bridge<M> {
    tx: flume::Sender<M>,
    rx: flume::Receiver<M>,
}

impl<M: Send + 'static> Bridge<M> {
    /// A bridge that nothing has crossed yet.
    pub(crate) fn new() -> (bridge: Self) {
        let (tx, rx) = rendezvous();
        Bridge { tx, rx }
    }

    /// Has a task of the scheduler wait for `source`, and blocks until that
    /// task has sent what `source` completed with.
    ///
    /// Calls `Handle::spawn` on the future that awaits `source` and then
    /// `Sender::into_send_async` of its output on the sending end (put together
    /// with `FutureExt::map` and `flatten`), and then `Receiver::recv` on the
    /// receiving end. The sending end goes to that task alone, so a message that
    /// arrives is the output of `source`. `None` means that the channel was
    /// closed before anything was sent, as happens when the scheduler is shut
    /// down first.
    #[verifier::external_body]
    pub(crate) fn carry<F>(self, handle: &tokio::runtime::Handle, source: F) -> (arrived: Option<
        M,
    >) where F: core::future::Future<Output = M> + Send + 'static
        ensures
            arrived matches Some(out) ==> out == source@,
    {
        let Bridge { tx, rx } = self;
        handle.spawn(source.map(move |out| tx.into_send_async(out)).flatten());
        rx.recv().ok()
    }
}

} // verus!
