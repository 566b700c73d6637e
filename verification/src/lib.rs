//! Units of execution that are joined or forgotten, never silently dropped,
//! and the combinators that compose them.
//!
//! A [`Proc`] is work that can be waited for (`join`) or let go (`forget`).
//! The leaves are a function called on the joining thread ([`blocking`]), a
//! future run on the joining thread ([`tokio`]), a native thread ([`thread`]) and
//! the process that does nothing ([`nop`]). [`ProcExt`] pairs processes in
//! sequence (`and_then`) or as a fallback (`or_else`); [`JoinTasks`] and
//! [`SelectTasks`] let a blocking thread wait for tasks of a scheduler, which a
//! [`TaskRuntime`] either borrows or owns; [`with_worker_pool`] combines tasks
//! and threads into a pool that keeps the order of its items.
//!
//! The calls into `tokio`, `flume` and `futures` are stated, and not proved, in
//! the modules [`channel`], [`runners::scheduler`] and [`runners::bridge`]; every
//! other function is verified against its contract. Three things are left to the caller, who
//! passes them in as functions: starting a native thread, driving a scheduler
//! on the calling thread, and running code that waits inside a scheduler.
//! Nothing here runs when a process goes out of scope; `finalize` is the
//! teardown, to be called by whoever discards a process.

pub mod channel;
pub mod combinators;
pub mod error;
pub mod proc;
pub mod proc_ext;
pub mod runners;

pub use crate::combinators::{
    AndThenProc, BlockingProc, FutureProc, JoinTasks, NopProc, OrElseProc, SelectTasks,
};
pub use crate::error::ProcError;
pub use crate::proc::Proc;
pub use crate::proc_ext::ProcExt;
pub use crate::runners::{
    with_worker_pool, BackgroundScheduler, Collect, Dispatch, NativeThread, Pipeline, TaskRuntime,
    ThreadExit, Worker, WorkerPool,
};
use vstd::prelude::*;

verus! {

/// A process that runs `f` to completion on the thread that joins it.
pub fn blocking<F, T>(f: F) -> (p: BlockingProc<F, T>) where
    F: FnOnce() -> Result<T, ProcError> + Send,
    T: Send,

    requires
        f.requires(()),
    ensures
        p.pending() == Some(f),
{
    BlockingProc::new(f)
}

/// A process that, when joined, runs `fut` to completion on a scheduler made
/// for it, which runs on the joining thread and handles one task at a time.
///
/// `drive` must drive the scheduler it is given on the calling thread until
/// the future it is given has completed, and return what the future completed
/// with.
pub fn tokio<T: Send, Fut, D>(fut: Fut, drive: D) -> (p: FutureProc<Fut, D, T>) where
    Fut: core::future::Future<Output = Result<T, ProcError>> + Send + 'static,
    D: FnOnce(tokio::runtime::Runtime, Fut) -> Result<T, ProcError> + Send,

    requires
        forall|runtime: tokio::runtime::Runtime| drive.requires((runtime, fut)),
    ensures
        p.pending() == Some((fut, drive)),
{
    FutureProc::new(fut, drive)
}

/// A process for work that runs on a native thread, started now.
///
/// `start` must start a thread that calls `f`, and return the means to wait
/// for that thread.
pub fn thread<F, T, S, W>(f: F, start: S) -> (p: NativeThread<W, T>) where
    F: FnOnce() -> Result<T, ProcError> + Send + 'static,
    T: Send + 'static,
    S: FnOnce(F) -> W,
    W: FnOnce() -> ThreadExit<T> + Send,

    requires
        start.requires((f,)),
        forall|wait: W| #[trigger] start.ensures((f,), wait) ==> wait.requires(()),
    ensures
        p.handle() matches Some(wait) && start.ensures((f,), wait),
{
    NativeThread::new(start(f))
}

/// A process that returns at once without running anything: the neutral
/// element for building chains of processes step by step.
pub fn nop() -> (p: NopProc)
    ensures
        p == NopProc,
{
    NopProc
}

} // verus!
