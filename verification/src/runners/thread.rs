//! A process whose work runs on a native thread of its own.

use crate::error::ProcError;
use crate::proc::Proc;
use vstd::prelude::*;

verus! {

/// How the wait for a native thread ended.
pub enum ThreadExit<T> {
    /// The thread ran its function to the end; this is what the function returned.
    Returned(Result<T, ProcError>),
    /// The thread panicked.
    Panicked,
}

/// What joining a thread reports for the way the thread ended: the function's
/// own result, or `Panicked`.
pub open spec fn thread_outcome<T>(exit: ThreadExit<T>) -> Result<T, ProcError> {
    match exit {
        ThreadExit::Returned(r) => r,
        ThreadExit::Panicked => Err(ProcError::Panicked),
    }
}

/// Turns the way a thread ended into the result of joining it.
pub fn settle<T>(exit: ThreadExit<T>) -> (r: Result<T, ProcError>)
    ensures
        r == thread_outcome(exit),
{
    match exit {
        ThreadExit::Returned(r) => r,
        ThreadExit::Panicked => Err(ProcError::Panicked),
    }
}

/// A process that stands for a thread which is already running.
///
/// It holds the thread's handle in the form of `wait`, a callable that blocks
/// until the thread has ended and says how. The handle sits in a slot that the
/// first `join` and `forget` empty. Forgetting does not stop the thread: it runs
/// to its end in the background, and its result is discarded.
#[verifier::reject_recursive_types(T)]
pub struct NativeThread<W, T>(Option<W>) where W: FnOnce() -> ThreadExit<T> + Send, T: Send;

impl<W, T> NativeThread<W, T> where W: FnOnce() -> ThreadExit<T> + Send, T: Send {
    /// A handle that waits in the slot may be waited on.
    #[verifier::type_invariant]
    spec fn waitable(self) -> bool {
        self.0 matches Some(wait) ==> wait.requires(())
    }

    /// The handle of the thread that has not been joined yet, if there is one.
    pub closed spec fn handle(self) -> Option<W> {
        self.0
    }

    /// Takes charge of a running thread, given the means to wait for it.
    pub fn new(wait: W) -> (p: Self)
        requires
            wait.requires(()),
        ensures
            p.handle() == Some(wait),
    {
        NativeThread(Some(wait))
    }
}

impl<W, T> Proc for NativeThread<W, T> where W: FnOnce() -> ThreadExit<T> + Send, T: Send {
    type Output = T;

    open spec fn exhausted(&self) -> bool {
        self.handle() is None
    }

    /// A thread that is still held is waited for, and the way it ended decides
    /// the result; either way the slot is empty afterwards.
    open spec fn joins(&self, after: &Self, r: Result<T, ProcError>) -> bool {
        &&& after.handle() is None
        &&& match self.handle() {
            Some(wait) => exists|exit: ThreadExit<T>| #[trigger]
                wait.ensures((), exit) && r == thread_outcome(exit),
            None => r == Err::<T, ProcError>(ProcError::Exhausted),
        }
    }

    open spec fn forgets(&self, after: &Self) -> bool {
        after.handle() is None
    }

    /// The process is joined once, and the result is dropped.
    open spec fn finalizes(&self, after: &Self) -> bool {
        exists|r: Result<T, ProcError>| #[trigger] self.joins(after, r)
    }

    fn join(&mut self) -> (r: Result<T, ProcError>) {
        proof {
            use_type_invariant(&*self);
        }
        let mut slot: Option<W> = None;
        core::mem::swap(&mut self.0, &mut slot);
        match slot {
            Some(wait) => {
                let exit = wait();
                settle(exit)
            },
            None => Err(ProcError::Exhausted),
        }
    }

    fn forget(&mut self) {
        self.0 = None;
    }

    fn finalize(&mut self) {
        let r = self.join();
        assert(old(self).joins(&*self, r));
    }
}

/// A thread is waited for at most once: whatever the first `join` returned, a
/// second one finds the slot empty and reports exhaustion without waiting.
pub proof fn lemma_thread_joins_once<W, T>(
    first: NativeThread<W, T>,
    second: NativeThread<W, T>,
    third: NativeThread<W, T>,
    r1: Result<T, ProcError>,
    r2: Result<T, ProcError>,
) where W: FnOnce() -> ThreadExit<T> + Send, T: Send
    requires
        first.joins(&second, r1),
        second.joins(&third, r2),
    ensures
        second.handle() is None,
        third.handle() is None,
        r2 == Err::<T, ProcError>(ProcError::Exhausted),
{
}

} // verus!
