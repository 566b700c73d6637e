//! The processes that wrap a callable, and the combinators over processes.

pub mod and;
pub mod join_task;
pub mod or;
pub mod select_task;

pub use crate::combinators::and::AndThenProc;
pub use crate::combinators::join_task::JoinTasks;
pub use crate::combinators::or::OrElseProc;
pub use crate::combinators::select_task::SelectTasks;
use crate::error::ProcError;
use crate::proc::Proc;
use crate::runners::scheduler::build_current_thread;
use vstd::prelude::*;

verus! {

/// A process that calls one function, on the thread that joins it.
///
/// The function sits in a slot that is emptied by the first `join` and by
/// `forget`, so it is called at most once.
#[verifier::reject_recursive_types(T)]
pub struct BlockingProc<F, T>(Option<F>) where F: FnOnce() -> Result<T, ProcError> + Send, T: Send;

impl<F, T> BlockingProc<F, T> where F: FnOnce() -> Result<T, ProcError> + Send, T: Send {
    /// A function that waits in the slot may be called.
    #[verifier::type_invariant]
    spec fn callable(self) -> bool {
        self.0 matches Some(f) ==> f.requires(())
    }

    /// The function that has not been called yet, if there is one.
    pub closed spec fn pending(self) -> Option<F> {
        self.0
    }

    /// Wraps `f`, which the first `join` will call.
    pub fn new(f: F) -> (p: Self)
        requires
            f.requires(()),
        ensures
            p.pending() == Some(f),
    {
        BlockingProc(Some(f))
    }
}

impl<F, T> Proc for BlockingProc<F, T> where F: FnOnce() -> Result<T, ProcError> + Send, T: Send {
    type Output = T;

    open spec fn exhausted(&self) -> bool {
        self.pending() is None
    }

    /// The function, if it is still there, is called and its result returned;
    /// either way the slot is empty afterwards.
    open spec fn joins(&self, after: &Self, r: Result<T, ProcError>) -> bool {
        &&& after.pending() is None
        &&& match self.pending() {
            Some(f) => f.ensures((), r),
            None => r == Err::<T, ProcError>(ProcError::Exhausted),
        }
    }

    open spec fn forgets(&self, after: &Self) -> bool {
        after.pending() is None
    }

    /// The process is joined once, and the result is dropped.
    open spec fn finalizes(&self, after: &Self) -> bool {
        exists|r: Result<T, ProcError>| #[trigger] self.joins(after, r)
    }

    fn join(&mut self) -> (r: Result<T, ProcError>) {
        proof {
            use_type_invariant(&*self);
        }
        let mut slot: Option<F> = None;
        core::mem::swap(&mut self.0, &mut slot);
        match slot {
            Some(f) => f(),
            None => Err(ProcError::Exhausted),
        }
    }

    fn forget(&mut self) {
        self.0 = None;
    }

    fn finalize(&mut self) {
        let r = self.join();
        assert(old(self).joins(&*self, r));
    }
}

/// A blocking process calls its function at most once: whatever the first
/// `join` returned, a second one finds the slot empty and reports exhaustion
/// without calling anything.
pub proof fn lemma_blocking_joins_once<F, T>(
    first: BlockingProc<F, T>,
    second: BlockingProc<F, T>,
    third: BlockingProc<F, T>,
    r1: Result<T, ProcError>,
    r2: Result<T, ProcError>,
) where F: FnOnce() -> Result<T, ProcError> + Send, T: Send
    requires
        first.joins(&second, r1),
        second.joins(&third, r2),
    ensures
        second.pending() is None,
        third.pending() is None,
        r2 == Err::<T, ProcError>(ProcError::Exhausted),
{
}

/// What becomes of a future once a scheduler has or has not been built for it:
/// with a scheduler, `drive` is called on both and decides the result; without
/// one, the result is `Failed` with the reason.
pub open spec fn run_outcome<Fut, D, T>(
    built: Result<tokio::runtime::Runtime, String>,
    fut: Fut,
    drive: D,
    r: Result<T, ProcError>,
) -> bool where D: FnOnce(tokio::runtime::Runtime, Fut) -> Result<T, ProcError> {
    match built {
        Ok(runtime) => drive.ensures((runtime, fut), r),
        Err(text) => r == Err::<T, ProcError>(ProcError::Failed(text)),
    }
}

/// Has `fut` run on the scheduler that was built for it, by handing both to
/// `drive`. If no scheduler could be built, `fut` and `drive` are dropped unused
/// and the reason is reported as `Failed`.
pub fn run_on<Fut, D, T>(built: Result<tokio::runtime::Runtime, String>, fut: Fut, drive: D) -> (r:
    Result<T, ProcError>) where D: FnOnce(tokio::runtime::Runtime, Fut) -> Result<T, ProcError>
    requires
        forall|runtime: tokio::runtime::Runtime| drive.requires((runtime, fut)),
    ensures
        run_outcome(built, fut, drive, r),
{
    match built {
        Ok(runtime) => drive(runtime, fut),
        Err(text) => Err(ProcError::Failed(text)),
    }
}

/// A process that runs one future to completion, on the thread that joins it.
///
/// The future sits in a slot that is emptied by the first `join` and by
/// `forget`, together with `drive`, the means to run it. `join` builds a
/// scheduler for the future alone, one that handles one task at a time, and
/// hands scheduler and future to `drive`, which must drive the scheduler on the
/// calling thread until the future has completed and return what it completed
/// with.
#[verifier::reject_recursive_types(T)]
pub struct FutureProc<Fut, D, T>(Option<(Fut, D)>) where
    Fut: core::future::Future<Output = Result<T, ProcError>> + Send,
    D: FnOnce(tokio::runtime::Runtime, Fut) -> Result<T, ProcError> + Send,
    T: Send,
;

impl<Fut, D, T> FutureProc<Fut, D, T> where
    Fut: core::future::Future<Output = Result<T, ProcError>> + Send,
    D: FnOnce(tokio::runtime::Runtime, Fut) -> Result<T, ProcError> + Send,
    T: Send,
 {
    /// A future that waits in the slot may be handed to what waits with it, on
    /// any scheduler.
    #[verifier::type_invariant]
    spec fn drivable(self) -> bool {
        self.0 matches Some((fut, drive)) ==> forall|runtime: tokio::runtime::Runtime|
            drive.requires((runtime, fut))
    }

    /// The future that has not been run yet, with the means to run it, if it
    /// is still there.
    pub closed spec fn pending(self) -> Option<(Fut, D)> {
        self.0
    }

    /// Wraps `fut`, which the first `join` will have run by `drive`.
    pub fn new(fut: Fut, drive: D) -> (p: Self)
        requires
            forall|runtime: tokio::runtime::Runtime| drive.requires((runtime, fut)),
        ensures
            p.pending() == Some((fut, drive)),
    {
        FutureProc(Some((fut, drive)))
    }
}

impl<Fut, D, T> Proc for FutureProc<Fut, D, T> where
    Fut: core::future::Future<Output = Result<T, ProcError>> + Send,
    D: FnOnce(tokio::runtime::Runtime, Fut) -> Result<T, ProcError> + Send,
    T: Send,
 {
    type Output = T;

    open spec fn exhausted(&self) -> bool {
        self.pending() is None
    }

    /// The slot is empty afterwards. If it was empty before, the result is
    /// `Exhausted`. If it held a future, a scheduler was built for it, or could
    /// not be, and the result is what became of the future then.
    open spec fn joins(&self, after: &Self, r: Result<T, ProcError>) -> bool {
        &&& after.pending() is None
        &&& match self.pending() {
            Some((fut, drive)) => exists|built: Result<tokio::runtime::Runtime, String>|
                #[trigger] run_outcome(built, fut, drive, r),
            None => r == Err::<T, ProcError>(ProcError::Exhausted),
        }
    }

    open spec fn forgets(&self, after: &Self) -> bool {
        after.pending() is None
    }

    /// The process is joined once, and the result is dropped.
    open spec fn finalizes(&self, after: &Self) -> bool {
        exists|r: Result<T, ProcError>| #[trigger] self.joins(after, r)
    }

    fn join(&mut self) -> (r: Result<T, ProcError>) {
        proof {
            use_type_invariant(&*self);
        }
        let mut slot: Option<(Fut, D)> = None;
        core::mem::swap(&mut self.0, &mut slot);
        match slot {
            Some((fut, drive)) => {
                let built = build_current_thread();
                let ghost attempt = built;
                let r = run_on(built, fut, drive);
                assert(run_outcome(attempt, fut, drive, r));
                r
            },
            None => Err(ProcError::Exhausted),
        }
    }

    fn forget(&mut self) {
        self.0 = None;
    }

    fn finalize(&mut self) {
        let r = self.join();
        assert(old(self).joins(&*self, r));
    }
}

/// A process with nothing to do: every `join` succeeds at once.
pub struct NopProc;

impl Proc for NopProc {
    type Output = ();

    open spec fn exhausted(&self) -> bool {
        false
    }

    open spec fn joins(&self, after: &Self, r: Result<(), ProcError>) -> bool {
        r == Ok::<(), ProcError>(())
    }

    open spec fn forgets(&self, after: &Self) -> bool {
        true
    }

    open spec fn finalizes(&self, after: &Self) -> bool {
        true
    }

    fn join(&mut self) -> (r: Result<(), ProcError>) {
        Ok(())
    }

    fn forget(&mut self) {
    }

    fn finalize(&mut self) {
    }
}

/// What two results combine to when both sides have been joined: the left
/// side's error if it failed, otherwise whatever the right side returned.
pub open spec fn and_outcome<A, B>(
    left: Result<A, ProcError>,
    right: Result<B, ProcError>,
) -> Result<B, ProcError> {
    match left {
        Err(e) => Err(e),
        Ok(_) => right,
    }
}

/// Combines the results of two sides that have both been joined.
pub fn combine_and<A, B>(left: Result<A, ProcError>, right: Result<B, ProcError>) -> (r: Result<
    B,
    ProcError,
>)
    ensures
        r == and_outcome(left, right),
{
    match left {
        Err(e) => Err(e),
        Ok(_) => right,
    }
}

} // verus!
