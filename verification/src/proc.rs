//! The capability every unit of work offers: wait for it, or let it go.

use crate::error::ProcError;
use vstd::prelude::*;

verus! {

/// A unit of execution that can be waited on (`join`) or detached (`forget`).
///
/// Each implementation describes what its three operations do by a relation
/// between the state before the call and the state after it. On top of that,
/// every implementation honours one common rule: once a process is `exhausted`,
/// `join` fails with [`ProcError::Exhausted`] and the process stays exhausted.
///
/// A process is not torn down by going out of scope. Whoever discards one
/// without having joined or forgotten it calls `finalize` first.
pub trait Proc: Send {
    /// What a successful `join` hands over.
    type Output: Send;

    /// Nothing is left to join: a further `join` can only report exhaustion.
    spec fn exhausted(&self) -> bool;

    /// `join` may take the process from `self` to `after` and return `r`.
    spec fn joins(&self, after: &Self, r: Result<Self::Output, ProcError>) -> bool;

    /// `forget` takes the process from `self` to `after`.
    spec fn forgets(&self, after: &Self) -> bool;

    /// `finalize` may take the process from `self` to `after`.
    spec fn finalizes(&self, after: &Self) -> bool;

    /// Waits for the work to complete and consumes its result.
    fn join(&mut self) -> (r: Result<Self::Output, ProcError>)
        ensures
            old(self).joins(final(self), r),
            old(self).exhausted() ==> final(self).exhausted() && r == Err::<
                Self::Output,
                ProcError,
            >(ProcError::Exhausted),
    ;

    /// Lets go of the work without waiting for it.
    fn forget(&mut self)
        ensures
            old(self).forgets(final(self)),
    ;

    /// The teardown to run before a process is discarded: a best-effort `join`
    /// whose error, if any, is dropped, followed by whatever the process must
    /// release.
    fn finalize(&mut self)
        ensures
            old(self).finalizes(final(self)),
    ;
}

impl<P: Proc> Proc for Box<P> {
    type Output = P::Output;

    open spec fn exhausted(&self) -> bool {
        (**self).exhausted()
    }

    open spec fn joins(&self, after: &Self, r: Result<Self::Output, ProcError>) -> bool {
        (**self).joins(&**after, r)
    }

    open spec fn forgets(&self, after: &Self) -> bool {
        (**self).forgets(&**after)
    }

    open spec fn finalizes(&self, after: &Self) -> bool {
        (**self).finalizes(&**after)
    }

    fn join(&mut self) -> (r: Result<Self::Output, ProcError>) {
        (**self).join()
    }

    fn forget(&mut self) {
        (**self).forget()
    }

    fn finalize(&mut self) {
        (**self).finalize()
    }
}

} // verus!
