//! A process with a fallback.

use crate::error::ProcError;
use crate::proc::Proc;
use vstd::prelude::*;

verus! {

/// Joins `left`; only if that fails, joins `right` and returns its outcome.
pub struct OrElseProc<L, R> where L: Proc, R: Proc<Output = L::Output> {
    pub left: L,
    pub right: R,
}

impl<L, R> Proc for OrElseProc<L, R> where L: Proc, R: Proc<Output = L::Output> {
    type Output = R::Output;

    open spec fn exhausted(&self) -> bool {
        self.left.exhausted() && self.right.exhausted()
    }

    /// The left side is joined. If it succeeds, its value is the result and the
    /// right side is left as it was; if it fails, the right side is joined and
    /// decides the result.
    open spec fn joins(&self, after: &Self, r: Result<R::Output, ProcError>) -> bool {
        exists|l: Result<L::Output, ProcError>| #[trigger]
            self.left.joins(&after.left, l) && match l {
                Ok(v) => r == Ok::<R::Output, ProcError>(v) && after.right == self.right,
                Err(_) => self.right.joins(&after.right, r),
            }
    }

    open spec fn forgets(&self, after: &Self) -> bool {
        &&& self.left.forgets(&after.left)
        &&& self.right.forgets(&after.right)
    }

    /// The pair is joined, both sides are forgotten, then each side runs its own
    /// teardown.
    open spec fn finalizes(&self, after: &Self) -> bool {
        exists|joined: Self, r: Result<R::Output, ProcError>, forgotten: Self|
            {
                &&& #[trigger] self.joins(&joined, r)
                &&& #[trigger] joined.forgets(&forgotten)
                &&& forgotten.left.finalizes(&after.left)
                &&& forgotten.right.finalizes(&after.right)
            }
    }

    fn join(&mut self) -> (r: Result<R::Output, ProcError>) {
        let l = self.left.join();
        match l {
            Ok(v) => {
                assert(old(self).left.joins(&self.left, l) && self.right == old(self).right);
                Ok(v)
            },
            Err(_) => {
                let r = self.right.join();
                assert(old(self).left.joins(&self.left, l));
                r
            },
        }
    }

    fn forget(&mut self) {
        self.left.forget();
        self.right.forget();
    }

    fn finalize(&mut self) {
        let r = self.join();
        let ghost joined = *self;
        self.forget();
        let ghost forgotten = *self;
        self.left.finalize();
        self.right.finalize();
        assert(old(self).joins(&joined, r) && joined.forgets(&forgotten));
    }
}

/// When the left side of a fallback succeeds, its value is the result and the
/// right side has not been joined: it is in the state it was in before. Only a
/// failing left side hands the decision to the right side.
pub proof fn lemma_or_else_spares_right<L, R>(
    before: OrElseProc<L, R>,
    after: OrElseProc<L, R>,
    r: Result<R::Output, ProcError>,
) where L: Proc, R: Proc<Output = L::Output>
    requires
        before.joins(&after, r),
    ensures
        exists|l: Result<L::Output, ProcError>|
            {
                &&& #[trigger] before.left.joins(&after.left, l)
                &&& l matches Ok(v) ==> after.right == before.right && r == Ok::<
                    R::Output,
                    ProcError,
                >(v)
                &&& l is Err ==> before.right.joins(&after.right, r)
            },
{
    let l = choose|l: Result<L::Output, ProcError>| #[trigger]
        before.left.joins(&after.left, l) && match l {
            Ok(v) => r == Ok::<R::Output, ProcError>(v) && after.right == before.right,
            Err(_) => before.right.joins(&after.right, r),
        };
    assert(before.left.joins(&after.left, l));
}

} // verus!
