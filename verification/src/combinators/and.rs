//! Two processes joined one after the other.

use crate::combinators::{and_outcome, combine_and};
use crate::error::ProcError;
use crate::proc::Proc;
use vstd::prelude::*;

verus! {

/// Joins `left`, then `right`, always both; reports the left side's error if
/// there is one, and the right side's outcome otherwise.
pub struct AndThenProc<L, R> where L: Proc, R: Proc {
    pub left: L,
    pub right: R,
}

impl<L, R> Proc for AndThenProc<L, R> where L: Proc, R: Proc {
    type Output = R::Output;

    /// An exhausted left side decides the result by itself.
    open spec fn exhausted(&self) -> bool {
        self.left.exhausted()
    }

    open spec fn joins(&self, after: &Self, r: Result<R::Output, ProcError>) -> bool {
        exists|l: Result<L::Output, ProcError>, rr: Result<R::Output, ProcError>|
            {
                &&& #[trigger] self.left.joins(&after.left, l)
                &&& #[trigger] self.right.joins(&after.right, rr)
                &&& r == and_outcome(l, rr)
            }
    }

    open spec fn forgets(&self, after: &Self) -> bool {
        &&& self.left.forgets(&after.left)
        &&& self.right.forgets(&after.right)
    }

    /// Both sides are joined, then each side runs its own teardown.
    open spec fn finalizes(&self, after: &Self) -> bool {
        exists|mid: Self, r: Result<R::Output, ProcError>|
            {
                &&& #[trigger] self.joins(&mid, r)
                &&& mid.left.finalizes(&after.left)
                &&& mid.right.finalizes(&after.right)
            }
    }

    fn join(&mut self) -> (r: Result<R::Output, ProcError>) {
        let l = self.left.join();
        let rr = self.right.join();
        let r = combine_and(l, rr);
        assert(old(self).left.joins(&self.left, l) && old(self).right.joins(&self.right, rr));
        r
    }

    fn forget(&mut self) {
        self.left.forget();
        self.right.forget();
    }

    fn finalize(&mut self) {
        let r = self.join();
        let ghost mid = *self;
        self.left.finalize();
        self.right.finalize();
        assert(old(self).joins(&mid, r));
    }
}

/// Joining a pair joins both of its sides, whatever the left side returns: a
/// failing left side does not keep the right side from running to its end. The
/// result is the left side's error when the left side failed, and what the right
/// side returned otherwise.
pub proof fn lemma_and_then_joins_both<L, R>(
    before: AndThenProc<L, R>,
    after: AndThenProc<L, R>,
    r: Result<R::Output, ProcError>,
) where L: Proc, R: Proc
    requires
        before.joins(&after, r),
    ensures
        exists|l: Result<L::Output, ProcError>, rr: Result<R::Output, ProcError>|
            {
                &&& #[trigger] before.left.joins(&after.left, l)
                &&& #[trigger] before.right.joins(&after.right, rr)
                &&& l matches Err(e) ==> r == Err::<R::Output, ProcError>(e)
                &&& l is Ok ==> r == rr
            },
{
    let (l, rr) = choose|l: Result<L::Output, ProcError>, rr: Result<R::Output, ProcError>|
        {
            &&& #[trigger] before.left.joins(&after.left, l)
            &&& #[trigger] before.right.joins(&after.right, rr)
            &&& r == and_outcome(l, rr)
        };
    assert(before.left.joins(&after.left, l) && before.right.joins(&after.right, rr));
}

} // verus!
