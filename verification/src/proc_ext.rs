//! Builder-style composition of processes.

use crate::combinators::{AndThenProc, OrElseProc};
use crate::proc::Proc;
use vstd::prelude::*;

verus! {

/// Combinators available on every process.
pub trait ProcExt: Proc + Sized {
    /// Pairs this process with `other`: both are joined, this one first, and this
    /// one's error takes precedence.
    fn and_then<P: Proc>(self, other: P) -> (pair: AndThenProc<Self, P>)
        ensures
            pair.left == self,
            pair.right == other,
    ;

    /// Gives this process a fallback: `other` is joined only if this one fails.
    fn or_else<P: Proc<Output = Self::Output>>(self, other: P) -> (pair: OrElseProc<Self, P>)
        ensures
            pair.left == self,
            pair.right == other,
    ;
}

impl<P: Proc + Send + 'static> ProcExt for P {
    fn and_then<O: Proc>(self, other: O) -> (pair: AndThenProc<P, O>) {
        AndThenProc { left: self, right: other }
    }

    fn or_else<O: Proc<Output = P::Output>>(self, other: O) -> (pair: OrElseProc<P, O>) {
        OrElseProc { left: self, right: other }
    }
}

} // verus!
