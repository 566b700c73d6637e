//! Waiting for the first of a set of tasks.

use crate::combinators::join_task::is_task_failure;
use crate::error::ProcError;
use crate::proc::Proc;
use crate::runners::runtime::{BackgroundScheduler, TaskRuntime};
use crate::runners::bridge::Bridge;
use crate::runners::scheduler::{abort, select_all, spawn, task_failure};
use vstd::future::FutureAdditionalSpecFns;
use vstd::prelude::*;

verus! {

/// What `join` reports for the outcome of the task that ended first: its
/// value, or its error.
pub open spec fn first_outcome<T>(outcome: Result<T, ProcError>) -> Result<Option<T>, ProcError> {
    match outcome {
        Ok(value) => Ok(Some(value)),
        Err(e) => Err(e),
    }
}

/// A set of tasks on a scheduler, joined by waiting for whichever ends first.
///
/// Tasks start to run when they are added. Each `join` uses up one task, the
/// first to end, and keeps the others for a later `join`; in which order it
/// keeps them is not fixed.
#[verifier::reject_recursive_types(T)]
pub struct SelectTasks<T: Send + 'static> {
    runtime: TaskRuntime,
    tasks: Vec<tokio::task::JoinHandle<T>>,
}

impl<T: Send + 'static> SelectTasks<T> {
    /// The scheduler that the tasks run on.
    pub closed spec fn runtime(&self) -> TaskRuntime {
        self.runtime
    }

    /// The handles of the tasks that have not been waited for.
    pub closed spec fn tasks(&self) -> Seq<tokio::task::JoinHandle<T>> {
        self.tasks@
    }

    /// An empty set of tasks on the scheduler that the calling thread runs in,
    /// or else on a new scheduler of its own, started through `spawn` as in
    /// [`TaskRuntime::new`]. Unless the set is on an entered scheduler, `spawn`
    /// has been called.
    pub fn new<S>(spawn: S) -> (r: Result<Self, ProcError>) where S: FnOnce(BackgroundScheduler)
        requires
            forall|work: BackgroundScheduler| spawn.requires((work,)),
        ensures
            r matches Ok(set) ==> set.tasks().len() == 0 && (set.runtime() is Entered
                || set.runtime().armed()),
            r matches Err(e) ==> e == ProcError::Disconnected,
            (r matches Ok(set) && set.runtime() is Entered) || exists|work: BackgroundScheduler|
                #[trigger] spawn.ensures((work,), ()),
    {
        match TaskRuntime::current_or_new(spawn) {
            Ok(runtime) => Ok(SelectTasks { runtime, tasks: Vec::new() }),
            Err(e) => Err(e),
        }
    }

    /// An empty set of tasks on a scheduler that belongs to the caller.
    pub fn with_runtime(handle: tokio::runtime::Handle) -> (set: Self)
        ensures
            set.runtime() == TaskRuntime::Entered(handle),
            set.tasks().len() == 0,
    {
        SelectTasks { runtime: TaskRuntime::Entered(handle), tasks: Vec::new() }
    }

    /// Spawns `fut` onto the scheduler and adds its task at the end of the set.
    /// If the task runs to its end, it ends with the value of `fut`.
    pub fn or<F>(self, fut: F) -> (set: Self) where F: core::future::Future<Output = T> + Send + 'static
        ensures
            set.runtime() == self.runtime(),
            set.tasks().len() == self.tasks().len() + 1,
            set.tasks().drop_last() == self.tasks(),
            set.tasks().last()@ matches Ok(value) ==> value == fut@,
    {
        let mut set = self;
        let task = spawn(set.runtime.handle(), fut);
        set.tasks.push(task);
        assert(set.tasks@.drop_last() == self.tasks@);
        set
    }

    /// Puts the outcome of the first task in the form that `join` returns.
    pub fn report(outcome: Result<T, ProcError>) -> (r: Result<Option<T>, ProcError>)
        ensures
            r == first_outcome(outcome),
    {
        match outcome {
            Ok(value) => Ok(Some(value)),
            Err(e) => Err(e),
        }
    }

    /// Takes in what has arrived from the wait for the first task: the outcome
    /// of that task, the index it had, and the handles of the other tasks.
    ///
    /// The handles that arrived are from now on the tasks of the set, whatever
    /// the outcome is, and the outcome is the result: a value as it is, a failure
    /// as `Panicked` or `Cancelled`. If nothing arrived, the wait was cut off: the
    /// set is left without tasks and the result is `Disconnected`.
    pub fn keep(
        &mut self,
        arrived: Option<
            (Result<T, tokio::task::JoinError>, usize, Vec<tokio::task::JoinHandle<T>>),
        >,
    ) -> (r: Result<Option<T>, ProcError>)
        ensures
            final(self).runtime() == old(self).runtime(),
            match arrived {
                Some((raw, _, rest)) => {
                    &&& final(self).tasks() == rest@
                    &&& match raw {
                        Ok(value) => r == Ok::<Option<T>, ProcError>(Some(value)),
                        Err(_) => r matches Err(e) && is_task_failure(e),
                    }
                },
                None => {
                    &&& final(self).tasks().len() == 0
                    &&& r == Err::<Option<T>, ProcError>(ProcError::Disconnected)
                },
            },
    {
        match arrived {
            Some((raw, _, rest)) => {
                self.tasks = rest;
                match raw {
                    Ok(value) => Self::report(Ok(value)),
                    Err(e) => Self::report(Err(task_failure(&e))),
                }
            },
            None => {
                self.tasks = Vec::new();
                Err(ProcError::Disconnected)
            },
        }
    }
}

impl<T: Send + 'static> Proc for SelectTasks<T> {
    type Output = Option<T>;

    /// A set of tasks can always be joined again: an empty one yields nothing.
    open spec fn exhausted(&self) -> bool {
        false
    }

    /// An empty set yields `None` and stays empty. Of any other, one task has
    /// ended and left the set, the others stay, and the result is that task's
    /// outcome; unless the wait was cut off (`Disconnected`), in which case the
    /// tasks are lost. Which outcome the task has had is stated on `join` itself.
    open spec fn joins(&self, after: &Self, r: Result<Option<T>, ProcError>) -> bool {
        &&& after.runtime() == self.runtime()
        &&& if self.tasks().len() == 0 {
            after.tasks().len() == 0 && r == Ok::<Option<T>, ProcError>(None)
        } else {
            ||| after.tasks().len() == 0 && r == Err::<Option<T>, ProcError>(
                ProcError::Disconnected,
            )
            ||| exists|index: int, outcome: Result<T, ProcError>|
                {
                    &&& 0 <= index < self.tasks().len()
                    &&& after.tasks().to_multiset() == (#[trigger] self.tasks().remove(
                        index,
                    )).to_multiset()
                    &&& outcome matches Err(e) ==> is_task_failure(e)
                    &&& r == #[trigger] first_outcome(outcome)
                }
        }
    }

    /// Every task is told to stop and leaves the set.
    open spec fn forgets(&self, after: &Self) -> bool {
        &&& after.runtime() == self.runtime()
        &&& after.tasks().len() == 0
    }

    /// The set is joined once, which waits for the first task only, and an owned
    /// scheduler is told to stop.
    open spec fn finalizes(&self, after: &Self) -> bool {
        exists|joined: Self, r: Result<Option<T>, ProcError>|
            {
                &&& #[trigger] self.joins(&joined, r)
                &&& after.runtime() == joined.runtime().stopped()
                &&& after.tasks() == joined.tasks()
            }
    }

    /// A task of the scheduler waits for the first task of the set to end and
    /// carries its outcome, with the handles of the other tasks, over the bridge
    /// to the calling thread, which blocks for them. Unless the set was empty or
    /// the wait was cut off, one task has left the set, the others are kept for
    /// the next `join`, and the result is the outcome of the one that left: its
    /// value if it ran to its end, and `Panicked` or `Cancelled` otherwise.
    fn join(&mut self) -> (r: Result<Option<T>, ProcError>)
        ensures
            old(self).tasks().len() > 0 ==> (final(self).tasks().len() == 0 && r == Err::<
                Option<T>,
                ProcError,
            >(ProcError::Disconnected)) || exists|index: int|
                {
                    &&& 0 <= index < old(self).tasks().len()
                    &&& final(self).tasks().to_multiset() == (#[trigger] old(self).tasks().remove(
                        index,
                    )).to_multiset()
                    &&& match old(self).tasks()[index]@ {
                        Ok(value) => r == Ok::<Option<T>, ProcError>(Some(value)),
                        Err(_) => r matches Err(e) && is_task_failure(e),
                    }
                },
    {
        if self.tasks.len() == 0 {
            return Ok(None);
        }
        let mut tasks: Vec<tokio::task::JoinHandle<T>> = Vec::new();
        core::mem::swap(&mut self.tasks, &mut tasks);
        let bridge = Bridge::<
            (Result<T, tokio::task::JoinError>, usize, Vec<tokio::task::JoinHandle<T>>),
        >::new();
        let arrived = bridge.carry(self.runtime.handle(), select_all(tasks));
        let ghost got = arrived;
        let r = self.keep(arrived);
        proof {
            if got is Some {
                let index = got->Some_0.1 as int;
                let outcome: Result<T, ProcError> = if r is Ok {
                    Ok(r->Ok_0->Some_0)
                } else {
                    Err(r->Err_0)
                };
                assert(got->Some_0.0 == old(self).tasks()[index]@);
                assert(self.tasks().to_multiset() == old(self).tasks().remove(
                    index,
                ).to_multiset());
                assert(r == first_outcome(outcome));
            }
        }
        r
    }

    fn forget(&mut self) {
        let mut tasks: Vec<tokio::task::JoinHandle<T>> = Vec::new();
        core::mem::swap(&mut self.tasks, &mut tasks);
        for task in it: tasks {
            abort(&task);
        }
    }

    fn finalize(&mut self) {
        let r = self.join();
        let ghost joined = *self;
        self.runtime.shutdown();
        assert(old(self).joins(&joined, r));
    }
}

} // verus!
