//! Waiting for all of a set of tasks.

use crate::error::ProcError;
use crate::proc::Proc;
use crate::runners::runtime::{BackgroundScheduler, TaskRuntime};
use crate::runners::bridge::Bridge;
use crate::runners::scheduler::{abort, join_all, spawn, task_failure};
use vstd::future::FutureAdditionalSpecFns;
use vstd::prelude::*;

verus! {

/// The index `i` is that of the first failure among `outcomes`.
pub open spec fn is_first_failure<T>(outcomes: Seq<Result<T, ProcError>>, i: int) -> bool {
    &&& 0 <= i < outcomes.len()
    &&& outcomes[i] is Err
    &&& forall|j: int| 0 <= j < i ==> (#[trigger] outcomes[j]) is Ok
}

/// What the outcomes of a set of tasks add up to: the values of all of them, in
/// the order of the outcomes, if every task succeeded; and otherwise the error
/// of the first task, in that order, that failed.
pub open spec fn gathers<T>(outcomes: Seq<Result<T, ProcError>>, r: Result<Vec<T>, ProcError>) -> bool {
    match r {
        Ok(values) => {
            &&& values@.len() == outcomes.len()
            &&& forall|i: int|
                0 <= i < outcomes.len() ==> (#[trigger] outcomes[i]) == Ok::<T, ProcError>(
                    values@[i],
                )
        },
        Err(e) => exists|i: int|
            is_first_failure(outcomes, i) && (#[trigger] outcomes[i]) == Err::<T, ProcError>(e),
    }
}

/// Adds up the outcomes of a set of tasks.
pub fn gather<T>(outcomes: Vec<Result<T, ProcError>>) -> (r: Result<Vec<T>, ProcError>)
    ensures
        gathers(outcomes@, r),
{
    let mut values: Vec<T> = Vec::new();
    for outcome in it: outcomes
        invariant
            values@.len() == it.index(),
            it.seq() == outcomes@,
            forall|j: int|
                0 <= j < it.index() ==> (#[trigger] outcomes@[j]) == Ok::<T, ProcError>(values@[j]),
    {
        match outcome {
            Ok(value) => {
                values.push(value);
            },
            Err(e) => {
                assert(is_first_failure(outcomes@, it.index() as int));
                return Err(e);
            },
        }
    }
    Ok(values)
}

/// The way a task can fail to run to its end: by a panic, or by being
/// cancelled.
pub open spec fn is_task_failure(e: ProcError) -> bool {
    e == ProcError::Panicked || e == ProcError::Cancelled
}

/// Puts the library's errors in the place of the scheduler's own: values stay
/// as they are and in their places, and each failure becomes `Panicked` or
/// `Cancelled`.
pub fn settle_all<T>(raw: Vec<Result<T, tokio::task::JoinError>>) -> (outcomes: Vec<
    Result<T, ProcError>,
>)
    ensures
        outcomes@.len() == raw@.len(),
        forall|i: int|
            0 <= i < raw@.len() ==> match #[trigger] raw@[i] {
                Ok(value) => outcomes@[i] == Ok::<T, ProcError>(value),
                Err(_) => outcomes@[i] matches Err(e) && is_task_failure(e),
            },
{
    let mut outcomes: Vec<Result<T, ProcError>> = Vec::new();
    for outcome in it: raw
        invariant
            outcomes@.len() == it.index(),
            it.seq() == raw@,
            forall|j: int|
                0 <= j < it.index() ==> match #[trigger] raw@[j] {
                    Ok(value) => outcomes@[j] == Ok::<T, ProcError>(value),
                    Err(_) => outcomes@[j] matches Err(e) && is_task_failure(e),
                },
    {
        match outcome {
            Ok(value) => {
                outcomes.push(Ok(value));
            },
            Err(e) => {
                outcomes.push(Err(task_failure(&e)));
            },
        }
    }
    outcomes
}

/// A set of tasks on a scheduler, joined by waiting for all of them.
///
/// Tasks start to run when they are added. `join` blocks the calling thread,
/// which need not run in any scheduler itself, and hands over the values of the
/// tasks in the order in which the tasks were added. If several tasks fail, the
/// error of the one that was added first is reported.
#[verifier::reject_recursive_types(T)]
pub struct JoinTasks<T: Send + 'static> {
    runtime: TaskRuntime,
    tasks: Vec<tokio::task::JoinHandle<T>>,
}

impl<T: Send + 'static> JoinTasks<T> {
    /// The scheduler that the tasks run on.
    pub closed spec fn runtime(&self) -> TaskRuntime {
        self.runtime
    }

    /// The handles of the tasks that have not been waited for, in the order in
    /// which the tasks were added.
    pub closed spec fn tasks(&self) -> Seq<tokio::task::JoinHandle<T>> {
        self.tasks@
    }

    /// An empty set of tasks on the scheduler that the calling thread runs in,
    /// or else on a new scheduler of its own, started through `spawn` as in
    /// [`TaskRuntime::new`]. Unless the set is on an entered scheduler, `spawn`
    /// has been called.
    pub fn new<S>(spawn: S) -> (r: Result<Self, ProcError>) where S: FnOnce(BackgroundScheduler)
        requires
            forall|work: BackgroundScheduler| spawn.requires((work,)),
        ensures
            r matches Ok(set) ==> set.tasks().len() == 0 && (set.runtime() is Entered
                || set.runtime().armed()),
            r matches Err(e) ==> e == ProcError::Disconnected,
            (r matches Ok(set) && set.runtime() is Entered) || exists|work: BackgroundScheduler|
                #[trigger] spawn.ensures((work,), ()),
    {
        match TaskRuntime::current_or_new(spawn) {
            Ok(runtime) => Ok(JoinTasks { runtime, tasks: Vec::new() }),
            Err(e) => Err(e),
        }
    }

    /// An empty set of tasks on a scheduler that belongs to the caller.
    pub fn with_runtime(handle: tokio::runtime::Handle) -> (set: Self)
        ensures
            set.runtime() == TaskRuntime::Entered(handle),
            set.tasks().len() == 0,
    {
        JoinTasks { runtime: TaskRuntime::Entered(handle), tasks: Vec::new() }
    }

    /// Spawns `fut` onto the scheduler and adds its task at the end of the set.
    /// If the task runs to its end, it ends with the value of `fut`.
    pub fn and<F>(self, fut: F) -> (set: Self) where F: core::future::Future<Output = T> + Send + 'static
        ensures
            set.runtime() == self.runtime(),
            set.tasks().len() == self.tasks().len() + 1,
            set.tasks().drop_last() == self.tasks(),
            set.tasks().last()@ matches Ok(value) ==> value == fut@,
    {
        let mut set = self;
        let task = spawn(set.runtime.handle(), fut);
        set.tasks.push(task);
        assert(set.tasks@.drop_last() == self.tasks@);
        set
    }

    /// For a caller that runs in a scheduler itself: the future that completes
    /// once every task has ended, with the outcome of each task in the order in
    /// which the tasks were added. The set is used up: an owned scheduler is told
    /// to stop, as when the set is finalized.
    pub fn into_future(self) -> (all: futures::future::JoinAll<tokio::task::JoinHandle<T>>)
        ensures
            all@@.len() == self.tasks().len(),
            forall|i: int| 0 <= i < self.tasks().len() ==> all@@[i] == (#[trigger] self.tasks()[i])@,
    {
        let JoinTasks { runtime, tasks } = self;
        let mut runtime = runtime;
        runtime.shutdown();
        join_all(tasks)
    }
}

impl<T: Send + 'static> Proc for JoinTasks<T> {
    type Output = Vec<T>;

    /// A set of tasks can always be joined again: an empty one yields no values.
    open spec fn exhausted(&self) -> bool {
        false
    }

    /// Every task is taken out of the set. An empty set yields no values. For
    /// any other, either the wait was cut off (`Disconnected`), or each task has
    /// had its outcome and the result is what the outcomes add up to. Which
    /// outcome each task has had is stated on `join` itself.
    open spec fn joins(&self, after: &Self, r: Result<Vec<T>, ProcError>) -> bool {
        &&& after.runtime() == self.runtime()
        &&& after.tasks().len() == 0
        &&& if self.tasks().len() == 0 {
            r matches Ok(values) && values@.len() == 0
        } else {
            ||| r == Err::<Vec<T>, ProcError>(ProcError::Disconnected)
            ||| exists|outcomes: Seq<Result<T, ProcError>>|
                {
                    &&& outcomes.len() == self.tasks().len()
                    &&& forall|i: int|
                        0 <= i < outcomes.len() ==> ((#[trigger] outcomes[i]) matches Err(e)
                            ==> is_task_failure(e))
                    &&& #[trigger] gathers(outcomes, r)
                }
        }
    }

    /// Every task is told to stop and leaves the set.
    open spec fn forgets(&self, after: &Self) -> bool {
        &&& after.runtime() == self.runtime()
        &&& after.tasks().len() == 0
    }

    /// The set is joined once, and an owned scheduler is told to stop.
    open spec fn finalizes(&self, after: &Self) -> bool {
        exists|joined: Self, r: Result<Vec<T>, ProcError>|
            {
                &&& #[trigger] self.joins(&joined, r)
                &&& after.runtime() == joined.runtime().stopped()
                &&& after.tasks() == joined.tasks()
            }
    }

    /// A task of the scheduler waits for all tasks of the set and carries
    /// their outcomes over the bridge to the calling thread, which blocks for
    /// them. Unless the wait was cut off, the result is what the outcomes of the
    /// tasks add up to, taken in the order of the tasks: a task that ran to its
    /// end counts with its value, any other as `Panicked` or `Cancelled`. So if
    /// every task runs to its end, the values of all of them are handed over in
    /// the order in which the tasks were added.
    fn join(&mut self) -> (r: Result<Vec<T>, ProcError>)
        ensures
            r == Err::<Vec<T>, ProcError>(ProcError::Disconnected) || exists|
                outcomes: Seq<Result<T, ProcError>>,
            |
                {
                    &&& outcomes.len() == old(self).tasks().len()
                    &&& forall|i: int|
                        0 <= i < outcomes.len() ==> match (#[trigger] old(self).tasks()[i])@ {
                            Ok(value) => outcomes[i] == Ok::<T, ProcError>(value),
                            Err(_) => outcomes[i] matches Err(e) && is_task_failure(e),
                        }
                    &&& #[trigger] gathers(outcomes, r)
                },
            (forall|i: int|
                0 <= i < old(self).tasks().len() ==> (#[trigger] old(self).tasks()[i])@ is Ok)
                ==> r == Err::<Vec<T>, ProcError>(ProcError::Disconnected) || (r matches Ok(
                values,
            ) && values@.len() == old(self).tasks().len() && forall|i: int|
                0 <= i < values@.len() ==> (#[trigger] old(self).tasks()[i])@ == Ok::<
                    T,
                    tokio::task::JoinError,
                >(values@[i])),
    {
        if self.tasks.len() == 0 {
            let r: Result<Vec<T>, ProcError> = Ok(Vec::new());
            assert(gathers(Seq::<Result<T, ProcError>>::empty(), r));
            return r;
        }
        let mut tasks: Vec<tokio::task::JoinHandle<T>> = Vec::new();
        core::mem::swap(&mut self.tasks, &mut tasks);
        let bridge = Bridge::<Vec<Result<T, tokio::task::JoinError>>>::new();
        match bridge.carry(self.runtime.handle(), join_all(tasks)) {
            Some(raw) => {
                let ghost raw_outcomes = raw@;
                let outcomes = settle_all(raw);
                let ghost settled = outcomes@;
                let r = gather(outcomes);
                proof {
                    assert forall|i: int| 0 <= i < settled.len() implies ((
                    #[trigger] settled[i]) matches Err(e) ==> is_task_failure(e)) by {
                        let _ = raw_outcomes[i];
                    }
                    assert(settled.len() == old(self).tasks().len());
                    assert(gathers(settled, r));
                    assert forall|i: int|
                        0 <= i < raw_outcomes.len() && (forall|j: int|
                            0 <= j < old(self).tasks().len() ==> (#[trigger] old(
                                self,
                            ).tasks()[j])@ is Ok) implies (#[trigger] raw_outcomes[i]) is Ok by {
                        let _ = old(self).tasks()[i];
                    }
                    if forall|i: int|
                        0 <= i < raw_outcomes.len() ==> (#[trigger] raw_outcomes[i]) is Ok {
                        assert forall|i: int| 0 <= i < settled.len() implies (
                        #[trigger] settled[i]) == Ok::<T, ProcError>(raw_outcomes[i]->Ok_0) by {
                            let _ = raw_outcomes[i];
                        }
                        if r is Ok {
                            assert forall|i: int| 0 <= i < r->Ok_0@.len() implies (
                            #[trigger] raw_outcomes[i]) == Ok::<T, tokio::task::JoinError>(
                                r->Ok_0@[i],
                            ) by {
                                let _ = settled[i];
                            }
                        } else {
                            let first = choose|i: int|
                                is_first_failure(settled, i) && (#[trigger] settled[i]) == Err::<
                                    T,
                                    ProcError,
                                >(r->Err_0);
                            assert(settled[first] is Ok);
                        }
                    }
                }
                r
            },
            None => Err(ProcError::Disconnected),
        }
    }

    fn forget(&mut self) {
        let mut tasks: Vec<tokio::task::JoinHandle<T>> = Vec::new();
        core::mem::swap(&mut self.tasks, &mut tasks);
        for task in it: tasks {
            abort(&task);
        }
    }

    fn finalize(&mut self) {
        let r = self.join();
        let ghost joined = *self;
        self.runtime.shutdown();
        assert(old(self).joins(&joined, r));
    }
}

/// When no task fails, the outcomes add up to one value for each task, in the
/// order of the tasks, however the tasks were scheduled.
pub proof fn lemma_gather_keeps_order<T>(
    outcomes: Seq<Result<T, ProcError>>,
    r: Result<Vec<T>, ProcError>,
)
    requires
        gathers(outcomes, r),
        forall|i: int| 0 <= i < outcomes.len() ==> (#[trigger] outcomes[i]) is Ok,
    ensures
        r matches Ok(values) && values@.len() == outcomes.len() && forall|i: int|
            0 <= i < outcomes.len() ==> values@[i] == (#[trigger] outcomes[i])->Ok_0,
{
}

/// The outcomes decide what they add up to: any two results that the same
/// outcomes add up to are both the same error, or hold the same values.
pub proof fn lemma_gather_is_determined<T>(
    outcomes: Seq<Result<T, ProcError>>,
    r1: Result<Vec<T>, ProcError>,
    r2: Result<Vec<T>, ProcError>,
)
    requires
        gathers(outcomes, r1),
        gathers(outcomes, r2),
    ensures
        match r1 {
            Ok(values) => r2 matches Ok(others) && others@ == values@,
            Err(e) => r2 == Err::<Vec<T>, ProcError>(e),
        },
{
    match r1 {
        Ok(values) => {
            if r2 is Err {
                let i = choose|i: int|
                    is_first_failure(outcomes, i) && (#[trigger] outcomes[i]) == Err::<
                        T,
                        ProcError,
                    >(r2->Err_0);
                assert(outcomes[i] is Ok);
            } else {
                let others = r2->Ok_0;
                assert forall|i: int| 0 <= i < values@.len() implies others@[i] == values@[i] by {
                    let _ = outcomes[i];
                }
                assert(others@ =~= values@);
            }
        },
        Err(e) => {
            let i = choose|i: int|
                is_first_failure(outcomes, i) && (#[trigger] outcomes[i]) == Err::<T, ProcError>(e);
            if r2 is Ok {
                assert(outcomes[i] is Err);
            } else {
                let j = choose|j: int|
                    is_first_failure(outcomes, j) && (#[trigger] outcomes[j]) == Err::<
                        T,
                        ProcError,
                    >(r2->Err_0);
                if i < j {
                    assert(outcomes[i] is Ok);
                } else if j < i {
                    assert(outcomes[j] is Ok);
                }
            }
        },
    }
}

/// A successful `join` hands over exactly one value for each task of the set.
pub proof fn lemma_join_yields_one_value_per_task<T: Send + 'static>(
    before: JoinTasks<T>,
    after: JoinTasks<T>,
    r: Result<Vec<T>, ProcError>,
)
    requires
        before.joins(&after, r),
    ensures
        r matches Ok(values) ==> values@.len() == before.tasks().len(),
{
}

} // verus!
