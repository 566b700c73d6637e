//! The worker pool: a pipeline of two tasks that hands items to a fixed set of
//! worker threads and brings their results back in the order of the items.
//!
//! The *dispatcher* takes items from the inbound channel. For each item it makes
//! a response channel of its own, announces the receiving end of it on the
//! collect channel, and only then hands the item, with the sending end, to the
//! workers on the dispatch channel. The *collector* takes the announced
//! receiving ends in the order of their announcement, waits on each for its
//! result, and forwards the result to the outbound channel. Workers may finish
//! in any order; the results leave in the order in which the items came in.
//!
//! Both tasks wait on channels without blocking a thread, which only code that
//! runs inside the scheduler can do. That code calls back here after every wait:
//! the types `Dispatch` and `Collect` say what to wait for next.

use crate::channel::{bounded, rendezvous, share};
use crate::combinators::{and_outcome, combine_and};
use crate::error::ProcError;
use crate::proc::Proc;
use crate::runners::thread::{NativeThread, ThreadExit};
use vstd::prelude::*;

verus! {

/// What the dispatcher does next.
#[verifier::reject_recursive_types(O)]
pub enum Dispatch<I, O> {
    /// Wait for the next item on the inbound channel.
    Receive,
    /// Send `receiver` into the collect channel. `item` and `sender` wait for
    /// their turn.
    Announce { receiver: flume::Receiver<O>, item: I, sender: flume::Sender<O> },
    /// Send `item` and `sender`, as a pair, into the dispatch channel.
    Hand { item: I, sender: flume::Sender<O> },
    /// Stop: a channel that the dispatcher needs is closed.
    Stop,
}

impl<I, O> Dispatch<I, O> {
    /// The first step: wait for an item.
    pub fn start() -> (next: Self)
        ensures
            next is Receive,
    {
        Dispatch::Receive
    }

    /// After the wait for an item: with an item in hand, a response channel is
    /// made for it and its receiving end is announced first. Without one, the
    /// inbound channel is closed and the dispatcher stops.
    pub fn received(inbound: Option<I>) -> (next: Self)
        ensures
            inbound is None ==> next is Stop,
            inbound matches Some(item) ==> next matches Dispatch::Announce { item: held, .. }
                && held == item,
    {
        match inbound {
            Some(item) => {
                let (sender, receiver) = rendezvous::<O>();
                Dispatch::Announce { receiver, item, sender }
            },
            None => Dispatch::Stop,
        }
    }

    /// After the announcement: if the collect channel took the receiving end,
    /// the item is handed to the workers together with the sending end that
    /// belongs to it. Otherwise the dispatcher stops.
    pub fn announced(taken: bool, item: I, sender: flume::Sender<O>) -> (next: Self)
        ensures
            next == if taken {
                Dispatch::Hand { item, sender }
            } else {
                Dispatch::Stop
            },
    {
        if taken {
            Dispatch::Hand { item, sender }
        } else {
            Dispatch::Stop
        }
    }

    /// After the hand-over: if the dispatch channel took the pair, the
    /// dispatcher waits for the next item. Otherwise it stops.
    pub fn handed(taken: bool) -> (next: Self)
        ensures
            next == if taken {
                Dispatch::<I, O>::Receive
            } else {
                Dispatch::<I, O>::Stop
            },
    {
        if taken {
            Dispatch::Receive
        } else {
            Dispatch::Stop
        }
    }
}

/// What the collector does next.
#[verifier::reject_recursive_types(O)]
pub enum Collect<O> {
    /// Wait for the next receiving end on the collect channel.
    Next,
    /// Wait for the result on this receiving end.
    Await(flume::Receiver<O>),
    /// Send this result into the outbound channel.
    Emit(O),
    /// Stop: a channel that the collector needs is closed.
    Stop,
}

impl<O> Collect<O> {
    /// The first step: wait for a receiving end.
    pub fn start() -> (next: Self)
        ensures
            next is Next,
    {
        Collect::Next
    }

    /// After the wait on the collect channel: the collector waits on the
    /// receiving end it got, or stops if the channel is closed.
    pub fn collected(announced: Option<flume::Receiver<O>>) -> (next: Self)
        ensures
            next == match announced {
                Some(receiver) => Collect::Await(receiver),
                None => Collect::Stop,
            },
    {
        match announced {
            Some(receiver) => Collect::Await(receiver),
            None => Collect::Stop,
        }
    }

    /// After the wait for a result: a result is forwarded. If the worker let go
    /// of the item without a result, there is nothing to forward and the
    /// collector turns to the next item.
    pub fn responded(response: Option<O>) -> (next: Self)
        ensures
            next == match response {
                Some(output) => Collect::Emit(output),
                None => Collect::Next,
            },
    {
        match response {
            Some(output) => Collect::Emit(output),
            None => Collect::Next,
        }
    }

    /// After forwarding: the collector turns to the next item if the outbound
    /// channel took the result, and stops otherwise.
    pub fn emitted(taken: bool) -> (next: Self)
        ensures
            next == if taken {
                Collect::<O>::Next
            } else {
                Collect::<O>::Stop
            },
    {
        if taken {
            Collect::Next
        } else {
            Collect::Stop
        }
    }
}

/// The channel ends that the two tasks of the pipeline work on.
#[verifier::reject_recursive_types(I)]
#[verifier::reject_recursive_types(O)]
pub struct Pipeline<I, O> {
    /// Where the dispatcher takes its items from.
    pub inbound: flume::Receiver<I>,
    /// Where the dispatcher announces the receiving end of each response
    /// channel.
    pub announce: flume::Sender<flume::Receiver<O>>,
    /// Where the dispatcher hands each item to the workers.
    pub dispatch: flume::Sender<(I, flume::Sender<O>)>,
    /// Where the collector takes the announced receiving ends from.
    pub collect: flume::Receiver<flume::Receiver<O>>,
    /// Where the collector forwards the results to.
    pub outbound: flume::Sender<O>,
}

/// The work of one worker thread: the work function, the worker's index, and
/// the end of the dispatch channel that this worker takes its items from.
#[verifier::reject_recursive_types(I)]
#[verifier::reject_recursive_types(O)]
pub struct Worker<I, O, F> where F: Fn(usize, flume::Receiver<(I, flume::Sender<O>)>) {
    index: usize,
    work: flume::Receiver<(I, flume::Sender<O>)>,
    work_fn: F,
}

impl<I, O, F> Worker<I, O, F> where F: Fn(usize, flume::Receiver<(I, flume::Sender<O>)>) {
    /// The work function may be called on what the worker holds.
    #[verifier::type_invariant]
    spec fn runnable(self) -> bool {
        self.work_fn.requires((self.index, self.work))
    }

    /// The position of this worker among the workers of its pool.
    pub closed spec fn index(self) -> usize {
        self.index
    }

    /// The end of the dispatch channel that this worker takes its items from.
    pub closed spec fn work(self) -> flume::Receiver<(I, flume::Sender<O>)> {
        self.work
    }

    /// The work function.
    pub closed spec fn work_fn(self) -> F {
        self.work_fn
    }

    /// Runs the work function on the worker's index and its end of the
    /// dispatch channel, as the thread of this worker does. It returns when the
    /// work function does, which is expected once the dispatch channel is closed
    /// and empty.
    pub fn run(self) -> (exit: ThreadExit<()>)
        ensures
            self.work_fn().ensures((self.index(), self.work()), ()),
            exit == ThreadExit::Returned(Ok::<(), ProcError>(())),
    {
        proof {
            use_type_invariant(&self);
        }
        let Worker { index, work, work_fn } = self;
        work_fn(index, work);
        ThreadExit::Returned(Ok(()))
    }
}

/// What joining a chain of processes reports: the result of the first, if it
/// failed, and otherwise the error of the earliest of the others that failed; if
/// none failed, what the last one returned.
pub open spec fn chain_outcome(
    first: Result<(), ProcError>,
    rest: Seq<Result<(), ProcError>>,
) -> Result<(), ProcError>
    decreases rest.len(),
{
    if rest.len() == 0 {
        first
    } else {
        and_outcome(chain_outcome(first, rest.drop_last()), rest.last())
    }
}

/// In a chain the failure that comes first wins: a failed first process decides
/// the result, else the earliest failure among the others does, and a chain
/// without any failure succeeds.
pub proof fn lemma_chain_first_failure_wins(
    first: Result<(), ProcError>,
    rest: Seq<Result<(), ProcError>>,
)
    ensures
        first is Err ==> chain_outcome(first, rest) == first,
        first is Ok && (forall|i: int| 0 <= i < rest.len() ==> (#[trigger] rest[i]) is Ok)
            ==> chain_outcome(first, rest) == Ok::<(), ProcError>(()),
        forall|i: int|
            first is Ok && 0 <= i < rest.len() && (#[trigger] rest[i]) is Err && (forall|j: int|
                0 <= j < i ==> (#[trigger] rest[j]) is Ok) ==> chain_outcome(first, rest)
                == rest[i],
    decreases rest.len(),
{
    if rest.len() > 0 {
        let front = rest.drop_last();
        lemma_chain_first_failure_wins(first, front);
        assert forall|i: int|
            first is Ok && 0 <= i < rest.len() && (#[trigger] rest[i]) is Err && (forall|j: int|
                0 <= j < i ==> (#[trigger] rest[j]) is Ok) implies chain_outcome(first, rest)
            == rest[i] by {
            if i < front.len() {
                assert(front[i] == rest[i]);
                assert forall|j: int| 0 <= j < i implies (#[trigger] front[j]) is Ok by {
                    assert(front[j] == rest[j]);
                }
            } else {
                assert forall|j: int| 0 <= j < front.len() implies (#[trigger] front[j]) is Ok by {
                    assert(front[j] == rest[j]);
                }
            }
        }
        if first is Ok && (forall|i: int| 0 <= i < rest.len() ==> (#[trigger] rest[i]) is Ok) {
            assert forall|j: int| 0 <= j < front.len() implies (#[trigger] front[j]) is Ok by {
                assert(front[j] == rest[j]);
            }
            assert(rest[rest.len() - 1] is Ok);
            assert(rest.last()->Ok_0 == ());
        }
    } else if first is Ok {
        assert(first->Ok_0 == ());
    }
}

/// The pool as one process: the pipeline, followed by every worker thread.
///
/// Joining it joins the pipeline first and then the workers in the order of
/// their indices, all of them whatever the others returned, as a chain built
/// with `and_then` would.
#[verifier::reject_recursive_types(W)]
pub struct WorkerPool<D, W> where D: Proc<Output = ()>, W: FnOnce() -> ThreadExit<()> + Send {
    pub pipeline: D,
    pub workers: Vec<NativeThread<W, ()>>,
}

impl<D, W> WorkerPool<D, W> where D: Proc<Output = ()>, W: FnOnce() -> ThreadExit<()> + Send {
    /// Every worker has gone from `self` to `after` by one `join`, with the
    /// results `rest`.
    pub open spec fn workers_joined(
        &self,
        after: &Self,
        rest: Seq<Result<(), ProcError>>,
    ) -> bool {
        &&& after.workers@.len() == self.workers@.len()
        &&& rest.len() == self.workers@.len()
        &&& forall|i: int|
            0 <= i < self.workers@.len() ==> (#[trigger] self.workers@[i]).joins(
                &after.workers@[i],
                rest[i],
            )
    }

    /// No worker of `self` holds a thread any more.
    pub open spec fn workers_released(&self) -> bool {
        forall|i: int| 0 <= i < self.workers@.len() ==> (#[trigger] self.workers@[i]).exhausted()
    }
}

impl<D, W> Proc for WorkerPool<D, W> where D: Proc<Output = ()>, W: FnOnce() -> ThreadExit<()> + Send {
    type Output = ();

    /// An exhausted pipeline decides the result by itself.
    open spec fn exhausted(&self) -> bool {
        self.pipeline.exhausted()
    }

    open spec fn joins(&self, after: &Self, r: Result<(), ProcError>) -> bool {
        exists|first: Result<(), ProcError>, rest: Seq<Result<(), ProcError>>|
            {
                &&& #[trigger] self.pipeline.joins(&after.pipeline, first)
                &&& #[trigger] self.workers_joined(after, rest)
                &&& r == chain_outcome(first, rest)
            }
    }

    open spec fn forgets(&self, after: &Self) -> bool {
        &&& self.pipeline.forgets(&after.pipeline)
        &&& after.workers@.len() == self.workers@.len()
        &&& after.workers_released()
    }

    /// The pool is joined, then the pipeline runs its own teardown. The workers
    /// have nothing left to release.
    open spec fn finalizes(&self, after: &Self) -> bool {
        exists|joined: Self, r: Result<(), ProcError>|
            {
                &&& #[trigger] self.joins(&joined, r)
                &&& joined.pipeline.finalizes(&after.pipeline)
                &&& after.workers == joined.workers
            }
    }

    fn join(&mut self) -> (r: Result<(), ProcError>) {
        let first = self.pipeline.join();
        let ghost piped = self.pipeline;
        let mut r = first;
        let ghost mut rest: Seq<Result<(), ProcError>> = Seq::empty();
        let n: usize = self.workers.len();
        let mut i: usize = 0;
        while i < n
            invariant
                i <= n,
                n == self.workers@.len(),
                n == old(self).workers@.len(),
                self.pipeline == piped,
                first is Err ==> r == first,
                rest.len() == i,
                r == chain_outcome(first, rest),
                forall|j: int|
                    0 <= j < i ==> (#[trigger] old(self).workers@[j]).joins(
                        &self.workers@[j],
                        rest[j],
                    ),
                forall|j: int| i <= j < n ==> self.workers@[j] == old(self).workers@[j],
            decreases n - i,
        {
            let w = self.workers[i].join();
            proof {
                assert(rest.push(w).drop_last() == rest);
                rest = rest.push(w);
            }
            r = combine_and(r, w);
            i += 1;
        }
        assert(old(self).workers_joined(self, rest));
        r
    }

    fn forget(&mut self) {
        self.pipeline.forget();
        let ghost released = self.pipeline;
        let n: usize = self.workers.len();
        let mut i: usize = 0;
        while i < n
            invariant
                i <= n,
                n == self.workers@.len(),
                n == old(self).workers@.len(),
                self.pipeline == released,
                forall|j: int| 0 <= j < i ==> (#[trigger] self.workers@[j]).exhausted(),
            decreases n - i,
        {
            self.workers[i].forget();
            i += 1;
        }
    }

    fn finalize(&mut self) {
        let r = self.join();
        let ghost joined = *self;
        self.pipeline.finalize();
        assert(old(self).joins(&joined, r));
    }
}

/// `thread` holds the thread that `start` started for a worker that has the
/// given index, runs `work_fn`, and takes its items from `shared`.
pub open spec fn started_as<I, O, F, S, W>(
    start: S,
    work_fn: F,
    shared: flume::Receiver<(I, flume::Sender<O>)>,
    index: int,
    thread: NativeThread<W, ()>,
) -> bool where
    F: Fn(usize, flume::Receiver<(I, flume::Sender<O>)>),
    S: Fn(Worker<I, O, F>) -> W,
    W: FnOnce() -> ThreadExit<()> + Send,
 {
    thread.handle() matches Some(wait) && exists|worker: Worker<I, O, F>| #[trigger]
        start.ensures((worker,), wait) && worker.index() == index && worker.work_fn() == work_fn
            && worker.work() == shared
}

/// Each of `threads` holds the thread that `start` started for a worker that
/// has the thread's position as its index, runs `work_fn`, and takes its items
/// from `shared`, the one receiving end that all of them share.
pub open spec fn all_started_on<I, O, F, S, W>(
    start: S,
    work_fn: F,
    shared: flume::Receiver<(I, flume::Sender<O>)>,
    threads: Seq<NativeThread<W, ()>>,
) -> bool where
    F: Fn(usize, flume::Receiver<(I, flume::Sender<O>)>),
    S: Fn(Worker<I, O, F>) -> W,
    W: FnOnce() -> ThreadExit<()> + Send,
 {
    forall|i: int|
        0 <= i < threads.len() ==> #[trigger] started_as(start, work_fn, shared, i, threads[i])
}

/// Builds a worker pool as one process.
///
/// Items that arrive on `in_r` are worked on by `workers` threads, each of
/// which runs `work_fn` with its index and an end of the one dispatch channel, and
/// the results leave on `out_s` in the order in which their items arrived. At
/// most `channel_capacity` items wait on each of the two channels inside.
///
/// The two things that this library cannot do by itself are passed in.
/// `pipeline` makes a process of the channel ends of the dispatcher and the
/// collector: the process that runs both as tasks of a scheduler, following
/// [`Dispatch`] and [`Collect`]. `start` starts a thread that calls `run` on the
/// worker it is given, and returns the means to wait for that thread.
pub fn with_worker_pool<I, O, F, P, D, S, W>(
    workers: usize,
    channel_capacity: usize,
    in_r: flume::Receiver<I>,
    out_s: flume::Sender<O>,
    work_fn: F,
    pipeline: P,
    start: S,
) -> (pool: WorkerPool<D, W>) where
    F: Fn(usize, flume::Receiver<(I, flume::Sender<O>)>) + Copy + Send + 'static,
    P: FnOnce(Pipeline<I, O>) -> D,
    D: Proc<Output = ()>,
    S: Fn(Worker<I, O, F>) -> W,
    W: FnOnce() -> ThreadExit<()> + Send,

    requires
        workers >= 1,
        channel_capacity > 0,
        forall|index: usize, work: flume::Receiver<(I, flume::Sender<O>)>|
            work_fn.requires((index, work)),
        forall|ends: Pipeline<I, O>| pipeline.requires((ends,)),
        forall|worker: Worker<I, O, F>| start.requires((worker,)),
        forall|worker: Worker<I, O, F>, wait: W| #[trigger]
            start.ensures((worker,), wait) ==> wait.requires(()),
    ensures
        exists|ends: Pipeline<I, O>|
            {
                &&& ends.inbound == in_r
                &&& ends.outbound == out_s
                &&& #[trigger] pipeline.ensures((ends,), pool.pipeline)
            },
        pool.workers@.len() == workers,
        exists|shared: flume::Receiver<(I, flume::Sender<O>)>| #[trigger]
            all_started_on(start, work_fn, shared, pool.workers@),
{
    let (dispatch_tx, dispatch_rx) = bounded::<(I, flume::Sender<O>)>(channel_capacity);
    let (collect_tx, collect_rx) = bounded::<flume::Receiver<O>>(channel_capacity);
    let ends = Pipeline {
        inbound: in_r,
        announce: collect_tx,
        dispatch: dispatch_tx,
        collect: collect_rx,
        outbound: out_s,
    };
    let async_half = pipeline(ends);
    let mut threads: Vec<NativeThread<W, ()>> = Vec::new();
    let mut index: usize = 0;
    while index < workers
        invariant
            index <= workers,
            threads@.len() == index,
            forall|i: usize, work: flume::Receiver<(I, flume::Sender<O>)>|
                work_fn.requires((i, work)),
            forall|worker: Worker<I, O, F>| start.requires((worker,)),
            forall|worker: Worker<I, O, F>, wait: W| #[trigger]
                start.ensures((worker,), wait) ==> wait.requires(()),
            forall|i: int|
                0 <= i < index ==> #[trigger] started_as(
                    start,
                    work_fn,
                    dispatch_rx,
                    i,
                    threads@[i],
                ),
        decreases workers - index,
    {
        let worker = Worker { index, work: share(&dispatch_rx), work_fn };
        let wait = start(worker);
        let thread = NativeThread::new(wait);
        assert(started_as(start, work_fn, dispatch_rx, index as int, thread)) by {
            assert(start.ensures((worker,), wait) && worker.index() == index as int
                && worker.work_fn() == work_fn && worker.work() == dispatch_rx);
            assert(thread.handle() matches Some(w) && w == wait);
            assert(thread.handle() matches Some(w) && (exists|other: Worker<I, O, F>| #[trigger]
                start.ensures((other,), w) && other.index() == index as int && other.work_fn()
                    == work_fn && other.work() == dispatch_rx));
        }
        threads.push(thread);
        index += 1;
    }
    let pool = WorkerPool { pipeline: async_half, workers: threads };
    assert(pipeline.ensures((ends,), pool.pipeline) && ends.inbound == in_r && ends.outbound
        == out_s);
    assert(all_started_on(start, work_fn, dispatch_rx, pool.workers@));
    pool
}

} // verus!
