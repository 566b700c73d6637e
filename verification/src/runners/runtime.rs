//! The bridge to the task scheduler: a scheduler the caller already runs in,
//! or one that the library owns and serves on a thread in the background.

use crate::channel::{recv, rendezvous, send};
use crate::error::ProcError;
use crate::runners::scheduler::{build_current_thread, handle_of, try_current};
use vstd::prelude::*;

verus! {

/// The scheduler that a set of tasks runs on.
pub enum TaskRuntime {
    /// A scheduler of the library's own, served by a thread in the background.
    /// `shutdown` holds the means to end it, until they have been used.
    Owned { handle: tokio::runtime::Handle, shutdown: Option<flume::Sender<()>> },
    /// A scheduler that the calling thread was already running in. It belongs to
    /// someone else and is never shut down from here.
    Entered(tokio::runtime::Handle),
}

/// The work of the thread that serves an owned scheduler.
///
/// Whoever starts the thread hands it this value, and the thread calls `run`.
pub struct BackgroundScheduler {
    ready: flume::Sender<(tokio::runtime::Handle, flume::Sender<()>)>,
}

impl BackgroundScheduler {
    /// Builds a scheduler that runs one task at a time, reports its handle and
    /// the sending end of its shutdown signal to the constructor that waits for
    /// them, and then has the scheduler served on the calling thread.
    ///
    /// `serve` must drive the scheduler it is given until a message arrives on
    /// the receiving end it is given, or until every sending end of that channel
    /// is gone, and then let go of the scheduler. It is called only once the
    /// report has been taken; if the scheduler cannot be built, or if nobody
    /// waits for the report any more, `run` returns at once and says so.
    pub fn run<V>(self, serve: V) -> (served: bool) where
        V: FnOnce(tokio::runtime::Runtime, flume::Receiver<()>),

        requires
            forall|runtime: tokio::runtime::Runtime, signal: flume::Receiver<()>|
                serve.requires((runtime, signal)),
        ensures
            served ==> exists|runtime: tokio::runtime::Runtime, signal: flume::Receiver<()>|
                #[trigger] serve.ensures((runtime, signal), ()),
    {
        let (shutdown_tx, shutdown_rx) = rendezvous::<()>();
        match build_current_thread() {
            Ok(runtime) => {
                let taken = send(&self.ready, (handle_of(&runtime), shutdown_tx));
                Self::serve_if(taken, runtime, shutdown_rx, serve)
            },
            Err(_) => false,
        }
    }

    /// Has the scheduler served if its report was taken: `serve` is then called
    /// on the scheduler and on the receiving end of its shutdown signal. A
    /// scheduler whose report nobody took is dropped, and `serve` with it.
    pub fn serve_if<V>(
        taken: bool,
        runtime: tokio::runtime::Runtime,
        signal: flume::Receiver<()>,
        serve: V,
    ) -> (served: bool) where V: FnOnce(tokio::runtime::Runtime, flume::Receiver<()>)
        requires
            serve.requires((runtime, signal)),
        ensures
            served == taken,
            taken ==> serve.ensures((runtime, signal), ()),
    {
        if taken {
            serve(runtime, signal);
        }
        taken
    }
}

impl TaskRuntime {
    /// The scheduler is the library's own and has not been told to stop.
    pub open spec fn armed(&self) -> bool {
        self matches TaskRuntime::Owned { shutdown: Some(_), .. }
    }

    /// The handle of the scheduler, whoever owns it.
    pub open spec fn handle_spec(&self) -> tokio::runtime::Handle {
        match *self {
            TaskRuntime::Owned { handle, .. } => handle,
            TaskRuntime::Entered(handle) => handle,
        }
    }

    /// The runtime once `shutdown` has been called on it.
    pub open spec fn stopped(self) -> TaskRuntime {
        match self {
            TaskRuntime::Owned { handle, .. } => TaskRuntime::Owned { handle, shutdown: None },
            TaskRuntime::Entered(handle) => TaskRuntime::Entered(handle),
        }
    }

    /// What the constructor makes of the report of the background thread: an
    /// owned, armed runtime if a report arrived, and `Disconnected` if the thread
    /// gave up before it sent one.
    pub open spec fn owned_spec(
        report: Option<(tokio::runtime::Handle, flume::Sender<()>)>,
    ) -> Result<TaskRuntime, ProcError> {
        match report {
            Some((handle, shutdown)) => Ok(
                TaskRuntime::Owned { handle, shutdown: Some(shutdown) },
            ),
            None => Err(ProcError::Disconnected),
        }
    }

    /// Makes an owned runtime of what the background thread reported.
    pub fn owned(report: Option<(tokio::runtime::Handle, flume::Sender<()>)>) -> (r: Result<
        TaskRuntime,
        ProcError,
    >)
        ensures
            r == Self::owned_spec(report),
    {
        match report {
            Some((handle, shutdown)) => Ok(
                TaskRuntime::Owned { handle, shutdown: Some(shutdown) },
            ),
            None => Err(ProcError::Disconnected),
        }
    }

    /// Starts a scheduler of the library's own.
    ///
    /// `spawn` must start a thread that calls `run` on the value it is given,
    /// and it is called once, whatever comes of it. The constructor blocks until
    /// that thread has reported its scheduler, so the runtime it returns is ready
    /// to take tasks. It fails with `Disconnected` if the thread ended without a
    /// report.
    pub fn new<S>(spawn: S) -> (r: Result<TaskRuntime, ProcError>) where
        S: FnOnce(BackgroundScheduler),

        requires
            forall|work: BackgroundScheduler| spawn.requires((work,)),
        ensures
            r matches Ok(runtime) ==> runtime.armed(),
            r matches Err(e) ==> e == ProcError::Disconnected,
            exists|work: BackgroundScheduler| #[trigger] spawn.ensures((work,), ()),
    {
        let (ready_tx, ready_rx) = rendezvous();
        let work = BackgroundScheduler { ready: ready_tx };
        let ghost given = work;
        spawn(work);
        assert(spawn.ensures((given,), ()));
        Self::owned(recv(&ready_rx))
    }

    /// Wraps the scheduler that the calling thread was found to run in, if it
    /// was found to run in one. Nothing is owned.
    pub fn entered(current: Option<tokio::runtime::Handle>) -> (r: Option<TaskRuntime>)
        ensures
            r == match current {
                Some(handle) => Some(TaskRuntime::Entered(handle)),
                None => None,
            },
    {
        match current {
            Some(handle) => Some(TaskRuntime::Entered(handle)),
            None => None,
        }
    }

    /// The scheduler that the calling thread runs in, if it runs in one. No
    /// thread is started and nothing is owned.
    pub fn from_current() -> (r: Option<TaskRuntime>)
        ensures
            r matches Some(runtime) ==> runtime is Entered,
    {
        Self::entered(try_current())
    }

    /// What is made of the search for a current scheduler: a scheduler that was
    /// found is the result, and `spawn` is dropped unused; if none was found, a
    /// new one is started through `spawn` as in [`TaskRuntime::new`].
    pub fn found_or_new<S>(found: Option<TaskRuntime>, spawn: S) -> (r: Result<
        TaskRuntime,
        ProcError,
    >) where S: FnOnce(BackgroundScheduler)
        requires
            forall|work: BackgroundScheduler| spawn.requires((work,)),
        ensures
            found matches Some(runtime) ==> r == Ok::<TaskRuntime, ProcError>(runtime),
            found is None ==> {
                &&& r matches Ok(runtime) ==> runtime.armed()
                &&& r matches Err(e) ==> e == ProcError::Disconnected
                &&& exists|work: BackgroundScheduler| #[trigger] spawn.ensures((work,), ())
            },
    {
        match found {
            Some(runtime) => Ok(runtime),
            None => Self::new(spawn),
        }
    }

    /// The scheduler that the calling thread runs in, or else a new one of the
    /// library's own, started through `spawn` as in [`TaskRuntime::new`]. Unless
    /// the result is an entered scheduler, `spawn` has been called.
    pub fn current_or_new<S>(spawn: S) -> (r: Result<TaskRuntime, ProcError>) where
        S: FnOnce(BackgroundScheduler),

        requires
            forall|work: BackgroundScheduler| spawn.requires((work,)),
        ensures
            r matches Ok(runtime) ==> runtime is Entered || runtime.armed(),
            r matches Err(e) ==> e == ProcError::Disconnected,
            r matches Ok(TaskRuntime::Entered(_)) || exists|work: BackgroundScheduler| #[trigger]
                spawn.ensures((work,), ()),
    {
        Self::found_or_new(Self::from_current(), spawn)
    }

    /// The handle onto which tasks are spawned.
    pub fn handle(&self) -> (h: &tokio::runtime::Handle)
        ensures
            *h == self.handle_spec(),
    {
        match self {
            TaskRuntime::Owned { handle, .. } => handle,
            TaskRuntime::Entered(handle) => handle,
        }
    }

    /// Tells an owned scheduler to stop. The signal is sent once: the first call
    /// spends it, and later calls do nothing. A scheduler that has already gone
    /// away counts as stopped. An entered scheduler is left alone.
    pub fn shutdown(&mut self)
        ensures
            *final(self) == old(self).stopped(),
    {
        match self {
            TaskRuntime::Owned { shutdown, .. } => {
                match shutdown.take() {
                    Some(signal) => {
                        let _ = send(&signal, ());
                    },
                    None => {},
                }
            },
            TaskRuntime::Entered(_) => {},
        }
    }
}

} // verus!
