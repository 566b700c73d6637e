//! The task scheduler, as far as the library uses it.
//!
//! The scheduler is `tokio`'s; `futures` supplies the combinators that wait for
//! several tasks at once. What Verus knows of them is stated here and nowhere
//! proved. How a task ends depends on the task and on the scheduler, so the
//! contracts speak only of what holds however it ends. Where a contract writes
//! `@` behind a future or behind the handle of a task, it means the value that
//! the future completes with, or that waiting for the task yields.
//!
//! Nothing here drives a scheduler on the calling thread: that call panics on
//! a thread which is itself running a task, which no contract can tell from
//! its arguments, so the caller passes it in where it is needed.

use crate::error::ProcError;
use vstd::future::FutureAdditionalSpecFns;
use vstd::prelude::*;

verus! {

/// `tokio::runtime::Handle`, a reference to a scheduler onto which tasks can be
/// spawned.
#[verifier::external_type_specification]
#[verifier::external_body]
pub struct ExHandle(tokio::runtime::Handle);

/// `tokio::runtime::Runtime`, a scheduler; dropping it shuts the scheduler down.
#[verifier::external_type_specification]
#[verifier::external_body]
pub struct ExRuntime(tokio::runtime::Runtime);

/// `tokio::task::JoinHandle`, the handle of a spawned task.
#[verifier::external_type_specification]
#[verifier::external_body]
#[verifier::reject_recursive_types(T)]
pub struct ExJoinHandle<T>(tokio::task::JoinHandle<T>);

/// `tokio::task::JoinError`, the reason a task did not run to its end.
#[verifier::external_type_specification]
#[verifier::external_body]
pub struct ExJoinError(tokio::task::JoinError);

/// `futures::future::JoinAll`, the future that waits for every future of a list.
#[verifier::external_type_specification]
#[verifier::external_body]
#[verifier::reject_recursive_types(F)]
pub struct ExJoinAll<F: core::future::Future>(futures::future::JoinAll<F>);

/// `futures::future::SelectAll`, the future that waits for the first of a list
/// of futures.
#[verifier::external_type_specification]
#[verifier::external_body]
#[verifier::reject_recursive_types(F)]
pub struct ExSelectAll<F>(futures::future::SelectAll<F>);

/// Calls `JoinError::is_panic`, which tells a task that panicked from one that
/// was cancelled. Nothing is claimed of the answer.
#[verifier::external_body]
pub(crate) fn is_panic(e: &tokio::task::JoinError) -> (b: bool) {
    e.is_panic()
}

/// Calls `JoinHandle::abort`, which asks the scheduler to cancel the task. It
/// returns at once and reports nothing.
#[verifier::external_body]
pub(crate) fn abort<T>(task: &tokio::task::JoinHandle<T>) {
    task.abort()
}

/// Calls `Handle::try_current`: the scheduler in whose context the calling
/// thread runs, if it runs in one.
#[verifier::external_body]
pub(crate) fn try_current() -> (handle: Option<tokio::runtime::Handle>) {
    tokio::runtime::Handle::try_current().ok()
}

/// Calls `Handle::spawn`: hands `fut` to the scheduler, which runs it as a task
/// of its own, and returns the task's handle. A task that runs to its end ends
/// with the value that its future completed with.
#[verifier::external_body]
pub(crate) fn spawn<F>(handle: &tokio::runtime::Handle, fut: F) -> (task: tokio::task::JoinHandle<
    F::Output,
>) where F: core::future::Future + Send + 'static, F::Output: Send + 'static
    ensures
        task@ matches Ok(value) ==> value == fut@,
{
    handle.spawn(fut)
}

/// Calls `Builder::new_current_thread`, `enable_all` and `build`: a new
/// scheduler that runs its tasks one at a time on the thread that drives it. An
/// error is what the operating system refused, as text.
#[verifier::external_body]
pub(crate) fn build_current_thread() -> (built: Result<tokio::runtime::Runtime, String>) {
    tokio::runtime::Builder::new_current_thread().enable_all().build().map_err(|e| e.to_string())
}

/// Calls `Runtime::handle` and clones the handle it returns.
#[verifier::external_body]
pub(crate) fn handle_of(runtime: &tokio::runtime::Runtime) -> (handle: tokio::runtime::Handle) {
    runtime.handle().clone()
}

/// Calls `futures::future::join_all` on the handles: the future that completes
/// once every task has ended, with the outcome of each task in the place that
/// the task's handle has in `tasks`.
#[verifier::external_body]
pub(crate) fn join_all<T>(tasks: Vec<tokio::task::JoinHandle<T>>) -> (all:
    futures::future::JoinAll<tokio::task::JoinHandle<T>>)
    ensures
        all@@.len() == tasks@.len(),
        forall|i: int| 0 <= i < tasks@.len() ==> all@@[i] == (#[trigger] tasks@[i])@,
{
    futures::future::join_all(tasks)
}

/// Calls `futures::future::select_all` on the handles: the future that
/// completes as soon as one task has ended, with the outcome of that task, the
/// index that the task's handle had in `tasks`, and the other handles in no
/// particular order. `select_all` panics on an empty list, which is left out.
#[verifier::external_body]
pub(crate) fn select_all<T>(tasks: Vec<tokio::task::JoinHandle<T>>) -> (first:
    futures::future::SelectAll<tokio::task::JoinHandle<T>>)
    requires
        tasks@.len() > 0,
    ensures
        first@.1 < tasks@.len(),
        first@.0 == tasks@[first@.1 as int]@,
        first@.2@.to_multiset() == tasks@.remove(first@.1 as int).to_multiset(),
{
    futures::future::select_all(tasks)
}

/// The error for a task that did not run to its end: `Panicked` if the task
/// panicked, and `Cancelled` if it did not, since a task that neither ran to its
/// end nor panicked was cancelled.
pub fn failure_of(panicked: bool) -> (failure: ProcError)
    ensures
        failure == if panicked {
            ProcError::Panicked
        } else {
            ProcError::Cancelled
        },
{
    if panicked {
        ProcError::Panicked
    } else {
        ProcError::Cancelled
    }
}

/// The error that stands for the way a task failed to run to its end, as the
/// scheduler's own account of it tells.
pub fn task_failure(e: &tokio::task::JoinError) -> (failure: ProcError)
    ensures
        failure == ProcError::Panicked || failure == ProcError::Cancelled,
{
    failure_of(is_panic(e))
}

} // verus!
