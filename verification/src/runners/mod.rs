//! The substrates that run work: native threads, a task scheduler, and the
//! worker pool that combines both.

pub mod bridge;
pub mod pool;
pub mod runtime;
pub mod scheduler;
pub mod thread;

pub use crate::runners::pool::{with_worker_pool, Collect, Dispatch, Pipeline, Worker, WorkerPool};
pub use crate::runners::runtime::{BackgroundScheduler, TaskRuntime};
pub use crate::runners::thread::{NativeThread, ThreadExit};
