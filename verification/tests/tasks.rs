use circuits::{tokio, BackgroundScheduler, JoinTasks, Proc, ProcError, SelectTasks, TaskRuntime};
use std::future::Future;
use std::sync::{Arc, Mutex};
use std::time::Duration;

/// Drives the scheduler on the calling thread until the future has completed.
fn drive<F: Future>(scheduler: tokio::runtime::Runtime, fut: F) -> F::Output {
    scheduler.block_on(fut)
}

/// Drives the scheduler on the calling thread until the signal arrives.
fn serve(scheduler: tokio::runtime::Runtime, signal: flume::Receiver<()>) {
    let _ = scheduler.block_on(signal.recv_async());
}

/// Runs the background scheduler on a blocking thread of a helper scheduler,
/// which is left running for the rest of the test.
fn on_helper_thread(work: BackgroundScheduler) {
    let helper = tokio::runtime::Builder::new_multi_thread()
        .worker_threads(1)
        .enable_all()
        .build()
        .expect("no helper scheduler");
    helper.spawn_blocking(move || work.run(serve));
    std::mem::forget(helper);
}

#[test]
fn join_2() {
    let results = JoinTasks::new(on_helper_thread)
        .expect("no scheduler")
        .and(async move { 1 })
        .and(async move { 2 })
        .join()
        .expect("could not join");
    assert_eq!(results, vec![1, 2])
}

#[test]
fn join_3() {
    let results = JoinTasks::new(on_helper_thread)
        .expect("no scheduler")
        .and(async move { 1 })
        .and(async move { 2 })
        .and(async move { 3 })
        .join()
        .expect("could not join");
    assert_eq!(results, vec![1, 2, 3])
}

#[test]
fn join_0() {
    let results = JoinTasks::<()>::new(on_helper_thread)
        .expect("no scheduler")
        .join()
        .expect("could not join");
    assert_eq!(results, vec![])
}

#[test]
fn inside_proc() {
    tokio(
        async {
            tokio::task::spawn_blocking(|| {
                let results = JoinTasks::new(on_helper_thread)
                    .expect("no scheduler")
                    .and(async move { 1 })
                    .and(async move { 2 })
                    .join()
                    .expect("could not join");
                assert_eq!(results, vec![1, 2]);
            })
            .await
            .map_err(|_| ProcError::Panicked)
        },
        drive,
    )
    .join()
    .expect("Could not join")
}

#[test]
fn into_future() {
    let scheduler = tokio::runtime::Builder::new_current_thread()
        .enable_all()
        .build()
        .expect("no scheduler");
    scheduler.block_on(async {
        let tasks = JoinTasks::new(on_helper_thread)
            .expect("no scheduler")
            .and(async move { 1 })
            .and(async move { 2 });
        let results = tasks.into_future().await;
        let results = results.into_iter().filter_map(Result::ok).collect::<Vec<_>>();
        assert_eq!(results, vec![1, 2])
    })
}

/// Blocks one of the threads of the scheduler while the others run the tasks.
#[test]
fn inside_multi_threaded_runtime() {
    let scheduler = tokio::runtime::Builder::new_multi_thread()
        .enable_all()
        .build()
        .expect("no scheduler");
    scheduler.block_on(async {
        tokio::time::timeout(Duration::from_secs(5), async {
            JoinTasks::new(on_helper_thread)
                .expect("no scheduler")
                .and(async move { 1 })
                .and(async move { 2 })
                .join()
                .expect("could not join");
        })
        .await
        .expect("timed out");
    })
}

#[test]
fn join_keeps_submission_order_under_reversed_delays() {
    let mut tasks = JoinTasks::new(on_helper_thread).expect("no scheduler");
    for i in 0..8u64 {
        tasks = tasks.and(async move {
            tokio::time::sleep(Duration::from_millis(10 * (8 - i))).await;
            i
        });
    }
    let results = tasks.join().expect("could not join");
    assert_eq!(results, vec![0, 1, 2, 3, 4, 5, 6, 7]);
}

#[test]
fn join_reports_the_first_failure() {
    let mut tasks = JoinTasks::new(on_helper_thread)
        .expect("no scheduler")
        .and(async move { 1 })
        .and(async move {
            if true {
                panic!("second task gives up");
            }
            2
        })
        .and(async move { 3 });
    assert_eq!(tasks.join(), Err(ProcError::Panicked));
    assert_eq!(tasks.join(), Ok(vec![]));
}

#[test]
fn forgotten_tasks_are_not_joined() {
    let mut tasks = JoinTasks::new(on_helper_thread).expect("no scheduler").and(async move {
        tokio::time::sleep(Duration::from_secs(3600)).await;
        1
    });
    tasks.forget();
    assert_eq!(tasks.join(), Ok(vec![]));
    tasks.finalize();
}

#[test]
fn select_returns_the_first_and_keeps_the_rest() {
    let mut tasks = SelectTasks::new(on_helper_thread)
        .expect("no scheduler")
        .or(async move {
            tokio::time::sleep(Duration::from_millis(200)).await;
            "delayed"
        })
        .or(async move { "immediate" });
    assert_eq!(tasks.join(), Ok(Some("immediate")));
    assert_eq!(tasks.join(), Ok(Some("delayed")));
    assert_eq!(tasks.join(), Ok(None));
    tasks.finalize();
}

#[test]
fn select_of_nothing_is_none() {
    let mut tasks = SelectTasks::<u8>::new(on_helper_thread).expect("no scheduler");
    assert_eq!(tasks.join(), Ok(None));
}

#[test]
fn runtime_shuts_down_right_after_start() {
    let helper = tokio::runtime::Builder::new_multi_thread()
        .worker_threads(1)
        .enable_all()
        .build()
        .expect("no helper scheduler");
    let thread = Arc::new(Mutex::new(None));
    let slot = thread.clone();
    let starter = helper.handle().clone();
    let mut runtime = TaskRuntime::new(move |work: BackgroundScheduler| {
        *slot.lock().unwrap() = Some(starter.spawn_blocking(move || work.run(serve)));
    })
    .expect("no scheduler");
    assert!(matches!(runtime, TaskRuntime::Owned { shutdown: Some(_), .. }));
    runtime.shutdown();
    assert!(matches!(runtime, TaskRuntime::Owned { shutdown: None, .. }));
    runtime.shutdown();
    let background = thread.lock().unwrap().take().expect("the thread was not started");
    let ended = helper.block_on(async move {
        tokio::time::timeout(Duration::from_secs(5), background).await
    });
    assert!(matches!(ended, Ok(Ok(true))));
}

#[test]
fn runtime_reports_a_thread_that_never_ran() {
    let r = TaskRuntime::new(|work: BackgroundScheduler| drop(work));
    assert!(matches!(r, Err(ProcError::Disconnected)));
}

#[test]
fn tokio_runs_a_future_once() {
    let mut p = tokio(async { Ok(21 * 2) }, drive);
    assert_eq!(p.join(), Ok(42));
    assert_eq!(p.join(), Err(ProcError::Exhausted));
}

#[test]
fn gather_keeps_values_in_order() {
    let outcomes: Vec<Result<u8, ProcError>> = vec![Ok(3), Ok(1), Ok(2)];
    assert_eq!(circuits::combinators::join_task::gather(outcomes), Ok(vec![3, 1, 2]));
    let none: Vec<Result<u8, ProcError>> = vec![];
    assert_eq!(circuits::combinators::join_task::gather(none), Ok(vec![]));
}

#[test]
fn gather_reports_the_earliest_error() {
    let outcomes: Vec<Result<u8, ProcError>> = vec![
        Ok(3),
        Err(ProcError::Cancelled),
        Ok(2),
        Err(ProcError::Panicked),
    ];
    assert_eq!(circuits::combinators::join_task::gather(outcomes), Err(ProcError::Cancelled));
}

#[test]
fn settle_all_tells_panic_from_cancellation() {
    let helper = tokio::runtime::Builder::new_current_thread()
        .enable_all()
        .build()
        .expect("no helper scheduler");
    let raw = helper.block_on(async {
        let fine = tokio::spawn(async { 1u8 });
        let panicking = tokio::spawn(async {
            if true {
                panic!("gives up");
            }
            2u8
        });
        let endless = tokio::spawn(async {
            tokio::time::sleep(Duration::from_secs(3600)).await;
            3u8
        });
        endless.abort();
        vec![fine.await, panicking.await, endless.await]
    });
    assert_eq!(
        circuits::combinators::join_task::settle_all(raw),
        vec![Ok(1), Err(ProcError::Panicked), Err(ProcError::Cancelled)]
    );
}

#[test]
fn join_after_shutdown_is_disconnected() {
    let helper = tokio::runtime::Builder::new_current_thread()
        .enable_all()
        .build()
        .expect("no helper scheduler");
    let mut tasks = JoinTasks::with_runtime(helper.handle().clone()).and(async { 1u8 });
    drop(helper);
    assert_eq!(tasks.join(), Err(ProcError::Disconnected));
    assert_eq!(tasks.join(), Ok(vec![]));
}

#[test]
fn select_reports_the_failure_of_the_first_task() {
    let mut tasks = SelectTasks::new(on_helper_thread)
        .expect("no scheduler")
        .or(async move {
            tokio::time::sleep(Duration::from_millis(200)).await;
            7u8
        })
        .or(async move {
            if true {
                panic!("gives up");
            }
            8u8
        });
    assert_eq!(tasks.join(), Err(ProcError::Panicked));
    assert_eq!(tasks.join(), Ok(Some(7)));
    tasks.forget();
    assert_eq!(tasks.join(), Ok(None));
}

#[test]
fn select_report_wraps_the_outcome() {
    assert_eq!(SelectTasks::<u8>::report(Ok(4)), Ok(Some(4)));
    assert_eq!(SelectTasks::<u8>::report(Err(ProcError::Cancelled)), Err(ProcError::Cancelled));
}

#[test]
fn runtime_from_report() {
    assert!(matches!(TaskRuntime::owned(None), Err(ProcError::Disconnected)));
    assert!(TaskRuntime::entered(None).is_none());
    assert!(TaskRuntime::from_current().is_none());
    let helper = tokio::runtime::Builder::new_current_thread()
        .build()
        .expect("no helper scheduler");
    let (signal, _kept) = flume::bounded(1);
    let mut owned = TaskRuntime::owned(Some((helper.handle().clone(), signal)))
        .expect("a report makes a runtime");
    let _ = owned.handle();
    owned.shutdown();
    assert!(matches!(owned, TaskRuntime::Owned { shutdown: None, .. }));
    let mut entered =
        TaskRuntime::entered(Some(helper.handle().clone())).expect("a handle makes a runtime");
    entered.shutdown();
    assert!(matches!(entered, TaskRuntime::Entered(_)));
    let inside = helper.block_on(async { TaskRuntime::from_current() });
    assert!(matches!(inside, Some(TaskRuntime::Entered(_))));
}

#[test]
fn run_on_reports_a_scheduler_that_was_not_built() {
    let r = circuits::combinators::run_on(
        Err("no threads left".to_string()),
        async { Ok(1u8) },
        drive,
    );
    assert_eq!(r, Err(ProcError::Failed("no threads left".to_string())));
    let built = tokio::runtime::Builder::new_current_thread().build().map_err(|e| e.to_string());
    assert_eq!(circuits::combinators::run_on(built, async { Ok(1u8) }, drive), Ok(1));
}

#[test]
fn tokio_forgotten_never_runs() {
    let mut p = tokio(async { Ok(1u8) }, drive);
    p.forget();
    assert_eq!(p.join(), Err(ProcError::Exhausted));
    p.finalize();
}

#[test]
fn failure_of_tells_panic_from_cancellation() {
    assert_eq!(circuits::runners::scheduler::failure_of(true), ProcError::Panicked);
    assert_eq!(circuits::runners::scheduler::failure_of(false), ProcError::Cancelled);
}

#[test]
fn found_scheduler_is_used_and_the_starter_is_not() {
    let helper = tokio::runtime::Builder::new_current_thread()
        .build()
        .expect("no helper scheduler");
    let found = TaskRuntime::entered(Some(helper.handle().clone()));
    let r = TaskRuntime::found_or_new(found, |_work: BackgroundScheduler| {
        panic!("a scheduler was found, none must be started")
    });
    assert!(matches!(r, Ok(TaskRuntime::Entered(_))));
}

#[test]
fn current_or_new_starts_a_scheduler_only_outside_one() {
    let starts = Arc::new(Mutex::new(0));
    let seen = starts.clone();
    let outside = TaskRuntime::current_or_new(move |work: BackgroundScheduler| {
        *seen.lock().unwrap() += 1;
        on_helper_thread(work)
    })
    .expect("no scheduler");
    assert!(matches!(outside, TaskRuntime::Owned { shutdown: Some(_), .. }));
    assert_eq!(*starts.lock().unwrap(), 1);

    let helper = tokio::runtime::Builder::new_current_thread()
        .build()
        .expect("no helper scheduler");
    let seen = starts.clone();
    let inside = helper.block_on(async move {
        TaskRuntime::current_or_new(move |work: BackgroundScheduler| {
            *seen.lock().unwrap() += 1;
            on_helper_thread(work)
        })
    });
    assert!(matches!(inside, Ok(TaskRuntime::Entered(_))));
    assert_eq!(*starts.lock().unwrap(), 1);

    let never = TaskRuntime::current_or_new(|work: BackgroundScheduler| drop(work));
    assert!(matches!(never, Err(ProcError::Disconnected)));
}

#[test]
fn background_scheduler_serves_once_its_report_is_out() {
    let served = Arc::new(Mutex::new(0));
    let seen = served.clone();
    let reported = TaskRuntime::new(move |work: BackgroundScheduler| {
        let ran = work.run(|scheduler, signal| {
            *seen.lock().unwrap() += 1;
            drop((scheduler, signal));
        });
        assert!(ran);
    });
    assert!(matches!(reported, Ok(TaskRuntime::Owned { shutdown: Some(_), .. })));
    assert_eq!(*served.lock().unwrap(), 1);
}

#[test]
fn select_hands_over_every_task_once() {
    let mut tasks = SelectTasks::new(on_helper_thread).expect("no scheduler");
    for i in 0..5u64 {
        tasks = tasks.or(async move {
            tokio::time::sleep(Duration::from_millis(20 * (5 - i))).await;
            i
        });
    }
    let mut seen = Vec::new();
    for _ in 0..5 {
        seen.push(tasks.join().expect("could not join").expect("a task was lost"));
    }
    assert_eq!(seen, vec![4, 3, 2, 1, 0]);
    assert_eq!(tasks.join(), Ok(None));
}

#[test]
fn keep_stores_what_arrived() {
    let helper = tokio::runtime::Builder::new_current_thread()
        .enable_all()
        .build()
        .expect("no helper scheduler");
    let mut tasks = SelectTasks::<u8>::with_runtime(helper.handle().clone());
    let (failed, other) = helper.block_on(async {
        let failed = tokio::spawn(async {
            if true {
                panic!("gives up");
            }
            1u8
        })
        .await;
        (failed, tokio::spawn(async { 2u8 }))
    });
    assert_eq!(tasks.keep(Some((failed, 0, vec![other]))), Err(ProcError::Panicked));
    let second = {
        let handle = helper.handle().clone();
        helper.block_on(async move {
            tokio::task::spawn_blocking(move || {
                let r = tasks.join();
                drop(handle);
                (r, tasks)
            })
            .await
            .expect("the join panicked")
        })
    };
    let (r, mut tasks) = second;
    assert_eq!(r, Ok(Some(2)));
    assert_eq!(tasks.keep(Some((Ok(9), 3, vec![]))), Ok(Some(9)));
    let held = helper.block_on(async { tokio::spawn(async { 5u8 }) });
    assert_eq!(tasks.keep(Some((Ok(1), 0, vec![held]))), Ok(Some(1)));
    assert_eq!(tasks.keep(None), Err(ProcError::Disconnected));
    assert_eq!(tasks.join(), Ok(None));
}
