use circuits::{
    tokio, with_worker_pool, Collect, Dispatch, Pipeline, Proc, ProcError, ThreadExit, Worker,
};
use std::future::Future;
use std::time::Duration;

async fn dispatcher<I, O>(
    inbound: flume::Receiver<I>,
    announce: flume::Sender<flume::Receiver<O>>,
    dispatch: flume::Sender<(I, flume::Sender<O>)>,
) {
    let mut step = Dispatch::start();
    loop {
        step = match step {
            Dispatch::Receive => Dispatch::received(inbound.recv_async().await.ok()),
            Dispatch::Announce { receiver, item, sender } => {
                Dispatch::announced(announce.send_async(receiver).await.is_ok(), item, sender)
            }
            Dispatch::Hand { item, sender } => {
                Dispatch::handed(dispatch.send_async((item, sender)).await.is_ok())
            }
            Dispatch::Stop => break,
        }
    }
}

async fn collector<O>(collect: flume::Receiver<flume::Receiver<O>>, outbound: flume::Sender<O>) {
    let mut step = Collect::start();
    loop {
        step = match step {
            Collect::Next => Collect::collected(collect.recv_async().await.ok()),
            Collect::Await(receiver) => Collect::responded(receiver.recv_async().await.ok()),
            Collect::Emit(output) => Collect::emitted(outbound.send_async(output).await.is_ok()),
            Collect::Stop => break,
        }
    }
}

fn drive<F: Future>(scheduler: tokio::runtime::Runtime, fut: F) -> F::Output {
    scheduler.block_on(fut)
}

fn as_tasks<I: Send + 'static, O: Send + 'static>(
    ends: Pipeline<I, O>,
) -> impl Proc<Output = ()> {
    tokio(
        async move {
            let Pipeline { inbound, announce, dispatch, collect, outbound } = ends;
            let dispatch = tokio::spawn(dispatcher(inbound, announce, dispatch));
            let collect = tokio::spawn(collector(collect, outbound));
            let dispatched = dispatch.await.map_err(|_| ProcError::Panicked);
            let collected = collect.await.map_err(|_| ProcError::Panicked);
            circuits::combinators::combine_and(dispatched, collected)
        },
        drive,
    )
}

fn helper() -> tokio::runtime::Runtime {
    tokio::runtime::Builder::new_multi_thread()
        .worker_threads(2)
        .enable_all()
        .build()
        .expect("no helper scheduler")
}

fn pause(millis: u64) {
    tokio::runtime::Handle::current().block_on(tokio::time::sleep(Duration::from_millis(millis)));
}

fn run_pool<F>(workers: usize, capacity: usize, inputs: Vec<u64>, work_fn: F) -> Vec<u64>
where
    F: Fn(usize, flume::Receiver<(u64, flume::Sender<u64>)>) + Copy + Send + 'static,
{
    let threads = helper();
    let (in_s, in_r) = flume::unbounded();
    let (out_s, out_r) = flume::unbounded();
    let handle = threads.handle().clone();
    let mut pool = with_worker_pool(
        workers,
        capacity,
        in_r,
        out_s,
        work_fn,
        as_tasks,
        move |worker: Worker<u64, u64, F>| {
            let handle = handle.clone();
            let thread = handle.spawn_blocking(move || worker.run());
            move || handle.block_on(thread).unwrap_or(ThreadExit::Panicked)
        },
    );
    assert_eq!(pool.workers.len(), workers);
    for input in inputs {
        in_s.send(input).expect("the pool does not take items");
    }
    drop(in_s);
    assert_eq!(pool.join(), Ok(()));
    out_r.try_iter().collect()
}

#[test]
fn pool_keeps_order_with_inverted_delays() {
    let outputs = run_pool(5, 1, vec![1, 2, 3, 4, 5], |_, work| {
        while let Ok((item, reply)) = work.recv() {
            pause((6 - item) * 30);
            let _ = reply.send(item * 2);
        }
    });
    assert_eq!(outputs, vec![2, 4, 6, 8, 10]);
}

#[test]
fn pool_keeps_order_of_100_items_on_4_workers() {
    let inputs: Vec<u64> = (0..100).collect();
    let outputs = run_pool(4, 1, inputs.clone(), |_, work| {
        while let Ok((item, reply)) = work.recv() {
            pause((item * 7919 + 13) % 7);
            let _ = reply.send(item);
        }
    });
    assert_eq!(outputs, inputs);
}

#[test]
fn pool_skips_items_that_a_worker_lets_go() {
    let outputs = run_pool(2, 3, vec![1, 2, 3, 4, 5, 6], |_, work| {
        while let Ok((item, reply)) = work.recv() {
            if item % 2 == 0 {
                let _ = reply.send(item * 10);
            }
        }
    });
    assert_eq!(outputs, vec![20, 40, 60]);
}

#[test]
fn pool_hands_each_worker_its_index() {
    let outputs = run_pool(3, 1, vec![0, 0, 0, 0, 0, 0, 0, 0], |index, work| {
        while let Ok((_, reply)) = work.recv() {
            let _ = reply.send(index as u64);
        }
    });
    assert_eq!(outputs.len(), 8);
    assert!(outputs.iter().all(|index| *index < 3));
}

#[test]
fn dispatcher_announces_before_it_hands_over() {
    assert!(matches!(Dispatch::<u8, u8>::start(), Dispatch::Receive));
    let (kept, sender) = match Dispatch::<u8, u8>::received(Some(7)) {
        Dispatch::Announce { receiver, item, sender } => {
            assert_eq!(item, 7);
            (receiver, sender)
        }
        _ => panic!("an item must be announced first"),
    };
    match Dispatch::announced(true, 7u8, sender) {
        Dispatch::Hand { item, sender } => {
            assert_eq!(item, 7);
            sender.send(9u8).expect("the response channel is closed");
            assert_eq!(kept.recv(), Ok(9));
        }
        _ => panic!("an announced item must be handed over"),
    }
    assert!(matches!(Dispatch::<u8, u8>::handed(true), Dispatch::Receive));
}

#[test]
fn dispatcher_stops_on_a_closed_channel() {
    assert!(matches!(Dispatch::<u8, u8>::received(None), Dispatch::Stop));
    let (sender, _receiver) = flume::bounded::<u8>(1);
    assert!(matches!(Dispatch::announced(false, 1u8, sender), Dispatch::Stop));
    assert!(matches!(Dispatch::<u8, u8>::handed(false), Dispatch::Stop));
}

#[test]
fn collector_follows_the_announcements() {
    assert!(matches!(Collect::<u8>::start(), Collect::Next));
    let (_sender, receiver) = flume::bounded::<u8>(1);
    assert!(matches!(Collect::collected(Some(receiver)), Collect::Await(_)));
    assert!(matches!(Collect::<u8>::collected(None), Collect::Stop));
    assert!(matches!(Collect::responded(Some(3u8)), Collect::Emit(3)));
    assert!(matches!(Collect::<u8>::responded(None), Collect::Next));
    assert!(matches!(Collect::<u8>::emitted(true), Collect::Next));
    assert!(matches!(Collect::<u8>::emitted(false), Collect::Stop));
}
