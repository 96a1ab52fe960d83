//! Real runtimes of both flavors.

use std::sync::atomic::{AtomicU64, Ordering};
use std::sync::mpsc::channel;
use std::sync::{Arc, Mutex};

use pingora_runtime::tokio_rt::apply_blocking_opts;
use pingora_runtime::worker_stack::{base, here, mark_base, size, used_here, WorkerStack};
use pingora_runtime::{
    current_handle, BlockingPoolOpts, BuildError, CurrentHandleError, Dial9RuntimeOpts, Duration,
    HandleError, NoStealRuntime, Registry, Runtime, RuntimeBuilder, RuntimeOpts, ShutdownStep,
    Tuning, Worker, DEFAULT_THREAD_STACK_SIZE,
};
use tokio::runtime::{Builder, RuntimeFlavor};
use tokio::task::JoinHandle;
use tokio::time::sleep;

type Rt = Runtime<JoinHandle<()>, &'static str>;

fn secs(n: u64) -> std::time::Duration {
    std::time::Duration::from_secs(n)
}

fn unmarked(_size: usize) {}

fn untuned(builder: Builder, _tuning: Tuning) -> Builder {
    builder
}

fn no_dial9(
    _builder: Builder,
    _name: &str,
    _opts: &Dial9RuntimeOpts,
) -> Result<(tokio::runtime::Runtime, &'static str), ()> {
    panic!("telemetry is not asked for")
}

/// Threads for workers, and the slots and numbers of those threads.
struct Host {
    threads: tokio::runtime::Runtime,
    registry: Arc<Registry>,
    numbers: Arc<AtomicU64>,
    stacks: Arc<Mutex<Vec<WorkerStack>>>,
    names: Arc<Mutex<Vec<(String, usize)>>>,
}

impl Host {
    fn new() -> Host {
        Host {
            threads: Builder::new_current_thread()
                .thread_stack_size(16 * 1024 * 1024)
                .build()
                .unwrap(),
            registry: Arc::new(Registry::new()),
            numbers: Arc::new(AtomicU64::new(1)),
            stacks: Arc::new(Mutex::new(Vec::new())),
            names: Arc::new(Mutex::new(Vec::new())),
        }
    }

    fn spawn(&self, worker: Worker) -> JoinHandle<()> {
        let registry = self.registry.clone();
        let number = self.numbers.fetch_add(1, Ordering::SeqCst);
        let stacks = self.stacks.clone();
        self.names
            .lock()
            .unwrap()
            .push((worker.name.clone(), worker.stack_size));
        self.threads.handle().spawn_blocking(move || {
            let mark = |bytes: usize| {
                let mut stack = WorkerStack::unmarked();
                mark_base(&mut stack, bytes);
                stacks.lock().unwrap().push(stack);
            };
            worker.enter(mark, &registry, number);
            if let Ok(timeout) = worker.runtime.block_on(worker.shutdown) {
                worker.runtime.shutdown_timeout(std::time::Duration::new(
                    timeout.as_secs(),
                    timeout.subsec_nanos(),
                ));
            }
        })
    }

    /// Takes the steps of a shutdown, and returns how many of each kind there were.
    fn take(&self, steps: Vec<ShutdownStep<JoinHandle<()>, &'static str>>) -> (usize, usize) {
        let mut told = 0;
        let mut waited = 0;
        for step in steps {
            match step {
                ShutdownStep::DropGuard(_) => {}
                ShutdownStep::ShutdownRuntime(runtime, timeout) => {
                    runtime.shutdown_timeout(secs(timeout.as_secs()))
                }
                ShutdownStep::SendTimeout(tx, timeout) => {
                    assert_eq!(waited, 0, "all are told before any is waited for");
                    let _ = tx.send(timeout);
                    told += 1;
                }
                ShutdownStep::Join(thread) => {
                    let _ = self.threads.block_on(thread);
                    waited += 1;
                }
            }
        }
        (told, waited)
    }
}

#[test]
fn test_steal_runtime() {
    let host = Host::new();
    let threads = 2;
    let rt = Rt::new_steal(threads, "test", unmarked, &untuned).unwrap();
    let handle = rt
        .get_handle(unmarked, &untuned, &|worker| host.spawn(worker))
        .unwrap();
    let registry = host.registry.clone();
    let ret = handle.block_on(async {
        sleep(secs(1)).await;
        let handle = current_handle(&registry, 0).unwrap();
        let join = handle.spawn(async {
            sleep(secs(1)).await;
        });
        join.await.unwrap();
        1
    });

    assert_eq!(handle.metrics().num_workers(), threads);
    assert_eq!(ret, 1);
}

#[test]
fn test_no_steal_runtime() {
    let host = Host::new();
    let rt = Rt::new_no_steal(2, "test");
    let handle = rt
        .get_handle(unmarked, &untuned, &|worker| host.spawn(worker))
        .unwrap();
    let registry = host.registry.clone();
    let ret = handle.block_on(async {
        sleep(secs(1)).await;
        let handle = current_handle(&registry, 0).unwrap();
        let join = handle.spawn(async {
            sleep(secs(1)).await;
        });
        join.await.unwrap();
        1
    });

    assert_eq!(ret, 1);
    drop(rt);
}

#[test]
fn test_no_steal_shutdown() {
    let host = Host::new();
    let rt = Rt::new_no_steal(2, "test");
    let handle = rt
        .get_handle(unmarked, &untuned, &|worker| host.spawn(worker))
        .unwrap();
    let registry = host.registry.clone();
    let ret = handle.block_on(async {
        sleep(secs(1)).await;
        let handle = current_handle(&registry, 0).unwrap();
        let join = handle.spawn(async {
            sleep(secs(1)).await;
        });
        join.await.unwrap();
        1
    });
    assert_eq!(ret, 1);

    assert_eq!(host.take(rt.shutdown_timeout(Duration::from_secs(1))), (2, 2));
}

/// A place for the stack of a worker to be recorded in by a hook.
fn recorded() -> &'static Mutex<WorkerStack> {
    Box::leak(Box::new(Mutex::new(WorkerStack::unmarked())))
}

#[test]
fn a_work_stealing_worker_knows_where_its_stack_starts() {
    let record = recorded();
    let mark = move |bytes: usize| mark_base(&mut record.lock().unwrap(), bytes);
    let rt: Rt = RuntimeBuilder::new(1, "stack-probe")
        .thread_stack_size(4 * 1024 * 1024)
        .build(mark, &untuned, &no_dial9)
        .unwrap();
    let host = Host::new();
    let (tx, rx) = channel();
    rt.get_handle(unmarked, &untuned, &|worker| host.spawn(worker))
        .unwrap()
        .spawn(async move {
            let stack = *record.lock().unwrap();
            tx.send((base(&stack), size(&stack))).ok();
        });
    let (base, size) = rx
        .recv_timeout(secs(10))
        .expect("the worker thread runs the probe");
    assert_ne!(base, 0, "a runtime worker has to record its stack base");
    assert_eq!(
        size,
        4 * 1024 * 1024,
        "the worker reports the stack it was configured with"
    );
}

#[test]
fn a_no_steal_worker_knows_where_its_stack_starts() {
    let host = Host::new();
    let rt: Rt = RuntimeBuilder::new(1, "stack-probe-no-steal")
        .work_steal(false)
        .thread_stack_size(4 * 1024 * 1024)
        .build(unmarked, &untuned, &no_dial9)
        .unwrap();
    let (tx, rx) = channel();
    let stacks = host.stacks.clone();
    rt.get_handle(unmarked, &untuned, &|worker| host.spawn(worker))
        .unwrap()
        .spawn(async move {
            let stack = stacks.lock().unwrap()[0];
            tx.send((base(&stack), size(&stack))).ok();
        });
    let (base, size) = rx
        .recv_timeout(secs(10))
        .expect("the worker thread runs the probe");
    assert_ne!(base, 0, "a no-steal worker has to record its stack base");
    assert_eq!(size, 4 * 1024 * 1024);
    drop(rt);
}

#[test]
fn a_blocking_thread_of_a_no_steal_worker_knows_where_its_stack_starts() {
    let host = Host::new();
    let record = recorded();
    let mark = move |bytes: usize| mark_base(&mut record.lock().unwrap(), bytes);
    let rt: Rt = RuntimeBuilder::new(1, "blocking-probe")
        .work_steal(false)
        .thread_stack_size(4 * 1024 * 1024)
        .build(unmarked, &untuned, &no_dial9)
        .unwrap();
    let handle = rt
        .get_handle(mark, &untuned, &|worker| host.spawn(worker))
        .unwrap();
    assert_eq!(base(&record.lock().unwrap()), 0);
    let (tx, rx) = channel();
    handle.spawn_blocking(move || {
        let stack = *record.lock().unwrap();
        tx.send((base(&stack), size(&stack), used_here(&stack, here())))
            .ok();
    });
    let (base, size, used) = rx
        .recv_timeout(secs(10))
        .expect("the blocking thread runs the probe");
    assert_ne!(base, 0, "a blocking thread has to record its stack base");
    assert_eq!(size, 4 * 1024 * 1024);
    assert!(used.unwrap() < 4 * 1024 * 1024, "the base is on this stack");
    assert_eq!(host.take(rt.shutdown_timeout(Duration::from_secs(1))), (1, 1));
}

/// How much stack the caller has left to prove it can reach.
///
/// Recurses with a frame large enough to consume `target` bytes quickly,
/// touching every frame it makes, and returns the deepest measurement that was
/// reported. A runtime whose threads did not get the configured stack overflows
/// here instead of returning.
fn burn_stack_to(stack: &WorkerStack, target: usize) -> usize {
    let mut frame = [0u8; 64 * 1024];
    // Touch it, so the pages are faulted in rather than merely reserved.
    frame[0] = 1;
    frame[frame.len() - 1] = 1;
    std::hint::black_box(&frame);
    let used = used_here(stack, here()).unwrap_or(0);
    if used >= target {
        used
    } else {
        burn_stack_to(stack, target)
    }
}

#[test]
fn a_worker_gets_the_stack_it_was_configured_with() {
    let tokio_default_stack = 2 * 1024 * 1024;
    let record = recorded();
    let mark = move |bytes: usize| mark_base(&mut record.lock().unwrap(), bytes);
    let rt: Rt = RuntimeBuilder::new(1, "stack-burn")
        .thread_stack_size(4 * 1024 * 1024)
        .build(mark, &untuned, &no_dial9)
        .unwrap();
    let host = Host::new();
    let (tx, rx) = channel();
    rt.get_handle(unmarked, &untuned, &|worker| host.spawn(worker))
        .unwrap()
        .spawn(async move {
            let stack = *record.lock().unwrap();
            tx.send(burn_stack_to(&stack, tokio_default_stack + 256 * 1024))
                .ok();
        });
    let used = rx
        .recv_timeout(secs(30))
        .expect("the worker thread survives past tokio's default stack");
    assert!(
        used > tokio_default_stack,
        "the worker only reached {used} bytes, which fits tokio's default stack"
    );
}

#[test]
fn a_thread_that_never_joined_a_no_steal_runtime_is_not_handed_a_dead_one() {
    let host = Host::new();
    let recycled = Rt::new_no_steal(2, "recycled");
    // Touch the handle so the pools, and the registrations, are built.
    let dead = recycled
        .get_handle(unmarked, &untuned, &|worker| host.spawn(worker))
        .unwrap()
        .id();
    // Waits for the worker threads, whose slots are left behind.
    assert_eq!(
        host.take(recycled.shutdown_timeout(Duration::from_secs(5))),
        (2, 2)
    );

    let live = Rt::new_steal(2, "live", unmarked, &untuned).unwrap();
    let mut inherited = 0;
    for attempt in 0..16 {
        let handle = live
            .get_handle(unmarked, &untuned, &|worker| host.spawn(worker))
            .unwrap()
            .clone();
        let registry = host.registry.clone();
        let number = host.numbers.fetch_add(1, Ordering::SeqCst);
        let probe = host.threads.handle().spawn_blocking(move || {
            let left_behind = match registry.slot() {
                Some(slot) => slot.registered.is_some(),
                None => false,
            };
            let seven = handle.block_on(async {
                let current = current_handle(&registry, number).unwrap();
                assert_eq!(current.id(), handle.id());
                current.spawn(async { 7 }).await.unwrap_or_else(|e| {
                    panic!("attempt {attempt} spawned onto a dead runtime: {e}")
                })
            });
            (left_behind, seven)
        });
        let (left_behind, seven) = host
            .threads
            .block_on(probe)
            .expect("the probe thread runs to completion");
        assert_eq!(seven, 7);
        if left_behind {
            inherited += 1;
        }
    }
    assert_ne!(live_id(&live, &host), dead);
    assert!(inherited > 0, "some probe ran in a slot left behind");
}

fn live_id(rt: &Rt, host: &Host) -> tokio::runtime::Id {
    rt.get_handle(unmarked, &untuned, &|worker| host.spawn(worker))
        .unwrap()
        .id()
}

#[test]
fn a_worker_is_handed_its_own_pool() {
    let host = Host::new();
    let rt: NoStealRuntime<JoinHandle<()>> = NoStealRuntime::new(
        3,
        "pool",
        BlockingPoolOpts::default(),
        RuntimeOpts::default(),
    );
    let spawn = |worker| host.spawn(worker);
    let mut ids = Vec::new();
    for index in 0..rt.threads() {
        ids.push(rt.get_runtime_at(index, unmarked, &untuned, &spawn).unwrap().id());
    }
    assert_eq!(ids.len(), 3);
    assert!(ids[0] != ids[1] && ids[0] != ids[2] && ids[1] != ids[2]);
    // Worker threads have the numbers from 1 on, in the order of the pool or not.
    let (tx, rx) = channel();
    let registry = host.registry.clone();
    rt.get_runtime_at(1, unmarked, &untuned, &spawn)
        .unwrap()
        .spawn(async move {
            let slot = registry.slot().expect("a worker has a slot");
            let number = slot.registered.expect("a worker has registered").owner;
            tx.send(current_handle(&registry, number).map(|h| h.id()))
                .ok();
        });
    let id = rx.recv_timeout(secs(10)).unwrap().unwrap();
    assert!(ids.contains(&id));
    let (told, waited) = host.take(rt.shutdown_timeout(Duration::from_secs(1)));
    assert_eq!((told, waited), (3, 3));
}

#[test]
fn workers_are_started_once_and_named() {
    let host = Host::new();
    let rt: NoStealRuntime<JoinHandle<()>> = NoStealRuntime::new(
        2,
        "named",
        BlockingPoolOpts::default(),
        RuntimeOpts {
            thread_stack_size: Some(0),
            ..RuntimeOpts::default()
        },
    );
    assert_eq!(rt.threads(), 2);
    assert!(host.names.lock().unwrap().is_empty());
    let spawn = |worker| host.spawn(worker);
    let first = rt.get_runtime_at(1, unmarked, &untuned, &spawn).unwrap().id();
    let second = rt.get_runtime_at(1, unmarked, &untuned, &spawn).unwrap().id();
    assert_eq!(first, second);
    assert_eq!(
        *host.names.lock().unwrap(),
        vec![
            ("named".to_string(), DEFAULT_THREAD_STACK_SIZE),
            ("named".to_string(), DEFAULT_THREAD_STACK_SIZE)
        ]
    );
    assert!(matches!(
        rt.get_runtime_at(2, unmarked, &untuned, &spawn),
        Err(HandleError::NoSuchWorker)
    ));
    let random = rt.get_runtime(unmarked, &untuned, &spawn).unwrap().id();
    let zeroth = rt.get_runtime_at(0, unmarked, &untuned, &spawn).unwrap().id();
    assert!(random == zeroth || random == first);
    host.take(rt.shutdown_timeout(Duration::from_secs(1)));
}

#[test]
fn workers_that_were_never_started_need_no_shutdown() {
    let rt = Rt::new_no_steal(2, "idle");
    assert!(rt.shutdown_timeout(Duration::from_secs(1)).is_empty());
}

#[test]
fn a_guard_is_dropped_before_its_runtime_is_shut_down() {
    let started = |mut builder: Builder, name: &str, opts: &Dial9RuntimeOpts| {
        assert_eq!(name, "traced");
        assert_eq!(opts.max_file_size, 5);
        Ok::<_, ()>((builder.build().unwrap(), "guard"))
    };
    let rt: Rt = RuntimeBuilder::new(1, "traced")
        .runtime_opts(RuntimeOpts {
            dial9: Some(Dial9RuntimeOpts::new("trace").with_max_file_size(5)),
            ..RuntimeOpts::default()
        })
        .build(unmarked, &untuned, &started)
        .unwrap();
    let steps = rt.shutdown_timeout(Duration::from_secs(3));
    assert_eq!(steps.len(), 2);
    assert!(matches!(steps[0], ShutdownStep::DropGuard("guard")));
    match &steps[1] {
        ShutdownStep::ShutdownRuntime(runtime, timeout) => {
            assert_eq!(*timeout, Duration::from_secs(3));
            assert_eq!(runtime.metrics().num_workers(), 1);
        }
        _ => panic!("the runtime is shut down last"),
    }
}

#[test]
fn a_runtime_that_cannot_be_traced_is_built_without_telemetry() {
    let failing = |_: Builder, _: &str, _: &Dial9RuntimeOpts| Err("no disk");
    let rt: Rt = RuntimeBuilder::new(3, "untraced")
        .runtime_opts(RuntimeOpts {
            dial9: Some(Dial9RuntimeOpts::new("trace")),
            ..RuntimeOpts::default()
        })
        .build(unmarked, &untuned, &failing)
        .unwrap();
    match &rt {
        Runtime::Steal {
            runtime,
            dial9_guard,
        } => {
            assert!(dial9_guard.is_none());
            assert_eq!(runtime.metrics().num_workers(), 3);
        }
        Runtime::NoSteal(_) => panic!("work stealing is on"),
    }
    assert_eq!(rt.shutdown_timeout(Duration::from_secs(1)).len(), 1);
}

#[test]
fn a_tokio_builder_gets_what_is_asked_for() {
    let builder = RuntimeBuilder::new(5, "workers")
        .thread_stack_size(1_234_567)
        .blocking_pool_opts(BlockingPoolOpts {
            max_threads: Some(64),
            thread_keep_alive: Some(Duration::new(30, 5)),
        })
        .build_work_stealing_tokio_builder(unmarked, &untuned);
    let shown = format!("{builder:?}");
    assert!(shown.contains("worker_threads: Some(5)"), "{shown}");
    assert!(shown.contains("max_blocking_threads: 64"), "{shown}");
    assert!(shown.contains("thread_stack_size: Some(1234567)"), "{shown}");
    assert!(shown.contains("after_start: Some"), "{shown}");

    let mut builder = Builder::new_current_thread();
    apply_blocking_opts(&mut builder, &BlockingPoolOpts::default());
    let shown = format!("{builder:?}");
    assert!(shown.contains("max_blocking_threads: 512"), "{shown}");
}

#[test]
fn tuning_is_applied_to_every_builder() {
    let host = Host::new();
    let seen = Mutex::new(Vec::new());
    let tune = |builder: Builder, tuning: Tuning| {
        seen.lock().unwrap().push(tuning);
        builder
    };
    let opts = RuntimeOpts {
        enable_alt_timer: true,
        ..RuntimeOpts::default()
    };
    let rt: Rt = RuntimeBuilder::new(1, "tuned")
        .runtime_opts(opts.clone())
        .build(unmarked, &tune, &no_dial9)
        .unwrap();
    host.take(rt.shutdown_timeout(Duration::from_secs(1)));
    assert_eq!(*seen.lock().unwrap(), vec![Tuning::work_stealing(&opts)]);
    seen.lock().unwrap().clear();
    let rt: Rt = RuntimeBuilder::new(2, "tuned")
        .work_steal(false)
        .runtime_opts(opts.clone())
        .build(unmarked, &tune, &no_dial9)
        .unwrap();
    let _ = rt.get_handle(unmarked, &tune, &|worker| host.spawn(worker)).unwrap();
    assert_eq!(
        *seen.lock().unwrap(),
        vec![Tuning::no_steal(&opts), Tuning::no_steal(&opts)]
    );
    host.take(rt.shutdown_timeout(Duration::from_secs(1)));
}

#[test]
fn an_idle_blocking_thread_is_kept_as_long_as_asked() {
    let exited = |keep_alive: Option<Duration>| {
        let count = Arc::new(AtomicU64::new(0));
        let counted = count.clone();
        let mut builder = RuntimeBuilder::new(1, "idle")
            .blocking_pool_opts(BlockingPoolOpts {
                max_threads: None,
                thread_keep_alive: keep_alive,
            })
            .build_work_stealing_tokio_builder(unmarked, &untuned);
        builder.on_thread_stop(move || {
            counted.fetch_add(1, Ordering::SeqCst);
        });
        let rt = builder.build().unwrap();
        rt.block_on(rt.handle().spawn_blocking(|| {})).unwrap();
        rt.block_on(async { sleep(secs(1)).await });
        let stopped = count.load(Ordering::SeqCst);
        rt.shutdown_timeout(secs(1));
        stopped
    };
    assert_eq!(exited(Some(Duration::new(0, 50_000_000))), 1);
    assert_eq!(exited(None), 0);
}

#[test]
fn the_flavors_are_what_they_are_called() {
    let host = Host::new();
    let steal = Rt::new_steal(1, "steal", unmarked, &untuned).unwrap();
    let no_steal = Rt::new_no_steal(1, "no-steal");
    let spawn = |worker| host.spawn(worker);
    assert_eq!(
        steal.get_handle(unmarked, &untuned, &spawn).unwrap().runtime_flavor(),
        RuntimeFlavor::MultiThread
    );
    assert_eq!(
        no_steal
            .get_handle(unmarked, &untuned, &spawn)
            .unwrap()
            .runtime_flavor(),
        RuntimeFlavor::CurrentThread
    );
    host.take(steal.shutdown_timeout(Duration::from_secs(1)));
    host.take(no_steal.shutdown_timeout(Duration::from_secs(1)));
}

#[test]
fn a_failed_build_is_passed_on() {
    let failed = Rt::from_tokio(Err(std::io::Error::other("no driver")));
    match failed {
        Err(BuildError::Tokio(e)) => assert_eq!(e.to_string(), "no driver"),
        Ok(_) => panic!("there is no runtime"),
    }
}

#[test]
fn outside_any_runtime_there_is_no_current_handle() {
    let registry = Registry::new();
    assert!(matches!(
        current_handle(&registry, 1),
        Err(CurrentHandleError::NoRuntime)
    ));
}
