//! Who is handed which handle.

use std::cell::RefCell;

use pingora_runtime::current::{handle_for, Slot};
use pingora_runtime::{
    BlockingPoolOpts, CurrentHandleError, Duration, NoStealRuntime, Pools, Registry, RuntimeOpts,
    ShutdownStep, Tuning, Worker,
};
use tokio::runtime::{Builder, Runtime, RuntimeFlavor};

fn a_runtime() -> Runtime {
    Builder::new_current_thread().build().unwrap()
}

fn unmarked(_size: usize) {}

fn untuned(builder: Builder, _tuning: Tuning) -> Builder {
    builder
}

fn no_steal<J>(threads: usize) -> NoStealRuntime<J> {
    NoStealRuntime::new(
        threads,
        "pool",
        BlockingPoolOpts::default(),
        RuntimeOpts::default(),
    )
}

/// The pools of a runtime with `threads` workers, none of which is ever driven.
fn a_pool(threads: usize) -> (NoStealRuntime<Worker>, Pools) {
    let rt = no_steal(threads);
    let pools = RefCell::new(Vec::new());
    let spawn = |worker: Worker| {
        pools.borrow_mut().push(worker.pools.share());
        worker
    };
    assert!(rt.get_pools(unmarked, &untuned, &spawn).is_ok());
    assert_eq!(pools.borrow().len(), threads);
    let own = pools.borrow_mut().pop().unwrap();
    (rt, own)
}

#[test]
fn an_owner_is_handed_any_of_its_handles() {
    let (rt, pools) = a_pool(2);
    let ambient = a_runtime();
    let keep = |worker: Worker| worker;
    let a = rt.get_runtime_at(0, unmarked, &untuned, &keep).unwrap().id();
    let b = rt.get_runtime_at(1, unmarked, &untuned, &keep).unwrap().id();
    assert_ne!(a, b);
    let mut seen = Vec::new();
    for _ in 0..200 {
        let handle = handle_for(
            Some(Slot::claimed(9, pools.share())),
            9,
            Some(ambient.handle().clone()),
        )
        .unwrap();
        assert!(handle.id() == a || handle.id() == b);
        assert_eq!(handle.runtime_flavor(), RuntimeFlavor::CurrentThread);
        seen.push(handle.id());
    }
    assert!(seen.contains(&a) && seen.contains(&b));
}

#[test]
fn a_stranger_is_handed_the_current_handle() {
    let (_rt, pools) = a_pool(1);
    let ambient = a_runtime();
    let handle = handle_for(
        Some(Slot::claimed(9, pools.share())),
        10,
        Some(ambient.handle().clone()),
    )
    .unwrap();
    assert_eq!(handle.id(), ambient.handle().id());
    let handle = handle_for(Some(Slot::empty()), 10, Some(ambient.handle().clone())).unwrap();
    assert_eq!(handle.id(), ambient.handle().id());
    let handle = handle_for(None, 10, Some(ambient.handle().clone())).unwrap();
    assert_eq!(handle.id(), ambient.handle().id());
    assert_eq!(
        handle_for(Some(Slot::claimed(9, pools)), 10, None).unwrap_err(),
        CurrentHandleError::NoRuntime
    );
}

#[test]
fn handles_that_are_not_published_are_an_error() {
    let rt = no_steal(1);
    let spawn = |worker: Worker| {
        // The worker is there, but the handles are published only when all are.
        let error = handle_for(Some(Slot::claimed(3, worker.pools.share())), 3, None).unwrap_err();
        assert_eq!(error, CurrentHandleError::PoolsNotReady);
        assert!(worker.pools.get().is_none());
        worker
    };
    assert!(rt.get_pools(unmarked, &untuned, &spawn).is_ok());
}

#[test]
fn the_first_to_publish_wins() {
    let rt: NoStealRuntime<()> = no_steal(2);
    let workers = RefCell::new(Vec::new());
    let keep = |worker: Worker| workers.borrow_mut().push(worker);
    // While the first worker is being started, someone else starts them all.
    let inner = RefCell::new(None);
    let slow = |worker: Worker| {
        workers.borrow_mut().push(worker);
        if inner.borrow().is_none() {
            let id = rt.get_runtime_at(0, unmarked, &untuned, &keep).unwrap().id();
            inner.replace(Some(id));
        }
    };
    let outer = rt.get_runtime_at(0, unmarked, &untuned, &slow).unwrap().id();
    assert_eq!(Some(outer), *inner.borrow());
    assert_eq!(workers.borrow().len(), 4);
    assert_ne!(workers.borrow()[0].runtime.handle().id(), outer);
    assert_eq!(workers.borrow()[1].runtime.handle().id(), outer);
    // Only the controls of the workers that were published are kept.
    let steps = rt.shutdown_timeout::<()>(Duration::from_secs(0));
    assert_eq!(steps.len(), 4);
}

#[test]
fn only_published_workers_are_told_to_shut_down() {
    let rt: NoStealRuntime<u64> = no_steal(2);
    let workers = RefCell::new(Vec::new());
    let keep = |worker: Worker| {
        let mut workers = workers.borrow_mut();
        workers.push(worker);
        workers.len() as u64
    };
    // While the first worker is being started, someone else starts them all.
    let nested = RefCell::new(false);
    let slow = |worker: Worker| {
        let number = keep(worker);
        if !nested.replace(true) {
            assert!(rt.get_pools(unmarked, &untuned, &keep).is_ok());
        }
        number
    };
    let mut published = Vec::new();
    for index in 0..2 {
        let handle = rt.get_runtime_at(index, unmarked, &untuned, &slow);
        published.push(handle.unwrap().id());
    }
    assert_eq!(workers.borrow().len(), 4);

    let timeout = Duration::new(3, 4);
    let mut joined = Vec::new();
    for step in rt.shutdown_timeout::<()>(timeout) {
        match step {
            ShutdownStep::SendTimeout(tx, timeout) => tx.send(timeout).unwrap(),
            ShutdownStep::Join(number) => joined.push(number),
            _ => panic!("there is no other step"),
        }
    }
    let mut told = Vec::new();
    for (i, worker) in workers.borrow_mut().iter_mut().enumerate() {
        let id = worker.runtime.handle().id();
        match worker.shutdown.try_recv() {
            Ok(received) => {
                assert_eq!(received, timeout);
                assert_eq!(joined[told.len()], i as u64 + 1);
                told.push(id);
            }
            Err(_) => assert!(!published.contains(&id)),
        }
    }
    assert_eq!(told, published);
    assert_eq!(joined.len(), 2);
}

#[test]
fn a_recycled_slot_is_claimed() {
    let (_dead, left_behind) = a_pool(1);
    let (live, pools) = a_pool(1);
    let registry = Registry::new();
    assert!(registry.slot().is_none());
    registry.register(1, left_behind);
    registry.register(2, pools);
    let slot = registry.slot().expect("this thread has a slot");
    assert!(slot.registered_pools(1).is_none());
    let pools = slot.registered_pools(2).expect("claimed by the second");
    let id = live
        .get_runtime_at(0, unmarked, &untuned, &|worker: Worker| worker)
        .unwrap()
        .id();
    assert_eq!(pools.get().unwrap().at(0).unwrap().id(), id);
    assert_eq!(pools.get().unwrap().random().id(), id);
    assert!(pools.get().unwrap().at(1).is_err());
    assert!(Slot::default().registered.is_none());
    assert!(slot.copy().registered_pools(2).is_some());
}
