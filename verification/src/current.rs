//! Which runtime the current thread should spawn onto.

use vstd::prelude::*;

use std::cell::Cell;

use thread_local::ThreadLocal;
use tokio::runtime::{Builder, Handle};

use crate::no_steal::{
    drawn, law_random_handle_is_of_the_pool, picked, NoStealRuntime, Pools, Worker,
};
use crate::tokio_rt::Tuning;

verus! {

/// `thread_local::ThreadLocal`.
#[verifier::external_type_specification]
#[verifier::external_body]
#[verifier::reject_recursive_types(T)]
pub struct ExThreadLocal<T: Send>(ThreadLocal<T>);

/// `std::cell::Cell`.
#[verifier::external_type_specification]
#[verifier::external_body]
#[verifier::reject_recursive_types(T)]
pub struct ExCell<T: ?Sized>(Cell<T>);

/// A thread's no-steal pool registration, with the thread that made it.
///
/// The slot of a thread is found by an id that is recycled when the thread
/// exits, so a slot can outlive the thread that filled it and reappear under an
/// unrelated one. The number of the owning thread, which is never recycled, is
/// kept with the pools and checked on read for exactly that reason: without it,
/// a thread that never joined a no-steal runtime can be handed a handle to one
/// that has already shut down.
pub struct Registration {
    /// The number of the thread that registered.
    pub owner: u64,
    /// The handles that the thread should spawn onto.
    pub pools: Pools,
}

/// What a thread's slot holds, if anything.
pub struct Slot {
    /// The registration that was made last.
    pub registered: Option<Registration>,
}

impl Slot {
    /// The pools that thread `thread` has registered in this slot, if any.
    pub open spec fn pools_of(&self, thread: u64) -> Option<Pools> {
        match self.registered {
            Some(registration) if registration.owner == thread => Some(registration.pools),
            _ => None,
        }
    }

    /// What a read puts back into the slot.
    pub open spec fn after_read(self) -> Slot {
        self
    }

    /// A slot that nobody has registered in.
    pub fn empty() -> (r: Slot)
        ensures
            r.registered is None,
    {
        Slot { registered: None }
    }

    /// A slot that thread `owner` has claimed for `pools`, whatever it held
    /// before.
    pub fn claimed(owner: u64, pools: Pools) -> (r: Slot)
        ensures
            r.registered == Some(Registration { owner, pools }),
    {
        Slot { registered: Some(Registration { owner, pools }) }
    }

    /// Another slot that holds the same registration.
    pub fn copy(&self) -> (r: Slot)
        ensures
            r == *self,
    {
        match &self.registered {
            Some(registration) => Slot::claimed(registration.owner, registration.pools.share()),
            None => Slot::empty(),
        }
    }

    /// The pools that thread `thread` has registered in this slot, if any.
    pub fn registered_pools(&self, thread: u64) -> (r: Option<&Pools>)
        ensures
            match r {
                Some(pools) => self.pools_of(thread) == Some(*pools),
                None => self.pools_of(thread) is None,
            },
    {
        match &self.registered {
            Some(registration) => if registration.owner == thread {
                Some(&registration.pools)
            } else {
                None
            },
            None => None,
        }
    }
}

/// What a slot holds after it has been read a number of times.
pub open spec fn after_reads(slot: Slot, reads: nat) -> Slot
    decreases reads,
{
    if reads == 0 {
        slot
    } else {
        after_reads(slot, (reads - 1) as nat).after_read()
    }
}

impl Default for Slot {
    fn default() -> (r: Slot)
        ensures
            r.registered is None,
    {
        Slot::empty()
    }
}

/// `ThreadLocal::new`: no thread has a slot yet.
pub assume_specification<T: Send>[ ThreadLocal::<T>::new ]() -> ThreadLocal<T>
;

/// `ThreadLocal::get`: the slot of the current thread, if it has one. Which it
/// is depends on the thread, so nothing is said of it.
pub assume_specification<T: Send>[ ThreadLocal::<T>::get ](slots: &ThreadLocal<T>) -> Option<&T>
;

/// `ThreadLocal::get_or_default`: the slot of the current thread, which is made
/// if it has none. Which it is depends on the thread, so nothing is said of it.
pub assume_specification<T: Send + Default>[ ThreadLocal::<T>::get_or_default ](
    slots: &ThreadLocal<T>,
) -> &T
;

/// `Cell::replace`: puts a value into the cell and gives back the one that was
/// there. What is inside changes behind a shared reference, so nothing is said
/// of the result.
pub assume_specification<T>[ Cell::<T>::replace ](cell: &Cell<T>, value: T) -> T
;

/// `Handle::try_current`: the handle of the tokio runtime that the current
/// thread is in, if it is in one. That depends on the thread, so nothing is
/// said of it.
#[verifier::external_body]
fn tokio_current() -> Option<Handle> {
    Handle::try_current().ok()
}

/// Whether `current` can be the handle of the tokio runtime that a thread is in
/// when it asks, if it is in one.
pub closed spec fn was_in(current: Option<Handle>) -> bool {
    call_ensures(tokio_current, (), current)
}

/// The slots of all threads.
pub struct Registry {
    slots: ThreadLocal<Cell<Slot>>,
}

impl Registry {
    /// Whether the slots are ones that `ThreadLocal::new` makes.
    pub closed spec fn is_new(&self) -> bool {
        call_ensures(ThreadLocal::<Cell<Slot>>::new, (), self.slots)
    }

    /// Whether `held` is what a thread can read in its slot: the thread has none, or
    /// `held` is taken out of it and what a read leaves is put back.
    pub closed spec fn read(&self, held: Option<Slot>) -> bool {
        match held {
            Some(slot) => exists|cell: &Cell<Slot>, between: Slot|
                {
                    &&& call_ensures(
                        ThreadLocal::<Cell<Slot>>::get,
                        (&self.slots,),
                        Some(cell),
                    )
                    &&& call_ensures(
                        Cell::<Slot>::replace,
                        (cell, (Slot { registered: None })),
                        slot,
                    )
                    &&& #[trigger] call_ensures(
                        Cell::<Slot>::replace,
                        (cell, slot.after_read()),
                        between,
                    )
                },
            None => call_ensures(
                ThreadLocal::<Cell<Slot>>::get,
                (&self.slots,),
                None::<&Cell<Slot>>,
            ),
        }
    }

    /// Whether a thread can have put `slot` into its own slot, which is made if it
    /// has none.
    pub closed spec fn wrote(&self, slot: Slot) -> bool {
        exists|cell: &Cell<Slot>, before: Slot|
            {
                &&& call_ensures(
                    ThreadLocal::<Cell<Slot>>::get_or_default,
                    (&self.slots,),
                    cell,
                )
                &&& #[trigger] call_ensures(Cell::<Slot>::replace, (cell, slot), before)
            }
    }

    /// A registry in which no thread has registered.
    pub fn new() -> (r: Registry)
        ensures
            r.is_new(),
    {
        Registry { slots: ThreadLocal::new() }
    }

    /// Registers `pools` as those that the current thread, whose number is
    /// `thread`, should spawn onto. The slot is claimed even when it holds a
    /// registration of a thread that has exited.
    pub fn register(&self, thread: u64, pools: Pools)
        ensures
            self.wrote(Slot { registered: Some(Registration { owner: thread, pools }) }),
    {
        let _ = self.slots.get_or_default().replace(Slot::claimed(thread, pools));
    }

    /// What the slot of the current thread holds, if it has one. The slot keeps it:
    /// what is taken out to be looked at is put back.
    ///
    /// What a cell holds changes behind a shared reference, so it is stated what is
    /// put back, and not that nothing is put in after that.
    pub fn slot(&self) -> (r: Option<Slot>)
        ensures
            self.read(r),
    {
        match self.slots.get() {
            Some(cell) => {
                let slot = cell.replace(Slot::empty());
                let _ = cell.replace(slot.copy());
                Some(slot)
            },
            None => None,
        }
    }
}

impl Worker {
    /// What the thread of a worker does first, before it drives its runtime: it
    /// marks its stack by calling `mark`, and registers its pools under its own
    /// number, `thread`.
    #[inline(always)]
    pub fn enter<M: Fn(usize)>(&self, mark: M, registry: &Registry, thread: u64)
        requires
            mark.requires((self.stack_size,)),
        ensures
            mark.ensures((self.stack_size,), ()),
            registry.wrote(
                Slot { registered: Some(Registration { owner: thread, pools: self.pools }) },
            ),
    {
        mark(self.stack_size);
        registry.register(thread, self.pools.share());
    }
}

/// Why there is no current handle.
#[derive(Debug, Clone, Copy, PartialEq, Eq, Structural)]
pub enum CurrentHandleError {
    /// The thread is in no runtime.
    NoRuntime,
    /// The thread is a worker of a no-steal runtime whose handles are not
    /// published.
    PoolsNotReady,
}

/// The pools that thread `thread` has registered in `slot`, if there is one.
pub open spec fn registered_in(slot: Option<Slot>, thread: u64) -> Option<Pools> {
    match slot {
        Some(slot) => slot.pools_of(thread),
        None => None,
    }
}

/// Whether `r` is an answer for a thread with the number `thread`, when its slot
/// holds `slot` and it is in the tokio runtime of `current`: one drawn at random
/// from the handles that the thread itself has registered, unless none were there yet when it
/// looked, or, where it has registered none, the current one.
pub open spec fn answers(
    r: Result<Handle, CurrentHandleError>,
    slot: Option<Slot>,
    thread: u64,
    current: Option<Handle>,
) -> bool {
    match registered_in(slot, thread) {
        Some(pools) => match r {
            Ok(handle) => picked(pools.handles(), handle),
            Err(e) => e == CurrentHandleError::PoolsNotReady && pools.gave(None),
        },
        None => r == (match current {
            Some(handle) => Ok::<Handle, CurrentHandleError>(handle),
            None => Err(CurrentHandleError::NoRuntime),
        }),
    }
}

/// The handle that a thread with the number `thread` should spawn onto, when its
/// slot holds `slot` and it is in the tokio runtime of `current`.
pub fn handle_for(slot: Option<Slot>, thread: u64, current: Option<Handle>) -> (r: Result<
    Handle,
    CurrentHandleError,
>)
    ensures
        answers(r, slot, thread, current),
{
    if let Some(slot) = &slot {
        if let Some(pools) = slot.registered_pools(thread) {
            return match pools.get() {
                Some(set) => Ok(set.random().clone()),
                None => Err(CurrentHandleError::PoolsNotReady),
            };
        }
    }
    // Not a thread of a no-steal runtime, or a slot left behind by one that has
    // exited. Either way the current tokio runtime is the answer.
    match current {
        Some(handle) => Ok(handle),
        None => Err(CurrentHandleError::NoRuntime),
    }
}

/// Return the [`Handle`] of the current runtime, on a thread with the number
/// `thread`.
///
/// If the current thread is under a work-stealing runtime, the current
/// [`Handle`] is returned. If it is under a no-steal runtime, the [`Handle`] of a
/// random thread under this runtime is returned.
pub fn current_handle(registry: &Registry, thread: u64) -> (r: Result<Handle, CurrentHandleError>)
    ensures
        exists|slot: Option<Slot>, current: Option<Handle>| #[trigger]
            answers(r, slot, thread, current) && registry.read(slot) && was_in(current),
{
    let slot = registry.slot();
    let current = tokio_current();
    let r = handle_for(slot, thread, current);
    assert(answers(r, slot, thread, current));
    r
}

/// A thread finds the pools that it has registered itself.
pub proof fn law_owner_finds_its_pools(slot: Slot, thread: u64, pools: Pools)
    requires
        slot.registered == Some(Registration { owner: thread, pools }),
    ensures
        registered_in(Some(slot), thread) == Some(pools),
{
}

/// A thread that never registered is not handed the pools of one that did: with
/// a slot that another thread has left behind, it gets the handle of the
/// runtime that it is in, as if it had no slot.
pub proof fn law_stranger_is_not_handed_pools(
    slot: Slot,
    thread: u64,
    current: Option<Handle>,
    r: Result<Handle, CurrentHandleError>,
)
    requires
        slot.registered matches Some(registration) ==> registration.owner != thread,
    ensures
        registered_in(Some(slot), thread) is None,
        answers(r, Some(slot), thread, current) <==> answers(r, None, thread, current),
{
}

/// A worker of a no-steal runtime that has registered the pools it was given is
/// handed one of the handles of that runtime, whatever its slot held before and
/// whichever tokio runtime it is in.
pub proof fn law_worker_stays_in_its_runtime<
    J,
    M: Fn(usize),
    T: Fn(Builder, Tuning) -> Builder,
>(
    runtime: NoStealRuntime<J>,
    worker: Worker,
    mark: M,
    tune: &T,
    slot: Slot,
    thread: u64,
    current: Option<Handle>,
    r: Result<Handle, CurrentHandleError>,
)
    requires
        runtime.owns(worker, mark, tune),
        slot.registered == Some(Registration { owner: thread, pools: worker.pools }),
        answers(r, Some(slot), thread, current),
    ensures
        match r {
            Ok(handle) => runtime.pools().handles().contains(handle),
            Err(e) => e == CurrentHandleError::PoolsNotReady && runtime.pools().gave(None),
        },
{
    if let Ok(handle) = r {
        let handles = runtime.pools().handles();
        let index = choose|index: usize|
            {
                &&& index < handles.len()
                &&& handle == handles[index as int]
                &&& #[trigger] drawn(handles.len() as usize, index)
            };
        assert(handles[index as int] == handle);
    }
}

/// What a thread is answered: where it has registered pools itself, a handle drawn
/// at random from all of theirs, unless they are not there yet; where it has not,
/// whatever its slot holds of others, the handle of the runtime that it is in, and
/// an error only where it is in none.
pub proof fn law_a_thread_is_answered(
    slot: Option<Slot>,
    thread: u64,
    pools: Pools,
    current: Option<Handle>,
    r: Result<Handle, CurrentHandleError>,
)
    requires
        answers(r, slot, thread, current),
    ensures
        slot == Some(Slot { registered: Some(Registration { owner: thread, pools }) }) ==> match r {
            Ok(handle) => picked(pools.handles(), handle) && pools.handles().contains(handle),
            Err(e) => e is PoolsNotReady && pools.gave(None),
        },
        (slot is None || slot->0.registered is None || slot->0.registered->0.owner != thread)
            ==> match current {
            Some(handle) => r == Ok::<Handle, CurrentHandleError>(handle),
            None => r == Err::<Handle, CurrentHandleError>(CurrentHandleError::NoRuntime),
        },
{
    if let Ok(handle) = r {
        if picked(pools.handles(), handle) {
            law_random_handle_is_of_the_pool(pools.handles(), handle);
        }
    }
}

/// Reading a slot leaves its registration in place. However often a slot has been
/// read since a thread registered pools in it, it holds that registration, so every
/// answer that the thread gets, and not only the first, is drawn from its pools.
pub proof fn law_reading_leaves_the_registration(
    slot: Slot,
    reads: nat,
    thread: u64,
    pools: Pools,
    current: Option<Handle>,
    r: Result<Handle, CurrentHandleError>,
)
    requires
        slot.registered == Some(Registration { owner: thread, pools }),
        answers(r, Some(after_reads(slot, reads)), thread, current),
    ensures
        after_reads(slot, reads).registered == slot.registered,
        match r {
            Ok(handle) => pools.handles().contains(handle),
            Err(e) => e is PoolsNotReady && pools.gave(None),
        },
{
    lemma_reads_change_nothing(slot, reads);
    law_a_thread_is_answered(Some(slot), thread, pools, current, r);
}

/// A slot that has been read holds what it held.
proof fn lemma_reads_change_nothing(slot: Slot, reads: nat)
    ensures
        after_reads(slot, reads) == slot,
    decreases reads,
{
    if reads > 0 {
        lemma_reads_change_nothing(slot, (reads - 1) as nat);
    }
}

/// What is said of the slots and of the current runtime is what calls can give, and
/// no more; and a slot that is read is put back as it was.
proof fn law_only_calls_are_evidence(
    registry: Registry,
    slot: Slot,
    current: Option<Handle>,
)
    ensures
        registry.read(Some(slot)) ==> exists|cell: &Cell<Slot>, between: Slot|
            {
                &&& call_ensures(
                    ThreadLocal::<Cell<Slot>>::get,
                    (&registry.slots,),
                    Some(cell),
                )
                &&& call_ensures(
                    Cell::<Slot>::replace,
                    (cell, (Slot { registered: None })),
                    slot,
                )
                &&& #[trigger] call_ensures(Cell::<Slot>::replace, (cell, slot), between)
            },
        registry.read(None) ==> call_ensures(
            ThreadLocal::<Cell<Slot>>::get,
            (&registry.slots,),
            None::<&Cell<Slot>>,
        ),
        registry.wrote(slot) ==> exists|cell: &Cell<Slot>, before: Slot|
            {
                &&& call_ensures(
                    ThreadLocal::<Cell<Slot>>::get_or_default,
                    (&registry.slots,),
                    cell,
                )
                &&& #[trigger] call_ensures(Cell::<Slot>::replace, (cell, slot), before)
            },
        registry.is_new() <==> call_ensures(ThreadLocal::<Cell<Slot>>::new, (), registry.slots),
        was_in(current) <==> call_ensures(tokio_current, (), current),
{
}

} // verus!
