//! A multi-threaded runtime without work stealing.

use vstd::prelude::*;

use std::sync::Arc;

use once_cell::sync::OnceCell;
use rand::Rng;
use tokio::runtime::{Builder, Handle, Runtime as TokioRuntime};
use tokio::sync::oneshot::{channel, Receiver, Sender};

use crate::duration::Duration;
use crate::opts::{BlockingPoolOpts, RuntimeOpts};
use crate::shutdown::{shutdown_workers, worker_steps, ShutdownStep};
use crate::tokio_rt::{
    apply_blocking_opts, builder_settings, built, enable_all, marks, new_current_thread,
    on_thread_start, only_tunes, runtime_handle, runtime_settings, thread_stack_size, try_build,
    tuned_into, with_blocking_opts, BuildError, Setting, SettingValue, ThreadStart, Tuning,
};

verus! {

/// `once_cell::sync::OnceCell`.
#[verifier::external_type_specification]
#[verifier::external_body]
#[verifier::reject_recursive_types(T)]
pub struct ExOnceCell<T>(OnceCell<T>);

/// `tokio::sync::oneshot::Sender`.
#[verifier::external_type_specification]
#[verifier::external_body]
#[verifier::reject_recursive_types(T)]
pub struct ExSender<T>(Sender<T>);

/// `tokio::sync::oneshot::Receiver`.
#[verifier::external_type_specification]
#[verifier::external_body]
#[verifier::reject_recursive_types(T)]
pub struct ExReceiver<T>(Receiver<T>);

/// `tokio::sync::oneshot::error::RecvError`, which a [`Receiver`] yields when the
/// other end is dropped. A receiver is a future, and this is part of what that
/// future gives, so the one type cannot be declared without the other.
#[verifier::external_type_specification]
#[verifier::external_body]
pub struct ExRecvError(tokio::sync::oneshot::error::RecvError);

/// The handles that a cell holds from the moment it is filled. A cell is filled
/// at most once as long as it is shared, so this does not change.
pub uninterp spec fn published(cell: OnceCell<PoolSet>) -> Seq<Handle>;

/// Whether the two ends are of one channel.
pub uninterp spec fn linked(tx: Sender<Duration>, rx: Receiver<Duration>) -> bool;

/// `OnceCell::new`. The cell is empty: of what it will hold nothing is said.
pub assume_specification<T>[ OnceCell::<T>::new ]() -> OnceCell<T>
;

/// The cell that the handles of workers are published in, and how many workers
/// it is for.
struct PoolCell {
    width: usize,
    cell: OnceCell<PoolSet>,
}

impl PoolCell {
    /// Whether this cell is one that [`PoolCell::new`] makes, for as many workers
    /// as it says.
    spec fn is_made(&self) -> bool {
        call_ensures(PoolCell::new, (self.width,), *self)
    }

    /// A cell for the handles of `width` workers.
    fn new(width: usize) -> (r: PoolCell)
        ensures
            r.width == width,
            call_ensures(OnceCell::<PoolSet>::new, (), r.cell),
    {
        PoolCell { width, cell: OnceCell::new() }
    }
}

/// `OnceCell::get`: what the cell holds, if it has been filled. Whether it has
/// been is up to other threads, so nothing is said of that. What it holds was put
/// in by [`cell_try_insert`], and so has a handle for each worker.
#[verifier::external_body]
fn cell_get(cell: &PoolCell) -> (r: Option<&PoolSet>)
    requires
        cell.is_made(),
    ensures
        r matches Some(held) ==> held.handles() == published(cell.cell) && held.handles().len()
            == cell.width,
{
    cell.cell.get()
}

/// `OnceCell::try_insert`: fills the cell, or gives the set back together with
/// the one that the cell already holds. That one was put in here too, and so has
/// a handle for each worker.
#[verifier::external_body]
fn cell_try_insert(cell: &PoolCell, set: PoolSet) -> (r: Result<&PoolSet, (&PoolSet, PoolSet)>)
    requires
        cell.is_made(),
        set.handles().len() == cell.width,
    ensures
        match r {
            Ok(held) => *held == set && set.handles() == published(cell.cell),
            Err((held, back)) => {
                &&& held.handles() == published(cell.cell)
                &&& held.handles().len() == cell.width
                &&& back == set
            },
        },
{
    cell.cell.try_insert(set)
}

/// Whether `handles` and `controls` are those of `workers`, in order: each control
/// reaches the worker whose runtime has the handle beside it.
pub open spec fn paired<J>(
    workers: Seq<Worker>,
    handles: Seq<Handle>,
    controls: Seq<Control<J>>,
) -> bool {
    &&& workers.len() == handles.len()
    &&& workers.len() == controls.len()
    &&& forall|i: int|
        0 <= i < workers.len() ==> {
            let worker = #[trigger] workers[i];
            &&& handles[i] == runtime_handle(worker.runtime)
            &&& linked(controls[i].timeout, worker.shutdown)
        }
}

/// Whether `controls` are those of workers that were given `pools` and whose
/// handles are published there.
pub open spec fn controls_of<J>(pools: Pools, controls: Seq<Control<J>>) -> bool {
    &&& controls.len() == pools.width()
    &&& exists|workers: Seq<Worker>| #[trigger]
        paired(workers, pools.handles(), controls) && forall|i: int|
            0 <= i < workers.len() ==> (#[trigger] workers[i]).pools == pools
}

/// The controls of the workers whose handles are published.
#[verifier::reject_recursive_types(J)]
struct ControlSet<J> {
    controls: Vec<Control<J>>,
    pools: Ghost<Pools>,
}

impl<J> ControlSet<J> {
    #[verifier::type_invariant]
    spec fn wf(self) -> bool {
        controls_of(self.pools@, self.controls@)
    }
}

/// The cell that the controls of workers are kept in, and where the handles of
/// those workers are published.
#[verifier::reject_recursive_types(J)]
struct ControlCell<J> {
    pools: Pools,
    cell: OnceCell<ControlSet<J>>,
}

impl<J> ControlCell<J> {
    /// Whether this cell is one that [`ControlCell::new`] makes, for the workers
    /// that it says.
    spec fn is_made(&self) -> bool {
        call_ensures(ControlCell::<J>::new, (self.pools,), *self)
    }

    /// A cell for the controls of the workers whose handles are in `pools`.
    fn new(pools: Pools) -> (r: ControlCell<J>)
        ensures
            r.pools == pools,
            call_ensures(OnceCell::<ControlSet<J>>::new, (), r.cell),
    {
        ControlCell { pools, cell: OnceCell::new() }
    }
}

/// `OnceCell::set`: fills the cell, or gives the controls back.
#[verifier::external_body]
fn keep_controls<J>(cell: &ControlCell<J>, set: ControlSet<J>) -> (r: Result<(), ControlSet<J>>)
    requires
        cell.is_made(),
        set.pools@ == cell.pools,
    ensures
        r matches Err(back) ==> back == set,
{
    cell.cell.set(set)
}

/// `OnceCell::into_inner`: the controls that the cell holds, if it has been
/// filled. Whether it has been, behind a shared reference, is not followed, so
/// nothing is said of that. What it holds was put in by [`keep_controls`], and so
/// is for the workers that the cell is for.
#[verifier::external_body]
fn into_controls<J>(cell: ControlCell<J>) -> (r: Option<ControlSet<J>>)
    requires
        cell.is_made(),
    ensures
        r matches Some(set) ==> set.pools@ == cell.pools,
{
    cell.cell.into_inner()
}

/// `tokio::sync::oneshot::channel`: the two ends of a new channel.
#[verifier::external_body]
fn timeout_channel() -> (r: (Sender<Duration>, Receiver<Duration>))
    ensures
        linked(r.0, r.1),
{
    channel()
}

/// `rand::Rng::gen_range` on `rand::thread_rng()`: some index below `count`.
/// It panics on an empty range.
#[verifier::external_body]
fn random_index(count: usize) -> (r: usize)
    requires
        count > 0,
    ensures
        r < count,
{
    rand::thread_rng().gen_range(0..count)
}

/// Whether `index` can be drawn at random from the numbers below `count`.
pub closed spec fn drawn(count: usize, index: usize) -> bool {
    call_ensures(random_index, (count,), index)
}

/// Whether `handle` can be drawn at random from all of `handles`.
pub open spec fn picked(handles: Seq<Handle>, handle: Handle) -> bool {
    exists|index: usize|
        {
            &&& index < handles.len()
            &&& handle == handles[index as int]
            &&& #[trigger] drawn(handles.len() as usize, index)
        }
}

/// Whether `handles` are those of `runtimes`, in order, of which there is at
/// least one, and all of which are single-threaded and have `settings`.
pub open spec fn pooled(
    handles: Seq<Handle>,
    runtimes: Seq<TokioRuntime>,
    settings: Map<Setting, SettingValue>,
) -> bool {
    &&& handles.len() > 0
    &&& handles.len() == runtimes.len()
    &&& settings[Setting::Flavor] == SettingValue::CurrentThread
    &&& forall|i: int|
        0 <= i < handles.len() ==> {
            &&& #[trigger] handles[i] == runtime_handle(runtimes[i])
            &&& runtime_settings(runtimes[i]) == settings
        }
}

/// Whether `handles` are those of the runtimes of some pool.
pub open spec fn is_pool(handles: Seq<Handle>) -> bool {
    exists|runtimes: Seq<TokioRuntime>, settings: Map<Setting, SettingValue>| #[trigger]
        pooled(handles, runtimes, settings)
}

/// The handles of a no-steal runtime's workers: always those of single-threaded
/// runtimes built alike, and at least one.
pub struct PoolSet {
    handles: Vec<Handle>,
    runtimes: Ghost<Seq<TokioRuntime>>,
    settings: Ghost<Map<Setting, SettingValue>>,
}

impl PoolSet {
    #[verifier::type_invariant]
    spec fn wf(self) -> bool {
        pooled(self.handles@, self.runtimes@, self.settings@)
    }

    /// The handles, one for each worker.
    pub closed spec fn handles(&self) -> Seq<Handle> {
        self.handles@
    }

    /// The handle of the worker with an index.
    pub fn at(&self, index: usize) -> (r: Result<&Handle, HandleError>)
        ensures
            index < self.handles().len() ==> r is Ok && *r->Ok_0 == self.handles()[index as int],
            index >= self.handles().len() ==> r == Err::<&Handle, HandleError>(
                HandleError::NoSuchWorker,
            ),
    {
        if index < self.handles.len() {
            Ok(&self.handles[index])
        } else {
            Err(HandleError::NoSuchWorker)
        }
    }

    /// The handle of a random worker.
    pub fn random(&self) -> (r: &Handle)
        ensures
            picked(self.handles(), *r),
    {
        proof {
            use_type_invariant(self);
        }
        let index: usize = random_index(self.handles.len());
        assert(drawn(self.handles().len() as usize, index));
        &self.handles[index]
    }
}

/// The handles of a no-steal runtime's workers, shared with the workers
/// themselves: filled once, when the workers have been started.
pub struct Pools {
    cell: Arc<PoolCell>,
}

impl Pools {
    #[verifier::type_invariant]
    spec fn wf(self) -> bool {
        self.cell.is_made()
    }

    /// The handles, from the moment that they are there.
    pub closed spec fn handles(&self) -> Seq<Handle> {
        published(self.cell.cell)
    }

    /// How many workers the handles are for.
    pub closed spec fn width(&self) -> usize {
        self.cell.width
    }

    /// Whether the cell of the handles is one that `OnceCell::new` makes.
    pub closed spec fn is_new(&self) -> bool {
        call_ensures(OnceCell::<PoolSet>::new, (), self.cell.cell)
    }

    /// Whether the cell of the handles, when it is looked into, can give `found`.
    pub closed spec fn gave(&self, found: Option<&PoolSet>) -> bool {
        call_ensures(cell_get, (&*self.cell,), found)
    }

    /// Whether the cell of the handles, when it is offered `mine`, can take it, and
    /// then holds it as `held`.
    pub closed spec fn took(&self, mine: PoolSet, held: &PoolSet) -> bool {
        call_ensures(cell_try_insert, (&*self.cell, mine), Ok(held)) && *held == mine
    }

    /// Whether the cell of the handles, when it is offered `mine`, can turn it down
    /// because another thread has already filled in `held`.
    pub closed spec fn turned_down(&self, mine: PoolSet, held: &PoolSet) -> bool {
        call_ensures(cell_try_insert, (&*self.cell, mine), Err((held, mine)))
    }

    /// No handles yet, for `width` workers.
    fn new(width: usize) -> (r: Pools)
        ensures
            r.is_new(),
            r.width() == width,
    {
        Pools { cell: Arc::new(PoolCell::new(width)) }
    }

    /// Another reference to the same handles.
    pub fn share(&self) -> (r: Pools)
        ensures
            r == *self,
    {
        proof {
            use_type_invariant(self);
        }
        Pools { cell: self.cell.clone() }
    }

    /// The handles, if they are there.
    pub fn get(&self) -> (r: Option<&PoolSet>)
        ensures
            self.gave(r),
            r matches Some(held) ==> {
                &&& held.handles() == self.handles()
                &&& held.handles().len() == self.width()
                &&& is_pool(self.handles())
            },
    {
        proof {
            use_type_invariant(self);
        }
        let held = cell_get(&self.cell);
        proof {
            if let Some(set) = held {
                use_type_invariant(set);
                assert(pooled(set.handles(), set.runtimes@, set.settings@));
            }
        }
        held
    }

    /// Fills in the handles, unless another thread was faster: then `set` comes
    /// back beside what that thread has filled in.
    fn try_insert(&self, set: PoolSet) -> (r: Result<&PoolSet, (&PoolSet, PoolSet)>)
        requires
            set.handles().len() == self.width(),
        ensures
            match r {
                Ok(held) => held.handles() == self.handles() && self.took(set, held),
                Err((held, back)) => held.handles() == self.handles() && back == set
                    && self.turned_down(set, held),
            },
            self.handles().len() == self.width(),
            is_pool(self.handles()),
    {
        proof {
            use_type_invariant(self);
        }
        let r = cell_try_insert(&self.cell, set);
        let held: &PoolSet = match &r {
            Ok(held) => held,
            Err((held, _)) => held,
        };
        proof {
            use_type_invariant(held);
            assert(pooled(held.handles(), held.runtimes@, held.settings@));
        }
        r
    }
}

/// What a new worker thread is given.
///
/// The thread first calls [`Worker::enter`], which marks its stack with
/// `stack_size` and registers `pools` as its own. Then it drives `runtime` until
/// a timeout arrives on `shutdown`, and shuts the runtime down with that timeout.
/// When the other end is dropped it just exits.
pub struct Worker {
    /// The name of the thread.
    pub name: String,
    /// The stack size of the thread, in bytes.
    pub stack_size: usize,
    /// The runtime that the thread drives.
    pub runtime: TokioRuntime,
    /// Where the timeout of the shutdown arrives.
    pub shutdown: Receiver<Duration>,
    /// The handles of the thread's own runtime and of its siblings.
    pub pools: Pools,
}

/// What is kept of a worker thread.
pub struct Control<J> {
    /// Tells the worker to shut down, and with what timeout.
    pub timeout: Sender<Duration>,
    /// What the thread is waited for by.
    pub thread: J,
}

/// Why there is no handle to give.
#[derive(Debug)]
pub enum HandleError {
    /// The workers could not be started.
    Build(BuildError),
    /// There is no worker with that index.
    NoSuchWorker,
}

/// Multi-threaded runtime backed by a pool of single threaded tokio runtimes.
///
/// `J` is what a thread is waited for by.
#[verifier::reject_recursive_types(J)]
pub struct NoStealRuntime<J> {
    threads: usize,
    name: String,
    blocking_opts: BlockingPoolOpts,
    runtime_opts: RuntimeOpts,
    // The workers are started on first use, so that they are created after the
    // process has become a daemon. Otherwise the runtime threads are lost.
    pools: Pools,
    controls: ControlCell<J>,
}

/// What is set on the builder of a worker's runtime. `mark` marks the stack of the
/// thread that calls it.
pub open spec fn worker_settings<M: Fn(usize)>(
    blocking_opts: &BlockingPoolOpts,
    runtime_opts: &RuntimeOpts,
    mark: M,
) -> Map<Setting, SettingValue> {
    with_blocking_opts(
        map![
            Setting::Flavor => SettingValue::CurrentThread,
            Setting::EnableAll => SettingValue::On,
            Setting::ThreadStackSize => SettingValue::Count(runtime_opts.stack_size() as nat),
            Setting::OnThreadStart => marks(mark, runtime_opts.stack_size()),
        ],
        blocking_opts,
    )
}

impl<J> NoStealRuntime<J> {
    #[verifier::type_invariant]
    spec fn wf(self) -> bool {
        &&& self.threads != 0
        &&& self.pools.width() == self.threads
        &&& self.controls.pools == self.pools
        &&& self.controls.is_made()
    }

    /// The number of workers.
    pub closed spec fn width(&self) -> usize {
        self.threads
    }

    /// The name of the worker threads.
    pub closed spec fn thread_name(&self) -> Seq<char> {
        self.name@
    }

    /// The options of the workers' blocking pools.
    pub closed spec fn blocking(&self) -> BlockingPoolOpts {
        self.blocking_opts
    }

    /// The options of the workers' runtimes.
    pub closed spec fn opts(&self) -> RuntimeOpts {
        self.runtime_opts
    }

    /// Where the handles of the workers are published.
    pub closed spec fn pools(&self) -> Pools {
        self.pools
    }

    /// Whether the cells of the handles and of the controls are ones that
    /// `OnceCell::new` makes.
    pub closed spec fn is_new(&self) -> bool {
        &&& self.pools.is_new()
        &&& call_ensures(OnceCell::<ControlSet<J>>::new, (), self.controls.cell)
    }

    /// Whether `controls` can have been put into the cell of the controls, unless
    /// it held some already.
    pub closed spec fn keeps(&self, controls: Vec<Control<J>>) -> bool {
        exists|set: ControlSet<J>, outcome: Result<(), ControlSet<J>>|
            set.controls == controls && #[trigger] call_ensures(
                keep_controls::<J>,
                (&self.controls, set),
                outcome,
            )
    }

    /// Whether `started` is what the cell of the controls can give when it is
    /// emptied.
    pub closed spec fn kept(&self, started: Option<Vec<Control<J>>>) -> bool {
        exists|given: Option<ControlSet<J>>| #[trigger]
            call_ensures(into_controls::<J>, (self.controls,), given) && started == (match given {
                Some(set) => Some(set.controls),
                None => None,
            })
    }

    /// Whether `worker` is one of this runtime's: it has the runtime's name,
    /// stack size and handles, and drives a runtime that tokio built with the
    /// settings and the tuning that the options ask for.
    pub open spec fn owns<M: Fn(usize), T: Fn(Builder, Tuning) -> Builder>(
        &self,
        worker: Worker,
        mark: M,
        tune: &T,
    ) -> bool {
        let settings = worker_settings(&self.blocking(), &self.opts(), mark);
        &&& worker.name@ == self.thread_name()
        &&& worker.stack_size == self.opts().stack_size()
        &&& worker.pools == self.pools()
        &&& runtime_settings(worker.runtime) == settings
        &&& built(tune, Tuning::of_no_steal(&self.opts()), settings, Ok(worker.runtime))
    }

    /// Whether `e` is what tokio can give in place of the runtime of a worker.
    pub open spec fn refused<M: Fn(usize), T: Fn(Builder, Tuning) -> Builder>(
        &self,
        mark: M,
        tune: &T,
        e: BuildError,
    ) -> bool {
        match e {
            BuildError::Tokio(e) => built(
                tune,
                Tuning::of_no_steal(&self.opts()),
                worker_settings(&self.blocking(), &self.opts(), mark),
                Err(e),
            ),
        }
    }

    /// Whether `handles` and `controls` are those of `workers`, in order, for each
    /// of which `spawn` can give the thread in its control.
    pub open spec fn started<
        M: Fn(usize),
        T: Fn(Builder, Tuning) -> Builder,
        S: Fn(Worker) -> J,
    >(
        &self,
        workers: Seq<Worker>,
        handles: Seq<Handle>,
        controls: Seq<Control<J>>,
        mark: M,
        tune: &T,
        spawn: &S,
    ) -> bool {
        &&& workers.len() == handles.len()
        &&& workers.len() == controls.len()
        &&& forall|i: int|
            0 <= i < workers.len() ==> {
                let worker = #[trigger] workers[i];
                &&& self.owns(worker, mark, tune)
                &&& handles[i] == runtime_handle(worker.runtime)
                &&& linked(controls[i].timeout, worker.shutdown)
                &&& spawn.ensures((worker,), controls[i].thread)
            }
    }

    /// Whether `handles` and `controls` are those of workers of this runtime that
    /// have been started.
    pub open spec fn running<
        M: Fn(usize),
        T: Fn(Builder, Tuning) -> Builder,
        S: Fn(Worker) -> J,
    >(
        &self,
        handles: Seq<Handle>,
        controls: Seq<Control<J>>,
        mark: M,
        tune: &T,
        spawn: &S,
    ) -> bool {
        exists|workers: Seq<Worker>| #[trigger]
            self.started(workers, handles, controls, mark, tune, spawn)
    }

    /// Whether `held` is what is published after the handles in `mine` were offered:
    /// `mine` itself, with `controls` kept beside it, or, when another thread was
    /// faster, the handles of that thread.
    pub open spec fn settled(
        &self,
        mine: PoolSet,
        controls: Vec<Control<J>>,
        held: &PoolSet,
    ) -> bool {
        ||| self.pools().took(mine, held) && *held == mine && self.keeps(controls)
        ||| self.pools().turned_down(mine, held)
    }

    /// Whether `set` is what is published after workers were started, one for each
    /// thread, and their handles offered.
    pub open spec fn start_led_to<
        M: Fn(usize),
        T: Fn(Builder, Tuning) -> Builder,
        S: Fn(Worker) -> J,
    >(&self, set: &PoolSet, mark: M, tune: &T, spawn: &S) -> bool {
        exists|mine: PoolSet, controls: Vec<Control<J>>|
            {
                &&& mine.handles().len() == self.width()
                &&& self.running(mine.handles(), controls@, mark, tune, spawn)
                &&& #[trigger] self.settled(mine, controls, set)
            }
    }

    /// Whether `set` is the set of handles that a request leads to: the one that is
    /// found published or, where none is found, what is published after workers
    /// were started.
    pub open spec fn found<
        M: Fn(usize),
        T: Fn(Builder, Tuning) -> Builder,
        S: Fn(Worker) -> J,
    >(&self, set: &PoolSet, mark: M, tune: &T, spawn: &S) -> bool {
        ||| self.pools().gave(Some(set))
        ||| self.pools().gave(None) && self.start_led_to(set, mark, tune, spawn)
    }

    /// Whether `r` answers a request for the worker with an index: the published
    /// handle at that index, or that there is no such worker, or that the workers
    /// could not be started.
    pub open spec fn answers_at(&self, index: usize, r: Result<&Handle, HandleError>) -> bool {
        match r {
            Ok(handle) => {
                &&& index < self.width()
                &&& self.width() == self.pools().handles().len()
                &&& *handle == self.pools().handles()[index as int]
            },
            Err(HandleError::NoSuchWorker) => index >= self.width(),
            Err(HandleError::Build(_)) => true,
        }
    }

    /// Create a new [`NoStealRuntime`] with blocking pool options.
    pub fn new(
        threads: usize,
        name: &str,
        blocking_opts: BlockingPoolOpts,
        runtime_opts: RuntimeOpts,
    ) -> (r: NoStealRuntime<J>)
        requires
            threads != 0,
        ensures
            r.width() == threads,
            r.thread_name() == name@,
            r.blocking() == blocking_opts,
            r.opts() == runtime_opts,
            r.is_new(),
    {
        let pools = Pools::new(threads);
        let controls = ControlCell::new(pools.share());
        NoStealRuntime {
            threads,
            name: String::from(name),
            blocking_opts,
            runtime_opts,
            pools,
            controls,
        }
    }

    /// Builds the runtime of one worker.
    fn build_worker<
        M: Fn(usize) + Copy + Send + Sync + 'static,
        T: Fn(Builder, Tuning) -> Builder,
    >(&self, mark: M, tune: &T) -> (r: Result<TokioRuntime, BuildError>)
        requires
            self.blocking().is_valid(),
            mark.requires((self.opts().stack_size(),)),
            only_tunes(tune),
        ensures
            match r {
                Ok(runtime) => {
                    &&& runtime_settings(runtime) == worker_settings(
                        &self.blocking(),
                        &self.opts(),
                        mark,
                    )
                    &&& built(
                        tune,
                        Tuning::of_no_steal(&self.opts()),
                        worker_settings(&self.blocking(), &self.opts(), mark),
                        Ok(runtime),
                    )
                },
                Err(e) => self.refused(mark, tune, e),
            },
    {
        let mut builder = new_current_thread();
        enable_all(&mut builder);
        // The threads of this runtime's blocking pool get the same stack as the
        // thread that drives the runtime, and mark it as that thread does.
        let stack_size: usize = self.runtime_opts.resolved_thread_stack_size();
        thread_stack_size(&mut builder, stack_size);
        on_thread_start(&mut builder, ThreadStart { stack_size, mark });
        apply_blocking_opts(&mut builder, &self.blocking_opts);
        let ghost settings = worker_settings(&self.blocking(), &self.opts(), mark);
        assert(builder_settings(builder) =~= settings);
        let tuned = tune(builder, Tuning::no_steal(&self.runtime_opts));
        assert(tuned_into(tune, Tuning::of_no_steal(&self.opts()), settings, tuned));
        match try_build(tuned) {
            Ok(runtime) => Ok(runtime),
            Err(e) => Err(BuildError::Tokio(e)),
        }
    }

    /// Starts the workers: builds the runtime of each, and hands it to `spawn`,
    /// which starts a thread for it.
    ///
    /// When a runtime cannot be built, the controls of the workers that are
    /// already running are dropped, which makes them exit.
    pub fn init_pools<
        M: Fn(usize) + Copy + Send + Sync + 'static,
        T: Fn(Builder, Tuning) -> Builder,
        S: Fn(Worker) -> J,
    >(
        &self,
        mark: M,
        tune: &T,
        spawn: &S,
    ) -> (r: Result<(PoolSet, Vec<Control<J>>), BuildError>)
        requires
            self.blocking().is_valid(),
            mark.requires((self.opts().stack_size(),)),
            only_tunes(tune),
            forall|worker: Worker| #[trigger] spawn.requires((worker,)),
        ensures
            match r {
                Ok((set, controls)) => {
                    &&& set.handles().len() == self.width()
                    &&& self.running(set.handles(), controls@, mark, tune, spawn)
                },
                Err(e) => self.refused(mark, tune, e),
            },
    {
        let mut handles: Vec<Handle> = Vec::with_capacity(self.threads);
        let mut controls: Vec<Control<J>> = Vec::with_capacity(self.threads);
        let stack_size: usize = self.runtime_opts.resolved_thread_stack_size();
        let ghost settings = worker_settings(&self.blocking(), &self.opts(), mark);
        let ghost mut workers: Seq<Worker> = seq![];
        let mut i: usize = 0;
        while i < self.threads
            invariant
                i <= self.threads,
                handles.len() == i,
                stack_size == self.opts().stack_size(),
                settings == worker_settings(&self.blocking(), &self.opts(), mark),
                self.blocking().is_valid(),
                mark.requires((self.opts().stack_size(),)),
                only_tunes(tune),
                forall|worker: Worker| #[trigger] spawn.requires((worker,)),
                self.started(workers, handles@, controls@, mark, tune, spawn),
            decreases self.threads - i,
        {
            let runtime = match self.build_worker(mark, tune) {
                Ok(runtime) => runtime,
                Err(e) => {
                    return Err(e);
                },
            };
            let handle = runtime.handle().clone();
            let (timeout, shutdown) = timeout_channel();
            let worker = Worker {
                name: self.name.clone(),
                stack_size,
                runtime,
                shutdown,
                pools: self.pools.share(),
            };
            let ghost given = worker;
            let thread = spawn(worker);
            handles.push(handle);
            controls.push(Control { timeout, thread });
            proof {
                workers = workers.push(given);
            }
            i = i + 1;
        }
        proof {
            use_type_invariant(self);
            assert(self.running(handles@, controls@, mark, tune, spawn));
        }
        let ghost runtimes = workers.map_values(|worker: Worker| worker.runtime);
        assert(pooled(handles@, runtimes, settings)) by {
            assert forall|k: int| 0 <= k < handles@.len() implies #[trigger] handles@[k]
                == runtime_handle(runtimes[k]) && runtime_settings(runtimes[k]) == settings by {
                assert(self.owns(workers[k], mark, tune));
            }
        }
        Ok((PoolSet { handles, runtimes: Ghost(runtimes), settings: Ghost(settings) }, controls))
    }

    /// Publishes the handles of workers that have been started, and keeps their
    /// controls, unless another thread was faster: then the controls are
    /// dropped, which makes the workers exit.
    fn publish(&self, set: PoolSet, controls: Vec<Control<J>>) -> (r: &PoolSet)
        requires
            set.handles().len() == self.width(),
            exists|workers: Seq<Worker>| #[trigger]
                paired(workers, set.handles(), controls@) && forall|i: int|
                    0 <= i < workers.len() ==> (#[trigger] workers[i]).pools == self.pools(),
        ensures
            r.handles() == self.pools().handles(),
            self.pools().handles().len() == self.width(),
            is_pool(self.pools().handles()),
            self.settled(set, controls, r),
    {
        proof {
            use_type_invariant(self);
        }
        match self.pools.try_insert(set) {
            Ok(held) => {
                // Only the thread that published the handles gets here, and it
                // is the only one to fill in the controls.
                let kept = ControlSet { controls, pools: Ghost(self.pools) };
                let _ = keep_controls(&self.controls, kept);
                assert(self.keeps(controls));
                held
            },
            Err((held, _mine)) => held,
        }
    }

    /// The handles of the workers, which are started if they are not yet.
    ///
    /// Several threads may get here at once. Each then starts workers of its
    /// own, but only one set of handles is published, and only the controls of
    /// those workers are kept.
    pub fn get_pools<
        M: Fn(usize) + Copy + Send + Sync + 'static,
        T: Fn(Builder, Tuning) -> Builder,
        S: Fn(Worker) -> J,
    >(
        &self,
        mark: M,
        tune: &T,
        spawn: &S,
    ) -> (r: Result<&PoolSet, BuildError>)
        requires
            self.blocking().is_valid(),
            mark.requires((self.opts().stack_size(),)),
            only_tunes(tune),
            forall|worker: Worker| #[trigger] spawn.requires((worker,)),
        ensures
            match r {
                Ok(set) => {
                    &&& set.handles() == self.pools().handles()
                    &&& set.handles().len() == self.width()
                    &&& is_pool(self.pools().handles())
                    &&& self.found(set, mark, tune, spawn)
                },
                Err(e) => self.pools().gave(None) && self.refused(mark, tune, e),
            },
    {
        proof {
            use_type_invariant(self);
        }
        if let Some(set) = self.pools.get() {
            return Ok(set);
        }
        match self.init_pools(mark, tune, spawn) {
            Err(e) => Err(e),
            Ok((set, controls)) => {
                proof {
                    let workers = choose|workers: Seq<Worker>| #[trigger]
                        self.started(workers, set.handles(), controls@, mark, tune, spawn);
                    assert(paired(workers, set.handles(), controls@));
                }
                Ok(self.publish(set, controls))
            },
        }
    }

    /// Return the number of threads of this runtime
    pub fn threads(&self) -> (r: usize)
        ensures
            r == self.width(),
            r > 0,
    {
        proof {
            use_type_invariant(self);
        }
        self.threads
    }

    /// Return the [`Handle`] of a given thread of this runtime
    pub fn get_runtime_at<
        M: Fn(usize) + Copy + Send + Sync + 'static,
        T: Fn(Builder, Tuning) -> Builder,
        S: Fn(Worker) -> J,
    >(
        &self,
        index: usize,
        mark: M,
        tune: &T,
        spawn: &S,
    ) -> (r: Result<&Handle, HandleError>)
        requires
            self.blocking().is_valid(),
            mark.requires((self.opts().stack_size(),)),
            only_tunes(tune),
            forall|worker: Worker| #[trigger] spawn.requires((worker,)),
        ensures
            self.answers_at(index, r),
            match r {
                Ok(handle) => is_pool(self.pools().handles()) && exists|set: &PoolSet| #[trigger]
                    self.found(set, mark, tune, spawn) && *handle == set.handles()[index as int],
                Err(HandleError::NoSuchWorker) => is_pool(self.pools().handles()) && exists|
                    set: &PoolSet,
                | #[trigger]
                    self.found(set, mark, tune, spawn) && index >= set.handles().len(),
                Err(HandleError::Build(e)) => self.pools().gave(None) && self.refused(
                    mark,
                    tune,
                    e,
                ),
            },
    {
        match self.get_pools(mark, tune, spawn) {
            Err(e) => Err(HandleError::Build(e)),
            Ok(set) => set.at(index),
        }
    }

    /// Return the [`Handle`] of a random thread of this runtime
    pub fn get_runtime<
        M: Fn(usize) + Copy + Send + Sync + 'static,
        T: Fn(Builder, Tuning) -> Builder,
        S: Fn(Worker) -> J,
    >(
        &self,
        mark: M,
        tune: &T,
        spawn: &S,
    ) -> (r: Result<&Handle, BuildError>)
        requires
            self.blocking().is_valid(),
            mark.requires((self.opts().stack_size(),)),
            only_tunes(tune),
            forall|worker: Worker| #[trigger] spawn.requires((worker,)),
        ensures
            match r {
                Ok(handle) => {
                    &&& self.pools().handles().len() == self.width()
                    &&& is_pool(self.pools().handles())
                    &&& exists|set: &PoolSet| #[trigger]
                        self.found(set, mark, tune, spawn) && set.handles()
                            == self.pools().handles() && picked(set.handles(), *handle)
                },
                Err(e) => self.pools().gave(None) && self.refused(mark, tune, e),
            },
    {
        match self.get_pools(mark, tune, spawn) {
            Err(e) => Err(e),
            Ok(set) => Ok(set.random()),
        }
    }

    /// The steps that bring all the workers down: each is told to call tokio's
    /// `shutdown_timeout` on its runtime, then each is waited for. There are no
    /// steps when the workers have not been started yet.
    ///
    /// The workers are those whose handles are published.
    pub fn shutdown_timeout<G>(self, timeout: Duration) -> (r: Vec<ShutdownStep<J, G>>)
        ensures
            exists|started: Option<Vec<Control<J>>>| #[trigger]
                self.kept(started) && match started {
                    Some(controls) => {
                        &&& controls@.len() == self.width()
                        &&& controls_of(self.pools(), controls@)
                        &&& r@ == worker_steps::<J, G>(controls@, timeout)
                    },
                    None => r@.len() == 0,
                },
    {
        proof {
            use_type_invariant(&self);
        }
        let given = into_controls(self.controls);
        let ghost outcome = given;
        let started = match given {
            Some(set) => {
                proof {
                    use_type_invariant(&set);
                }
                Some(set.controls)
            },
            None => None,
        };
        assert(call_ensures(into_controls::<J>, (self.controls,), outcome));
        assert(self.kept(started));
        shutdown_workers(started, timeout)
    }
}

/// Once the workers are running, the same index gives the same handle, whoever
/// asks and however often.
pub proof fn law_one_handle_per_index<J>(
    runtime: NoStealRuntime<J>,
    index: usize,
    first: Result<&Handle, HandleError>,
    again: Result<&Handle, HandleError>,
)
    requires
        runtime.answers_at(index, first),
        runtime.answers_at(index, again),
        first is Ok,
        !(again matches Err(HandleError::Build(_))),
    ensures
        again is Ok,
        *again->Ok_0 == *first->Ok_0,
{
}

/// A shutdown reaches every worker that anyone can have a handle of: the worker
/// whose handle is published at an index is told at that step, with the timeout
/// asked for, and waited for after all have been told.
pub proof fn law_shutdown_reaches_published_workers<J, G>(
    pools: Pools,
    controls: Seq<Control<J>>,
    timeout: Duration,
    index: int,
)
    requires
        controls_of(pools, controls),
        0 <= index < pools.handles().len(),
    ensures
        exists|worker: Worker|
            {
                &&& pools.handles()[index] == #[trigger] runtime_handle(worker.runtime)
                &&& worker.pools == pools
                &&& linked(controls[index].timeout, worker.shutdown)
            },
        worker_steps::<J, G>(controls, timeout)[index] == ShutdownStep::<J, G>::SendTimeout(
            controls[index].timeout,
            timeout,
        ),
        worker_steps::<J, G>(controls, timeout)[pools.handles().len() + index]
            == ShutdownStep::<J, G>::Join(controls[index].thread),
{
    let workers = choose|workers: Seq<Worker>| #[trigger]
        paired(workers, pools.handles(), controls) && forall|i: int|
            0 <= i < workers.len() ==> (#[trigger] workers[i]).pools == pools;
    assert(pools.handles()[index] == runtime_handle(workers[index].runtime));
}

/// The workers of a runtime are as its options ask: each thread bears the runtime's
/// name, has the stack size asked for, and registers the runtime's own pools; each
/// control reaches its own worker, whose thread `spawn` gave; and each handle is
/// that of the worker's single-threaded runtime.
pub proof fn law_workers_are_as_asked<
    J,
    M: Fn(usize),
    T: Fn(Builder, Tuning) -> Builder,
    S: Fn(Worker) -> J,
>(
    runtime: NoStealRuntime<J>,
    handles: Seq<Handle>,
    controls: Seq<Control<J>>,
    mark: M,
    tune: &T,
    spawn: &S,
    index: int,
)
    requires
        runtime.running(handles, controls, mark, tune, spawn),
        0 <= index < handles.len(),
    ensures
        controls.len() == handles.len(),
        exists|worker: Worker|
            {
                let settings = worker_settings(&runtime.blocking(), &runtime.opts(), mark);
                &&& handles[index] == #[trigger] runtime_handle(worker.runtime)
                &&& worker.name@ == runtime.thread_name()
                &&& worker.stack_size == runtime.opts().stack_size()
                &&& worker.pools == runtime.pools()
                &&& runtime_settings(worker.runtime) == settings
                &&& built(
                    tune,
                    Tuning::of_no_steal(&runtime.opts()),
                    settings,
                    Ok(worker.runtime),
                )
                &&& linked(controls[index].timeout, worker.shutdown)
                &&& spawn.ensures((worker,), controls[index].thread)
            },
{
    let workers = choose|workers: Seq<Worker>| #[trigger]
        runtime.started(workers, handles, controls, mark, tune, spawn);
    assert(runtime.owns(workers[index], mark, tune));
    assert(handles[index] == runtime_handle(workers[index].runtime));
}

/// A pool is never empty, and every handle in it is that of a single-threaded
/// runtime.
pub proof fn law_pools_are_of_single_threaded_runtimes(handles: Seq<Handle>, index: int)
    requires
        is_pool(handles),
    ensures
        handles.len() > 0,
        0 <= index < handles.len() ==> exists|runtime: TokioRuntime|
            handles[index] == #[trigger] runtime_handle(runtime) && runtime_settings(
                runtime,
            )[Setting::Flavor] == SettingValue::CurrentThread,
{
    let (runtimes, settings) = choose|
        runtimes: Seq<TokioRuntime>,
        settings: Map<Setting, SettingValue>,
    | #[trigger] pooled(handles, runtimes, settings);
    if 0 <= index < handles.len() {
        assert(handles[index] == runtime_handle(runtimes[index]));
    }
}

/// A random handle is one of the pool's, at an index drawn from all of them; and in
/// a pool of one it is that one.
pub proof fn law_random_handle_is_of_the_pool(handles: Seq<Handle>, handle: Handle)
    requires
        picked(handles, handle),
    ensures
        handles.contains(handle),
        handles.len() == 1 ==> handle == handles[0],
        exists|index: usize| #[trigger]
            drawn(handles.len() as usize, index) && index < handles.len() && handles[index as int]
                == handle,
{
    let index = choose|index: usize|
        {
            &&& index < handles.len()
            &&& handle == handles[index as int]
            &&& #[trigger] drawn(handles.len() as usize, index)
        };
    assert(handles[index as int] == handle);
}

/// There is a handle for each index below the number of threads and for no other:
/// once the workers are running, the answer is a handle exactly for those.
pub proof fn law_a_handle_for_each_thread<J>(
    runtime: NoStealRuntime<J>,
    index: usize,
    r: Result<&Handle, HandleError>,
)
    requires
        runtime.answers_at(index, r),
        !(r matches Err(HandleError::Build(_))),
    ensures
        r is Ok <==> index < runtime.width(),
        r is Ok ==> runtime.pools().handles().len() == runtime.width() && *r->Ok_0
            == runtime.pools().handles()[index as int],
{
}

/// Whatever is found published, by whoever asks, is the same: two requests lead to
/// the same handles, and so do the cell's answers to an offer.
pub proof fn law_one_set_is_published(pools: Pools, mine: PoolSet, a: &PoolSet, b: &PoolSet)
    requires
        mine.handles().len() == pools.width(),
        pools.gave(Some(a)) || pools.took(mine, a) || pools.turned_down(mine, a),
        pools.gave(Some(b)) || pools.took(mine, b) || pools.turned_down(mine, b),
    ensures
        a.handles() == b.handles(),
        a.handles() == pools.handles(),
        a.handles().len() == pools.width(),
        pools.took(mine, a) ==> *a == mine,
{
}

/// A start that leads to a set of handles has started workers, one for each thread.
/// Either the set is theirs, and their controls are kept, or another thread was
/// faster, and it turned theirs down.
pub proof fn law_started_workers_are_offered<
    J,
    M: Fn(usize),
    T: Fn(Builder, Tuning) -> Builder,
    S: Fn(Worker) -> J,
>(runtime: NoStealRuntime<J>, set: &PoolSet, mark: M, tune: &T, spawn: &S)
    requires
        runtime.found(set, mark, tune, spawn),
    ensures
        runtime.pools().gave(Some(set)) || (runtime.pools().gave(None) && exists|
            mine: PoolSet,
            controls: Vec<Control<J>>,
        |
            {
                &&& #[trigger] runtime.running(mine.handles(), controls@, mark, tune, spawn)
                &&& mine.handles().len() == runtime.width()
                &&& (*set == mine && runtime.pools().took(mine, set) && runtime.keeps(controls))
                    || runtime.pools().turned_down(mine, set)
            }),
{
}

/// An index that can be drawn lies below the number that it is drawn from.
pub proof fn law_draws_are_in_range(count: usize, index: usize)
    requires
        drawn(count, index),
    ensures
        index < count,
{
}

/// A worker that cannot be built is tokio's refusal of exactly the settings and the
/// tuning that the runtime's options ask for.
pub proof fn law_refusals_are_tokios<J, M: Fn(usize), T: Fn(Builder, Tuning) -> Builder>(
    runtime: NoStealRuntime<J>,
    mark: M,
    tune: &T,
    e: std::io::Error,
)
    ensures
        runtime.refused(mark, tune, BuildError::Tokio(e)) <==> built(
            tune,
            Tuning::of_no_steal(&runtime.opts()),
            worker_settings(&runtime.blocking(), &runtime.opts(), mark),
            Err(e),
        ),
{
}

/// What is said of the cells and of a draw is what calls on them can give, and no
/// more: a look, an offer, what is put away, what is taken out, and an index.
proof fn law_only_calls_are_evidence<J>(
    runtime: NoStealRuntime<J>,
    found: Option<&PoolSet>,
    mine: PoolSet,
    held: &PoolSet,
    controls: Vec<Control<J>>,
    started: Option<Vec<Control<J>>>,
    count: usize,
    index: usize,
)
    ensures
        runtime.pools.gave(found) <==> call_ensures(cell_get, (&*runtime.pools.cell,), found),
        runtime.pools.took(mine, held) ==> call_ensures(
            cell_try_insert,
            (&*runtime.pools.cell, mine),
            Ok(held),
        ),
        runtime.pools.turned_down(mine, held) ==> call_ensures(
            cell_try_insert,
            (&*runtime.pools.cell, mine),
            Err((held, mine)),
        ),
        runtime.keeps(controls) ==> exists|
            set: ControlSet<J>,
            outcome: Result<(), ControlSet<J>>,
        |
            set.controls == controls && #[trigger] call_ensures(
                keep_controls::<J>,
                (&runtime.controls, set),
                outcome,
            ),
        runtime.kept(started) ==> exists|given: Option<ControlSet<J>>| #[trigger]
            call_ensures(into_controls::<J>, (runtime.controls,), given) && (given is None
                <==> started is None) && (given is Some ==> given->0.controls == started->0
                && given->0.pools@ == runtime.controls.pools),
        drawn(count, index) <==> call_ensures(random_index, (count,), index),
        runtime.is_new() ==> call_ensures(OnceCell::<PoolSet>::new, (), runtime.pools.cell.cell)
            && call_ensures(OnceCell::<ControlSet<J>>::new, (), runtime.controls.cell),
{
}

} // verus!
