//! The runtime itself, in its two flavors, and the builder for it.

use vstd::prelude::*;

use tokio::runtime::{Builder, Handle, Runtime as TokioRuntime};

use crate::dial9::Dial9RuntimeOpts;
use crate::duration::Duration;
use crate::no_steal::{
    controls_of, is_pool, picked, worker_settings, Control, NoStealRuntime, PoolSet, Worker,
};
use crate::opts::{BlockingPoolOpts, RuntimeMetricsOpts, RuntimeOpts, DEFAULT_THREAD_STACK_SIZE};
use crate::shutdown::{worker_steps, ShutdownStep};
use crate::tokio_rt::{
    apply_blocking_opts, buildable, builder_settings, built, enable_all, marks, new_multi_thread,
    on_thread_start, only_tunes, runtime_handle, runtime_settings, thread_name, thread_stack_size,
    try_build, tuned_into, with_blocking_opts, worker_threads, BuildError, Setting, SettingValue,
    ThreadStart, Tuning, TOKIO_MAX_BLOCKING_THREADS,
};

verus! {

/// Async multi-threaded runtime.
///
/// The `Steal` flavor is effectively the tokio multi-threaded runtime. The
/// `NoSteal` flavor is backed by multiple tokio single-threaded runtimes.
///
/// `J` is what a thread is waited for by, `G` what keeps telemetry going.
#[verifier::reject_recursive_types(J)]
pub enum Runtime<J, G> {
    /// A work-stealing runtime.
    Steal {
        /// The tokio runtime.
        runtime: TokioRuntime,
        /// Keeps dial9 telemetry going, where the runtime is traced.
        dial9_guard: Option<G>,
    },
    /// A runtime without work stealing.
    NoSteal(NoStealRuntime<J>),
}

/// Builder for constructing a [`Runtime`].
pub struct RuntimeBuilder {
    /// The number of worker threads.
    pub threads: usize,
    /// The name of the runtime.
    pub name: String,
    /// Whether work stealing is enabled.
    pub work_steal: bool,
    /// Options of the blocking pool.
    pub blocking_pool_opts: BlockingPoolOpts,
    /// Options of the runtime.
    pub runtime_opts: RuntimeOpts,
}

impl RuntimeBuilder {
    /// What is set on the builder of a work-stealing runtime. `mark` marks the stack
    /// of the thread that calls it.
    pub open spec fn work_stealing_settings<M: Fn(usize)>(&self, mark: M) -> Map<
        Setting,
        SettingValue,
    > {
        let stack_size = self.runtime_opts.stack_size();
        with_blocking_opts(
            map![
                Setting::Flavor => SettingValue::MultiThread,
                Setting::EnableAll => SettingValue::On,
                Setting::WorkerThreads => SettingValue::Count(self.threads as nat),
                Setting::ThreadName => SettingValue::Text(self.name@),
                Setting::ThreadStackSize => SettingValue::Count(stack_size as nat),
                Setting::OnThreadStart => marks(mark, stack_size),
            ],
            &self.blocking_pool_opts,
        )
    }

    /// Whether a runtime can be asked for: it has threads, and so does its
    /// blocking pool. A work-stealing runtime moreover counts both in a `usize`,
    /// and starts its threads at once, whose name must hold no NUL.
    pub open spec fn is_valid(&self) -> bool {
        &&& self.threads > 0
        &&& self.work_steal ==> {
            &&& self.blocking_pool_opts.is_valid()
            &&& self.threads + (match self.blocking_pool_opts.max_threads {
                Some(max) => max,
                None => TOKIO_MAX_BLOCKING_THREADS,
            }) <= usize::MAX
            &&& !self.name@.contains('\0')
        }
    }

    /// Create a new builder with the given number of worker threads and runtime name.
    ///
    /// Work stealing is enabled by default.
    pub fn new(threads: usize, name: &str) -> (r: RuntimeBuilder)
        ensures
            r.threads == threads,
            r.name@ == name@,
            r.work_steal,
            r.blocking_pool_opts.is_default(),
            r.runtime_opts.is_default(),
    {
        RuntimeBuilder {
            threads,
            name: String::from(name),
            work_steal: true,
            blocking_pool_opts: BlockingPoolOpts::default(),
            runtime_opts: RuntimeOpts::default(),
        }
    }

    /// Set whether work stealing is enabled.
    ///
    /// When `true` (the default), a tokio multi-thread runtime is used.
    /// When `false`, a pool of single-threaded tokio runtimes is used instead.
    pub fn work_steal(self, enabled: bool) -> (r: RuntimeBuilder)
        ensures
            r == (RuntimeBuilder { work_steal: enabled, ..self }),
    {
        RuntimeBuilder { work_steal: enabled, ..self }
    }

    /// Set the [`BlockingPoolOpts`] for the runtime's blocking thread pool.
    pub fn blocking_pool_opts(self, opts: BlockingPoolOpts) -> (r: RuntimeBuilder)
        ensures
            r == (RuntimeBuilder { blocking_pool_opts: opts, ..self }),
    {
        RuntimeBuilder { blocking_pool_opts: opts, ..self }
    }

    /// Set the [`RuntimeMetricsOpts`] for the runtime.
    pub fn metrics_opts(self, opts: RuntimeMetricsOpts) -> (r: RuntimeBuilder)
        ensures
            r == (RuntimeBuilder {
                runtime_opts: RuntimeOpts { metrics: opts, ..self.runtime_opts },
                ..self
            }),
    {
        RuntimeBuilder {
            runtime_opts: RuntimeOpts { metrics: opts, ..self.runtime_opts },
            ..self
        }
    }

    /// Set the [`RuntimeOpts`] for the runtime.
    pub fn runtime_opts(self, opts: RuntimeOpts) -> (r: RuntimeBuilder)
        ensures
            r == (RuntimeBuilder { runtime_opts: opts, ..self }),
    {
        RuntimeBuilder { runtime_opts: opts, ..self }
    }

    /// Set the stack size, in bytes, for every thread this runtime spawns.
    pub fn thread_stack_size(self, bytes: usize) -> (r: RuntimeBuilder)
        ensures
            r == (RuntimeBuilder {
                runtime_opts: RuntimeOpts {
                    thread_stack_size: Some(bytes),
                    ..self.runtime_opts
                },
                ..self
            }),
    {
        RuntimeBuilder {
            runtime_opts: RuntimeOpts { thread_stack_size: Some(bytes), ..self.runtime_opts },
            ..self
        }
    }

    /// Set whether Tokio's experimental alternative timer is enabled.
    ///
    /// This requires building with `--cfg tokio_unstable` and only applies to
    /// work-stealing runtimes.
    pub fn enable_alt_timer(self, enabled: bool) -> (r: RuntimeBuilder)
        ensures
            r == (RuntimeBuilder {
                runtime_opts: RuntimeOpts { enable_alt_timer: enabled, ..self.runtime_opts },
                ..self
            }),
    {
        RuntimeBuilder {
            runtime_opts: RuntimeOpts { enable_alt_timer: enabled, ..self.runtime_opts },
            ..self
        }
    }

    /// Whether dial9 telemetry is asked for and ignored: a runtime without work
    /// stealing is not traced.
    pub fn ignores_dial9(&self) -> (r: bool)
        ensures
            r == (!self.work_steal && self.runtime_opts.dial9 is Some),
    {
        !self.work_steal && self.runtime_opts.dial9.is_some()
    }

    /// The tokio builder of a work-stealing runtime. `mark` marks the stack of
    /// the thread that calls it, and `tune` adds what only an unstable tokio
    /// has.
    pub fn build_work_stealing_tokio_builder<
        M: Fn(usize) + Copy + Send + Sync + 'static,
        T: Fn(Builder, Tuning) -> Builder,
    >(&self, mark: M, tune: &T) -> (r: Builder)
        requires
            self.threads > 0,
            self.blocking_pool_opts.is_valid(),
            mark.requires((self.runtime_opts.stack_size(),)),
            only_tunes(tune),
        ensures
            builder_settings(r) == self.work_stealing_settings(mark),
            tuned_into(
                tune,
                Tuning::of_work_stealing(&self.runtime_opts),
                self.work_stealing_settings(mark),
                r,
            ),
    {
        let stack_size: usize = self.runtime_opts.resolved_thread_stack_size();
        let mut builder = new_multi_thread();
        enable_all(&mut builder);
        worker_threads(&mut builder, self.threads);
        thread_name(&mut builder, self.name.as_str());
        thread_stack_size(&mut builder, stack_size);
        // Records where each thread's stack starts, so that the application can
        // measure how much of it a request actually uses.
        on_thread_start(&mut builder, ThreadStart { stack_size, mark });
        apply_blocking_opts(&mut builder, &self.blocking_pool_opts);
        assert(builder_settings(builder) =~= self.work_stealing_settings(mark));
        tune(builder, Tuning::work_stealing(&self.runtime_opts))
    }

    /// Whether `r` is the work-stealing runtime that is asked for, without
    /// telemetry, or what tokio can give in place of it.
    pub open spec fn steals<J, G, M: Fn(usize), T: Fn(Builder, Tuning) -> Builder>(
        &self,
        r: Result<Runtime<J, G>, BuildError>,
        mark: M,
        tune: &T,
    ) -> bool {
        let tuning = Tuning::of_work_stealing(&self.runtime_opts);
        let settings = self.work_stealing_settings(mark);
        match r {
            Ok(runtime) => runtime matches Runtime::Steal { runtime, dial9_guard } && {
                &&& runtime_settings(runtime) == settings
                &&& built(tune, tuning, settings, Ok(runtime))
                &&& dial9_guard is None
            },
            Err(BuildError::Tokio(e)) => built(tune, tuning, settings, Err(e)),
        }
    }

    /// Whether `runtime` is the runtime without work stealing that is asked for.
    pub open spec fn no_steals<J, G>(&self, runtime: Runtime<J, G>) -> bool {
        runtime matches Runtime::NoSteal(runtime) && {
            &&& runtime.width() == self.threads
            &&& runtime.thread_name() == self.name@
            &&& runtime.blocking() == self.blocking_pool_opts
            &&& runtime.opts() == self.runtime_opts
            &&& runtime.is_new()
        }
    }

    /// Whether `outcome` is what `start_dial9` can make of `opts`, of this name, and of
    /// a tokio builder of the work-stealing runtime.
    pub open spec fn dial9_outcome<
        G,
        E,
        M: Fn(usize),
        T: Fn(Builder, Tuning) -> Builder,
        D: Fn(Builder, &str, &Dial9RuntimeOpts) -> Result<(TokioRuntime, G), E>,
    >(
        &self,
        opts: Dial9RuntimeOpts,
        mark: M,
        tune: &T,
        start_dial9: &D,
        outcome: Result<(TokioRuntime, G), E>,
    ) -> bool {
        exists|builder: Builder, name: &str| #[trigger]
            start_dial9.ensures((builder, name, &opts), outcome) && name@ == self.name@
                && builder_settings(builder) == self.work_stealing_settings(mark) && tuned_into(
                tune,
                Tuning::of_work_stealing(&self.runtime_opts),
                self.work_stealing_settings(mark),
                builder,
            )
    }

    /// Builds a work-stealing runtime without telemetry.
    fn build_steal<
        J,
        G,
        M: Fn(usize) + Copy + Send + Sync + 'static,
        T: Fn(Builder, Tuning) -> Builder,
    >(&self, mark: M, tune: &T) -> (r: Result<Runtime<J, G>, BuildError>)
        requires
            self.work_steal,
            self.is_valid(),
            mark.requires((self.runtime_opts.stack_size(),)),
            only_tunes(tune),
        ensures
            self.steals(r, mark, tune),
    {
        let builder = self.build_work_stealing_tokio_builder(mark, tune);
        assert(buildable(self.work_stealing_settings(mark)));
        Runtime::from_tokio(try_build(builder))
    }

    /// Builds a runtime without work stealing.
    fn build_no_steal<J, G>(self) -> (r: Runtime<J, G>)
        requires
            self.threads > 0,
        ensures
            self.no_steals(r),
    {
        Runtime::NoSteal(
            NoStealRuntime::new(
                self.threads,
                self.name.as_str(),
                self.blocking_pool_opts,
                self.runtime_opts,
            ),
        )
    }

    /// Build the [`Runtime`].
    ///
    /// `mark` marks the stack of the thread that calls it, `tune` adds to a tokio
    /// builder what only an unstable tokio has, and `start_dial9` starts a
    /// traced runtime. When that fails, the runtime is built without telemetry:
    /// a runtime that cannot be traced is better than none. Telemetry is ignored
    /// when work stealing is disabled.
    pub fn build<
        J,
        G,
        E,
        M: Fn(usize) + Copy + Send + Sync + 'static,
        T: Fn(Builder, Tuning) -> Builder,
        D: Fn(Builder, &str, &Dial9RuntimeOpts) -> Result<(TokioRuntime, G), E>,
    >(self, mark: M, tune: &T, start_dial9: &D) -> (r: Result<Runtime<J, G>, BuildError>)
        requires
            self.is_valid(),
            mark.requires((self.runtime_opts.stack_size(),)),
            only_tunes(tune),
            forall|builder: Builder, name: &str, opts: &Dial9RuntimeOpts| #[trigger]
                start_dial9.requires((builder, name, opts)),
        ensures
            !self.work_steal ==> r is Ok && self.no_steals(r->Ok_0),
            self.work_steal && self.runtime_opts.dial9 is None ==> self.steals(r, mark, tune),
            self.work_steal && self.runtime_opts.dial9 is Some ==> exists|
                outcome: Result<(TokioRuntime, G), E>,
            | #[trigger]
                self.dial9_outcome(self.runtime_opts.dial9->0, mark, tune, start_dial9, outcome)
                    && match outcome {
                    Ok((runtime, guard)) => r == Ok::<Runtime<J, G>, BuildError>(
                        Runtime::Steal { runtime, dial9_guard: Some(guard) },
                    ),
                    Err(_) => self.steals(r, mark, tune),
                },
    {
        if !self.work_steal {
            return Ok(self.build_no_steal());
        }
        if let Some(opts) = &self.runtime_opts.dial9 {
            let builder = self.build_work_stealing_tokio_builder(mark, tune);
            let outcome = start_dial9(builder, self.name.as_str(), opts);
            assert(self.dial9_outcome(
                self.runtime_opts.dial9->0,
                mark,
                tune,
                start_dial9,
                outcome,
            ));
            if let Ok((runtime, guard)) = outcome {
                return Ok(Runtime::Steal { runtime, dial9_guard: Some(guard) });
            }
        }
        self.build_steal(mark, tune)
    }
}

/// What is set on a work-stealing runtime that is asked for with nothing but a
/// number of threads and a name. `mark` marks the stack of the thread that calls
/// it.
pub open spec fn plain_settings<M: Fn(usize)>(threads: usize, name: Seq<char>, mark: M) -> Map<
    Setting,
    SettingValue,
> {
    map![
        Setting::Flavor => SettingValue::MultiThread,
        Setting::EnableAll => SettingValue::On,
        Setting::WorkerThreads => SettingValue::Count(threads as nat),
        Setting::ThreadName => SettingValue::Text(name),
        Setting::ThreadStackSize => SettingValue::Count(DEFAULT_THREAD_STACK_SIZE as nat),
        Setting::OnThreadStart => marks(mark, DEFAULT_THREAD_STACK_SIZE),
    ]
}

/// The steps that bring a work-stealing runtime down: telemetry ends before the
/// runtime does.
pub open spec fn steal_steps<J, G>(
    runtime: TokioRuntime,
    dial9_guard: Option<G>,
    timeout: Duration,
) -> Seq<ShutdownStep<J, G>> {
    match dial9_guard {
        Some(guard) => seq![
            ShutdownStep::DropGuard(guard),
            ShutdownStep::ShutdownRuntime(runtime, timeout),
        ],
        None => seq![ShutdownStep::ShutdownRuntime(runtime, timeout)],
    }
}

impl<J, G> Runtime<J, G> {
    /// The `Steal` flavor runtime on what tokio has built.
    pub fn from_tokio(built: Result<TokioRuntime, std::io::Error>) -> (r: Result<
        Runtime<J, G>,
        BuildError,
    >)
        ensures
            r == (match built {
                Ok(runtime) => Ok::<Runtime<J, G>, BuildError>(
                    Runtime::Steal { runtime, dial9_guard: None },
                ),
                Err(e) => Err(BuildError::Tokio(e)),
            }),
    {
        match built {
            Ok(runtime) => Ok(Runtime::Steal { runtime, dial9_guard: None }),
            Err(e) => Err(BuildError::Tokio(e)),
        }
    }

    /// Create a `Steal` flavor runtime. This is just a regular tokio runtime
    pub fn new_steal<
        M: Fn(usize) + Copy + Send + Sync + 'static,
        T: Fn(Builder, Tuning) -> Builder,
    >(threads: usize, name: &str, mark: M, tune: &T) -> (r: Result<Runtime<J, G>, BuildError>)
        requires
            threads > 0,
            threads + TOKIO_MAX_BLOCKING_THREADS <= usize::MAX,
            !name@.contains('\0'),
            mark.requires((DEFAULT_THREAD_STACK_SIZE,)),
            only_tunes(tune),
        ensures
            match r {
                Ok(runtime) => runtime matches Runtime::Steal { runtime, dial9_guard } && {
                    &&& runtime_settings(runtime) == plain_settings(threads, name@, mark)
                    &&& built(
                        tune,
                        Tuning { histogram: None, alt_timer: false },
                        plain_settings(threads, name@, mark),
                        Ok(runtime),
                    )
                    &&& dial9_guard is None
                },
                Err(BuildError::Tokio(e)) => built(
                    tune,
                    Tuning { histogram: None, alt_timer: false },
                    plain_settings(threads, name@, mark),
                    Err(e),
                ),
            },
    {
        let builder = RuntimeBuilder::new(threads, name);
        assert(builder.work_stealing_settings(mark) =~= plain_settings(threads, name@, mark));
        builder.build_steal(mark, tune)
    }

    /// Create a `NoSteal` flavor runtime. This is backed by multiple tokio current-thread runtimes
    pub fn new_no_steal(threads: usize, name: &str) -> (r: Runtime<J, G>)
        requires
            threads > 0,
        ensures
            r matches Runtime::NoSteal(runtime) && {
                &&& runtime.width() == threads
                &&& runtime.thread_name() == name@
                &&& runtime.blocking().is_default()
                &&& runtime.opts().is_default()
                &&& runtime.is_new()
            },
    {
        RuntimeBuilder::new(threads, name).work_steal(false).build_no_steal()
    }

    /// Return the [`Handle`] of the [`Runtime`].
    ///
    /// For the `Steal` flavor, it is the handle of its tokio runtime. For the
    /// `NoSteal` flavor, it is the handle of a random thread in its pool. So if we
    /// want tasks to spawn on all the threads, call this function to get a fresh
    /// [`Handle`] for each async task.
    pub fn get_handle<
        M: Fn(usize) + Copy + Send + Sync + 'static,
        T: Fn(Builder, Tuning) -> Builder,
        S: Fn(Worker) -> J,
    >(
        &self,
        mark: M,
        tune: &T,
        spawn: &S,
    ) -> (r: Result<&Handle, BuildError>)
        requires
            self matches Runtime::NoSteal(runtime) ==> runtime.blocking().is_valid()
                && mark.requires((runtime.opts().stack_size(),)),
            only_tunes(tune),
            forall|worker: Worker| #[trigger] spawn.requires((worker,)),
        ensures
            match self {
                Runtime::Steal { runtime, .. } => r is Ok && *r->Ok_0 == runtime_handle(*runtime),
                Runtime::NoSteal(runtime) => match r {
                    Ok(handle) => {
                        &&& runtime.pools().handles().len() == runtime.width()
                        &&& is_pool(runtime.pools().handles())
                        &&& exists|set: &PoolSet| #[trigger]
                            runtime.found(set, mark, tune, spawn) && set.handles()
                                == runtime.pools().handles() && picked(set.handles(), *handle)
                    },
                    Err(e) => runtime.pools().gave(None) && runtime.refused(mark, tune, e),
                },
            },
    {
        match self {
            Runtime::Steal { runtime, .. } => Ok(runtime.handle()),
            Runtime::NoSteal(runtime) => runtime.get_runtime(mark, tune, spawn),
        }
    }

    /// The steps that bring all the runtimes down. They are to be taken in order,
    /// and end when all runtimes have exited.
    pub fn shutdown_timeout(self, timeout: Duration) -> (r: Vec<ShutdownStep<J, G>>)
        ensures
            match self {
                Runtime::Steal { runtime, dial9_guard } => r@ == steal_steps::<J, G>(
                    runtime,
                    dial9_guard,
                    timeout,
                ),
                Runtime::NoSteal(runtime) => exists|started: Option<Vec<Control<J>>>| #[trigger]
                    runtime.kept(started) && match started {
                        Some(controls) => {
                            &&& controls@.len() == runtime.width()
                            &&& controls_of(runtime.pools(), controls@)
                            &&& r@ == worker_steps::<J, G>(controls@, timeout)
                        },
                        None => r@.len() == 0,
                    },
            },
    {
        match self {
            Runtime::Steal { runtime, dial9_guard } => {
                let mut steps: Vec<ShutdownStep<J, G>> = Vec::new();
                if let Some(guard) = dial9_guard {
                    steps.push(ShutdownStep::DropGuard(guard));
                }
                steps.push(ShutdownStep::ShutdownRuntime(runtime, timeout));
                steps
            },
            Runtime::NoSteal(runtime) => runtime.shutdown_timeout(timeout),
        }
    }
}

/// Whatever the flavor, every thread gets the stack that the options ask for, and
/// marks it with that size: the workers and the blocking pool of a work-stealing
/// runtime, and the workers of a no-steal runtime and their blocking pools.
pub proof fn law_one_stack_size_for_all_threads<J, M: Fn(usize), T: Fn(Builder, Tuning) -> Builder>(
    builder: RuntimeBuilder,
    runtime: NoStealRuntime<J>,
    worker: Worker,
    mark: M,
    tune: &T,
)
    requires
        runtime.blocking() == builder.blocking_pool_opts,
        runtime.opts() == builder.runtime_opts,
        runtime.owns(worker, mark, tune),
    ensures
        builder.work_stealing_settings(mark)[Setting::ThreadStackSize] == SettingValue::Count(
            builder.runtime_opts.stack_size() as nat,
        ),
        builder.work_stealing_settings(mark)[Setting::OnThreadStart] == marks(
            mark,
            builder.runtime_opts.stack_size(),
        ),
        worker.stack_size == builder.runtime_opts.stack_size(),
        runtime_settings(worker.runtime)[Setting::ThreadStackSize] == SettingValue::Count(
            builder.runtime_opts.stack_size() as nat,
        ),
        runtime_settings(worker.runtime)[Setting::OnThreadStart] == marks(
            mark,
            builder.runtime_opts.stack_size(),
        ),
{
}

/// Blocking pool options that are not set leave tokio's own defaults alone, in
/// both flavors; those that are set are passed on.
pub proof fn law_unset_blocking_opts_are_left_alone<M: Fn(usize)>(
    builder: RuntimeBuilder,
    mark: M,
)
    ensures
        builder.work_stealing_settings(mark).contains_key(Setting::MaxBlockingThreads)
            <==> builder.blocking_pool_opts.max_threads is Some,
        builder.work_stealing_settings(mark).contains_key(Setting::ThreadKeepAlive)
            <==> builder.blocking_pool_opts.thread_keep_alive is Some,
        worker_settings(&builder.blocking_pool_opts, &builder.runtime_opts, mark).contains_key(
            Setting::MaxBlockingThreads,
        ) <==> builder.blocking_pool_opts.max_threads is Some,
        worker_settings(&builder.blocking_pool_opts, &builder.runtime_opts, mark).contains_key(
            Setting::ThreadKeepAlive,
        ) <==> builder.blocking_pool_opts.thread_keep_alive is Some,
{
}

/// The alternative timer is only ever asked for on a work-stealing runtime.
pub proof fn law_alt_timer_only_with_work_stealing(opts: RuntimeOpts)
    ensures
        Tuning::of_work_stealing(&opts).alt_timer == opts.enable_alt_timer,
        !Tuning::of_no_steal(&opts).alt_timer,
{
}

/// A work-stealing runtime is asked for with all drivers on, as many workers, the
/// name, the stack size and the hook that the builder says, and the blocking pool
/// limit and keep-alive time that its options give.
pub proof fn law_work_stealing_runtime_is_as_asked<M: Fn(usize)>(builder: RuntimeBuilder, mark: M)
    ensures
        ({
            let settings = builder.work_stealing_settings(mark);
            let blocking = builder.blocking_pool_opts;
            &&& settings.contains_pair(Setting::Flavor, SettingValue::MultiThread)
            &&& settings.contains_pair(Setting::EnableAll, SettingValue::On)
            &&& settings.contains_pair(
                Setting::WorkerThreads,
                SettingValue::Count(builder.threads as nat),
            )
            &&& settings.contains_pair(Setting::ThreadName, SettingValue::Text(builder.name@))
            &&& settings.contains_pair(
                Setting::ThreadStackSize,
                SettingValue::Count(builder.runtime_opts.stack_size() as nat),
            )
            &&& settings.contains_pair(
                Setting::OnThreadStart,
                marks(mark, builder.runtime_opts.stack_size()),
            )
            &&& blocking.max_threads matches Some(max) ==> settings.contains_pair(
                Setting::MaxBlockingThreads,
                SettingValue::Count(max as nat),
            )
            &&& blocking.thread_keep_alive matches Some(ttl) ==> settings.contains_pair(
                Setting::ThreadKeepAlive,
                SettingValue::Nanos(ttl@),
            )
        }),
{
}

/// The runtime of a no-steal worker is asked for with all drivers on, the stack size
/// and the hook that the options say, and the blocking pool limit and keep-alive
/// time that they give. It has no workers of its own and no name: its thread has.
pub proof fn law_no_steal_worker_is_as_asked<M: Fn(usize)>(
    blocking: BlockingPoolOpts,
    opts: RuntimeOpts,
    mark: M,
)
    ensures
        ({
            let settings = worker_settings(&blocking, &opts, mark);
            &&& settings.contains_pair(Setting::Flavor, SettingValue::CurrentThread)
            &&& settings.contains_pair(Setting::EnableAll, SettingValue::On)
            &&& settings.contains_pair(
                Setting::ThreadStackSize,
                SettingValue::Count(opts.stack_size() as nat),
            )
            &&& settings.contains_pair(Setting::OnThreadStart, marks(mark, opts.stack_size()))
            &&& !settings.contains_key(Setting::WorkerThreads)
            &&& !settings.contains_key(Setting::ThreadName)
            &&& blocking.max_threads matches Some(max) ==> settings.contains_pair(
                Setting::MaxBlockingThreads,
                SettingValue::Count(max as nat),
            )
            &&& blocking.thread_keep_alive matches Some(ttl) ==> settings.contains_pair(
                Setting::ThreadKeepAlive,
                SettingValue::Nanos(ttl@),
            )
        }),
{
}

/// A runtime that is asked for with a number of threads and a name only is the one
/// that a builder with default options asks for.
pub proof fn law_plain_runtime_has_the_defaults<M: Fn(usize)>(builder: RuntimeBuilder, mark: M)
    requires
        builder.blocking_pool_opts.is_default(),
        builder.runtime_opts.is_default(),
    ensures
        plain_settings(builder.threads, builder.name@, mark) == builder.work_stealing_settings(
            mark,
        ),
{
    assert(plain_settings(builder.threads, builder.name@, mark)
        =~= builder.work_stealing_settings(mark));
}

/// Which runtimes can be asked for: all with threads where work stealing is off;
/// and where it is on, those whose blocking pool may have threads, that can be
/// counted, and whose threads can bear their name. A valid builder leads to
/// settings that tokio can be asked for.
pub proof fn law_valid_builders<M: Fn(usize)>(builder: RuntimeBuilder, mark: M, limit: usize)
    requires
        builder.blocking_pool_opts.max_threads == Some(limit) || (
        builder.blocking_pool_opts.max_threads is None && limit == 512),
    ensures
        !builder.work_steal ==> (builder.is_valid() <==> builder.threads > 0),
        builder.work_steal ==> (builder.is_valid() <==> {
            &&& builder.threads > 0
            &&& limit > 0
            &&& builder.threads + limit <= usize::MAX
            &&& !builder.name@.contains('\0')
        }),
        builder.work_steal && builder.is_valid() ==> buildable(
            builder.work_stealing_settings(mark),
        ),
{
}

/// A work-stealing runtime is always shut down, as the last step, with exactly the
/// timeout asked for; the only step before that is the drop of the telemetry guard,
/// where there is one.
pub proof fn law_runtime_is_shut_down_last<J, G>(
    runtime: TokioRuntime,
    dial9_guard: Option<G>,
    timeout: Duration,
)
    ensures
        ({
            let steps = steal_steps::<J, G>(runtime, dial9_guard, timeout);
            &&& steps.len() > 0
            &&& steps.last() == ShutdownStep::<J, G>::ShutdownRuntime(runtime, timeout)
            &&& dial9_guard is None ==> steps.len() == 1
            &&& dial9_guard matches Some(guard) ==> steps.len() == 2 && steps[0]
                == ShutdownStep::<J, G>::DropGuard(guard)
        }),
{
}

/// Without telemetry a work-stealing build gives what tokio gives for the settings
/// asked for, and nothing else: its runtime, with no guard, or its error.
pub proof fn law_untraced_build_is_tokios<
    J,
    G,
    M: Fn(usize),
    T: Fn(Builder, Tuning) -> Builder,
>(builder: RuntimeBuilder, r: Result<Runtime<J, G>, BuildError>, mark: M, tune: &T)
    requires
        builder.steals(r, mark, tune),
    ensures
        ({
            let tuning = Tuning::of_work_stealing(&builder.runtime_opts);
            let settings = builder.work_stealing_settings(mark);
            match r {
                Ok(Runtime::Steal { runtime, dial9_guard }) => {
                    &&& dial9_guard is None
                    &&& runtime_settings(runtime) == settings
                    &&& built(tune, tuning, settings, Ok(runtime))
                },
                Ok(Runtime::NoSteal(_)) => false,
                Err(BuildError::Tokio(e)) => built(tune, tuning, settings, Err(e)),
            }
        }),
{
}

/// A build without work stealing keeps all that the builder says, and starts nothing:
/// what it gives is new.
pub proof fn law_no_steal_build_keeps_what_is_said<J, G>(
    builder: RuntimeBuilder,
    runtime: Runtime<J, G>,
)
    requires
        builder.no_steals(runtime),
    ensures
        runtime is NoSteal,
        runtime->NoSteal_0.width() == builder.threads,
        runtime->NoSteal_0.thread_name() == builder.name@,
        runtime->NoSteal_0.blocking() == builder.blocking_pool_opts,
        runtime->NoSteal_0.opts() == builder.runtime_opts,
        runtime->NoSteal_0.is_new(),
{
}

/// What starts a traced runtime is handed the builder's own name and options, and a
/// tokio builder of the very runtime that would be built without telemetry.
pub proof fn law_traced_runtime_is_as_asked<
    G,
    E,
    M: Fn(usize),
    T: Fn(Builder, Tuning) -> Builder,
    D: Fn(Builder, &str, &Dial9RuntimeOpts) -> Result<(TokioRuntime, G), E>,
>(
    builder: RuntimeBuilder,
    opts: Dial9RuntimeOpts,
    mark: M,
    tune: &T,
    start_dial9: &D,
    outcome: Result<(TokioRuntime, G), E>,
)
    requires
        builder.dial9_outcome(opts, mark, tune, start_dial9, outcome),
    ensures
        exists|tokio: Builder, name: &str| #[trigger]
            start_dial9.ensures((tokio, name, &opts), outcome) && {
                &&& name@ == builder.name@
                &&& builder_settings(tokio) == builder.work_stealing_settings(mark)
                &&& tuned_into(
                    tune,
                    Tuning::of_work_stealing(&builder.runtime_opts),
                    builder.work_stealing_settings(mark),
                    tokio,
                )
            },
{
}

} // verus!
