//! Tokio builders, runtimes and handles, and what is set on them.

use vstd::prelude::*;

use tokio::runtime::{Builder, Handle, Runtime as TokioRuntime};

use crate::duration::NANOS_PER_SEC;
use crate::opts::{BlockingPoolOpts, PollTimeHistogram, RuntimeOpts};

verus! {

/// `tokio::runtime::Builder`.
#[verifier::external_type_specification]
#[verifier::external_body]
pub struct ExBuilder(Builder);

/// `tokio::runtime::Runtime`.
#[verifier::external_type_specification]
#[verifier::external_body]
pub struct ExTokioRuntime(TokioRuntime);

/// `tokio::runtime::Handle`.
#[verifier::external_type_specification]
#[verifier::external_body]
pub struct ExHandle(Handle);

/// What can be set on a tokio builder here.
pub enum Setting {
    /// Which scheduler the runtime has.
    Flavor,
    /// Whether all drivers are enabled.
    EnableAll,
    /// How many worker threads there are.
    WorkerThreads,
    /// What the threads are called.
    ThreadName,
    /// How many bytes of stack a thread gets.
    ThreadStackSize,
    /// What runs first on every thread.
    OnThreadStart,
    /// How many threads the blocking pool may have.
    MaxBlockingThreads,
    /// How long an idle blocking thread is kept.
    ThreadKeepAlive,
}

/// The value of a [`Setting`].
pub enum SettingValue {
    /// The work-stealing scheduler.
    MultiThread,
    /// The scheduler of a single thread.
    CurrentThread,
    /// Switched on.
    On,
    /// A number of threads or of bytes.
    Count(nat),
    /// A name.
    Text(Seq<char>),
    /// A span of time.
    Nanos(nat),
    /// A hook that is handed this stack size, and what holds of every run of it.
    Hook(nat, spec_fn(()) -> bool),
}

/// The settings made on a builder, each with the value last given.
pub uninterp spec fn builder_settings(builder: Builder) -> Map<Setting, SettingValue>;

/// The settings that a runtime was built with.
pub uninterp spec fn runtime_settings(runtime: TokioRuntime) -> Map<
    Setting,
    SettingValue,
>;

/// The handle that a runtime holds on itself.
pub uninterp spec fn runtime_handle(runtime: TokioRuntime) -> Handle;

/// The hook that a runtime thread runs first: it marks the thread's stack with
/// the size that the thread was given.
pub struct ThreadStart<M> {
    /// The stack size that the runtime's threads are given.
    pub stack_size: usize,
    /// Marks the stack of the current thread with a size.
    pub mark: M,
}

impl<M: Fn(usize)> ThreadStart<M> {
    /// Marks the stack of the current thread.
    pub fn run(&self)
        requires
            self.mark.requires((self.stack_size,)),
        ensures
            self.mark.ensures((self.stack_size,), ()),
    {
        (self.mark)(self.stack_size)
    }
}

/// The hook that marks the stack of a new thread with `size`, by calling `mark`.
pub open spec fn marks<M: Fn(usize)>(mark: M, size: usize) -> SettingValue {
    SettingValue::Hook(size as nat, |out: ()| mark.ensures((size,), out))
}

/// `Builder::new_multi_thread`: a builder of a work-stealing runtime with
/// nothing set.
#[verifier::external_body]
pub(crate) fn new_multi_thread() -> (r: Builder)
    ensures
        builder_settings(r) == map![Setting::Flavor => SettingValue::MultiThread],
{
    Builder::new_multi_thread()
}

/// `Builder::new_current_thread`: a builder of a single-threaded runtime with
/// nothing set.
#[verifier::external_body]
pub(crate) fn new_current_thread() -> (r: Builder)
    ensures
        builder_settings(r) == map![Setting::Flavor => SettingValue::CurrentThread],
{
    Builder::new_current_thread()
}

/// `Builder::enable_all`: switches all drivers on and touches nothing else.
#[verifier::external_body]
pub(crate) fn enable_all(builder: &mut Builder)
    ensures
        builder_settings(*final(builder)) == builder_settings(*old(builder)).insert(
            Setting::EnableAll,
            SettingValue::On,
        ),
{
    builder.enable_all();
}

/// `Builder::worker_threads`: sets the number of workers and touches nothing
/// else. It panics on zero.
#[verifier::external_body]
pub(crate) fn worker_threads(builder: &mut Builder, count: usize)
    requires
        count > 0,
    ensures
        builder_settings(*final(builder)) == builder_settings(*old(builder)).insert(
            Setting::WorkerThreads,
            SettingValue::Count(count as nat),
        ),
{
    builder.worker_threads(count);
}

/// `Builder::thread_name`: sets the name of the threads and touches nothing
/// else.
#[verifier::external_body]
pub(crate) fn thread_name(builder: &mut Builder, name: &str)
    ensures
        builder_settings(*final(builder)) == builder_settings(*old(builder)).insert(
            Setting::ThreadName,
            SettingValue::Text(name@),
        ),
{
    builder.thread_name(name);
}

/// `Builder::thread_stack_size`: sets the stack size of the threads and
/// touches nothing else.
#[verifier::external_body]
pub(crate) fn thread_stack_size(builder: &mut Builder, bytes: usize)
    ensures
        builder_settings(*final(builder)) == builder_settings(*old(builder)).insert(
            Setting::ThreadStackSize,
            SettingValue::Count(bytes as nat),
        ),
{
    builder.thread_stack_size(bytes);
}

/// `Builder::on_thread_start`: has every thread run `start` first, and touches
/// nothing else. The hook is run once per thread, any number of times, so it
/// must be callable whenever it is called.
#[verifier::external_body]
pub(crate) fn on_thread_start<M: Fn(usize) + Send + Sync + 'static>(
    builder: &mut Builder,
    start: ThreadStart<M>,
)
    requires
        start.mark.requires((start.stack_size,)),
    ensures
        builder_settings(*final(builder)) == builder_settings(*old(builder)).insert(
            Setting::OnThreadStart,
            marks(start.mark, start.stack_size),
        ),
{
    builder.on_thread_start(move || start.run());
}

/// `Builder::max_blocking_threads`: sets the limit of the blocking pool and
/// touches nothing else. It panics on zero.
#[verifier::external_body]
pub(crate) fn max_blocking_threads(builder: &mut Builder, count: usize)
    requires
        count > 0,
    ensures
        builder_settings(*final(builder)) == builder_settings(*old(builder)).insert(
            Setting::MaxBlockingThreads,
            SettingValue::Count(count as nat),
        ),
{
    builder.max_blocking_threads(count);
}

/// `Builder::thread_keep_alive`, on the span that `std::time::Duration::new`
/// makes of whole seconds and the nanoseconds beyond them: sets how long idle
/// blocking threads are kept and touches nothing else.
#[verifier::external_body]
pub(crate) fn thread_keep_alive(builder: &mut Builder, secs: u64, subsec_nanos: u32)
    requires
        subsec_nanos < NANOS_PER_SEC,
    ensures
        builder_settings(*final(builder)) == builder_settings(*old(builder)).insert(
            Setting::ThreadKeepAlive,
            SettingValue::Nanos((secs * NANOS_PER_SEC + subsec_nanos) as nat),
        ),
{
    builder.thread_keep_alive(std::time::Duration::new(secs, subsec_nanos));
}

/// How many threads tokio's blocking pool may have when nothing is set.
pub const TOKIO_MAX_BLOCKING_THREADS: usize = 512;

/// The limit of the blocking pool under `settings`.
pub open spec fn blocking_limit(settings: Map<Setting, SettingValue>) -> nat {
    if settings.contains_key(Setting::MaxBlockingThreads) {
        settings[Setting::MaxBlockingThreads]->Count_0
    } else {
        TOKIO_MAX_BLOCKING_THREADS as nat
    }
}

/// Whether tokio can be asked for a runtime with `settings`. A work-stealing
/// runtime counts its workers on top of the blocking pool's limit, in a
/// `usize`, and starts its threads at once, whose name must hold no NUL.
pub open spec fn buildable(settings: Map<Setting, SettingValue>) -> bool {
    settings[Setting::Flavor] == SettingValue::MultiThread ==> {
        &&& settings.contains_key(Setting::WorkerThreads)
        &&& settings[Setting::WorkerThreads]->Count_0 + blocking_limit(settings) <= usize::MAX
        &&& settings.contains_key(Setting::ThreadName)
        &&& !settings[Setting::ThreadName]->Text_0.contains('\0')
    }
}

/// `Builder::build`: a runtime with the builder's settings.
///
/// Whether it succeeds is up to the machine: it opens drivers, and a
/// work-stealing runtime starts its threads, so nothing is said of that. Tokio
/// panics where the machine refuses it a thread.
#[verifier::external_body]
fn build(builder: Builder) -> (r: Result<TokioRuntime, std::io::Error>)
    requires
        buildable(builder_settings(builder)),
    ensures
        r matches Ok(runtime) ==> runtime_settings(runtime) == builder_settings(builder),
{
    let mut builder = builder;
    builder.build()
}

/// Whether tokio, asked for the runtime of `builder`, can give `outcome`.
pub closed spec fn tokio_gave(
    builder: Builder,
    outcome: Result<TokioRuntime, std::io::Error>,
) -> bool {
    call_ensures(build, (builder,), outcome)
}

/// Asks tokio for the runtime of `builder`, and passes on what it gives.
pub(crate) fn try_build(builder: Builder) -> (r: Result<TokioRuntime, std::io::Error>)
    requires
        buildable(builder_settings(builder)),
    ensures
        tokio_gave(builder, r),
        r matches Ok(runtime) ==> runtime_settings(runtime) == builder_settings(builder),
{
    build(builder)
}

/// `Runtime::handle`: the handle that the runtime holds on itself.
pub assume_specification[ TokioRuntime::handle ](
    runtime: &TokioRuntime,
) -> (r: &Handle)
    ensures
        *r == runtime_handle(*runtime),
;

/// `Handle::clone`: a handle is a counted reference to its runtime, and the
/// clone refers to the same one.
pub assume_specification[ <Handle as Clone>::clone ](handle: &Handle) -> (r: Handle)
    ensures
        r == *handle,
;

/// The settings of `opts` on top of `settings`: what is unset is left alone.
pub open spec fn with_blocking_opts(
    settings: Map<Setting, SettingValue>,
    opts: &BlockingPoolOpts,
) -> Map<Setting, SettingValue> {
    let limited = match opts.max_threads {
        Some(max) => settings.insert(
            Setting::MaxBlockingThreads,
            SettingValue::Count(max as nat),
        ),
        None => settings,
    };
    match opts.thread_keep_alive {
        Some(ttl) => limited.insert(Setting::ThreadKeepAlive, SettingValue::Nanos(ttl@)),
        None => limited,
    }
}

/// Apply [`BlockingPoolOpts`] to a tokio [`Builder`].
pub fn apply_blocking_opts(builder: &mut Builder, opts: &BlockingPoolOpts)
    requires
        opts.is_valid(),
    ensures
        builder_settings(*final(builder)) == with_blocking_opts(
            builder_settings(*old(builder)),
            opts,
        ),
{
    if let Some(max) = opts.max_threads {
        max_blocking_threads(builder, max);
    }
    if let Some(ttl) = opts.thread_keep_alive {
        thread_keep_alive(builder, ttl.as_secs(), ttl.subsec_nanos());
    }
}

/// Why a runtime could not be built.
#[derive(Debug)]
pub enum BuildError {
    /// Tokio could not bring a runtime up.
    Tokio(std::io::Error),
}

/// What a builder is asked for that only a tokio built with
/// `--cfg tokio_unstable` has.
#[derive(Debug, Clone, Copy, PartialEq, Eq, Structural)]
pub struct Tuning {
    /// The poll-time histogram to switch on, if any.
    pub histogram: Option<PollTimeHistogram>,
    /// Whether the alternative timer is switched on.
    pub alt_timer: bool,
}

impl Tuning {
    /// What `opts` ask for on a work-stealing runtime.
    pub open spec fn of_work_stealing(opts: &RuntimeOpts) -> Tuning {
        Tuning { histogram: opts.metrics.histogram(), alt_timer: opts.enable_alt_timer }
    }

    /// What `opts` ask for on a worker of a no-steal runtime, which has no
    /// alternative timer.
    pub open spec fn of_no_steal(opts: &RuntimeOpts) -> Tuning {
        Tuning { histogram: opts.metrics.histogram(), alt_timer: false }
    }

    /// The tuning of a work-stealing runtime.
    pub fn work_stealing(opts: &RuntimeOpts) -> (r: Tuning)
        ensures
            r == Tuning::of_work_stealing(opts),
    {
        Tuning {
            histogram: opts.metrics.requested_histogram(),
            alt_timer: opts.enable_alt_timer,
        }
    }

    /// The tuning of a worker of a no-steal runtime.
    pub fn no_steal(opts: &RuntimeOpts) -> (r: Tuning)
        ensures
            r == Tuning::of_no_steal(opts),
    {
        Tuning { histogram: opts.metrics.requested_histogram(), alt_timer: false }
    }
}

/// Whether `tune` takes every builder and leaves on it the settings named
/// here: it may only add what they do not name.
pub open spec fn only_tunes<T: Fn(Builder, Tuning) -> Builder>(tune: &T) -> bool {
    &&& forall|builder: Builder, tuning: Tuning| #[trigger] tune.requires((builder, tuning))
    &&& forall|builder: Builder, tuning: Tuning, tuned: Builder| #[trigger]
        tune.ensures((builder, tuning), tuned) ==> builder_settings(tuned) == builder_settings(
            builder,
        )
}

/// Whether `tune`, given `tuning` and a builder with `settings`, can give `tuned`.
pub open spec fn tuned_into<T: Fn(Builder, Tuning) -> Builder>(
    tune: &T,
    tuning: Tuning,
    settings: Map<Setting, SettingValue>,
    tuned: Builder,
) -> bool {
    exists|builder: Builder| #[trigger]
        tune.ensures((builder, tuning), tuned) && builder_settings(builder) == settings
}

/// Whether tokio can give `outcome` on a builder that `tune` can make of `tuning`
/// and a builder with `settings`.
pub open spec fn built<T: Fn(Builder, Tuning) -> Builder>(
    tune: &T,
    tuning: Tuning,
    settings: Map<Setting, SettingValue>,
    outcome: Result<TokioRuntime, std::io::Error>,
) -> bool {
    exists|builder: Builder| #[trigger]
        tuned_into(tune, tuning, settings, builder) && tokio_gave(builder, outcome)
}

/// Blocking pool options set the limit and the keep-alive time that they give, to
/// the thread and to the nanosecond; what they leave unset stays as it was, and
/// they touch nothing else.
pub proof fn law_blocking_opts_set_what_they_give(
    settings: Map<Setting, SettingValue>,
    opts: &BlockingPoolOpts,
    other: Setting,
)
    requires
        !(other is MaxBlockingThreads),
        !(other is ThreadKeepAlive),
    ensures
        ({
            let applied = with_blocking_opts(settings, opts);
            &&& opts.max_threads matches Some(max) ==> applied.contains_pair(
                Setting::MaxBlockingThreads,
                SettingValue::Count(max as nat),
            ) && blocking_limit(applied) == max
            &&& opts.max_threads is None ==> same_setting(
                settings,
                applied,
                Setting::MaxBlockingThreads,
            ) && blocking_limit(applied) == blocking_limit(settings)
            &&& opts.thread_keep_alive matches Some(ttl) ==> applied.contains_pair(
                Setting::ThreadKeepAlive,
                SettingValue::Nanos(ttl@),
            )
            &&& opts.thread_keep_alive is None ==> same_setting(
                settings,
                applied,
                Setting::ThreadKeepAlive,
            )
            &&& same_setting(settings, applied, other)
        }),
{
}

/// Whether `setting` is the same in both, or made in neither.
pub open spec fn same_setting(
    a: Map<Setting, SettingValue>,
    b: Map<Setting, SettingValue>,
    setting: Setting,
) -> bool {
    &&& a.contains_key(setting) <==> b.contains_key(setting)
    &&& a.contains_key(setting) ==> a[setting] == b[setting]
}

/// A work-stealing runtime is only ever asked for where its workers and its blocking
/// pool together can be counted, with 512 threads where no limit is set, and where
/// its threads can bear their name. A single-threaded runtime can always be asked
/// for.
pub proof fn law_only_countable_runtimes_are_asked_for(
    settings: Map<Setting, SettingValue>,
    workers: nat,
    limit: nat,
    name: Seq<char>,
)
    requires
        settings.contains_pair(Setting::WorkerThreads, SettingValue::Count(workers)),
        settings.contains_pair(Setting::ThreadName, SettingValue::Text(name)),
        settings.contains_key(Setting::MaxBlockingThreads) ==> settings[Setting::MaxBlockingThreads]
            == SettingValue::Count(limit),
        !settings.contains_key(Setting::MaxBlockingThreads) ==> limit == 512,
    ensures
        settings[Setting::Flavor] == SettingValue::MultiThread ==> (buildable(settings) <==> workers
            + limit <= usize::MAX && !name.contains('\0')),
        settings[Setting::Flavor] == SettingValue::CurrentThread ==> buildable(settings),
{
}

/// A run of the thread hook is a call of `mark` with the stack size, and nothing
/// else; hooks with different sizes are different.
pub proof fn law_hook_marks_with_its_size<M: Fn(usize)>(mark: M, size: usize, other: usize)
    ensures
        marks(mark, size) is Hook,
        marks(mark, size)->Hook_0 == size,
        (marks(mark, size)->Hook_1)(()) <==> mark.ensures((size,), ()),
        size != other ==> marks(mark, size) != marks(mark, other),
{
}

/// What is asked for of an unstable tokio is what the options ask for: the same
/// histogram in both flavors, and the alternative timer with work stealing only.
pub proof fn law_tuning_is_as_asked(opts: RuntimeOpts)
    ensures
        Tuning::of_work_stealing(&opts).histogram == opts.metrics.histogram(),
        Tuning::of_no_steal(&opts).histogram == opts.metrics.histogram(),
        Tuning::of_work_stealing(&opts).alt_timer == opts.enable_alt_timer,
        !Tuning::of_no_steal(&opts).alt_timer,
{
}

/// Tuning changes none of the settings named here, and a runtime has the settings
/// that its builder had before it was tuned.
pub proof fn law_tuning_keeps_the_settings<T: Fn(Builder, Tuning) -> Builder>(
    tune: &T,
    tuning: Tuning,
    settings: Map<Setting, SettingValue>,
    builder: Builder,
    runtime: TokioRuntime,
)
    requires
        only_tunes(tune),
    ensures
        tuned_into(tune, tuning, settings, builder) ==> builder_settings(builder) == settings,
        built(tune, tuning, settings, Ok(runtime)) ==> runtime_settings(runtime) == settings,
{
    if built(tune, tuning, settings, Ok(runtime)) {
        let used = choose|builder: Builder| #[trigger]
            tuned_into(tune, tuning, settings, builder) && tokio_gave(builder, Ok(runtime));
        assert(builder_settings(used) == settings);
    }
}

/// A tuned builder is one that `tune` gave, asked with exactly this tuning, for a
/// builder with exactly these settings.
pub proof fn law_tuning_is_handed_over<T: Fn(Builder, Tuning) -> Builder>(
    tune: &T,
    tuning: Tuning,
    settings: Map<Setting, SettingValue>,
    tuned: Builder,
)
    requires
        forall|builder: Builder| #[trigger]
            tune.ensures((builder, tuning), tuned) ==> builder_settings(builder) != settings,
    ensures
        !tuned_into(tune, tuning, settings, tuned),
{
}

/// Anything may tune builders that takes every builder and leaves alone what is set
/// on it here, and nothing else may.
pub proof fn law_whatever_keeps_settings_may_tune<T: Fn(Builder, Tuning) -> Builder>(tune: &T)
    ensures
        only_tunes(tune) <==> {
            &&& forall|builder: Builder, tuning: Tuning| #[trigger] tune.requires((builder, tuning))
            &&& forall|builder: Builder, tuning: Tuning, tuned: Builder|
                #![trigger tune.ensures((builder, tuning), tuned)]
                tune.ensures((builder, tuning), tuned) ==> builder_settings(builder)
                    == builder_settings(tuned)
        },
{
}

/// What tokio can give on a builder is what a call of its `build` can, and no more.
proof fn law_only_tokio_gives_runtimes(
    builder: Builder,
    outcome: Result<TokioRuntime, std::io::Error>,
)
    ensures
        tokio_gave(builder, outcome) <==> call_ensures(build, (builder,), outcome),
{
}

} // verus!
