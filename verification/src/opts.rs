//! Configuration options of a runtime.

use vstd::prelude::*;

use crate::dial9::Dial9RuntimeOpts;
use crate::duration::Duration;

verus! {

/// Default stack size, in bytes, for threads the runtimes spawn.
///
/// Tokio's own default is 2 MiB, and that is not enough: a worker polls the
/// whole application future chain on this stack, and a debug build gives every
/// async state machine far larger frames than a release build does. 8 MiB is
/// the size that Linux gives a process's main thread by default. On a 64-bit
/// target the cost of raising it is address space, not memory: a thread stack
/// is committed page by page as it is touched.
///
/// Override per runtime with the `thread_stack_size` field of [`RuntimeOpts`].
pub const DEFAULT_THREAD_STACK_SIZE: usize = 8 * 1024 * 1024;

/// Configuration options for the blocking thread pool used by a runtime.
#[derive(Debug)]
pub struct BlockingPoolOpts {
    /// The maximum number of threads in the blocking thread pool.
    ///
    /// When not set, the tokio default (512) is used.
    pub max_threads: Option<usize>,
    /// The duration that idle blocking threads are kept alive before being shut down.
    ///
    /// When not set, the tokio default (10 seconds) is used.
    pub thread_keep_alive: Option<Duration>,
}

impl BlockingPoolOpts {
    /// Whether the options can be honoured: a blocking pool of no threads
    /// cannot be asked for.
    pub open spec fn is_valid(&self) -> bool {
        self.max_threads != Some(0usize)
    }

    /// Whether nothing is set.
    pub open spec fn is_default(&self) -> bool {
        &&& self.max_threads is None
        &&& self.thread_keep_alive is None
    }
}

impl Default for BlockingPoolOpts {
    fn default() -> (r: BlockingPoolOpts)
        ensures
            r.is_default(),
    {
        BlockingPoolOpts { max_threads: None, thread_keep_alive: None }
    }
}

impl Clone for BlockingPoolOpts {
    fn clone(&self) -> (r: BlockingPoolOpts)
        ensures
            r == *self,
    {
        BlockingPoolOpts {
            max_threads: self.max_threads,
            thread_keep_alive: self.thread_keep_alive,
        }
    }
}

/// Bucket scale for Tokio's poll-time histogram.
#[derive(Debug, Clone, Copy, PartialEq, Eq, Structural)]
pub enum RuntimeMetricsPollTimeHistogramScale {
    /// Equal-width buckets.
    Linear,
    /// Buckets double in width at each step.
    Log,
}

/// Configuration options for runtime metrics collection.
#[derive(Debug)]
pub struct RuntimeMetricsOpts {
    /// Enable Tokio's poll-time histogram on the runtime.
    ///
    /// This must be configured before the runtime is built. Enabling it adds
    /// two timestamp reads to every task poll.
    pub poll_time_histogram: bool,
    /// Histogram bucket scale for Tokio's poll-time histogram.
    pub poll_time_histogram_scale: Option<RuntimeMetricsPollTimeHistogramScale>,
    /// Width of the first histogram bucket.
    pub poll_time_histogram_resolution: Option<Duration>,
    /// Number of histogram buckets. Memory usage scales with runtimes x workers x buckets.
    pub poll_time_histogram_buckets: Option<usize>,
}

/// A poll-time histogram to be switched on, with the knobs that are set.
#[derive(Debug, Clone, Copy, PartialEq, Eq, Structural)]
pub struct PollTimeHistogram {
    /// Bucket scale, where one is asked for.
    pub scale: Option<RuntimeMetricsPollTimeHistogramScale>,
    /// Width of the first bucket, where one is asked for; never zero.
    pub resolution: Option<Duration>,
    /// Number of buckets, where one is asked for; never zero.
    pub buckets: Option<usize>,
}

impl RuntimeMetricsOpts {
    /// The histogram that the options ask for. A zero width and a zero number
    /// of buckets count as unset.
    pub open spec fn histogram(&self) -> Option<PollTimeHistogram> {
        if !self.poll_time_histogram {
            None
        } else {
            Some(
                PollTimeHistogram {
                    scale: self.poll_time_histogram_scale,
                    resolution: match self.poll_time_histogram_resolution {
                        Some(width) if width@ > 0 => Some(width),
                        _ => None,
                    },
                    buckets: match self.poll_time_histogram_buckets {
                        Some(count) if count > 0 => Some(count),
                        _ => None,
                    },
                },
            )
        }
    }

    /// Whether no metrics are asked for and nothing is set.
    pub open spec fn is_default(&self) -> bool {
        &&& !self.poll_time_histogram
        &&& self.poll_time_histogram_scale is None
        &&& self.poll_time_histogram_resolution is None
        &&& self.poll_time_histogram_buckets is None
    }

    /// The histogram to switch on before the runtime is built, if any.
    pub fn requested_histogram(&self) -> (r: Option<PollTimeHistogram>)
        ensures
            r == self.histogram(),
    {
        if !self.poll_time_histogram {
            return None;
        }
        let resolution: Option<Duration> = match self.poll_time_histogram_resolution {
            Some(width) => if width.is_zero() {
                None
            } else {
                Some(width)
            },
            None => None,
        };
        let buckets: Option<usize> = match self.poll_time_histogram_buckets {
            Some(count) => if count > 0 {
                Some(count)
            } else {
                None
            },
            None => None,
        };
        Some(PollTimeHistogram { scale: self.poll_time_histogram_scale, resolution, buckets })
    }
}

impl Default for RuntimeMetricsOpts {
    fn default() -> (r: RuntimeMetricsOpts)
        ensures
            r.is_default(),
    {
        RuntimeMetricsOpts {
            poll_time_histogram: false,
            poll_time_histogram_scale: None,
            poll_time_histogram_resolution: None,
            poll_time_histogram_buckets: None,
        }
    }
}

impl Clone for RuntimeMetricsOpts {
    fn clone(&self) -> (r: RuntimeMetricsOpts)
        ensures
            r == *self,
    {
        RuntimeMetricsOpts {
            poll_time_histogram: self.poll_time_histogram,
            poll_time_histogram_scale: self.poll_time_histogram_scale,
            poll_time_histogram_resolution: self.poll_time_histogram_resolution,
            poll_time_histogram_buckets: self.poll_time_histogram_buckets,
        }
    }
}

/// Configuration options for a Tokio runtime.
#[derive(Debug)]
pub struct RuntimeOpts {
    /// Options for runtime metrics collection.
    pub metrics: RuntimeMetricsOpts,
    /// Enable Tokio's experimental alternative timer.
    ///
    /// This requires building with `--cfg tokio_unstable` and only applies to
    /// Tokio's multi-threaded runtime.
    pub enable_alt_timer: bool,
    /// Stack size, in bytes, for every thread this runtime spawns.
    ///
    /// When not set, [`DEFAULT_THREAD_STACK_SIZE`] is used. It applies to
    /// work-stealing worker threads, to the per-core threads of a no-steal
    /// runtime, and to the blocking pool.
    pub thread_stack_size: Option<usize>,
    /// Options for dial9 Tokio telemetry.
    pub dial9: Option<Dial9RuntimeOpts>,
}

impl RuntimeOpts {
    /// The stack size that the options ask for, in bytes.
    pub open spec fn stack_size(&self) -> usize {
        match self.thread_stack_size {
            Some(size) if size > 0 => size,
            _ => DEFAULT_THREAD_STACK_SIZE,
        }
    }

    /// Whether nothing is switched on and nothing is set.
    pub open spec fn is_default(&self) -> bool {
        &&& self.metrics.is_default()
        &&& !self.enable_alt_timer
        &&& self.thread_stack_size is None
        &&& self.dial9 is None
    }

    /// The stack size these options ask for, in bytes.
    ///
    /// The `thread_stack_size` field when set, otherwise
    /// [`DEFAULT_THREAD_STACK_SIZE`]. A zero is treated as unset rather than
    /// passed on: a runtime that refuses to start is a worse answer to a bad
    /// config value than the default is.
    pub fn resolved_thread_stack_size(&self) -> (r: usize)
        ensures
            r == self.stack_size(),
    {
        match self.thread_stack_size {
            Some(size) => if size > 0 {
                size
            } else {
                DEFAULT_THREAD_STACK_SIZE
            },
            None => DEFAULT_THREAD_STACK_SIZE,
        }
    }
}

impl Default for RuntimeOpts {
    fn default() -> (r: RuntimeOpts)
        ensures
            r.is_default(),
    {
        RuntimeOpts {
            metrics: RuntimeMetricsOpts::default(),
            enable_alt_timer: false,
            thread_stack_size: None,
            dial9: None,
        }
    }
}

impl Clone for RuntimeOpts {
    fn clone(&self) -> (r: RuntimeOpts)
        ensures
            r == *self,
    {
        RuntimeOpts {
            metrics: self.metrics.clone(),
            enable_alt_timer: self.enable_alt_timer,
            thread_stack_size: self.thread_stack_size,
            dial9: match &self.dial9 {
                Some(opts) => Some(opts.clone()),
                None => None,
            },
        }
    }
}

/// No options ask for an empty stack.
pub proof fn law_stack_size_is_never_zero(opts: RuntimeOpts)
    ensures
        opts.stack_size() > 0,
{
}

/// No options ask for a histogram with an empty first bucket or with no
/// buckets, and none for one that is not enabled.
pub proof fn law_histogram_knobs_are_never_zero(opts: RuntimeMetricsOpts)
    ensures
        opts.histogram() is Some <==> opts.poll_time_histogram,
        opts.histogram() matches Some(h) ==> (h.resolution matches Some(width) ==> width@ > 0),
        opts.histogram() matches Some(h) ==> (h.buckets matches Some(count) ==> count > 0),
{
}

/// A stack size that is set, and not zero, is the one that is used, however large
/// or small; in every other case the default of 8 MiB is.
pub proof fn law_stack_size_is_the_one_asked_for(opts: RuntimeOpts, size: usize)
    ensures
        size > 0 && opts.thread_stack_size == Some(size) ==> opts.stack_size() == size,
        opts.thread_stack_size is None || opts.thread_stack_size == Some(0usize)
            ==> opts.stack_size() == 8_388_608,
{
}

/// A histogram that is switched on has the scale asked for, and the width and the
/// number of buckets asked for where they are not zero.
pub proof fn law_histogram_is_the_one_asked_for(
    opts: RuntimeMetricsOpts,
    width: Duration,
    count: usize,
)
    requires
        opts.poll_time_histogram,
    ensures
        opts.histogram() matches Some(h) && {
            &&& h.scale == opts.poll_time_histogram_scale
            &&& opts.poll_time_histogram_resolution is None ==> h.resolution is None
            &&& opts.poll_time_histogram_resolution == Some(width) && width@ > 0
                ==> h.resolution == Some(width)
            &&& opts.poll_time_histogram_resolution == Some(width) && width@ == 0
                ==> h.resolution is None
            &&& opts.poll_time_histogram_buckets is None ==> h.buckets is None
            &&& opts.poll_time_histogram_buckets == Some(count) && count > 0 ==> h.buckets == Some(
                count,
            )
            &&& opts.poll_time_histogram_buckets == Some(0usize) ==> h.buckets is None
        },
{
}

/// Default options ask for nothing: the default stack, no histogram, tokio's own
/// timer and blocking pool, and no telemetry.
pub proof fn law_defaults_ask_for_nothing(opts: RuntimeOpts, blocking: BlockingPoolOpts)
    ensures
        opts.is_default() ==> {
            &&& opts.stack_size() == DEFAULT_THREAD_STACK_SIZE
            &&& opts.metrics.histogram() is None
            &&& opts.metrics.poll_time_histogram_scale is None
            &&& opts.metrics.poll_time_histogram_resolution is None
            &&& opts.metrics.poll_time_histogram_buckets is None
            &&& !opts.enable_alt_timer
            &&& opts.thread_stack_size is None
            &&& opts.dial9 is None
        },
        blocking.is_default() ==> {
            &&& blocking.max_threads is None
            &&& blocking.thread_keep_alive is None
            &&& blocking.is_valid()
        },
{
}

/// Blocking pool options are turned down for one reason only: a limit of zero
/// threads.
pub proof fn law_only_an_empty_blocking_pool_is_invalid(opts: BlockingPoolOpts, count: usize)
    ensures
        opts.max_threads is None ==> opts.is_valid(),
        opts.max_threads == Some(count) ==> (opts.is_valid() <==> count > 0),
{
}

} // verus!
