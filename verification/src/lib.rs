//! Tokio runtimes for multi-threaded services.
//!
//! Tokio runtime comes in two flavors: a single-threaded runtime
//! and a multi-threaded one which provides work stealing.
//! Benchmark shows that, compared to the single-threaded runtime, the multi-threaded one
//! has some overhead due to its more sophisticated work steal scheduling.
//!
//! This crate provides a third flavor: a multi-threaded runtime without work stealing.
//! This flavor is as efficient as the single-threaded runtime while it allows the async
//! program to use multiple cores.
//!
//! What a runtime is built with, who is handed which handle, and in which order
//! runtimes come down is decided here and proved. What only the process can do is
//! passed in by the caller: starting and joining threads, keeping a value per
//! thread, and creating files.

pub mod current;
pub mod dial9;
pub mod duration;
pub mod no_steal;
pub mod opts;
pub mod runtime;
pub mod shutdown;
mod std_items;
pub mod tokio_rt;
pub mod worker_stack;

pub use current::{current_handle, CurrentHandleError, Registry};
pub use dial9::{
    Dial9Error, Dial9RuntimeOpts, Dial9S3UploadOpts, DEFAULT_DIAL9_MAX_FILE_SIZE,
    DEFAULT_DIAL9_MAX_TOTAL_SIZE,
};
pub use duration::Duration;
pub use no_steal::{Control, HandleError, NoStealRuntime, PoolSet, Pools, Worker};
pub use opts::{
    BlockingPoolOpts, PollTimeHistogram, RuntimeMetricsOpts, RuntimeMetricsPollTimeHistogramScale,
    RuntimeOpts, DEFAULT_THREAD_STACK_SIZE,
};
pub use runtime::{Runtime, RuntimeBuilder};
pub use shutdown::ShutdownStep;
pub use tokio_rt::{BuildError, Tuning};
