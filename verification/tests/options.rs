//! Options and what they resolve to.

use pingora_runtime::{
    BlockingPoolOpts, Dial9RuntimeOpts, Duration, PollTimeHistogram, RuntimeBuilder,
    RuntimeMetricsOpts, RuntimeMetricsPollTimeHistogramScale, RuntimeOpts, Tuning,
    DEFAULT_THREAD_STACK_SIZE,
};

#[test]
fn a_zero_stack_size_falls_back_to_the_default() {
    let opts = RuntimeOpts {
        thread_stack_size: Some(0),
        ..RuntimeOpts::default()
    };
    assert_eq!(
        opts.resolved_thread_stack_size(),
        DEFAULT_THREAD_STACK_SIZE,
        "a zero would make tokio panic on build; the default is the better answer"
    );
    assert_eq!(
        RuntimeOpts::default().resolved_thread_stack_size(),
        DEFAULT_THREAD_STACK_SIZE,
        "unset means the default"
    );
}

#[test]
fn a_stack_size_that_is_set_is_kept() {
    assert_eq!(DEFAULT_THREAD_STACK_SIZE, 8_388_608);
    let opts = RuntimeOpts {
        thread_stack_size: Some(1),
        ..RuntimeOpts::default()
    };
    assert_eq!(opts.resolved_thread_stack_size(), 1);
}

#[test]
fn durations_carry_and_split() {
    let d = Duration::new(1, 2_500_000_000);
    assert_eq!(d.as_secs(), 3);
    assert_eq!(d.subsec_nanos(), 500_000_000);
    assert!(!d.is_zero());
    assert!(Duration::from_secs(0).is_zero());
    assert!(!Duration::new(0, 1).is_zero());
    assert_eq!(Duration::new(0, 1_000_000_000), Duration::from_secs(1));
}

#[test]
fn a_histogram_is_only_asked_for_when_enabled() {
    let opts = RuntimeMetricsOpts {
        poll_time_histogram: false,
        poll_time_histogram_scale: Some(RuntimeMetricsPollTimeHistogramScale::Log),
        poll_time_histogram_resolution: Some(Duration::from_secs(1)),
        poll_time_histogram_buckets: Some(10),
    };
    assert_eq!(opts.requested_histogram(), None);
    assert_eq!(RuntimeMetricsOpts::default().requested_histogram(), None);
}

#[test]
fn zero_histogram_knobs_count_as_unset() {
    let opts = RuntimeMetricsOpts {
        poll_time_histogram: true,
        poll_time_histogram_scale: Some(RuntimeMetricsPollTimeHistogramScale::Linear),
        poll_time_histogram_resolution: Some(Duration::from_secs(0)),
        poll_time_histogram_buckets: Some(0),
    };
    assert_eq!(
        opts.requested_histogram(),
        Some(PollTimeHistogram {
            scale: Some(RuntimeMetricsPollTimeHistogramScale::Linear),
            resolution: None,
            buckets: None,
        })
    );
    let opts = RuntimeMetricsOpts {
        poll_time_histogram: true,
        poll_time_histogram_scale: None,
        poll_time_histogram_resolution: Some(Duration::new(0, 100_000)),
        poll_time_histogram_buckets: Some(15),
    };
    assert_eq!(
        opts.requested_histogram(),
        Some(PollTimeHistogram {
            scale: None,
            resolution: Some(Duration::new(0, 100_000)),
            buckets: Some(15),
        })
    );
}

#[test]
fn the_alternative_timer_is_for_work_stealing_only() {
    let opts = RuntimeOpts {
        enable_alt_timer: true,
        ..RuntimeOpts::default()
    };
    assert_eq!(
        Tuning::work_stealing(&opts),
        Tuning {
            histogram: None,
            alt_timer: true
        }
    );
    assert_eq!(
        Tuning::no_steal(&opts),
        Tuning {
            histogram: None,
            alt_timer: false
        }
    );
}

#[test]
fn a_builder_collects_its_options() {
    let builder = RuntimeBuilder::new(4, "my-service");
    assert_eq!(builder.threads, 4);
    assert_eq!(builder.name, "my-service");
    assert!(builder.work_steal);
    assert!(!builder.ignores_dial9());

    let builder = builder
        .runtime_opts(RuntimeOpts {
            dial9: Some(Dial9RuntimeOpts::new("trace")),
            ..RuntimeOpts::default()
        })
        .work_steal(false)
        .blocking_pool_opts(BlockingPoolOpts {
            max_threads: Some(64),
            thread_keep_alive: Some(Duration::from_secs(30)),
        })
        .metrics_opts(RuntimeMetricsOpts {
            poll_time_histogram: true,
            ..RuntimeMetricsOpts::default()
        })
        .thread_stack_size(123)
        .enable_alt_timer(true);
    assert!(!builder.work_steal);
    assert!(builder.ignores_dial9());
    assert_eq!(builder.blocking_pool_opts.max_threads, Some(64));
    assert_eq!(
        builder.blocking_pool_opts.thread_keep_alive,
        Some(Duration::from_secs(30))
    );
    assert!(builder.runtime_opts.metrics.poll_time_histogram);
    assert_eq!(builder.runtime_opts.thread_stack_size, Some(123));
    assert!(builder.runtime_opts.enable_alt_timer);
    // Setting the options of the runtime replaces all of them.
    let builder = builder.runtime_opts(RuntimeOpts::default());
    assert_eq!(builder.runtime_opts.thread_stack_size, None);
    assert!(!builder.ignores_dial9());
}

#[test]
fn clones_keep_every_option() {
    let opts = RuntimeOpts {
        metrics: RuntimeMetricsOpts {
            poll_time_histogram: true,
            poll_time_histogram_scale: Some(RuntimeMetricsPollTimeHistogramScale::Log),
            poll_time_histogram_resolution: Some(Duration::from_secs(1)),
            poll_time_histogram_buckets: Some(3),
        },
        enable_alt_timer: true,
        thread_stack_size: Some(77),
        dial9: Some(Dial9RuntimeOpts::new("a/b").with_max_file_size(5)),
    };
    assert_eq!(format!("{:?}", opts.clone()), format!("{:?}", opts));
    let pool = BlockingPoolOpts {
        max_threads: Some(2),
        thread_keep_alive: None,
    };
    assert_eq!(format!("{:?}", pool.clone()), format!("{:?}", pool));
}
