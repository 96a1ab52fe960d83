//! dial9 options, and how a traced runtime comes up.

use std::path::PathBuf;

use pingora_runtime::dial9::{
    dial9_step, is_blank, is_white_space, Dial9ErrorKind, Dial9Event, Dial9Step,
};
use pingora_runtime::{
    Dial9Error, Dial9RuntimeOpts, Dial9S3UploadOpts, Duration, DEFAULT_DIAL9_MAX_FILE_SIZE,
    DEFAULT_DIAL9_MAX_TOTAL_SIZE,
};

fn rejection(opts: &Dial9RuntimeOpts, event: Dial9Event) -> Option<Dial9Error> {
    match dial9_step(opts, "test", event) {
        Dial9Step::Reject(e) => Some(e),
        _ => None,
    }
}

#[test]
fn test_dial9_zero_worker_poll_interval_is_rejected() {
    let mut opts = Dial9RuntimeOpts::new("trace");
    opts.worker_poll_interval = Some(Duration::from_secs(0));
    let err = match dial9_step(&opts, "test", Dial9Event::Begin) {
        Dial9Step::Reject(err) => err,
        _ => panic!("zero worker poll interval should be rejected"),
    };

    assert_eq!(err.kind(), Dial9ErrorKind::InvalidInput);
    assert_eq!(
        err.message(),
        "dial9 worker_poll_interval must be greater than zero"
    );
}

#[test]
fn defaults_are_accepted() {
    let opts = Dial9RuntimeOpts::new("trace");
    assert_eq!(opts.trace_path, PathBuf::from("trace"));
    assert_eq!(opts.max_file_size, DEFAULT_DIAL9_MAX_FILE_SIZE);
    assert_eq!(opts.max_total_size, DEFAULT_DIAL9_MAX_TOTAL_SIZE);
    assert_eq!(DEFAULT_DIAL9_MAX_FILE_SIZE, 104_857_600);
    assert_eq!(DEFAULT_DIAL9_MAX_TOTAL_SIZE, 536_870_912);
    assert_eq!(opts.rotation_period, None);
    assert!(opts.task_tracking);
    assert_eq!(opts.worker_poll_interval, None);
    assert!(opts.s3_upload.is_none());
    assert_eq!(opts.validate(), Ok(()));
}

#[test]
fn each_size_is_checked_in_turn() {
    let opts = Dial9RuntimeOpts::new("trace")
        .with_max_file_size(0)
        .with_max_total_size(0);
    assert_eq!(opts.validate(), Err(Dial9Error::ZeroMaxFileSize));
    assert_eq!(
        Dial9Error::ZeroMaxFileSize.message(),
        "dial9 max_file_size must be greater than zero"
    );
    let opts = Dial9RuntimeOpts::new("trace").with_max_total_size(0);
    assert_eq!(opts.validate(), Err(Dial9Error::ZeroMaxTotalSize));
    assert_eq!(
        Dial9Error::ZeroMaxTotalSize.message(),
        "dial9 max_total_size must be greater than zero"
    );
    let opts = Dial9RuntimeOpts::new("trace")
        .with_max_file_size(11)
        .with_max_total_size(10)
        .with_worker_poll_interval(Duration::from_secs(0));
    assert_eq!(opts.validate(), Err(Dial9Error::FileSizeAboveTotalSize));
    assert_eq!(
        Dial9Error::FileSizeAboveTotalSize.message(),
        "dial9 max_file_size must be less than or equal to max_total_size"
    );
    let opts = opts.with_max_file_size(10);
    assert_eq!(opts.validate(), Err(Dial9Error::ZeroWorkerPollInterval));
    let opts = opts.with_worker_poll_interval(Duration::new(0, 1));
    assert_eq!(opts.validate(), Ok(()));
}

#[test]
fn a_bad_size_is_rejected_before_anything_is_created() {
    let opts = Dial9RuntimeOpts::new("trace").with_max_file_size(0);
    assert_eq!(
        rejection(&opts, Dial9Event::Begin),
        Some(Dial9Error::ZeroMaxFileSize)
    );
}

#[test]
fn a_traced_runtime_comes_up_step_by_step() {
    let opts = Dial9RuntimeOpts::new("some/trace")
        .with_max_file_size(3)
        .with_max_total_size(9)
        .with_rotation_period(Duration::from_secs(60))
        .with_task_tracking(false)
        .with_worker_poll_interval(Duration::from_secs(2))
        .with_s3_upload(Dial9S3UploadOpts::new("bucket", "service"));
    match dial9_step(&opts, "web", Dial9Event::Begin) {
        Dial9Step::CreateTraceDir(path) => assert_eq!(path, &PathBuf::from("some/trace")),
        _ => panic!("the directory comes first"),
    }
    match dial9_step(&opts, "web", Dial9Event::TraceDirReady) {
        Dial9Step::OpenWriter(writer) => {
            assert_eq!(writer.base_path, &PathBuf::from("some/trace"));
            assert_eq!(writer.max_file_size, 3);
            assert_eq!(writer.max_total_size, 9);
            assert_eq!(writer.rotation_period, Some(Duration::from_secs(60)));
        }
        _ => panic!("the writer comes second"),
    }
    match dial9_step(&opts, "web", Dial9Event::WriterOpen) {
        Dial9Step::Start(trace) => {
            assert_eq!(trace.trace_path, &PathBuf::from("some/trace"));
            assert_eq!(trace.runtime_name, "web");
            assert!(!trace.task_tracking);
            assert_eq!(trace.worker_poll_interval, Some(Duration::from_secs(2)));
            let upload = trace.upload.expect("segments are uploaded");
            assert_eq!(upload.bucket, "bucket");
            assert_eq!(upload.service_name, "service");
        }
        _ => panic!("the start comes last"),
    }
}

#[test]
fn a_runtime_without_uploads_is_started_without_them() {
    let opts = Dial9RuntimeOpts::new("trace");
    match dial9_step(&opts, "web", Dial9Event::WriterOpen) {
        Dial9Step::Start(trace) => assert!(trace.upload.is_none()),
        _ => panic!("nothing is wrong with the options"),
    }
}

#[test]
fn blank_upload_names_are_rejected_once_the_writer_is_open() {
    let opts =
        Dial9RuntimeOpts::new("trace").with_s3_upload(Dial9S3UploadOpts::new(" \t\u{3000}", ""));
    assert_eq!(rejection(&opts, Dial9Event::Begin), None);
    assert_eq!(
        rejection(&opts, Dial9Event::WriterOpen),
        Some(Dial9Error::BlankS3Bucket)
    );
    assert_eq!(
        Dial9Error::BlankS3Bucket.message(),
        "dial9 s3 bucket must not be empty"
    );
    let opts =
        Dial9RuntimeOpts::new("trace").with_s3_upload(Dial9S3UploadOpts::new(" b ", "\n\u{85}"));
    assert_eq!(
        rejection(&opts, Dial9Event::WriterOpen),
        Some(Dial9Error::BlankS3ServiceName)
    );
    assert_eq!(
        Dial9Error::BlankS3ServiceName.message(),
        "dial9 s3 service_name must not be empty"
    );
}

#[test]
fn upload_options_collect_what_is_set() {
    let upload = Dial9S3UploadOpts::new("bucket", String::from("service"));
    assert_eq!(upload.prefix, None);
    assert_eq!(upload.region, None);
    assert_eq!(upload.instance_path, None);
    assert!(upload.client.is_none());
    let upload = upload
        .with_prefix("prefix")
        .with_region("region")
        .with_instance_path("host/1");
    assert_eq!(upload.bucket, "bucket");
    assert_eq!(upload.service_name, "service");
    assert_eq!(upload.prefix.as_deref(), Some("prefix"));
    assert_eq!(upload.region.as_deref(), Some("region"));
    assert_eq!(upload.instance_path.as_deref(), Some("host/1"));
    assert_eq!(format!("{:?}", upload.clone()), format!("{:?}", upload));
    assert_eq!(upload.validate(), Ok(()));
}

#[test]
fn white_space_is_what_trimming_removes() {
    for code in 0..=0x10FFFFu32 {
        if let Some(c) = char::from_u32(code) {
            assert_eq!(is_white_space(c), c.is_whitespace(), "U+{code:04X}");
        }
    }
    for text in ["", " ", "\u{2003}\u{200a}", "x", " x ", "\u{200b}", "\t\r\n\u{b}\u{c}"] {
        assert_eq!(is_blank(text), text.trim().is_empty(), "{text:?}");
    }
}
