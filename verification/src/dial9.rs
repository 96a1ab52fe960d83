//! dial9 Tokio telemetry: its options, and how a traced runtime comes up.

use vstd::prelude::*;

use std::path::PathBuf;

use aws_sdk_s3::Client;

use crate::duration::Duration;

verus! {

/// Default maximum size of a dial9 trace segment file.
pub const DEFAULT_DIAL9_MAX_FILE_SIZE: u64 = 100 * 1024 * 1024;

/// Default maximum bytes retained locally by dial9.
pub const DEFAULT_DIAL9_MAX_TOTAL_SIZE: u64 = 512 * 1024 * 1024;

/// `aws_sdk_s3::Client`, carried through unread.
#[verifier::external_type_specification]
#[verifier::external_body]
pub struct ExClient(Client);

/// `aws_sdk_s3::Client::clone`: a client is a counted reference to its handle,
/// and the clone refers to the same handle.
pub assume_specification[ <Client as Clone>::clone ](client: &Client) -> (r: Client)
    ensures
        r == *client,
;

/// Configuration options for dial9 Tokio telemetry.
#[derive(Debug)]
pub struct Dial9RuntimeOpts {
    /// Trace output path after server configuration defaults are applied.
    pub trace_path: PathBuf,
    /// Rotate trace segments after this many bytes.
    pub max_file_size: u64,
    /// Maximum bytes retained on local disk.
    pub max_total_size: u64,
    /// Wall-clock trace rotation period.
    pub rotation_period: Option<Duration>,
    /// Enable dial9 task spawn/terminate tracking.
    pub task_tracking: bool,
    /// How often the background worker checks for sealed trace segments.
    pub worker_poll_interval: Option<Duration>,
    /// Upload sealed trace segments to S3-compatible storage.
    pub s3_upload: Option<Dial9S3UploadOpts>,
}

impl Dial9RuntimeOpts {
    /// Create dial9 runtime options using the dial9 defaults.
    pub fn new<P: Into<PathBuf>>(trace_path: P) -> (r: Dial9RuntimeOpts)
        ensures
            call_ensures(P::into, (trace_path,), r.trace_path),
            r.max_file_size == DEFAULT_DIAL9_MAX_FILE_SIZE,
            r.max_total_size == DEFAULT_DIAL9_MAX_TOTAL_SIZE,
            r.rotation_period is None,
            r.task_tracking,
            r.worker_poll_interval is None,
            r.s3_upload is None,
    {
        Dial9RuntimeOpts {
            trace_path: trace_path.into(),
            max_file_size: DEFAULT_DIAL9_MAX_FILE_SIZE,
            max_total_size: DEFAULT_DIAL9_MAX_TOTAL_SIZE,
            rotation_period: None,
            task_tracking: true,
            worker_poll_interval: None,
            s3_upload: None,
        }
    }

    /// Set the maximum size of each trace segment file.
    pub fn with_max_file_size(self, max_file_size: u64) -> (r: Dial9RuntimeOpts)
        ensures
            r == (Dial9RuntimeOpts { max_file_size, ..self }),
    {
        Dial9RuntimeOpts { max_file_size, ..self }
    }

    /// Set the maximum bytes retained on local disk.
    pub fn with_max_total_size(self, max_total_size: u64) -> (r: Dial9RuntimeOpts)
        ensures
            r == (Dial9RuntimeOpts { max_total_size, ..self }),
    {
        Dial9RuntimeOpts { max_total_size, ..self }
    }

    /// Set the wall-clock trace rotation period.
    pub fn with_rotation_period(self, rotation_period: Duration) -> (r: Dial9RuntimeOpts)
        ensures
            r == (Dial9RuntimeOpts { rotation_period: Some(rotation_period), ..self }),
    {
        Dial9RuntimeOpts { rotation_period: Some(rotation_period), ..self }
    }

    /// Enable or disable dial9 task spawn/terminate tracking.
    pub fn with_task_tracking(self, task_tracking: bool) -> (r: Dial9RuntimeOpts)
        ensures
            r == (Dial9RuntimeOpts { task_tracking, ..self }),
    {
        Dial9RuntimeOpts { task_tracking, ..self }
    }

    /// Set how often the background worker checks for sealed trace segments.
    pub fn with_worker_poll_interval(self, worker_poll_interval: Duration) -> (r: Dial9RuntimeOpts)
        ensures
            r == (Dial9RuntimeOpts { worker_poll_interval: Some(worker_poll_interval), ..self }),
    {
        Dial9RuntimeOpts { worker_poll_interval: Some(worker_poll_interval), ..self }
    }

    /// Set S3-compatible upload options for sealed trace segments.
    pub fn with_s3_upload(self, s3_upload: Dial9S3UploadOpts) -> (r: Dial9RuntimeOpts)
        ensures
            r == (Dial9RuntimeOpts { s3_upload: Some(s3_upload), ..self }),
    {
        Dial9RuntimeOpts { s3_upload: Some(s3_upload), ..self }
    }
}

impl Clone for Dial9RuntimeOpts {
    fn clone(&self) -> (r: Dial9RuntimeOpts)
        ensures
            r == *self,
    {
        Dial9RuntimeOpts {
            trace_path: self.trace_path.clone(),
            max_file_size: self.max_file_size,
            max_total_size: self.max_total_size,
            rotation_period: self.rotation_period,
            task_tracking: self.task_tracking,
            worker_poll_interval: self.worker_poll_interval,
            s3_upload: match &self.s3_upload {
                Some(opts) => Some(opts.clone()),
                None => None,
            },
        }
    }
}

/// Configuration options for dial9 S3-compatible trace uploads.
#[derive(Debug)]
pub struct Dial9S3UploadOpts {
    /// S3 bucket that receives sealed trace segments.
    pub bucket: String,
    /// Service name included in uploaded object keys.
    pub service_name: String,
    /// Optional key prefix.
    pub prefix: Option<String>,
    /// Optional region override.
    pub region: Option<String>,
    /// Optional instance identifier included in uploaded object keys.
    pub instance_path: Option<String>,
    /// Optional pre-built S3 client for custom credentials or endpoints.
    pub client: Option<Client>,
}

impl Dial9S3UploadOpts {
    /// Create S3-compatible upload options.
    pub fn new<B: Into<String>, S: Into<String>>(bucket: B, service_name: S) -> (r:
        Dial9S3UploadOpts)
        ensures
            call_ensures(B::into, (bucket,), r.bucket),
            call_ensures(S::into, (service_name,), r.service_name),
            r.prefix is None,
            r.region is None,
            r.instance_path is None,
            r.client is None,
    {
        Dial9S3UploadOpts {
            bucket: bucket.into(),
            service_name: service_name.into(),
            prefix: None,
            region: None,
            instance_path: None,
            client: None,
        }
    }

    /// Set the object key prefix.
    pub fn with_prefix<S: Into<String>>(self, prefix: S) -> (r: Dial9S3UploadOpts)
        ensures
            r == (Dial9S3UploadOpts { prefix: r.prefix, ..self }),
            r.prefix is Some,
            call_ensures(S::into, (prefix,), r.prefix->0),
    {
        Dial9S3UploadOpts { prefix: Some(prefix.into()), ..self }
    }

    /// Set the AWS region override.
    pub fn with_region<S: Into<String>>(self, region: S) -> (r: Dial9S3UploadOpts)
        ensures
            r == (Dial9S3UploadOpts { region: r.region, ..self }),
            r.region is Some,
            call_ensures(S::into, (region,), r.region->0),
    {
        Dial9S3UploadOpts { region: Some(region.into()), ..self }
    }

    /// Set the instance identifier included in uploaded object keys.
    pub fn with_instance_path<S: Into<String>>(self, instance_path: S) -> (r: Dial9S3UploadOpts)
        ensures
            r == (Dial9S3UploadOpts { instance_path: r.instance_path, ..self }),
            r.instance_path is Some,
            call_ensures(S::into, (instance_path,), r.instance_path->0),
    {
        Dial9S3UploadOpts { instance_path: Some(instance_path.into()), ..self }
    }

    /// Set a pre-built S3 client for custom credentials or endpoints.
    pub fn with_client(self, client: Client) -> (r: Dial9S3UploadOpts)
        ensures
            r == (Dial9S3UploadOpts { client: Some(client), ..self }),
    {
        Dial9S3UploadOpts { client: Some(client), ..self }
    }
}

/// A copy of an optional string.
fn copied(text: &Option<String>) -> (r: Option<String>)
    ensures
        r == *text,
{
    match text {
        Some(s) => Some(s.clone()),
        None => None,
    }
}

impl Clone for Dial9S3UploadOpts {
    fn clone(&self) -> (r: Dial9S3UploadOpts)
        ensures
            r == *self,
    {
        Dial9S3UploadOpts {
            bucket: self.bucket.clone(),
            service_name: self.service_name.clone(),
            prefix: copied(&self.prefix),
            region: copied(&self.region),
            instance_path: copied(&self.instance_path),
            client: match &self.client {
                Some(client) => Some(client.clone()),
                None => None,
            },
        }
    }
}

/// What kind of failure a [`Dial9Error`] is.
#[derive(Debug, Clone, Copy, PartialEq, Eq, Structural)]
pub enum Dial9ErrorKind {
    /// A setting has a value that cannot be honoured.
    InvalidInput,
}

/// Why dial9 options are turned down.
#[derive(Debug, Clone, Copy, PartialEq, Eq, Structural)]
pub enum Dial9Error {
    /// Segment files of no bytes.
    ZeroMaxFileSize,
    /// No bytes retained.
    ZeroMaxTotalSize,
    /// A segment file larger than all that may be retained.
    FileSizeAboveTotalSize,
    /// A background worker that never waits.
    ZeroWorkerPollInterval,
    /// An upload to a bucket without a name.
    BlankS3Bucket,
    /// An upload for a service without a name.
    BlankS3ServiceName,
}

impl Dial9Error {
    /// The message for each reason.
    pub open spec fn text(&self) -> Seq<char> {
        match self {
            Dial9Error::ZeroMaxFileSize => "dial9 max_file_size must be greater than zero"@,
            Dial9Error::ZeroMaxTotalSize => "dial9 max_total_size must be greater than zero"@,
            Dial9Error::FileSizeAboveTotalSize =>
                "dial9 max_file_size must be less than or equal to max_total_size"@,
            Dial9Error::ZeroWorkerPollInterval =>
                "dial9 worker_poll_interval must be greater than zero"@,
            Dial9Error::BlankS3Bucket => "dial9 s3 bucket must not be empty"@,
            Dial9Error::BlankS3ServiceName => "dial9 s3 service_name must not be empty"@,
        }
    }

    /// Every reason is an invalid setting.
    pub fn kind(&self) -> (r: Dial9ErrorKind)
        ensures
            r == Dial9ErrorKind::InvalidInput,
    {
        Dial9ErrorKind::InvalidInput
    }

    /// The message to report.
    pub fn message(&self) -> (r: &'static str)
        ensures
            r@ == self.text(),
    {
        match self {
            Dial9Error::ZeroMaxFileSize => "dial9 max_file_size must be greater than zero",
            Dial9Error::ZeroMaxTotalSize => "dial9 max_total_size must be greater than zero",
            Dial9Error::FileSizeAboveTotalSize =>
                "dial9 max_file_size must be less than or equal to max_total_size",
            Dial9Error::ZeroWorkerPollInterval =>
                "dial9 worker_poll_interval must be greater than zero",
            Dial9Error::BlankS3Bucket => "dial9 s3 bucket must not be empty",
            Dial9Error::BlankS3ServiceName => "dial9 s3 service_name must not be empty",
        }
    }
}

/// Whether `c` has the Unicode property White_Space.
pub open spec fn white_space(c: char) -> bool {
    ||| '\u{9}' <= c <= '\u{d}'
    ||| c == ' '
    ||| c == '\u{85}'
    ||| c == '\u{a0}'
    ||| c == '\u{1680}'
    ||| '\u{2000}' <= c <= '\u{200a}'
    ||| c == '\u{2028}'
    ||| c == '\u{2029}'
    ||| c == '\u{202f}'
    ||| c == '\u{205f}'
    ||| c == '\u{3000}'
}

/// Whether nothing is left of `text` once white space is trimmed off.
pub open spec fn blank(text: Seq<char>) -> bool {
    forall|i: int| 0 <= i < text.len() ==> white_space(#[trigger] text[i])
}

/// Whether `c` is white space.
pub fn is_white_space(c: char) -> (r: bool)
    ensures
        r == white_space(c),
{
    ('\u{9}' <= c && c <= '\u{d}') || c == ' ' || c == '\u{85}' || c == '\u{a0}' || c == '\u{1680}'
        || ('\u{2000}' <= c && c <= '\u{200a}') || c == '\u{2028}' || c == '\u{2029}' || c
        == '\u{202f}' || c == '\u{205f}' || c == '\u{3000}'
}

/// Whether `text` is empty or all white space.
pub fn is_blank(text: &str) -> (r: bool)
    ensures
        r == blank(text@),
{
    let count: usize = text.unicode_len();
    let mut i: usize = 0;
    while i < count
        invariant
            i <= count,
            count == text@.len(),
            forall|j: int| 0 <= j < i ==> white_space(#[trigger] text@[j]),
        decreases count - i,
    {
        let c: char = text.get_char(i);
        if !is_white_space(c) {
            return false;
        }
        i = i + 1;
    }
    true
}

impl Dial9S3UploadOpts {
    /// What is wrong with the upload options, if anything: the first of the
    /// reasons that applies.
    pub open spec fn fault(&self) -> Option<Dial9Error> {
        if blank(self.bucket@) {
            Some(Dial9Error::BlankS3Bucket)
        } else if blank(self.service_name@) {
            Some(Dial9Error::BlankS3ServiceName)
        } else {
            None
        }
    }

    /// Turns down upload options without a bucket or a service name.
    pub fn validate(&self) -> (r: Result<(), Dial9Error>)
        ensures
            r == (match self.fault() {
                Some(e) => Err::<(), Dial9Error>(e),
                None => Ok(()),
            }),
    {
        if is_blank(self.bucket.as_str()) {
            return Err(Dial9Error::BlankS3Bucket);
        }
        if is_blank(self.service_name.as_str()) {
            return Err(Dial9Error::BlankS3ServiceName);
        }
        Ok(())
    }
}

impl Dial9RuntimeOpts {
    /// What is wrong with the sizes and periods, if anything: the first of the
    /// reasons that applies.
    pub open spec fn fault(&self) -> Option<Dial9Error> {
        if self.max_file_size == 0 {
            Some(Dial9Error::ZeroMaxFileSize)
        } else if self.max_total_size == 0 {
            Some(Dial9Error::ZeroMaxTotalSize)
        } else if self.max_file_size > self.max_total_size {
            Some(Dial9Error::FileSizeAboveTotalSize)
        } else if self.worker_poll_interval matches Some(interval) && interval@ == 0 {
            Some(Dial9Error::ZeroWorkerPollInterval)
        } else {
            None
        }
    }

    /// What is wrong with the upload options, if there are any.
    pub open spec fn upload_fault(&self) -> Option<Dial9Error> {
        match self.s3_upload {
            Some(upload) => upload.fault(),
            None => None,
        }
    }

    /// Turns down sizes and periods that cannot be honoured.
    pub fn validate(&self) -> (r: Result<(), Dial9Error>)
        ensures
            r == (match self.fault() {
                Some(e) => Err::<(), Dial9Error>(e),
                None => Ok(()),
            }),
    {
        if self.max_file_size == 0 {
            return Err(Dial9Error::ZeroMaxFileSize);
        }
        if self.max_total_size == 0 {
            return Err(Dial9Error::ZeroMaxTotalSize);
        }
        if self.max_file_size > self.max_total_size {
            return Err(Dial9Error::FileSizeAboveTotalSize);
        }
        if let Some(interval) = self.worker_poll_interval {
            if interval.is_zero() {
                return Err(Dial9Error::ZeroWorkerPollInterval);
            }
        }
        Ok(())
    }
}

/// How the trace writer is to be opened.
pub struct WriterSettings<'a> {
    /// Where segments are written.
    pub base_path: &'a PathBuf,
    /// Rotate after this many bytes.
    pub max_file_size: u64,
    /// Retain at most this many bytes.
    pub max_total_size: u64,
    /// Rotate after this long, where a period is set.
    pub rotation_period: Option<Duration>,
}

/// How the traced runtime is to be started.
pub struct TraceSettings<'a> {
    /// Where segments are written.
    pub trace_path: &'a PathBuf,
    /// The name the runtime is traced under.
    pub runtime_name: &'a str,
    /// Whether task spawns and ends are tracked.
    pub task_tracking: bool,
    /// How often sealed segments are looked for, where an interval is set.
    pub worker_poll_interval: Option<Duration>,
    /// Where sealed segments are uploaded to, if anywhere.
    pub upload: Option<&'a Dial9S3UploadOpts>,
}

/// What has happened while a traced runtime comes up.
#[derive(Debug, Clone, Copy, PartialEq, Eq, Structural)]
pub enum Dial9Event {
    /// Nothing yet.
    Begin,
    /// The directory that holds the trace is there.
    TraceDirReady,
    /// The trace writer is open.
    WriterOpen,
}

/// What is to be done next while a traced runtime comes up.
pub enum Dial9Step<'a> {
    /// Create the directory that holds this path, if it has one; go on with
    /// [`Dial9Event::TraceDirReady`].
    CreateTraceDir(&'a PathBuf),
    /// Open the trace writer; go on with [`Dial9Event::WriterOpen`].
    OpenWriter(WriterSettings<'a>),
    /// Start the runtime on the open writer: this is the last step.
    Start(TraceSettings<'a>),
    /// Give up: the options are turned down.
    Reject(Dial9Error),
}

/// The step that follows each event. Sizes and periods are checked before
/// anything is touched on disk; upload options only once the writer is open.
pub open spec fn dial9_next<'a>(
    opts: &'a Dial9RuntimeOpts,
    runtime_name: &'a str,
    event: Dial9Event,
) -> Dial9Step<'a> {
    match event {
        Dial9Event::Begin => match opts.fault() {
            Some(e) => Dial9Step::Reject(e),
            None => Dial9Step::CreateTraceDir(&opts.trace_path),
        },
        Dial9Event::TraceDirReady => Dial9Step::OpenWriter(
            WriterSettings {
                base_path: &opts.trace_path,
                max_file_size: opts.max_file_size,
                max_total_size: opts.max_total_size,
                rotation_period: opts.rotation_period,
            },
        ),
        Dial9Event::WriterOpen => match opts.upload_fault() {
            Some(e) => Dial9Step::Reject(e),
            None => Dial9Step::Start(
                TraceSettings {
                    trace_path: &opts.trace_path,
                    runtime_name,
                    task_tracking: opts.task_tracking,
                    worker_poll_interval: opts.worker_poll_interval,
                    upload: match opts.s3_upload {
                        Some(upload) => Some(&upload),
                        None => None,
                    },
                },
            ),
        },
    }
}

/// Decides what to do next on the way to a runtime traced by dial9.
///
/// An I/O failure of a step ends the way there and is reported as it is.
pub fn dial9_step<'a>(
    opts: &'a Dial9RuntimeOpts,
    runtime_name: &'a str,
    event: Dial9Event,
) -> (r: Dial9Step<'a>)
    ensures
        r == dial9_next(opts, runtime_name, event),
{
    match event {
        Dial9Event::Begin => match opts.validate() {
            Err(e) => Dial9Step::Reject(e),
            Ok(()) => Dial9Step::CreateTraceDir(&opts.trace_path),
        },
        Dial9Event::TraceDirReady => Dial9Step::OpenWriter(
            WriterSettings {
                base_path: &opts.trace_path,
                max_file_size: opts.max_file_size,
                max_total_size: opts.max_total_size,
                rotation_period: opts.rotation_period,
            },
        ),
        Dial9Event::WriterOpen => {
            if let Some(upload) = &opts.s3_upload {
                if let Err(e) = upload.validate() {
                    return Dial9Step::Reject(e);
                }
            }
            Dial9Step::Start(
                TraceSettings {
                    trace_path: &opts.trace_path,
                    runtime_name,
                    task_tracking: opts.task_tracking,
                    worker_poll_interval: opts.worker_poll_interval,
                    upload: opts.s3_upload.as_ref(),
                },
            )
        },
    }
}

/// A traced runtime is started exactly when nothing is wrong with the options:
/// neither check turns them down, and the steps between the checks always lead
/// on.
pub proof fn law_started_iff_valid(opts: Dial9RuntimeOpts, runtime_name: &str)
    ensures
        (dial9_next(&opts, runtime_name, Dial9Event::Begin) is CreateTraceDir && dial9_next(
            &opts,
            runtime_name,
            Dial9Event::WriterOpen,
        ) is Start) <==> (opts.fault() is None && opts.upload_fault() is None),
        dial9_next(&opts, runtime_name, Dial9Event::TraceDirReady) is OpenWriter,
{
}

/// Sizes and periods that cannot be honoured are turned down before any
/// directory or file is touched, and for no other reason is the first step a
/// refusal.
pub proof fn law_bad_sizes_touch_nothing(opts: Dial9RuntimeOpts, runtime_name: &str)
    ensures
        dial9_next(&opts, runtime_name, Dial9Event::Begin) is Reject <==> {
            ||| opts.max_file_size == 0
            ||| opts.max_total_size == 0
            ||| opts.max_file_size > opts.max_total_size
            ||| opts.worker_poll_interval matches Some(interval) && interval@ == 0
        },
{
}

/// Options that keep the default sizes and set no polling interval pass the
/// first check.
pub proof fn law_default_sizes_are_valid(opts: Dial9RuntimeOpts)
    requires
        opts.max_file_size == DEFAULT_DIAL9_MAX_FILE_SIZE,
        opts.max_total_size == DEFAULT_DIAL9_MAX_TOTAL_SIZE,
        opts.worker_poll_interval is None,
    ensures
        opts.fault() is None,
{
}

/// The steps carry the options on as they are. The directory made is the one that
/// holds the trace; each setting of the writer is the option's own; and so is each
/// setting that a traced runtime is started with, under the name given.
pub proof fn law_steps_carry_the_options(opts: &Dial9RuntimeOpts, runtime_name: &str)
    ensures
        dial9_next(opts, runtime_name, Dial9Event::Begin) matches Dial9Step::CreateTraceDir(path)
            ==> path == &opts.trace_path,
        dial9_next(opts, runtime_name, Dial9Event::TraceDirReady) matches Dial9Step::OpenWriter(
            writer,
        ) && {
            &&& writer.base_path == &opts.trace_path
            &&& writer.max_file_size == opts.max_file_size
            &&& writer.max_total_size == opts.max_total_size
            &&& writer.rotation_period == opts.rotation_period
        },
        dial9_next(opts, runtime_name, Dial9Event::WriterOpen) matches Dial9Step::Start(trace)
            ==> {
            &&& trace.trace_path == &opts.trace_path
            &&& trace.runtime_name == runtime_name
            &&& trace.task_tracking == opts.task_tracking
            &&& trace.worker_poll_interval == opts.worker_poll_interval
            &&& trace.upload is Some <==> opts.s3_upload is Some
            &&& trace.upload matches Some(upload) ==> Some(*upload) == opts.s3_upload
        },
{
}

/// Which refusal comes, and when. Before anything is touched: for a zero file size
/// whatever else is wrong; else for a zero total size; else for a file larger than
/// all that may be retained; else for a worker that never waits. Once the writer is
/// open: for a bucket without a name whatever else is wrong; else for a service
/// without a name. A step is a refusal in no other case.
pub proof fn law_first_fault_is_reported(opts: &Dial9RuntimeOpts, runtime_name: &str)
    ensures
        ({
            let first = dial9_next(opts, runtime_name, Dial9Event::Begin);
            let sizes_fit = 0 < opts.max_file_size <= opts.max_total_size;
            &&& first == Dial9Step::Reject(Dial9Error::ZeroMaxFileSize) <==> opts.max_file_size == 0
            &&& first == Dial9Step::Reject(Dial9Error::ZeroMaxTotalSize) <==> opts.max_total_size
                == 0 < opts.max_file_size
            &&& first == Dial9Step::Reject(Dial9Error::FileSizeAboveTotalSize) <==> 0
                < opts.max_total_size < opts.max_file_size
            &&& first == Dial9Step::Reject(Dial9Error::ZeroWorkerPollInterval) <==> sizes_fit
                && opts.worker_poll_interval is Some && opts.worker_poll_interval->0@ == 0
            &&& first is CreateTraceDir <==> sizes_fit && (opts.worker_poll_interval is None
                || opts.worker_poll_interval->0@ > 0)
        }),
        !(dial9_next(opts, runtime_name, Dial9Event::TraceDirReady) is Reject),
        ({
            let last = dial9_next(opts, runtime_name, Dial9Event::WriterOpen);
            match opts.s3_upload {
                None => last is Start,
                Some(upload) => {
                    &&& last == Dial9Step::Reject(Dial9Error::BlankS3Bucket) <==> blank(
                        upload.bucket@,
                    )
                    &&& last == Dial9Step::Reject(Dial9Error::BlankS3ServiceName) <==> !blank(
                        upload.bucket@,
                    ) && blank(upload.service_name@)
                    &&& last is Start <==> !blank(upload.bucket@) && !blank(upload.service_name@)
                },
            }
        }),
{
}

/// The default sizes are 100 MiB for a segment file and 512 MiB in all.
pub proof fn law_default_sizes(opts: Dial9RuntimeOpts)
    requires
        opts.max_file_size == DEFAULT_DIAL9_MAX_FILE_SIZE,
        opts.max_total_size == DEFAULT_DIAL9_MAX_TOTAL_SIZE,
    ensures
        opts.max_file_size == 104_857_600,
        opts.max_total_size == 536_870_912,
        5 * opts.max_file_size <= opts.max_total_size,
{
}

/// A text is blank exactly when both parts of it are, wherever it is parted: no
/// character is passed over.
pub proof fn law_blank_by_parts(front: Seq<char>, back: Seq<char>)
    ensures
        blank(front + back) <==> blank(front) && blank(back),
        blank(Seq::<char>::empty()),
{
    if blank(front + back) {
        assert forall|i: int| 0 <= i < front.len() implies white_space(#[trigger] front[i]) by {
            assert((front + back)[i] == front[i]);
        }
        assert forall|i: int| 0 <= i < back.len() implies white_space(#[trigger] back[i]) by {
            assert((front + back)[front.len() + i] == back[i]);
        }
    }
}

/// A text of one character is blank exactly when that character is one of the
/// twenty-five with the Unicode property White_Space.
pub proof fn law_blank_characters(c: char)
    ensures
        blank(seq![c]) <==> {
            ||| 9 <= c as u32 <= 13
            ||| c as u32 == 32
            ||| c as u32 == 133
            ||| c as u32 == 160
            ||| c as u32 == 5760
            ||| 8192 <= c as u32 <= 8202
            ||| 8232 <= c as u32 <= 8233
            ||| c as u32 == 8239
            ||| c as u32 == 8287
            ||| c as u32 == 12288
        },
{
    assert(seq![c][0] == c);
}

/// Each reason has a message of its own, which names the setting that is at fault.
pub proof fn law_messages_name_the_setting(e: Dial9Error)
    ensures
        e is ZeroMaxFileSize ==> e.text() == "dial9 max_file_size must be greater than zero"@,
        e is ZeroMaxTotalSize ==> e.text() == "dial9 max_total_size must be greater than zero"@,
        e is FileSizeAboveTotalSize ==> e.text()
            == "dial9 max_file_size must be less than or equal to max_total_size"@,
        e is ZeroWorkerPollInterval ==> e.text()
            == "dial9 worker_poll_interval must be greater than zero"@,
        e is BlankS3Bucket ==> e.text() == "dial9 s3 bucket must not be empty"@,
        e is BlankS3ServiceName ==> e.text() == "dial9 s3 service_name must not be empty"@,
{
}

} // verus!
