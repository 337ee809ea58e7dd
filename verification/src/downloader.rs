//! The decisions of the download engine: when an existing file is good enough,
//! what each chunk means for the progress that is reported, where a resumed
//! download continues and when it is given up.

use crate::checksum::{checksum_ok, verify_checksum};
use crate::text::{chars_of, decimal, opt_text, push_decimal, push_text, string_of};
use vstd::prelude::*;

verus! {

/// One file to fetch in a batch.
#[derive(Debug, Clone)]
pub struct DownloadTask {
    pub url: String,
    /// Where the file is written.
    pub path: String,
    pub sha1: Option<String>,
    pub sha256: Option<String>,
}

/// What a batch download reports of one file.
#[derive(Debug, Clone)]
pub struct ProgressEvent {
    pub file: String,
    pub downloaded: u64,
    pub total: u64,
    pub status: String,
}

/// What the installer reports of the archive it fetches and unpacks.
#[derive(Debug, Clone)]
pub struct JavaDownloadProgress {
    pub file_name: String,
    pub downloaded_bytes: u64,
    pub total_bytes: u64,
    pub speed_bytes_per_sec: u64,
    pub eta_seconds: u64,
    pub status: String,
    /// The part that is done, in whole per cent.
    pub percentage: u8,
}

/// The stages that progress reports name.
#[derive(Debug, Clone, Copy, PartialEq, Eq, Structural)]
pub enum DownloadStatus {
    Verifying,
    Downloading,
    Skipped,
    Extracting,
    Finished,
    Completed,
    Error,
}

impl DownloadStatus {
    /// The stage as it is written in a report.
    pub open spec fn name(self) -> Seq<char> {
        match self {
            DownloadStatus::Verifying => "Verifying"@,
            DownloadStatus::Downloading => "Downloading"@,
            DownloadStatus::Skipped => "Skipped"@,
            DownloadStatus::Extracting => "Extracting"@,
            DownloadStatus::Finished => "Finished"@,
            DownloadStatus::Completed => "Completed"@,
            DownloadStatus::Error => "Error"@,
        }
    }

    /// The stage as it is written in a report.
    pub fn as_str(&self) -> (out: &'static str)
        ensures
            out@ == self.name(),
    {
        match self {
            DownloadStatus::Verifying => "Verifying",
            DownloadStatus::Downloading => "Downloading",
            DownloadStatus::Skipped => "Skipped",
            DownloadStatus::Extracting => "Extracting",
            DownloadStatus::Finished => "Finished",
            DownloadStatus::Completed => "Completed",
            DownloadStatus::Error => "Error",
        }
    }
}

/// Whether a report says what is expected of it.
pub open spec fn event_is(
    event: ProgressEvent,
    file: Seq<char>,
    downloaded: u64,
    total: u64,
    status: DownloadStatus,
) -> bool {
    &&& event.file@ == file
    &&& event.downloaded == downloaded
    &&& event.total == total
    &&& event.status@ == status.name()
}

/// Builds one report of a batch download.
pub fn progress_event(
    file: &str,
    downloaded: u64,
    total: u64,
    status: DownloadStatus,
) -> (event: ProgressEvent)
    ensures
        event_is(event, file@, downloaded, total, status),
{
    ProgressEvent { file: file.to_owned(), downloaded, total, status: status.as_str().to_owned() }
}

impl DownloadTask {
    /// Whether the task names a digest to verify against.
    pub open spec fn has_digest(self) -> bool {
        self.sha256 is Some || self.sha1 is Some
    }

    /// Whether the task names a digest, so that an existing file has to be
    /// read before it can be skipped.
    pub fn needs_verification(&self) -> (out: bool)
        ensures
            out == self.has_digest(),
    {
        self.sha256.is_some() || self.sha1.is_some()
    }

    /// Whether a file that is already there makes the download unnecessary:
    /// the task names a digest, the file could be read, and its bytes verify.
    pub open spec fn satisfied_by(self, existing: Option<Seq<u8>>) -> bool {
        existing matches Some(bytes) && self.has_digest() && checksum_ok(
            bytes,
            opt_text(self.sha256),
            opt_text(self.sha1),
        )
    }
}

/// The bytes of an optional buffer.
pub open spec fn opt_bytes(content: Option<&[u8]>) -> Option<Seq<u8>> {
    match content {
        Some(b) => Some(b@),
        None => None,
    }
}

/// A digest as an optional borrowed string.
fn as_opt_str(value: &Option<String>) -> (out: Option<&str>)
    ensures
        crate::checksum::opt_chars(out) == opt_text(*value),
{
    match value {
        Some(v) => Some(v.as_str()),
        None => None,
    }
}

/// Judges the file that may already stand at the destination of a task.
/// `exists` tells whether it is there; `content` holds its bytes where the
/// task names a digest and the file could be read. An existing file is
/// reported as `Verifying`. The task is satisfied where the bytes of the file
/// verify; in every other case the file is fetched.
pub fn judge_existing_file(
    task: &DownloadTask,
    file_name: &str,
    exists: bool,
    content: Option<&[u8]>,
) -> (out: (Option<ProgressEvent>, StepOutcome))
    ensures
        out.1 == if exists && task.satisfied_by(opt_bytes(content)) {
            StepOutcome::Satisfied
        } else {
            StepOutcome::Succeeded
        },
        exists ==> (out.0 matches Some(event) && event_is(
            event,
            file_name@,
            0,
            0,
            DownloadStatus::Verifying,
        )),
        !exists ==> out.0 is None,
{
    if !exists {
        return (None, StepOutcome::Succeeded);
    }
    let event = progress_event(file_name, 0, 0, DownloadStatus::Verifying);
    if task.needs_verification() {
        if let Some(bytes) = content {
            if verify_checksum(bytes, as_opt_str(&task.sha256), as_opt_str(&task.sha1)) {
                return (Some(event), StepOutcome::Satisfied);
            }
        }
    }
    (Some(event), StepOutcome::Succeeded)
}

/// The size that a response announces, or 0 where it announces none.
pub fn announced_total(content_length: Option<u64>) -> (total: u64)
    ensures
        total == match content_length {
            Some(n) => n,
            None => 0,
        },
{
    match content_length {
        Some(n) => n,
        None => 0,
    }
}

/// The count of downloaded bytes after a chunk of `chunk_len` bytes was
/// written; nothing where the count does not fit in 64 bits.
pub fn count_chunk(downloaded: u64, chunk_len: u64) -> (out: Option<u64>)
    ensures
        out == if downloaded + chunk_len <= u64::MAX {
            Some((downloaded + chunk_len) as u64)
        } else {
            None
        },
        out matches Some(n) ==> n >= downloaded,
{
    downloaded.checked_add(chunk_len)
}

/// The counts that the report of a stage carries: those of the transfer for
/// `Downloading` and `Error`, none for the other stages.
pub open spec fn reported_counts(status: DownloadStatus, downloaded: u64, total: u64) -> (
    u64,
    u64,
) {
    if status == DownloadStatus::Downloading || status == DownloadStatus::Error {
        (downloaded, total)
    } else {
        (0, 0)
    }
}

/// The report of a stage that a step of a batch task calls for, while
/// `downloaded` of `total` bytes are there.
pub fn step_report(
    file_name: &str,
    status: DownloadStatus,
    downloaded: u64,
    total: u64,
) -> (event: ProgressEvent)
    ensures
        event_is(
            event,
            file_name@,
            reported_counts(status, downloaded, total).0,
            reported_counts(status, downloaded, total).1,
            status,
        ),
{
    match status {
        DownloadStatus::Downloading | DownloadStatus::Error => progress_event(
            file_name,
            downloaded,
            total,
            status,
        ),
        _ => progress_event(file_name, 0, 0, status),
    }
}

/// The steps of a batch task at which something outside can fail.
#[derive(Debug, Clone, Copy, PartialEq, Eq, Structural)]
pub enum TransferStep {
    Request,
    CreateFile,
    Write,
    ReadBody,
}

impl TransferStep {
    /// The words that precede the cause in the message of a failure.
    pub open spec fn label(self) -> Seq<char> {
        match self {
            TransferStep::Request => "Request error: "@,
            TransferStep::CreateFile => "Create file error: "@,
            TransferStep::Write => "Write error: "@,
            TransferStep::ReadBody => "Download error: "@,
        }
    }
}

/// The message of a batch task that failed at `step` for `cause`.
pub fn transfer_failure(step: TransferStep, cause: &str) -> (msg: String)
    ensures
        msg@ == step.label() + cause@,
{
    let label = match step {
        TransferStep::Request => "Request error: ",
        TransferStep::CreateFile => "Create file error: ",
        TransferStep::Write => "Write error: ",
        TransferStep::ReadBody => "Download error: ",
    };
    label.to_owned().concat(cause)
}

/// Where one task of a batch stands.
#[derive(Debug, Clone, Copy, PartialEq, Eq, Structural)]
pub enum TaskPhase {
    /// Look at the file that may already be there.
    Inspect,
    /// Create the parent directory and send the request.
    Request,
    /// Create the file.
    CreateFile,
    /// Wait for the next chunk of the body.
    ReadChunk,
    /// Write the chunk that came.
    WriteChunk,
    /// The file is there.
    Done,
    /// The task has failed.
    Failed,
}

/// How the step of a phase ended.
#[derive(Debug, Clone, Copy, PartialEq, Eq, Structural)]
pub enum StepOutcome {
    /// The step went well.
    Succeeded,
    /// The file that is there verifies; nothing has to be fetched.
    Satisfied,
    /// The body has ended; no chunk came.
    BodyEnded,
    /// The step failed.
    Failed,
}

/// The phase that follows a phase. An existing file that verifies ends the
/// task at once; any other inspection leads to the request. Chunks are read
/// and written in turn until the body ends. A failure of any step after the
/// inspection ends the task.
pub open spec fn phase_after(phase: TaskPhase, outcome: StepOutcome) -> TaskPhase {
    match phase {
        TaskPhase::Inspect => if outcome == StepOutcome::Satisfied {
            TaskPhase::Done
        } else {
            TaskPhase::Request
        },
        TaskPhase::Done => TaskPhase::Done,
        TaskPhase::Failed => TaskPhase::Failed,
        _ => if outcome == StepOutcome::Failed {
            TaskPhase::Failed
        } else {
            match phase {
                TaskPhase::Request => TaskPhase::CreateFile,
                TaskPhase::CreateFile => TaskPhase::ReadChunk,
                TaskPhase::ReadChunk => if outcome == StepOutcome::BodyEnded {
                    TaskPhase::Done
                } else {
                    TaskPhase::WriteChunk
                },
                _ => TaskPhase::ReadChunk,
            }
        },
    }
}

/// The stage that is reported when a phase has ended with an outcome:
/// `Skipped` for a file that verifies, `Downloading` for a chunk that was
/// written, `Finished` for a body that ended, `Error` for a failure that ends
/// the task, and nothing else.
pub open spec fn report_after(phase: TaskPhase, outcome: StepOutcome) -> Option<
    DownloadStatus,
> {
    if phase == TaskPhase::Done || phase == TaskPhase::Failed {
        None
    } else if phase_after(phase, outcome) == TaskPhase::Failed {
        Some(DownloadStatus::Error)
    } else if phase == TaskPhase::Inspect && outcome == StepOutcome::Satisfied {
        Some(DownloadStatus::Skipped)
    } else if phase == TaskPhase::ReadChunk && outcome == StepOutcome::BodyEnded {
        Some(DownloadStatus::Finished)
    } else if phase == TaskPhase::WriteChunk {
        Some(DownloadStatus::Downloading)
    } else {
        None
    }
}

/// Decides the phase that follows `phase` and the stage to report.
pub fn next_phase(phase: TaskPhase, outcome: StepOutcome) -> (out: (
    TaskPhase,
    Option<DownloadStatus>,
))
    ensures
        out.0 == phase_after(phase, outcome),
        out.1 == report_after(phase, outcome),
{
    let failed = matches!(outcome, StepOutcome::Failed);
    match phase {
        TaskPhase::Inspect => match outcome {
            StepOutcome::Satisfied => (TaskPhase::Done, Some(DownloadStatus::Skipped)),
            _ => (TaskPhase::Request, None),
        },
        TaskPhase::Done => (TaskPhase::Done, None),
        TaskPhase::Failed => (TaskPhase::Failed, None),
        _ => if failed {
            (TaskPhase::Failed, Some(DownloadStatus::Error))
        } else {
            match phase {
                TaskPhase::Request => (TaskPhase::CreateFile, None),
                TaskPhase::CreateFile => (TaskPhase::ReadChunk, None),
                TaskPhase::ReadChunk => match outcome {
                    StepOutcome::BodyEnded => (TaskPhase::Done, Some(DownloadStatus::Finished)),
                    _ => (TaskPhase::WriteChunk, None),
                },
                _ => (TaskPhase::ReadChunk, Some(DownloadStatus::Downloading)),
            }
        },
    }
}

/// How far a phase lies in a task: inspection, the opening of the transfer,
/// the transfer, the end.
pub open spec fn phase_rank(phase: TaskPhase) -> nat {
    match phase {
        TaskPhase::Inspect => 0,
        TaskPhase::Request => 1,
        TaskPhase::CreateFile => 1,
        TaskPhase::ReadChunk => 2,
        TaskPhase::WriteChunk => 2,
        TaskPhase::Done => 3,
        TaskPhase::Failed => 3,
    }
}

/// Whether a stage closes the reports of a file.
pub open spec fn is_final_report(status: DownloadStatus) -> bool {
    status == DownloadStatus::Skipped || status == DownloadStatus::Finished || status
        == DownloadStatus::Error
}

/// A task never goes back, and its reports come in order: `Downloading` is
/// reported during the transfer only, a closing report exactly when the task
/// ends, and nothing after the end.
pub proof fn law_task_reports_in_order(phase: TaskPhase, outcome: StepOutcome)
    ensures
        phase_rank(phase_after(phase, outcome)) >= phase_rank(phase),
        phase_rank(phase) == 3 ==> phase_after(phase, outcome) == phase && report_after(
            phase,
            outcome,
        ) is None,
        report_after(phase, outcome) == Some(DownloadStatus::Downloading) ==> phase_rank(phase)
            == 2 && phase_rank(phase_after(phase, outcome)) == 2,
        (report_after(phase, outcome) matches Some(status) && is_final_report(status)) <==> (
        phase_rank(phase) < 3 && phase_rank(phase_after(phase, outcome)) == 3),
        report_after(phase, outcome) matches Some(status) ==> status
            == DownloadStatus::Downloading || is_final_report(status),
{
}

/// The most tasks of a batch that are fetched at one time.
pub const MAX_CONCURRENT_DOWNLOADS: usize = 10;

/// The event that announces a batch with the number of its tasks.
pub const EVENT_DOWNLOAD_START: &'static str = "download-start";

/// The event that carries the report of one file of a batch.
pub const EVENT_DOWNLOAD_PROGRESS: &'static str = "download-progress";

/// The event that closes a batch.
pub const EVENT_DOWNLOAD_COMPLETE: &'static str = "download-complete";

/// The event that carries the report of the installer.
pub const EVENT_JAVA_DOWNLOAD_PROGRESS: &'static str = "java-download-progress";

/// The request to stop the download that is under way.
#[derive(Debug, Clone, Copy, PartialEq, Eq, Structural)]
pub struct CancelFlag {
    pub requested: bool,
}

impl CancelFlag {
    /// A flag that asks for nothing.
    pub fn new() -> (flag: CancelFlag)
        ensures
            !flag.requested,
    {
        CancelFlag { requested: false }
    }

    /// Withdraws the request, before a new download starts.
    pub fn clear(&mut self)
        ensures
            !final(self).requested,
    {
        self.requested = false;
    }
}

/// Asks the download that is under way to stop at its next chunk.
pub fn cancel_current_download(flag: &mut CancelFlag)
    ensures
        final(flag).requested,
{
    flag.requested = true;
}

/// Where a resumable download stands.
#[derive(Debug, Clone, Copy, PartialEq, Eq, Structural)]
pub struct ResumeState {
    /// The bytes that are on disk.
    pub downloaded: u64,
    /// The size of the whole file; 0 where it is not known.
    pub total: u64,
}

/// The value of the `Range` header of a request that continues after `offset`
/// bytes; none for a download that starts at the beginning.
pub open spec fn range_from(offset: u64) -> Option<Seq<char>> {
    if offset == 0 {
        None
    } else {
        Some("bytes="@ + decimal(offset as nat) + "-"@)
    }
}

/// Begins a resumable download. `partial_size` is the size of the partial file
/// where one exists; `declared_size` the size that the release declares. The
/// download continues after the bytes that are there, by a range request.
pub fn start_resumable(
    partial_size: Option<u64>,
    declared_size: u64,
) -> (out: (ResumeState, Option<String>))
    ensures
        out.0.downloaded == match partial_size {
            Some(n) => n,
            None => 0,
        },
        out.0.total == declared_size,
        opt_text(out.1) == range_from(out.0.downloaded),
{
    let offset = match partial_size {
        Some(n) => n,
        None => 0,
    };
    let state = ResumeState { downloaded: offset, total: declared_size };
    if offset == 0 {
        (state, None)
    } else {
        let mut header = chars_of("bytes=");
        push_decimal(&mut header, offset);
        push_text(&mut header, "-");
        (state, Some(string_of(&header)))
    }
}

/// The message of a download that was stopped on request.
pub open spec fn cancelled_message() -> Seq<char> {
    "Download cancelled by user"@
}

/// The message of a download whose bytes do not have the expected digest.
pub open spec fn mismatch_message() -> Seq<char> {
    "Checksum verification failed"@
}

/// Decides at a chunk boundary whether the download goes on. A requested
/// cancellation ends it; else the chunk of `chunk_len` bytes is appended and
/// counted.
pub fn resume_chunk(
    state: ResumeState,
    flag: CancelFlag,
    chunk_len: u64,
) -> (out: Result<ResumeState, String>)
    requires
        state.downloaded + chunk_len <= u64::MAX,
    ensures
        flag.requested ==> (out matches Err(msg) && msg@ == cancelled_message()),
        !flag.requested ==> out == Ok::<ResumeState, String>(
            ResumeState { downloaded: (state.downloaded + chunk_len) as u64, total: state.total },
        ),
{
    if flag.requested {
        Err("Download cancelled by user".to_owned())
    } else {
        Ok(ResumeState { downloaded: state.downloaded + chunk_len, total: state.total })
    }
}

/// Judges the file of a resumable download once its body was received to the
/// end: it is accepted where no digest is expected or its bytes verify, and
/// refused with a checksum mismatch otherwise.
pub fn finish_resumable(data: &[u8], checksum: Option<&str>) -> (out: Result<(), String>)
    ensures
        checksum_ok(data@, crate::checksum::opt_chars(checksum), None) ==> out is Ok,
        !checksum_ok(data@, crate::checksum::opt_chars(checksum), None) ==> (out matches Err(msg)
            && msg@ == mismatch_message()),
{
    if verify_checksum(data, checksum, None) {
        Ok(())
    } else {
        Err("Checksum verification failed".to_owned())
    }
}

/// The part of `total` that `downloaded` is, in whole per cent, at most 100;
/// 0 where the total is not known.
pub open spec fn percent_of(downloaded: u64, total: u64) -> int {
    if total == 0 {
        0
    } else if downloaded >= total {
        100
    } else {
        downloaded as int * 100 / total as int
    }
}

/// The bytes per second at which `received` bytes came in `elapsed_ms`
/// milliseconds, at most the largest 64-bit number; 0 before any time has
/// passed.
pub open spec fn speed_of(received: u64, elapsed_ms: u64) -> int {
    if elapsed_ms == 0 {
        0
    } else if received as int * 1000 / elapsed_ms as int > u64::MAX {
        u64::MAX as int
    } else {
        received as int * 1000 / elapsed_ms as int
    }
}

/// The seconds that the rest takes at `speed` bytes per second; 0 where the
/// speed or the total is not known or nothing is left.
pub open spec fn eta_of(downloaded: u64, total: u64, speed: int) -> int {
    if speed <= 0 || total <= downloaded {
        0
    } else {
        (total - downloaded) / speed
    }
}

/// The part of `total` that `downloaded` is, in whole per cent.
pub fn percentage(downloaded: u64, total: u64) -> (out: u8)
    ensures
        out == percent_of(downloaded, total),
        out <= 100,
{
    if total == 0 {
        0
    } else if downloaded >= total {
        100
    } else {
        let p: u128 = (downloaded as u128) * 100 / (total as u128);
        assert(p < 100) by (nonlinear_arith)
            requires
                p == (downloaded as int) * 100 / (total as int),
                downloaded < total,
                total > 0,
        ;
        p as u8
    }
}

/// Whether a report of the installer says what is expected of it.
pub open spec fn java_progress_is(
    event: JavaDownloadProgress,
    file_name: Seq<char>,
    downloaded: u64,
    total: u64,
    speed: int,
    status: DownloadStatus,
) -> bool {
    &&& event.file_name@ == file_name
    &&& event.downloaded_bytes == downloaded
    &&& event.total_bytes == total
    &&& event.speed_bytes_per_sec == speed
    &&& event.eta_seconds == eta_of(downloaded, total, speed)
    &&& event.status@ == status.name()
    &&& event.percentage == percent_of(downloaded, total)
}

/// The report of a resumable download that has `state.downloaded` bytes on
/// disk, of which `received` came in the `elapsed_ms` milliseconds of this
/// run.
pub fn download_progress(
    file_name: &str,
    state: ResumeState,
    received: u64,
    elapsed_ms: u64,
) -> (event: JavaDownloadProgress)
    ensures
        java_progress_is(
            event,
            file_name@,
            state.downloaded,
            state.total,
            speed_of(received, elapsed_ms),
            DownloadStatus::Downloading,
        ),
{
    let speed: u64 = if elapsed_ms == 0 {
        0
    } else {
        let s: u128 = (received as u128) * 1000 / (elapsed_ms as u128);
        assert(s <= u64::MAX * 1000) by (nonlinear_arith)
            requires
                s == (received as int) * 1000 / (elapsed_ms as int),
                received <= u64::MAX,
                elapsed_ms >= 1,
        ;
        if s > u64::MAX as u128 {
            u64::MAX
        } else {
            s as u64
        }
    };
    let eta: u64 = if speed == 0 || state.total <= state.downloaded {
        0
    } else {
        (state.total - state.downloaded) / speed
    };
    JavaDownloadProgress {
        file_name: file_name.to_owned(),
        downloaded_bytes: state.downloaded,
        total_bytes: state.total,
        speed_bytes_per_sec: speed,
        eta_seconds: eta,
        status: DownloadStatus::Downloading.as_str().to_owned(),
        percentage: percentage(state.downloaded, state.total),
    }
}

/// The report of an archive of `size` bytes that is wholly there and has
/// reached the stage `status`.
pub fn archive_progress(
    file_name: &str,
    size: u64,
    status: DownloadStatus,
) -> (event: JavaDownloadProgress)
    ensures
        java_progress_is(event, file_name@, size, size, 0, status),
{
    JavaDownloadProgress {
        file_name: file_name.to_owned(),
        downloaded_bytes: size,
        total_bytes: size,
        speed_bytes_per_sec: 0,
        eta_seconds: 0,
        status: status.as_str().to_owned(),
        percentage: percentage(size, size),
    }
}

} // verus!
