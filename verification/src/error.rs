//! Error kinds of the Java component and the classifier that buckets failure
//! messages of resumed downloads.

use crate::text::{ascii_lower, chars_of, contains, contains_sub, to_ascii_lower};
use vstd::prelude::*;

verus! {

/// Everything that can go wrong while finding, fetching or installing a runtime.
#[derive(Debug, Clone)]
pub enum JavaError {
    /// No installation, release or asset was found.
    NotFound,
    /// A version string could not be understood.
    InvalidVersion(String),
    /// A candidate did not behave like a Java runtime.
    VerificationFailed(String),
    /// A request failed in transport or with a non-success status.
    NetworkError(String),
    /// A file operation failed.
    IoError(String),
    /// An operation ran out of time.
    Timeout(String),
    /// Stored or received data could not be encoded or decoded.
    SerializationError(String),
    /// A setting or parameter is unusable.
    InvalidConfig(String),
    /// A download did not complete.
    DownloadFailed(String),
    /// An archive could not be unpacked.
    ExtractionFailed(String),
    /// Downloaded bytes do not have the expected digest.
    ChecksumMismatch(String),
    /// Anything else.
    Other(String),
}

impl JavaError {
    /// The text that precedes the detail of each kind.
    pub open spec fn label(self) -> Seq<char> {
        match self {
            JavaError::NotFound => "Java installation not found"@,
            JavaError::InvalidVersion(_) => "Invalid Java version: "@,
            JavaError::VerificationFailed(_) => "Java verification failed: "@,
            JavaError::NetworkError(_) => "Network error: "@,
            JavaError::IoError(_) => "I/O error: "@,
            JavaError::Timeout(_) => "Operation timeout: "@,
            JavaError::SerializationError(_) => "Serialization error: "@,
            JavaError::InvalidConfig(_) => "Invalid configuration: "@,
            JavaError::DownloadFailed(_) => "Download failed: "@,
            JavaError::ExtractionFailed(_) => "Extraction failed: "@,
            JavaError::ChecksumMismatch(_) => "Checksum mismatch: "@,
            JavaError::Other(_) => Seq::<char>::empty(),
        }
    }

    /// The detail carried by the error; empty for `NotFound`.
    pub open spec fn detail(self) -> Seq<char> {
        match self {
            JavaError::NotFound => Seq::<char>::empty(),
            JavaError::InvalidVersion(m) => m@,
            JavaError::VerificationFailed(m) => m@,
            JavaError::NetworkError(m) => m@,
            JavaError::IoError(m) => m@,
            JavaError::Timeout(m) => m@,
            JavaError::SerializationError(m) => m@,
            JavaError::InvalidConfig(m) => m@,
            JavaError::DownloadFailed(m) => m@,
            JavaError::ExtractionFailed(m) => m@,
            JavaError::ChecksumMismatch(m) => m@,
            JavaError::Other(m) => m@,
        }
    }

    /// The human-readable message: the label of the kind followed by the detail.
    pub open spec fn message(self) -> Seq<char> {
        self.label() + self.detail()
    }

    /// Renders the error as its human-readable message.
    pub fn to_string(&self) -> (out: String)
        ensures
            out@ == self.message(),
    {
        match self {
            JavaError::NotFound => {
                let out = "Java installation not found".to_owned();
                assert(out@ + Seq::<char>::empty() =~= out@);
                out
            },
            JavaError::InvalidVersion(m) => "Invalid Java version: ".to_owned().concat(m.as_str()),
            JavaError::VerificationFailed(m) => "Java verification failed: ".to_owned().concat(
                m.as_str(),
            ),
            JavaError::NetworkError(m) => "Network error: ".to_owned().concat(m.as_str()),
            JavaError::IoError(m) => "I/O error: ".to_owned().concat(m.as_str()),
            JavaError::Timeout(m) => "Operation timeout: ".to_owned().concat(m.as_str()),
            JavaError::SerializationError(m) => "Serialization error: ".to_owned().concat(
                m.as_str(),
            ),
            JavaError::InvalidConfig(m) => "Invalid configuration: ".to_owned().concat(m.as_str()),
            JavaError::DownloadFailed(m) => "Download failed: ".to_owned().concat(m.as_str()),
            JavaError::ExtractionFailed(m) => "Extraction failed: ".to_owned().concat(m.as_str()),
            JavaError::ChecksumMismatch(m) => "Checksum mismatch: ".to_owned().concat(m.as_str()),
            JavaError::Other(m) => {
                let out = m.clone();
                assert(Seq::<char>::empty() + out@ =~= out@);
                out
            },
        }
    }
}

/// The error that a failed file operation stands for.
pub fn io_failure(cause: String) -> (err: JavaError)
    ensures
        err == JavaError::IoError(cause),
{
    JavaError::IoError(cause)
}

/// The error that data which cannot be encoded or decoded stands for.
pub fn serialization_failure(cause: String) -> (err: JavaError)
    ensures
        err == JavaError::SerializationError(cause),
{
    JavaError::SerializationError(cause)
}

/// The error that a failed request stands for: a timeout where the request
/// ran out of time, a network error in every other case.
pub fn request_failure(timed_out: bool, cause: String) -> (err: JavaError)
    ensures
        err == if timed_out {
            JavaError::Timeout(cause)
        } else {
            JavaError::NetworkError(cause)
        },
{
    if timed_out {
        JavaError::Timeout(cause)
    } else {
        JavaError::NetworkError(cause)
    }
}

impl From<String> for JavaError {
    fn from(err: String) -> (out: JavaError) {
        JavaError::Other(err)
    }
}

impl vstd::std_specs::convert::FromSpecImpl<String> for JavaError {
    open spec fn obeys_from_spec() -> bool {
        true
    }

    open spec fn from_spec(err: String) -> JavaError {
        JavaError::Other(err)
    }
}

/// The stable bucket into which the failure of a resumed download falls.
#[derive(Debug, Clone, Copy, PartialEq, Eq, Structural)]
pub enum ResumeJavaDownloadFailureReason {
    Network,
    Cancelled,
    ChecksumMismatch,
    ExtractionFailed,
    VerificationFailed,
    Filesystem,
    InvalidArchive,
    Unknown,
}

/// Whether the lower-cased message names an extraction problem.
pub open spec fn mentions_extraction(lower: Seq<char>) -> bool {
    contains_sub(lower, "extract"@) || contains_sub(lower, "unsupported archive"@)
}

/// Whether the lower-cased message names a failed verification of the runtime.
pub open spec fn mentions_verification(lower: Seq<char>) -> bool {
    contains_sub(lower, "verify"@) || contains_sub(lower, "java executable not found"@)
}

/// Whether the lower-cased message names a network problem.
pub open spec fn mentions_network(lower: Seq<char>) -> bool {
    contains_sub(lower, "request"@) || contains_sub(lower, "network"@) || contains_sub(
        lower,
        "timed out"@,
    ) || contains_sub(lower, "http status"@)
}

/// Whether the lower-cased message names a malformed archive.
pub open spec fn mentions_archive(lower: Seq<char>) -> bool {
    contains_sub(lower, "archive"@) || contains_sub(lower, "top-level directory"@)
}

/// Whether the lower-cased message names a file-system problem.
pub open spec fn mentions_filesystem(lower: Seq<char>) -> bool {
    contains_sub(lower, "create"@) || contains_sub(lower, "write"@) || contains_sub(
        lower,
        "read"@,
    ) || contains_sub(lower, "rename"@) || contains_sub(lower, "permission"@) || contains_sub(
        lower,
        "directory"@,
    ) || contains_sub(lower, "path"@)
}

/// The bucket of a message: the first keyword group, in priority order, of which
/// one keyword stands in the lower-cased message.
pub open spec fn classify_message(msg: Seq<char>) -> ResumeJavaDownloadFailureReason {
    let lower = ascii_lower(msg);
    if contains_sub(lower, "cancel"@) {
        ResumeJavaDownloadFailureReason::Cancelled
    } else if contains_sub(lower, "checksum"@) {
        ResumeJavaDownloadFailureReason::ChecksumMismatch
    } else if mentions_extraction(lower) {
        ResumeJavaDownloadFailureReason::ExtractionFailed
    } else if mentions_verification(lower) {
        ResumeJavaDownloadFailureReason::VerificationFailed
    } else if mentions_network(lower) {
        ResumeJavaDownloadFailureReason::Network
    } else if mentions_archive(lower) {
        ResumeJavaDownloadFailureReason::InvalidArchive
    } else if mentions_filesystem(lower) {
        ResumeJavaDownloadFailureReason::Filesystem
    } else {
        ResumeJavaDownloadFailureReason::Unknown
    }
}

/// Tests whether the keyword stands in the lower-cased message.
fn has_keyword(lower: &Vec<char>, keyword: &str) -> (found: bool)
    ensures
        found == contains_sub(lower@, keyword@),
{
    let pat = chars_of(keyword);
    contains(lower, &pat)
}

impl ResumeJavaDownloadFailureReason {
    /// Classifies a free-form error message by keyword, case-insensitively; the
    /// first matching group in priority order decides.
    pub fn from_error_message(error: &str) -> (reason: Self)
        ensures
            reason == classify_message(error@),
    {
        let raw = chars_of(error);
        let lower = to_ascii_lower(&raw);
        if has_keyword(&lower, "cancel") {
            return Self::Cancelled;
        }
        if has_keyword(&lower, "checksum") {
            return Self::ChecksumMismatch;
        }
        if has_keyword(&lower, "extract") || has_keyword(&lower, "unsupported archive") {
            return Self::ExtractionFailed;
        }
        if has_keyword(&lower, "verify") || has_keyword(&lower, "java executable not found") {
            return Self::VerificationFailed;
        }
        if has_keyword(&lower, "request") || has_keyword(&lower, "network") || has_keyword(
            &lower,
            "timed out",
        ) || has_keyword(&lower, "http status") {
            return Self::Network;
        }
        if has_keyword(&lower, "archive") || has_keyword(&lower, "top-level directory") {
            return Self::InvalidArchive;
        }
        if has_keyword(&lower, "create") || has_keyword(&lower, "write") || has_keyword(
            &lower,
            "read",
        ) || has_keyword(&lower, "rename") || has_keyword(&lower, "permission") || has_keyword(
            &lower,
            "directory",
        ) || has_keyword(&lower, "path") {
            return Self::Filesystem;
        }
        Self::Unknown
    }
}

} // verus!
