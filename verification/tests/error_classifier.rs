use java_manager::error::{
    io_failure, request_failure, serialization_failure, JavaError,
    ResumeJavaDownloadFailureReason,
};

#[test]
fn classify_resume_failure_reason_table_driven() {
    let cases = [
        (
            "Download cancelled by user",
            ResumeJavaDownloadFailureReason::Cancelled,
        ),
        (
            "Checksum verification failed",
            ResumeJavaDownloadFailureReason::ChecksumMismatch,
        ),
        (
            "Failed to extract file: invalid archive",
            ResumeJavaDownloadFailureReason::ExtractionFailed,
        ),
        (
            "Failed to verify Java installation",
            ResumeJavaDownloadFailureReason::VerificationFailed,
        ),
        (
            "Request failed: timed out",
            ResumeJavaDownloadFailureReason::Network,
        ),
        ("HTTP status 503", ResumeJavaDownloadFailureReason::Network),
        (
            "Failed to create directory",
            ResumeJavaDownloadFailureReason::Filesystem,
        ),
        (
            "Top-level directory not found in archive",
            ResumeJavaDownloadFailureReason::InvalidArchive,
        ),
        (
            "completely unknown issue",
            ResumeJavaDownloadFailureReason::Unknown,
        ),
    ];

    for (message, expected) in cases {
        let actual = ResumeJavaDownloadFailureReason::from_error_message(message);
        assert_eq!(
            std::mem::discriminant(&actual),
            std::mem::discriminant(&expected),
            "message '{}' expected {:?} but got {:?}",
            message,
            expected,
            actual
        );
    }
}

#[test]
fn classify_resume_failure_reason_priority_rules() {
    let cancelled_over_network =
        ResumeJavaDownloadFailureReason::from_error_message("request cancelled due to timeout");
    assert_eq!(
        std::mem::discriminant(&cancelled_over_network),
        std::mem::discriminant(&ResumeJavaDownloadFailureReason::Cancelled)
    );

    let checksum_over_filesystem = ResumeJavaDownloadFailureReason::from_error_message(
        "failed to read file: checksum mismatch",
    );
    assert_eq!(
        std::mem::discriminant(&checksum_over_filesystem),
        std::mem::discriminant(&ResumeJavaDownloadFailureReason::ChecksumMismatch)
    );
}

#[test]
fn classifier_ignores_case_and_orders_groups() {
    assert_eq!(
        ResumeJavaDownloadFailureReason::from_error_message("CANCELLED"),
        ResumeJavaDownloadFailureReason::Cancelled
    );
    assert_eq!(
        ResumeJavaDownloadFailureReason::from_error_message("Unsupported archive format: a.rar"),
        ResumeJavaDownloadFailureReason::ExtractionFailed
    );
    assert_eq!(
        ResumeJavaDownloadFailureReason::from_error_message("Java executable not found: /x"),
        ResumeJavaDownloadFailureReason::VerificationFailed
    );
    assert_eq!(
        ResumeJavaDownloadFailureReason::from_error_message("network unreachable, cannot write"),
        ResumeJavaDownloadFailureReason::Network
    );
    assert_eq!(
        ResumeJavaDownloadFailureReason::from_error_message("bad archive at path"),
        ResumeJavaDownloadFailureReason::InvalidArchive
    );
    assert_eq!(
        ResumeJavaDownloadFailureReason::from_error_message("permission denied"),
        ResumeJavaDownloadFailureReason::Filesystem
    );
    assert_eq!(
        ResumeJavaDownloadFailureReason::from_error_message(""),
        ResumeJavaDownloadFailureReason::Unknown
    );
}

#[test]
fn error_messages_carry_label_and_detail() {
    assert_eq!(JavaError::NotFound.to_string(), "Java installation not found");
    assert_eq!(
        JavaError::InvalidVersion("x".to_string()).to_string(),
        "Invalid Java version: x"
    );
    assert_eq!(
        JavaError::VerificationFailed("x".to_string()).to_string(),
        "Java verification failed: x"
    );
    assert_eq!(
        JavaError::NetworkError("x".to_string()).to_string(),
        "Network error: x"
    );
    assert_eq!(JavaError::IoError("x".to_string()).to_string(), "I/O error: x");
    assert_eq!(
        JavaError::Timeout("x".to_string()).to_string(),
        "Operation timeout: x"
    );
    assert_eq!(
        JavaError::SerializationError("x".to_string()).to_string(),
        "Serialization error: x"
    );
    assert_eq!(
        JavaError::InvalidConfig("x".to_string()).to_string(),
        "Invalid configuration: x"
    );
    assert_eq!(
        JavaError::DownloadFailed("x".to_string()).to_string(),
        "Download failed: x"
    );
    assert_eq!(
        JavaError::ExtractionFailed("x".to_string()).to_string(),
        "Extraction failed: x"
    );
    assert_eq!(
        JavaError::ChecksumMismatch("x".to_string()).to_string(),
        "Checksum mismatch: x"
    );
    assert_eq!(JavaError::Other("plain".to_string()).to_string(), "plain");
    assert!(matches!(
        JavaError::from("boom".to_string()),
        JavaError::Other(m) if m == "boom"
    ));
}

#[test]
fn outside_failures_become_error_kinds() {
    assert!(matches!(io_failure("denied".to_string()), JavaError::IoError(m) if m == "denied"));
    assert!(matches!(
        serialization_failure("eof".to_string()),
        JavaError::SerializationError(m) if m == "eof"
    ));
    assert!(matches!(
        request_failure(true, "slow".to_string()),
        JavaError::Timeout(m) if m == "slow"
    ));
    assert!(matches!(
        request_failure(false, "refused".to_string()),
        JavaError::NetworkError(m) if m == "refused"
    ));
}
