use java_manager::adoptium::{
    release_from_answer, AdoptiumAsset, AdoptiumBinary, AdoptiumPackage, AdoptiumProvider,
    AdoptiumVersionData, ReleaseAnswer,
};
use java_manager::archive::{extract_tar_gz, ArchiveEntry};
use java_manager::checksum::compute_sha256;
use java_manager::downloader::{
    archive_progress, finish_resumable, resume_chunk, start_resumable, CancelFlag, DownloadStatus,
};
use java_manager::error::ResumeJavaDownloadFailureReason;
use java_manager::install::{
    announced_status, archive_kind, begin_resume, complete_install, executable_missing,
    find_top_level_dir, install_base_dir, java_home_dir, need_download, next_stage, plan_install,
    record_resume_outcome, register_install, resume_target, ArchiveKind, InstallStage,
};
use java_manager::platform::{resolve_java_executable, HostArch, HostOs, HostPlatform};
use java_manager::provider::JavaProvider;
use java_manager::queue::{DownloadQueue, PendingJavaDownload};
use java_manager::types::{ImageType, JavaDownloadInfo, JavaInstallation, JavaSource};
use java_manager::validation::check_java_installation;

fn info(checksum: Option<String>) -> JavaDownloadInfo {
    JavaDownloadInfo {
        version: "21.0.5+11".to_string(),
        release_name: "jdk-21.0.5+11".to_string(),
        download_url: "https://x/OpenJDK21U-jre.tar.gz".to_string(),
        file_name: "OpenJDK21U-jre.tar.gz".to_string(),
        file_size: 13,
        checksum,
        image_type: ImageType::Jre,
    }
}

#[test]
fn install_is_laid_out_below_the_base() {
    assert_eq!(install_base_dir(None, "/data", HostOs::Linux), "/data/java");
    assert_eq!(install_base_dir(Some("/custom"), "/data", HostOs::Linux), "/custom");
    let plan = plan_install(
        &info(Some("abc".to_string())),
        "temurin",
        17,
        ImageType::Jre,
        "/data/java",
        99,
        HostOs::Linux,
    );
    assert_eq!(plan.install_base, "/data/java");
    assert_eq!(plan.version_dir, "/data/java/temurin-17-jre");
    assert_eq!(plan.archive_path, "/data/java/OpenJDK21U-jre.tar.gz");
    assert_eq!(plan.pending.major_version, 17);
    assert_eq!(plan.pending.image_type, "jre");
    assert_eq!(plan.pending.download_url, "https://x/OpenJDK21U-jre.tar.gz");
    assert_eq!(plan.pending.file_name, "OpenJDK21U-jre.tar.gz");
    assert_eq!(plan.pending.file_size, 13);
    assert_eq!(plan.pending.checksum, Some("abc".to_string()));
    assert_eq!(plan.pending.install_path, "/data/java");
    assert_eq!(plan.pending.created_at, 99);
    let plan = plan_install(&info(None), "corretto", 8, ImageType::Jdk, "C:\\j", 0, HostOs::Windows);
    assert_eq!(plan.version_dir, "C:\\j\\corretto-8-jdk");
    assert_eq!(plan.archive_path, "C:\\j\\OpenJDK21U-jre.tar.gz");
}

#[test]
fn verified_archive_is_not_fetched_again() {
    let data = b"archive bytes";
    let digest = compute_sha256(data);
    assert!(need_download(None, Some(&digest)));
    assert!(need_download(None, None));
    assert!(!need_download(Some(data), Some(&digest)));
    assert!(need_download(Some(data), Some("deadbeef")));
    assert!(!need_download(Some(data), None));
    assert_eq!(
        next_stage(InstallStage::InspectArchive, true, false),
        InstallStage::AnnounceExtracting
    );
    assert_eq!(next_stage(InstallStage::InspectArchive, true, true), InstallStage::Download);
}

#[test]
fn archive_format_is_told_by_the_name() {
    assert_eq!(archive_kind("a.tar.gz"), Ok(ArchiveKind::TarGz));
    assert_eq!(archive_kind("a.tgz"), Ok(ArchiveKind::TarGz));
    assert_eq!(archive_kind("a.zip"), Ok(ArchiveKind::Zip));
    assert_eq!(archive_kind(".zip"), Ok(ArchiveKind::Zip));
    assert_eq!(
        archive_kind("a.rar"),
        Err("Unsupported archive format: a.rar".to_string())
    );
    assert_eq!(archive_kind("a.ZIP"), Err("Unsupported archive format: a.ZIP".to_string()));
    assert_eq!(archive_kind(""), Err("Unsupported archive format: ".to_string()));
    assert_eq!(archive_kind("zip"), Err("Unsupported archive format: zip".to_string()));
    assert_eq!(
        std::mem::discriminant(&ResumeJavaDownloadFailureReason::from_error_message(
            &archive_kind("a.rar").unwrap_err()
        )),
        std::mem::discriminant(&ResumeJavaDownloadFailureReason::ExtractionFailed)
    );
}

#[test]
fn zip_needs_exactly_one_top_level_directory() {
    assert_eq!(find_top_level_dir(&vec!["jdk-17".to_string()]), Ok("jdk-17".to_string()));
    assert_eq!(
        find_top_level_dir(&Vec::new()),
        Err("Expected exactly one top-level directory, found 0".to_string())
    );
    let two = find_top_level_dir(&vec!["a".to_string(), "b".to_string()]).unwrap_err();
    assert_eq!(two, "Expected exactly one top-level directory, found 2");
    assert_eq!(
        std::mem::discriminant(&ResumeJavaDownloadFailureReason::from_error_message(&two)),
        std::mem::discriminant(&ResumeJavaDownloadFailureReason::InvalidArchive)
    );
    assert_eq!(java_home_dir("/v", "jdk-17", HostOs::Linux), "/v/jdk-17");
    assert_eq!(
        executable_missing("/v/jdk-17/bin/java"),
        "Installation completed but Java executable not found: /v/jdk-17/bin/java"
    );
}

#[test]
fn stages_follow_in_order_and_failures_end_the_install() {
    let order = [
        InstallStage::FetchRelease,
        InstallStage::CreateBase,
        InstallStage::Register,
        InstallStage::InspectArchive,
        InstallStage::Download,
        InstallStage::AnnounceExtracting,
        InstallStage::ClearVersionDir,
        InstallStage::Extract,
        InstallStage::LocateExecutable,
        InstallStage::Validate,
        InstallStage::RemoveArchive,
        InstallStage::Retire,
        InstallStage::AnnounceCompleted,
        InstallStage::Done,
    ];
    for pair in order.windows(2) {
        assert_eq!(next_stage(pair[0], true, true), pair[1]);
    }
    assert_eq!(next_stage(InstallStage::Done, true, true), InstallStage::Done);
    assert_eq!(next_stage(InstallStage::Done, false, true), InstallStage::Done);
    assert_eq!(next_stage(InstallStage::Failed, true, true), InstallStage::Failed);
    for stage in [
        InstallStage::FetchRelease,
        InstallStage::CreateBase,
        InstallStage::Register,
        InstallStage::InspectArchive,
        InstallStage::Download,
        InstallStage::ClearVersionDir,
        InstallStage::Extract,
        InstallStage::LocateExecutable,
        InstallStage::Validate,
        InstallStage::Retire,
        InstallStage::Failed,
    ] {
        assert_eq!(next_stage(stage, false, true), InstallStage::Failed);
    }
    assert_eq!(
        next_stage(InstallStage::AnnounceExtracting, false, true),
        InstallStage::ClearVersionDir
    );
    assert_eq!(next_stage(InstallStage::RemoveArchive, false, true), InstallStage::Retire);
    assert_eq!(next_stage(InstallStage::AnnounceCompleted, false, true), InstallStage::Done);
    assert_eq!(
        announced_status(InstallStage::AnnounceExtracting),
        Some(DownloadStatus::Extracting)
    );
    assert_eq!(
        announced_status(InstallStage::AnnounceCompleted),
        Some(DownloadStatus::Completed)
    );
    assert_eq!(announced_status(InstallStage::Download), None);
}

#[test]
fn failed_validation_keeps_the_pending_entry() {
    let mut queue = DownloadQueue::new();
    let plan = plan_install(&info(None), "temurin", 21, ImageType::Jre, "/d", 5, HostOs::Linux);
    register_install(&mut queue, &plan);
    assert!(queue.contains(21, "jre"));
    let failed = complete_install(&mut queue, 21, ImageType::Jre, None);
    assert_eq!(failed.unwrap_err(), "Failed to verify Java installation");
    assert!(queue.contains(21, "jre"));
    assert_eq!(queue.len(), 1);
    register_install(&mut queue, &plan);
    assert_eq!(queue.len(), 1);
}

#[test]
fn install_happy_path() {
    let provider = AdoptiumProvider::new(HostPlatform {
        os: HostOs::Linux,
        arch: HostArch::X86_64,
        alpine: false,
    });
    let archive = b"pretend archive".to_vec();
    let checksum = compute_sha256(&archive);
    let asset = AdoptiumAsset {
        binary: AdoptiumBinary {
            os: "linux".to_string(),
            architecture: "x64".to_string(),
            image_type: "jre".to_string(),
            package: AdoptiumPackage {
                name: "OpenJDK21U-jre_x64_linux_hotspot_21.0.5_11.tar.gz".to_string(),
                link: "https://x/jre.tar.gz".to_string(),
                size: archive.len() as u64,
                checksum: Some(checksum.clone()),
            },
            updated_at: None,
        },
        release_name: "jdk-21.0.5+11".to_string(),
        version: AdoptiumVersionData {
            major: 21,
            minor: 0,
            security: 5,
            semver: "21.0.5+11".to_string(),
            openjdk_version: "21.0.5+11".to_string(),
        },
    };
    let mut stage = InstallStage::FetchRelease;
    let info = release_from_answer(ReleaseAnswer::Assets(vec![asset]), ImageType::Jre).unwrap();
    stage = next_stage(stage, true, false);
    assert_eq!(stage, InstallStage::CreateBase);
    let base = install_base_dir(None, "/data", HostOs::Linux);
    let plan = plan_install(
        &info,
        provider.install_prefix(),
        21,
        ImageType::Jre,
        &base,
        1000,
        HostOs::Linux,
    );
    assert_eq!(plan.version_dir, "/data/java/temurin-21-jre");
    stage = next_stage(stage, true, false);
    let mut queue = DownloadQueue::new();
    register_install(&mut queue, &plan);
    assert_eq!(queue.len(), 1);
    stage = next_stage(stage, true, false);
    assert_eq!(stage, InstallStage::InspectArchive);
    let needed = need_download(None, info.checksum.as_deref());
    assert!(needed);
    stage = next_stage(stage, true, needed);
    assert_eq!(stage, InstallStage::Download);
    let (mut state, range) = start_resumable(None, info.file_size);
    assert_eq!(range, None);
    state = resume_chunk(state, CancelFlag::new(), 7).unwrap();
    state = resume_chunk(state, CancelFlag::new(), 8).unwrap();
    assert_eq!(state.downloaded, info.file_size);
    assert_eq!(finish_resumable(&archive, info.checksum.as_deref()), Ok(()));
    stage = next_stage(stage, true, needed);
    assert_eq!(announced_status(stage), Some(DownloadStatus::Extracting));
    let report = archive_progress(&info.file_name, info.file_size, DownloadStatus::Extracting);
    assert_eq!(report.percentage, 100);
    assert_eq!(report.status, "Extracting");
    stage = next_stage(stage, true, needed);
    stage = next_stage(stage, true, needed);
    assert_eq!(stage, InstallStage::Extract);
    let entries = vec![
        ArchiveEntry { path: "jdk-21.0.5+11-jre/".to_string(), is_dir: true, mode: Some(0o755) },
        ArchiveEntry {
            path: "jdk-21.0.5+11-jre/bin/java".to_string(),
            is_dir: false,
            mode: Some(0o755),
        },
    ];
    let tar = extract_tar_gz(&entries, &plan.version_dir, HostOs::Linux).unwrap();
    assert_eq!(tar.top_level_dir, "jdk-21.0.5+11-jre");
    stage = next_stage(stage, true, needed);
    let home = java_home_dir(&plan.version_dir, &tar.top_level_dir, HostOs::Linux);
    let java_bin = resolve_java_executable(&home, HostOs::Linux);
    assert_eq!(java_bin, "/data/java/temurin-21-jre/jdk-21.0.5+11-jre/bin/java");
    stage = next_stage(stage, true, needed);
    assert_eq!(stage, InstallStage::Validate);
    let banner = "openjdk version \"21.0.5\" 2024-10-15 LTS\nOpenJDK Runtime Environment\nOpenJDK 64-Bit Server VM";
    let validated = check_java_installation(&java_bin, banner, JavaSource::Managed);
    stage = next_stage(stage, validated.is_some(), needed);
    assert_eq!(stage, InstallStage::RemoveArchive);
    stage = next_stage(stage, true, needed);
    assert_eq!(stage, InstallStage::Retire);
    let installation = complete_install(&mut queue, 21, ImageType::Jre, validated).unwrap();
    stage = next_stage(stage, true, needed);
    assert_eq!(announced_status(stage), Some(DownloadStatus::Completed));
    stage = next_stage(stage, true, needed);
    assert_eq!(stage, InstallStage::Done);
    assert_eq!(installation.version, "21.0.5");
    assert!(installation.is_64bit);
    assert_eq!(installation.path, "/data/java/temurin-21-jre/jdk-21.0.5+11-jre/bin/java");
    assert!(queue.is_empty());
}

fn pending(image_type: &str) -> PendingJavaDownload {
    PendingJavaDownload {
        major_version: 17,
        image_type: image_type.to_string(),
        download_url: "u".to_string(),
        file_name: "f.tar.gz".to_string(),
        file_size: 1,
        checksum: None,
        install_path: "/data/java".to_string(),
        created_at: 0,
    }
}

#[test]
fn resumption_targets_and_outcomes() {
    assert_eq!(
        resume_target(&pending("jdk")),
        (17, ImageType::Jdk, "/data/java".to_string())
    );
    assert_eq!(
        resume_target(&pending(" JRE ")),
        (17, ImageType::Jre, "/data/java".to_string())
    );
    assert_eq!(
        resume_target(&pending("weird")),
        (17, ImageType::Jre, "/data/java".to_string())
    );
    let mut result = begin_resume(3);
    assert_eq!(result.total_pending, 3);
    let java = JavaInstallation {
        path: "/p".to_string(),
        version: "17".to_string(),
        arch: "x64".to_string(),
        vendor: "openjdk".to_string(),
        source: "managed".to_string(),
        is_64bit: true,
    };
    record_resume_outcome(&mut result, &pending("jre"), Ok(java));
    record_resume_outcome(
        &mut result,
        &pending("jdk"),
        Err("Download cancelled by user".to_string()),
    );
    record_resume_outcome(
        &mut result,
        &pending("jre"),
        Err("Checksum verification failed".to_string()),
    );
    assert_eq!(result.total_pending, 3);
    assert_eq!(result.successful_installations.len(), 1);
    assert_eq!(result.successful_installations[0].path, "/p");
    assert_eq!(result.failed_downloads.len(), 2);
    let first = &result.failed_downloads[0];
    assert_eq!(first.major_version, 17);
    assert_eq!(first.image_type, "jdk");
    assert_eq!(first.install_path, "/data/java");
    assert_eq!(first.reason, ResumeJavaDownloadFailureReason::Cancelled);
    assert_eq!(first.error, "Download cancelled by user");
    assert_eq!(
        result.failed_downloads[1].reason,
        ResumeJavaDownloadFailureReason::ChecksumMismatch
    );
}
