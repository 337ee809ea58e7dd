//! The installation of one release: what is fetched and where it goes, the
//! order of the stages, and what becomes of the pending entry.

use crate::cache::get_java_install_dir;
use crate::checksum::{checksum_ok, opt_chars, verify_checksum};
use crate::downloader::{opt_bytes, DownloadStatus};
use crate::error::{classify_message, ResumeJavaDownloadFailureReason};
use crate::platform::{join, joined, HostOs};
use crate::queue::{with_entry, without_key, DownloadQueue, PendingJavaDownload};
use crate::text::{chars_of, decimal, ends_with, has_suffix, push_decimal, push_text, string_of};
use crate::types::{
    duplicate_opt, image_type_named, ImageType, JavaDownloadInfo, JavaInstallation,
    ResumeJavaDownloadFailure, ResumeJavaDownloadsResult,
};
use vstd::prelude::*;

verus! {

/// The directory below which a release is installed: the one that the caller
/// names, or the managed directory below the application data directory.
pub fn install_base_dir(custom_path: Option<&str>, app_data_dir: &str, os: HostOs) -> (base: String)
    ensures
        base@ == match custom_path {
            Some(path) => path@,
            None => joined(app_data_dir@, "java"@, os),
        },
{
    match custom_path {
        Some(path) => path.to_owned(),
        None => get_java_install_dir(app_data_dir, os),
    }
}

/// The name of the directory of one installed release, such as
/// `temurin-17-jre`.
pub open spec fn version_dir_name(
    prefix: Seq<char>,
    major_version: u32,
    image_type: ImageType,
) -> Seq<char> {
    prefix + "-"@ + decimal(major_version as nat) + "-"@ + image_type.name()
}

/// What an installation works with.
#[derive(Debug, Clone)]
pub struct InstallPlan {
    /// The directory below which the release is installed.
    pub install_base: String,
    /// The directory of this release below the base.
    pub version_dir: String,
    /// Where the archive is kept while it is needed.
    pub archive_path: String,
    /// The entry that stands in the queue until the installation is there.
    pub pending: PendingJavaDownload,
}

/// Whether `pending` is the queue entry of the installation of `info`.
pub open spec fn is_pending_for(
    pending: PendingJavaDownload,
    info: JavaDownloadInfo,
    major_version: u32,
    image_type: ImageType,
    install_base: Seq<char>,
    now: u64,
) -> bool {
    &&& pending.major_version == major_version
    &&& pending.image_type@ == image_type.name()
    &&& pending.download_url == info.download_url
    &&& pending.file_name == info.file_name
    &&& pending.file_size == info.file_size
    &&& pending.checksum == info.checksum
    &&& pending.install_path@ == install_base
    &&& pending.created_at == now
}

/// Lays out the installation of a release: the directory of the release is
/// named after the provider's prefix, the major version and the image type,
/// the archive stands below the base under its own name, and the queue entry
/// repeats what the release declares.
pub fn plan_install(
    info: &JavaDownloadInfo,
    install_prefix: &str,
    major_version: u32,
    image_type: ImageType,
    install_base: &str,
    now: u64,
    os: HostOs,
) -> (plan: InstallPlan)
    ensures
        plan.install_base@ == install_base@,
        plan.version_dir@ == joined(
            install_base@,
            version_dir_name(install_prefix@, major_version, image_type),
            os,
        ),
        plan.archive_path@ == joined(install_base@, info.file_name@, os),
        is_pending_for(plan.pending, *info, major_version, image_type, install_base@, now),
{
    let mut name = chars_of(install_prefix);
    push_text(&mut name, "-");
    push_decimal(&mut name, major_version as u64);
    push_text(&mut name, "-");
    push_text(&mut name, image_type.as_str());
    let dir_name = string_of(&name);
    InstallPlan {
        install_base: install_base.to_owned(),
        version_dir: join(install_base, dir_name.as_str(), os),
        archive_path: join(install_base, info.file_name.as_str(), os),
        pending: PendingJavaDownload {
            major_version,
            image_type: image_type.to_string(),
            download_url: info.download_url.clone(),
            file_name: info.file_name.clone(),
            file_size: info.file_size,
            checksum: duplicate_opt(&info.checksum),
            install_path: install_base.to_owned(),
            created_at: now,
        },
    }
}

/// Whether the archive has to be fetched: it is missing, or a digest is
/// declared and its bytes do not verify.
pub open spec fn download_needed(archive: Option<Seq<u8>>, checksum: Option<Seq<char>>) -> bool {
    match archive {
        None => true,
        Some(bytes) => checksum is Some && !checksum_ok(bytes, checksum, None),
    }
}

/// Decides whether the archive has to be fetched. `archive` holds the bytes
/// of the archive file where it is there. An archive that is there and
/// verifies against the declared digest is never fetched again.
pub fn need_download(archive: Option<&[u8]>, checksum: Option<&str>) -> (needed: bool)
    ensures
        needed == download_needed(opt_bytes(archive), opt_chars(checksum)),
        archive matches Some(bytes) ==> (checksum_ok(bytes@, opt_chars(checksum), None)
            ==> !needed),
{
    match archive {
        None => true,
        Some(bytes) => match checksum {
            Some(expected) => !verify_checksum(bytes, Some(expected), None),
            None => false,
        },
    }
}

/// The formats of archives that can be unpacked.
#[derive(Debug, Clone, Copy, PartialEq, Eq, Structural)]
pub enum ArchiveKind {
    TarGz,
    Zip,
}

/// The format that the name of an archive tells.
pub open spec fn kind_named(file_name: Seq<char>) -> Option<ArchiveKind> {
    if has_suffix(file_name, ".tar.gz"@) || has_suffix(file_name, ".tgz"@) {
        Some(ArchiveKind::TarGz)
    } else if has_suffix(file_name, ".zip"@) {
        Some(ArchiveKind::Zip)
    } else {
        None
    }
}

/// Tells the format of an archive by the end of its name; a name that ends in
/// none of `.tar.gz`, `.tgz` and `.zip` is refused.
pub fn archive_kind(file_name: &str) -> (out: Result<ArchiveKind, String>)
    ensures
        match kind_named(file_name@) {
            Some(kind) => out == Ok::<ArchiveKind, String>(kind),
            None => out matches Err(msg) && msg@ == "Unsupported archive format: "@ + file_name@,
        },
{
    let name = chars_of(file_name);
    let tar_gz = chars_of(".tar.gz");
    let tgz = chars_of(".tgz");
    let zip = chars_of(".zip");
    if ends_with(&name, &tar_gz) || ends_with(&name, &tgz) {
        Ok(ArchiveKind::TarGz)
    } else if ends_with(&name, &zip) {
        Ok(ArchiveKind::Zip)
    } else {
        Err("Unsupported archive format: ".to_owned().concat(file_name))
    }
}

/// The top-level directory of an unpacked zip archive: the one directory
/// that stands directly in the directory of the release. Any other number of
/// directories is a failure.
pub fn find_top_level_dir(directories: &Vec<String>) -> (out: Result<String, String>)
    ensures
        directories@.len() == 1 ==> out == Ok::<String, String>(directories@[0]),
        directories@.len() != 1 ==> (out matches Err(msg) && msg@
            == "Expected exactly one top-level directory, found "@ + decimal(
            directories@.len(),
        )),
{
    if directories.len() == 1 {
        Ok(directories[0].clone())
    } else {
        let mut msg = chars_of("Expected exactly one top-level directory, found ");
        push_decimal(&mut msg, directories.len() as u64);
        Err(string_of(&msg))
    }
}

/// The home directory of an unpacked runtime: the top-level directory of the
/// archive below the directory of the release.
pub fn java_home_dir(version_dir: &str, top_level_dir: &str, os: HostOs) -> (home: String)
    ensures
        home@ == joined(version_dir@, top_level_dir@, os),
{
    join(version_dir, top_level_dir, os)
}

/// The failure of an installation whose executable is not where it belongs.
pub fn executable_missing(java_bin: &str) -> (msg: String)
    ensures
        msg@ == "Installation completed but Java executable not found: "@ + java_bin@,
{
    "Installation completed but Java executable not found: ".to_owned().concat(java_bin)
}

/// The stages of an installation, in the order in which they are gone
/// through.
#[derive(Debug, Clone, Copy, PartialEq, Eq, Structural)]
pub enum InstallStage {
    /// Ask the provider for the release.
    FetchRelease,
    /// Create the base directory.
    CreateBase,
    /// Put the pending entry into the queue and store the queue.
    Register,
    /// See whether the archive is there and whether it verifies.
    InspectArchive,
    /// Fetch the archive, resuming a partial file.
    Download,
    /// Report that unpacking begins.
    AnnounceExtracting,
    /// Remove what an earlier installation left in the directory of the
    /// release and create the directory.
    ClearVersionDir,
    /// Unpack the archive.
    Extract,
    /// Find and resolve the executable.
    LocateExecutable,
    /// Probe the executable.
    Validate,
    /// Remove the archive.
    RemoveArchive,
    /// Take the pending entry out of the queue and store the queue.
    Retire,
    /// Report that the installation is complete.
    AnnounceCompleted,
    /// The installation is there.
    Done,
    /// The installation has failed; the pending entry stays.
    Failed,
}

/// Whether a failure at a stage is passed over: reports and the removal of
/// the archive may fail without harm.
pub open spec fn failure_is_ignored(stage: InstallStage) -> bool {
    stage == InstallStage::AnnounceExtracting || stage == InstallStage::RemoveArchive || stage
        == InstallStage::AnnounceCompleted
}

/// The stage that follows a stage that went well.
pub open spec fn stage_after_success(stage: InstallStage, need_download: bool) -> InstallStage {
    match stage {
        InstallStage::FetchRelease => InstallStage::CreateBase,
        InstallStage::CreateBase => InstallStage::Register,
        InstallStage::Register => InstallStage::InspectArchive,
        InstallStage::InspectArchive => if need_download {
            InstallStage::Download
        } else {
            InstallStage::AnnounceExtracting
        },
        InstallStage::Download => InstallStage::AnnounceExtracting,
        InstallStage::AnnounceExtracting => InstallStage::ClearVersionDir,
        InstallStage::ClearVersionDir => InstallStage::Extract,
        InstallStage::Extract => InstallStage::LocateExecutable,
        InstallStage::LocateExecutable => InstallStage::Validate,
        InstallStage::Validate => InstallStage::RemoveArchive,
        InstallStage::RemoveArchive => InstallStage::Retire,
        InstallStage::Retire => InstallStage::AnnounceCompleted,
        InstallStage::AnnounceCompleted => InstallStage::Done,
        InstallStage::Done => InstallStage::Done,
        InstallStage::Failed => InstallStage::Failed,
    }
}

/// The stage that follows `stage`: the next in order where it went well or
/// its failure is passed over, else the end in failure.
pub open spec fn stage_after(
    stage: InstallStage,
    succeeded: bool,
    need_download: bool,
) -> InstallStage {
    if succeeded || failure_is_ignored(stage) || stage == InstallStage::Done {
        stage_after_success(stage, need_download)
    } else {
        InstallStage::Failed
    }
}

/// Decides the stage that follows `stage`. `succeeded` tells how the stage
/// went; `need_download` is what the inspection of the archive found and is
/// read after that stage only.
pub fn next_stage(stage: InstallStage, succeeded: bool, need_download: bool) -> (next: InstallStage)
    ensures
        next == stage_after(stage, succeeded, need_download),
{
    let ignored = matches!(
        stage,
        InstallStage::AnnounceExtracting | InstallStage::RemoveArchive
            | InstallStage::AnnounceCompleted | InstallStage::Done
    );
    if !succeeded && !ignored {
        return InstallStage::Failed;
    }
    match stage {
        InstallStage::FetchRelease => InstallStage::CreateBase,
        InstallStage::CreateBase => InstallStage::Register,
        InstallStage::Register => InstallStage::InspectArchive,
        InstallStage::InspectArchive => if need_download {
            InstallStage::Download
        } else {
            InstallStage::AnnounceExtracting
        },
        InstallStage::Download => InstallStage::AnnounceExtracting,
        InstallStage::AnnounceExtracting => InstallStage::ClearVersionDir,
        InstallStage::ClearVersionDir => InstallStage::Extract,
        InstallStage::Extract => InstallStage::LocateExecutable,
        InstallStage::LocateExecutable => InstallStage::Validate,
        InstallStage::Validate => InstallStage::RemoveArchive,
        InstallStage::RemoveArchive => InstallStage::Retire,
        InstallStage::Retire => InstallStage::AnnounceCompleted,
        InstallStage::AnnounceCompleted => InstallStage::Done,
        InstallStage::Done => InstallStage::Done,
        InstallStage::Failed => InstallStage::Failed,
    }
}

/// The stage that a report announces, for the stages that report.
pub fn announced_status(stage: InstallStage) -> (status: Option<DownloadStatus>)
    ensures
        status == match stage {
            InstallStage::AnnounceExtracting => Some(DownloadStatus::Extracting),
            InstallStage::AnnounceCompleted => Some(DownloadStatus::Completed),
            _ => None,
        },
{
    match stage {
        InstallStage::AnnounceExtracting => Some(DownloadStatus::Extracting),
        InstallStage::AnnounceCompleted => Some(DownloadStatus::Completed),
        _ => None,
    }
}

/// The place of a stage in the order of an installation.
pub open spec fn stage_rank(stage: InstallStage) -> nat {
    match stage {
        InstallStage::FetchRelease => 0,
        InstallStage::CreateBase => 1,
        InstallStage::Register => 2,
        InstallStage::InspectArchive => 3,
        InstallStage::Download => 4,
        InstallStage::AnnounceExtracting => 5,
        InstallStage::ClearVersionDir => 6,
        InstallStage::Extract => 7,
        InstallStage::LocateExecutable => 8,
        InstallStage::Validate => 9,
        InstallStage::RemoveArchive => 10,
        InstallStage::Retire => 11,
        InstallStage::AnnounceCompleted => 12,
        InstallStage::Done => 13,
        InstallStage::Failed => 14,
    }
}

/// An installation only moves forward: every stage but the two final ones is
/// followed by a later one, so an installation ends, unpacking is reported
/// after the download and completion after unpacking.
pub proof fn law_stages_advance(stage: InstallStage, succeeded: bool, need_download: bool)
    ensures
        stage != InstallStage::Done && stage != InstallStage::Failed ==> stage_rank(
            stage_after(stage, succeeded, need_download),
        ) > stage_rank(stage),
        stage == InstallStage::Done || stage == InstallStage::Failed ==> stage_after(
            stage,
            succeeded,
            need_download,
        ) == stage,
{
}

/// The archive and the pending entry are given up only after the runtime was
/// validated: the removal of the archive follows a successful validation and
/// nothing else, and the entry is retired after that removal and nothing
/// else.
pub proof fn law_retired_only_after_validation(
    stage: InstallStage,
    succeeded: bool,
    need_download: bool,
)
    ensures
        stage_after(stage, succeeded, need_download) == InstallStage::RemoveArchive ==> stage
            == InstallStage::Validate && succeeded,
        stage_after(stage, succeeded, need_download) == InstallStage::Retire ==> stage
            == InstallStage::RemoveArchive,
        stage == InstallStage::Validate && !succeeded ==> stage_after(
            stage,
            succeeded,
            need_download,
        ) == InstallStage::Failed,
{
}

/// An archive that is there and verifies is not fetched again: the download
/// stage follows the inspection of the archive and nothing else, and only
/// where a download is needed.
pub proof fn law_verified_archive_is_not_fetched(
    stage: InstallStage,
    succeeded: bool,
    archive: Option<Seq<u8>>,
    checksum: Option<Seq<char>>,
)
    ensures
        stage_after(stage, succeeded, download_needed(archive, checksum)) == InstallStage::Download
            ==> stage == InstallStage::InspectArchive && download_needed(archive, checksum),
        archive matches Some(bytes) && checksum_ok(bytes, checksum, None) ==> !download_needed(
            archive,
            checksum,
        ),
{
}

/// The message of an installation whose runtime did not validate.
pub open spec fn verification_failed_message() -> Seq<char> {
    "Failed to verify Java installation"@
}

/// Registers the installation that `plan` lays out: its entry replaces what
/// stood in the queue for the same major version and image type.
pub fn register_install(queue: &mut DownloadQueue, plan: &InstallPlan)
    ensures
        final(queue)@ == with_entry(old(queue)@, plan.pending),
{
    queue.add(plan.pending.duplicate());
}

/// Ends an installation with the result of the validation. A runtime that
/// validated is the result and its pending entry leaves the queue; without
/// one the installation has failed and the queue stays as it is.
pub fn complete_install(
    queue: &mut DownloadQueue,
    major_version: u32,
    image_type: ImageType,
    validated: Option<JavaInstallation>,
) -> (out: Result<JavaInstallation, String>)
    ensures
        match validated {
            Some(java) => out == Ok::<JavaInstallation, String>(java) && final(queue)@
                == without_key(old(queue)@, major_version, image_type.name()),
            None => (out matches Err(msg) && msg@ == verification_failed_message())
                && final(queue)@ == old(queue)@,
        },
{
    match validated {
        Some(java) => {
            queue.remove(major_version, image_type.as_str());
            Ok(java)
        },
        None => Err("Failed to verify Java installation".to_owned()),
    }
}

/// The image type of a pending entry; an entry that names none stands for a
/// JRE.
pub open spec fn pending_image_type(pending: PendingJavaDownload) -> ImageType {
    match image_type_named(pending.image_type@) {
        Some(t) => t,
        None => ImageType::Jre,
    }
}

/// What to install again for a pending entry: its major version, its image
/// type and the directory below which it is installed.
pub fn resume_target(pending: &PendingJavaDownload) -> (out: (u32, ImageType, String))
    ensures
        out.0 == pending.major_version,
        out.1 == pending_image_type(*pending),
        out.2 == pending.install_path,
{
    let image_type = match ImageType::parse(pending.image_type.as_str()) {
        Some(t) => t,
        None => ImageType::Jre,
    };
    (pending.major_version, image_type, pending.install_path.clone())
}

/// The result of a resumption of `total_pending` entries before any of them
/// was tried.
pub fn begin_resume(total_pending: usize) -> (result: ResumeJavaDownloadsResult)
    ensures
        result.successful_installations@.len() == 0,
        result.failed_downloads@.len() == 0,
        result.total_pending == total_pending,
{
    ResumeJavaDownloadsResult {
        successful_installations: Vec::new(),
        failed_downloads: Vec::new(),
        total_pending,
    }
}

/// Whether `failure` records that the installation of `pending` failed with
/// the message `error`.
pub open spec fn is_failure_of(
    failure: ResumeJavaDownloadFailure,
    pending: PendingJavaDownload,
    error: Seq<char>,
) -> bool {
    &&& failure.major_version == pending.major_version
    &&& failure.image_type == pending.image_type
    &&& failure.install_path == pending.install_path
    &&& failure.reason == classify_message(error)
    &&& failure.error@ == error
}

/// Records how the resumed installation of one pending entry ended: an
/// installation joins the successes, a failure is recorded with its message
/// and the reason that the message stands for.
pub fn record_resume_outcome(
    result: &mut ResumeJavaDownloadsResult,
    pending: &PendingJavaDownload,
    outcome: Result<JavaInstallation, String>,
)
    ensures
        final(result).total_pending == old(result).total_pending,
        match outcome {
            Ok(java) => {
                &&& final(result).successful_installations@
                    == old(result).successful_installations@.push(java)
                &&& final(result).failed_downloads@ == old(result).failed_downloads@
            },
            Err(error) => {
                &&& final(result).successful_installations@ == old(result).successful_installations@
                &&& final(result).failed_downloads@.len() == old(result).failed_downloads@.len() + 1
                &&& final(result).failed_downloads@.drop_last() == old(result).failed_downloads@
                &&& is_failure_of(final(result).failed_downloads@.last(), *pending, error@)
            },
        },
{
    match outcome {
        Ok(java) => {
            result.successful_installations.push(java);
        },
        Err(error) => {
            let reason = ResumeJavaDownloadFailureReason::from_error_message(error.as_str());
            let ghost before_push = result.failed_downloads@;
            result.failed_downloads.push(
                ResumeJavaDownloadFailure {
                    major_version: pending.major_version,
                    image_type: pending.image_type.clone(),
                    install_path: pending.install_path.clone(),
                    reason,
                    error,
                },
            );
            assert(result.failed_downloads@.drop_last() =~= before_push);
        },
    }
}

} // verus!
