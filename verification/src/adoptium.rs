//! The Adoptium release index: its answers as plain values, the addresses
//! that are asked, the retry rules and how answers become catalog entries.

use crate::error::JavaError;
use crate::platform::{HostArch, HostOs, HostPlatform};
use crate::provider::JavaProvider;
use crate::text::{chars_of, decimal, push_decimal, push_text, string_of};
use crate::types::{ImageType, JavaCatalog, JavaDownloadInfo, JavaReleaseInfo};
use vstd::prelude::*;

verus! {

/// One downloadable build, as the index describes it.
#[derive(Debug, Clone)]
pub struct AdoptiumAsset {
    pub binary: AdoptiumBinary,
    pub release_name: String,
    pub version: AdoptiumVersionData,
}

/// The binary of an asset.
#[derive(Debug, Clone)]
pub struct AdoptiumBinary {
    pub os: String,
    pub architecture: String,
    pub image_type: String,
    pub package: AdoptiumPackage,
    pub updated_at: Option<String>,
}

/// The archive of a binary.
#[derive(Debug, Clone)]
pub struct AdoptiumPackage {
    pub name: String,
    pub link: String,
    pub size: u64,
    pub checksum: Option<String>,
}

/// The version of an asset.
#[derive(Debug, Clone)]
pub struct AdoptiumVersionData {
    pub major: u32,
    pub minor: u32,
    pub security: u32,
    pub semver: String,
    pub openjdk_version: String,
}

/// The major versions that the index offers.
#[derive(Debug, Clone)]
pub struct AvailableReleases {
    pub available_releases: Vec<u32>,
    pub available_lts_releases: Vec<u32>,
    pub most_recent_lts: Option<u32>,
    pub most_recent_feature_release: Option<u32>,
}

/// The address below which the index answers.
pub const ADOPTIUM_API_BASE: &'static str = "https://api.adoptium.net/v3";

/// The most asset queries that are outstanding at one time.
pub const CATALOG_MAX_CONCURRENT_REQUESTS: usize = 6;

/// How often a failed request is tried again.
pub const CATALOG_REQUEST_RETRIES: u32 = 3;

/// The pause before the first retry, in milliseconds.
pub const CATALOG_RETRY_BASE_DELAY_MS: u64 = 300;

/// The name of an operating system in the queries of the index.
pub open spec fn os_name_of(host: HostPlatform) -> Seq<char> {
    match host.os {
        HostOs::Linux => if host.alpine {
            "alpine-linux"@
        } else {
            "linux"@
        },
        HostOs::MacOs => "mac"@,
        HostOs::Windows => "windows"@,
        HostOs::Other => "linux"@,
    }
}

/// The name of an architecture in the queries of the index.
pub open spec fn arch_name_of(arch: HostArch) -> Seq<char> {
    match arch {
        HostArch::X86_64 => "x64"@,
        HostArch::Aarch64 => "aarch64"@,
        HostArch::X86 => "x86"@,
        HostArch::Arm => "arm"@,
        HostArch::Other => "x64"@,
    }
}

/// The provider that asks the Adoptium index on behalf of a host.
#[derive(Debug, Clone, Copy)]
pub struct AdoptiumProvider {
    pub host: HostPlatform,
}

impl AdoptiumProvider {
    /// The provider for the given host.
    pub fn new(host: HostPlatform) -> (provider: AdoptiumProvider)
        ensures
            provider.host == host,
    {
        AdoptiumProvider { host }
    }

    /// The address that lists the available releases.
    pub fn releases_url(&self) -> (url: String)
        ensures
            url@ == ADOPTIUM_API_BASE@ + "/info/available_releases"@,
    {
        ADOPTIUM_API_BASE.to_owned().concat("/info/available_releases")
    }

    /// The address that answers with the latest assets of a major version and
    /// image type for the host.
    pub fn assets_url(&self, major_version: u32, image_type: ImageType) -> (url: String)
        ensures
            url@ == assets_url_of(self.host, major_version, image_type),
    {
        let mut url = chars_of(ADOPTIUM_API_BASE);
        push_text(&mut url, "/assets/latest/");
        push_decimal(&mut url, major_version as u64);
        push_text(&mut url, "/hotspot?os=");
        push_text(&mut url, self.os_name());
        push_text(&mut url, "&architecture=");
        push_text(&mut url, self.arch_name());
        push_text(&mut url, "&image_type=");
        push_text(&mut url, image_type.as_str());
        string_of(&url)
    }
}

/// The address of the latest assets of a major version and image type.
pub open spec fn assets_url_of(
    host: HostPlatform,
    major_version: u32,
    image_type: ImageType,
) -> Seq<char> {
    ADOPTIUM_API_BASE@ + "/assets/latest/"@ + decimal(major_version as nat) + "/hotspot?os="@
        + os_name_of(host) + "&architecture="@ + arch_name_of(host.arch) + "&image_type="@
        + image_type.name()
}

impl JavaProvider for AdoptiumProvider {
    /// The name of the provider.
    fn provider_name(&self) -> (out: &'static str)
        ensures
            out@ == "adoptium"@,
    {
        "adoptium"
    }

    /// The name of the host's operating system in queries: `alpine-linux` on
    /// Alpine, `linux` on other Linux systems and on unknown ones, `mac`,
    /// `windows`.
    fn os_name(&self) -> (out: &'static str)
        ensures
            out@ == os_name_of(self.host),
    {
        match self.host.os {
            HostOs::Linux => if self.host.alpine {
                "alpine-linux"
            } else {
                "linux"
            },
            HostOs::MacOs => "mac",
            HostOs::Windows => "windows",
            HostOs::Other => "linux",
        }
    }

    /// The name of the host's architecture in queries; `x64` for an unknown
    /// one.
    fn arch_name(&self) -> (out: &'static str)
        ensures
            out@ == arch_name_of(self.host.arch),
    {
        match self.host.arch {
            HostArch::X86_64 => "x64",
            HostArch::Aarch64 => "aarch64",
            HostArch::X86 => "x86",
            HostArch::Arm => "arm",
            HostArch::Other => "x64",
        }
    }

    /// The first part of the name of an installation directory.
    fn install_prefix(&self) -> (out: &'static str)
        ensures
            out@ == "temurin"@,
    {
        "temurin"
    }
}

/// How one attempt of a request ended, before its body is read.
#[derive(Debug, Clone)]
pub enum AttemptOutcome {
    /// A response with a success status came.
    Success,
    /// A response with another status came; this is the status as text.
    Status(String),
    /// The transport failed; this is its error as text.
    Transport(String),
}

/// Which request is retried.
#[derive(Debug, Clone, Copy, PartialEq, Eq, Structural)]
pub enum RetryTarget {
    /// The list of available releases.
    Releases,
    /// The assets of one major version and image type.
    Assets,
}

/// What follows an attempt.
#[derive(Debug, Clone)]
pub enum RetryDecision {
    /// Read and parse the body. A body that does not parse is not asked for
    /// again.
    Parse,
    /// Wait for the given number of milliseconds and try again.
    RetryAfter(u64),
    /// Give up with the given network error.
    GiveUp(String),
}

/// Two to the power of `n`.
pub open spec fn pow2(n: nat) -> nat
    decreases n,
{
    if n == 0 {
        1
    } else {
        2 * pow2((n - 1) as nat)
    }
}

/// The pause after the failed attempt with the given number, counted from 0:
/// the base delay doubled for each earlier attempt.
pub open spec fn backoff_ms(attempt: u32) -> nat {
    CATALOG_RETRY_BASE_DELAY_MS as nat * pow2(attempt as nat)
}

/// The detail of the network error with which a request is given up.
pub open spec fn give_up_detail(target: RetryTarget, outcome: AttemptOutcome) -> Seq<char> {
    match (target, outcome) {
        (RetryTarget::Releases, AttemptOutcome::Status(status)) =>
            "Failed to fetch available releases after retries, status: "@ + status@,
        (RetryTarget::Releases, AttemptOutcome::Transport(err)) =>
            "Failed to fetch available releases: "@ + err@,
        (RetryTarget::Assets, AttemptOutcome::Status(status)) => "HTTP status "@ + status@,
        (RetryTarget::Assets, AttemptOutcome::Transport(err)) => err@,
        (_, AttemptOutcome::Success) => Seq::<char>::empty(),
    }
}

/// Whether `decision` is what follows the attempt with the given number: a
/// success is parsed, a failure before the last attempt is retried after its
/// pause, and a failure of the last attempt ends the request.
pub open spec fn decision_for(
    decision: RetryDecision,
    target: RetryTarget,
    attempt: u32,
    outcome: AttemptOutcome,
) -> bool {
    match outcome {
        AttemptOutcome::Success => decision is Parse,
        _ => if attempt < CATALOG_REQUEST_RETRIES {
            decision matches RetryDecision::RetryAfter(ms) && ms == backoff_ms(attempt)
        } else {
            decision matches RetryDecision::GiveUp(detail) && detail@ == give_up_detail(
                target,
                outcome,
            )
        },
    }
}

/// The pause after a failed attempt that is followed by another.
fn backoff(attempt: u32) -> (ms: u64)
    requires
        attempt < CATALOG_REQUEST_RETRIES,
    ensures
        ms == backoff_ms(attempt),
{
    assert(pow2(0) == 1);
    assert(pow2(1) == 2) by {
        reveal_with_fuel(pow2, 2);
    }
    assert(pow2(2) == 4) by {
        reveal_with_fuel(pow2, 3);
    }
    if attempt == 0 {
        CATALOG_RETRY_BASE_DELAY_MS
    } else if attempt == 1 {
        CATALOG_RETRY_BASE_DELAY_MS * 2
    } else {
        CATALOG_RETRY_BASE_DELAY_MS * 4
    }
}

/// Decides what follows the attempt with the number `attempt`, counted from
/// 0. There are at most four attempts.
pub fn after_attempt(
    target: RetryTarget,
    attempt: u32,
    outcome: &AttemptOutcome,
) -> (decision: RetryDecision)
    ensures
        decision_for(decision, target, attempt, *outcome),
{
    match outcome {
        AttemptOutcome::Success => RetryDecision::Parse,
        AttemptOutcome::Status(status) => {
            if attempt < CATALOG_REQUEST_RETRIES {
                RetryDecision::RetryAfter(backoff(attempt))
            } else {
                match target {
                    RetryTarget::Releases => {
                        let label = "Failed to fetch available releases after retries, status: ";
                        RetryDecision::GiveUp(label.to_owned().concat(status.as_str()))
                    },
                    RetryTarget::Assets => RetryDecision::GiveUp(
                        "HTTP status ".to_owned().concat(status.as_str()),
                    ),
                }
            }
        },
        AttemptOutcome::Transport(err) => {
            if attempt < CATALOG_REQUEST_RETRIES {
                RetryDecision::RetryAfter(backoff(attempt))
            } else {
                match target {
                    RetryTarget::Releases => RetryDecision::GiveUp(
                        "Failed to fetch available releases: ".to_owned().concat(err.as_str()),
                    ),
                    RetryTarget::Assets => RetryDecision::GiveUp(err.clone()),
                }
            }
        },
    }
}

/// No request is attempted a fifth time: the attempt with the number 3 is
/// parsed or given up, whatever came back.
pub proof fn law_at_most_four_attempts(
    decision: RetryDecision,
    target: RetryTarget,
    attempt: u32,
    outcome: AttemptOutcome,
)
    requires
        decision_for(decision, target, attempt, outcome),
        attempt >= CATALOG_REQUEST_RETRIES,
    ensures
        !(decision is RetryAfter),
{
}

/// The error of a list of releases that does not parse.
pub fn releases_parse_failure(cause: &str) -> (err: JavaError)
    ensures
        err matches JavaError::SerializationError(msg) && msg@
            == "Failed to parse available releases: "@ + cause@,
{
    JavaError::SerializationError("Failed to parse available releases: ".to_owned().concat(cause))
}

/// The error of a list of releases that was given up.
pub fn releases_given_up(detail: String) -> (err: JavaError)
    ensures
        err == JavaError::NetworkError(detail),
{
    JavaError::NetworkError(detail)
}

/// The message of an answer with assets that does not parse.
pub fn assets_parse_failure(cause: &str) -> (msg: String)
    ensures
        msg@ == "Failed to parse assets response: "@ + cause@,
{
    "Failed to parse assets response: ".to_owned().concat(cause)
}


/// One question to the index while a catalog is built.
#[derive(Debug, Clone, Copy, PartialEq, Eq, Structural)]
pub struct CatalogQuery {
    pub major_version: u32,
    pub image_type: ImageType,
    pub is_lts: bool,
}

/// The question with the number `k`: each available major version is asked
/// for twice in a row, first for its JRE, then for its JDK.
pub open spec fn query_at(available: AvailableReleases, k: int) -> CatalogQuery {
    let major = available.available_releases@[k / 2];
    CatalogQuery {
        major_version: major,
        image_type: if k % 2 == 0 {
            ImageType::Jre
        } else {
            ImageType::Jdk
        },
        is_lts: available.available_lts_releases@.contains(major),
    }
}

/// Tests whether a number stands in a list.
fn holds(list: &Vec<u32>, x: u32) -> (found: bool)
    ensures
        found == list@.contains(x),
{
    let mut i: usize = 0;
    while i < list.len()
        invariant
            i <= list.len(),
            forall|k: int| 0 <= k < i ==> list@[k] != x,
        decreases list.len() - i,
    {
        if list[i] == x {
            assert(list@[i as int] == x);
            return true;
        }
        i = i + 1;
    }
    false
}

/// The questions that building a catalog asks: every available major version
/// with each of the two image types.
pub fn catalog_queries(available: &AvailableReleases) -> (queries: Vec<CatalogQuery>)
    ensures
        queries@.len() == 2 * available.available_releases@.len(),
        forall|k: int| 0 <= k < queries@.len() ==> queries@[k] == query_at(*available, k),
{
    let mut queries: Vec<CatalogQuery> = Vec::new();
    let mut i: usize = 0;
    while i < available.available_releases.len()
        invariant
            i <= available.available_releases.len(),
            queries@.len() == 2 * i,
            forall|k: int| 0 <= k < queries@.len() ==> queries@[k] == query_at(*available, k),
        decreases available.available_releases.len() - i,
    {
        let major = available.available_releases[i];
        let is_lts = holds(&available.available_lts_releases, major);
        queries.push(CatalogQuery { major_version: major, image_type: ImageType::Jre, is_lts });
        queries.push(CatalogQuery { major_version: major, image_type: ImageType::Jdk, is_lts });
        i = i + 1;
    }
    queries
}

/// Whether `release` is the catalog entry that `asset` gives for `query`. An
/// asset without an address or without a size is listed as not available.
pub open spec fn is_entry_of_asset(
    release: JavaReleaseInfo,
    query: CatalogQuery,
    asset: AdoptiumAsset,
) -> bool {
    &&& release.major_version == query.major_version
    &&& release.image_type == query.image_type
    &&& release.version == asset.version.semver
    &&& release.release_name == asset.release_name
    &&& release.release_date == asset.binary.updated_at
    &&& release.file_size == asset.binary.package.size
    &&& release.checksum == asset.binary.package.checksum
    &&& release.download_url == asset.binary.package.link
    &&& release.is_lts == query.is_lts
    &&& release.is_available == (asset.binary.package.link@.len() > 0 && asset.binary.package.size
        > 0)
    &&& release.architecture == asset.binary.architecture
}

/// Whether `release` is the catalog entry of a question that got no asset.
pub open spec fn is_unavailable_entry(
    release: JavaReleaseInfo,
    query: CatalogQuery,
    arch: Seq<char>,
) -> bool {
    &&& release.major_version == query.major_version
    &&& release.image_type == query.image_type
    &&& release.version@ == decimal(query.major_version as nat) + ".x"@
    &&& release.release_name@ == "jdk-"@ + decimal(query.major_version as nat)
    &&& release.release_date is None
    &&& release.file_size == 0
    &&& release.checksum is None
    &&& release.download_url@.len() == 0
    &&& release.is_lts == query.is_lts
    &&& !release.is_available
    &&& release.architecture@ == arch
}

/// The catalog entry that an asset gives.
pub fn release_from_asset(query: CatalogQuery, asset: AdoptiumAsset) -> (release: JavaReleaseInfo)
    ensures
        is_entry_of_asset(release, query, asset),
        release.wf(),
{
    let usable = asset.binary.package.link.as_str().unicode_len() > 0 && asset.binary.package.size
        > 0;
    JavaReleaseInfo {
        major_version: query.major_version,
        image_type: query.image_type,
        version: asset.version.semver,
        release_name: asset.release_name,
        release_date: asset.binary.updated_at,
        file_size: asset.binary.package.size,
        checksum: asset.binary.package.checksum,
        download_url: asset.binary.package.link,
        is_lts: query.is_lts,
        is_available: usable,
        architecture: asset.binary.architecture,
    }
}

/// The catalog entry of a question that got no asset.
pub fn unavailable_release(query: CatalogQuery, arch: &str) -> (release: JavaReleaseInfo)
    ensures
        is_unavailable_entry(release, query, arch@),
        release.wf(),
{
    let mut version: Vec<char> = Vec::new();
    push_decimal(&mut version, query.major_version as u64);
    push_text(&mut version, ".x");
    let mut name = chars_of("jdk-");
    push_decimal(&mut name, query.major_version as u64);
    assert(Seq::<char>::empty() + decimal(query.major_version as nat) =~= decimal(
        query.major_version as nat,
    ));
    JavaReleaseInfo {
        major_version: query.major_version,
        image_type: query.image_type,
        version: string_of(&version),
        release_name: string_of(&name),
        release_date: None,
        file_size: 0,
        checksum: None,
        download_url: String::new(),
        is_lts: query.is_lts,
        is_available: false,
        architecture: arch.to_owned(),
    }
}

/// The one catalog entry that a question yields: that of the first asset of
/// the answer, or the entry of a release that is not available where the
/// question failed or was answered with no asset.
pub fn release_for_query(
    query: CatalogQuery,
    arch: &str,
    answer: Result<Vec<AdoptiumAsset>, String>,
) -> (release: JavaReleaseInfo)
    ensures
        release.wf(),
        match answer {
            Ok(assets) => if assets@.len() > 0 {
                is_entry_of_asset(release, query, assets@[0])
            } else {
                is_unavailable_entry(release, query, arch@)
            },
            Err(_) => is_unavailable_entry(release, query, arch@),
        },
{
    match answer {
        Ok(assets) => {
            let mut assets = assets;
            if assets.len() > 0 {
                let first = assets.remove(0);
                release_from_asset(query, first)
            } else {
                unavailable_release(query, arch)
            }
        },
        Err(_) => unavailable_release(query, arch),
    }
}

/// The catalog that the collected entries make, stamped with the time `now`.
pub fn assemble_catalog(
    releases: Vec<JavaReleaseInfo>,
    available: AvailableReleases,
    now: u64,
) -> (catalog: JavaCatalog)
    ensures
        catalog.releases == releases,
        catalog.available_major_versions == available.available_releases,
        catalog.lts_versions == available.available_lts_releases,
        catalog.cached_at == now,
{
    JavaCatalog {
        releases,
        available_major_versions: available.available_releases,
        lts_versions: available.available_lts_releases,
        cached_at: now,
    }
}

/// What came back for the single request of one release.
#[derive(Debug, Clone)]
pub enum ReleaseAnswer {
    /// The transport failed; this is its error as text.
    Transport(String),
    /// A response without a success status came; this is the status as text.
    Status(String),
    /// The body does not parse; this is the cause as text.
    Unparsable(String),
    /// The assets of the answer.
    Assets(Vec<AdoptiumAsset>),
}

/// Whether `info` describes the download of `asset`.
pub open spec fn is_download_of(
    info: JavaDownloadInfo,
    asset: AdoptiumAsset,
    image_type: ImageType,
) -> bool {
    &&& info.version == asset.version.semver
    &&& info.release_name == asset.release_name
    &&& info.download_url == asset.binary.package.link
    &&& info.file_name == asset.binary.package.name
    &&& info.file_size == asset.binary.package.size
    &&& info.checksum == asset.binary.package.checksum
    &&& info.image_type == image_type
}

/// What the answer to the request of one release means: a failed transport or
/// a status without success is a network error, a body that does not parse a
/// serialization error, an answer without assets means that nothing was
/// found, and any other answer describes the download of its first asset.
pub fn release_from_answer(answer: ReleaseAnswer, image_type: ImageType) -> (out: Result<
    JavaDownloadInfo,
    JavaError,
>)
    ensures
        match answer {
            ReleaseAnswer::Transport(cause) => out matches Err(JavaError::NetworkError(msg)) && msg@
                == "Network request failed: "@ + cause@,
            ReleaseAnswer::Status(status) => out matches Err(JavaError::NetworkError(msg)) && msg@
                == "Adoptium API returned error: "@ + status@
                + " - The version/platform might be unavailable"@,
            ReleaseAnswer::Unparsable(cause) => out matches Err(JavaError::SerializationError(msg))
                && msg@ == "Failed to parse API response: "@ + cause@,
            ReleaseAnswer::Assets(assets) => if assets@.len() == 0 {
                out matches Err(JavaError::NotFound)
            } else {
                out matches Ok(info) && is_download_of(info, assets@[0], image_type)
            },
        },
{
    match answer {
        ReleaseAnswer::Transport(cause) => Err(
            JavaError::NetworkError("Network request failed: ".to_owned().concat(cause.as_str())),
        ),
        ReleaseAnswer::Status(status) => Err(
            JavaError::NetworkError(
                "Adoptium API returned error: ".to_owned().concat(status.as_str()).concat(
                    " - The version/platform might be unavailable",
                ),
            ),
        ),
        ReleaseAnswer::Unparsable(cause) => Err(
            JavaError::SerializationError(
                "Failed to parse API response: ".to_owned().concat(cause.as_str()),
            ),
        ),
        ReleaseAnswer::Assets(assets) => {
            let mut assets = assets;
            if assets.len() == 0 {
                Err(JavaError::NotFound)
            } else {
                let asset = assets.remove(0);
                Ok(
                    JavaDownloadInfo {
                        version: asset.version.semver,
                        release_name: asset.release_name,
                        download_url: asset.binary.package.link,
                        file_name: asset.binary.package.name,
                        file_size: asset.binary.package.size,
                        checksum: asset.binary.package.checksum,
                        image_type,
                    },
                )
            }
        },
    }
}

/// What came back for the request of the available versions.
#[derive(Debug, Clone)]
pub enum VersionsAnswer {
    /// The transport failed; this is its error as text.
    Transport(String),
    /// The body does not parse; this is the cause as text.
    Unparsable(String),
    /// The releases of the answer.
    Releases(AvailableReleases),
}

/// The available major versions that an answer names, or the error that it
/// stands for.
pub fn versions_from_answer(answer: VersionsAnswer) -> (out: Result<Vec<u32>, JavaError>)
    ensures
        match answer {
            VersionsAnswer::Transport(cause) => out matches Err(JavaError::NetworkError(msg))
                && msg@ == "Network request failed: "@ + cause@,
            VersionsAnswer::Unparsable(cause) => out matches Err(JavaError::SerializationError(msg))
                && msg@ == "Failed to parse response: "@ + cause@,
            VersionsAnswer::Releases(releases) => out == Ok::<Vec<u32>, JavaError>(
                releases.available_releases,
            ),
        },
{
    match answer {
        VersionsAnswer::Transport(cause) => Err(
            JavaError::NetworkError("Network request failed: ".to_owned().concat(cause.as_str())),
        ),
        VersionsAnswer::Unparsable(cause) => Err(
            JavaError::SerializationError(
                "Failed to parse response: ".to_owned().concat(cause.as_str()),
            ),
        ),
        VersionsAnswer::Releases(releases) => Ok(releases.available_releases),
    }
}

} // verus!
