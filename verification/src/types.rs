//! The values that the components exchange: installations, releases, catalogs
//! and the results of resumed downloads.

use crate::error::ResumeJavaDownloadFailureReason;
use crate::text::{ascii_lower, chars_of, same_chars, to_ascii_lower, trim, trimmed};
use vstd::prelude::*;

verus! {

/// The two images in which a runtime is published.
#[derive(Debug, Clone, Copy, PartialEq, Eq, Structural)]
pub enum ImageType {
    Jre,
    Jdk,
}

/// The image type that a text names: `jre` or `jdk`, in any case of letters and
/// with white space around it; nothing else names one.
pub open spec fn image_type_named(s: Seq<char>) -> Option<ImageType> {
    let t = ascii_lower(trimmed(s));
    if t == "jre"@ {
        Some(ImageType::Jre)
    } else if t == "jdk"@ {
        Some(ImageType::Jdk)
    } else {
        None
    }
}

impl ImageType {
    /// The lower-case name of the image type.
    pub open spec fn name(self) -> Seq<char> {
        match self {
            ImageType::Jre => "jre"@,
            ImageType::Jdk => "jdk"@,
        }
    }

    /// Reads an image type from text.
    pub fn parse(value: &str) -> (out: Option<ImageType>)
        ensures
            out == image_type_named(value@),
    {
        let raw = chars_of(value);
        let cut = trim(&raw);
        let lower = to_ascii_lower(&cut);
        let jre = chars_of("jre");
        let jdk = chars_of("jdk");
        if same_chars(&lower, &jre) {
            Some(ImageType::Jre)
        } else if same_chars(&lower, &jdk) {
            Some(ImageType::Jdk)
        } else {
            None
        }
    }

    /// The lower-case name of the image type, as it is written in file names,
    /// queries and stored entries.
    pub fn as_str(&self) -> (out: &'static str)
        ensures
            out@ == self.name(),
    {
        match self {
            ImageType::Jre => "jre",
            ImageType::Jdk => "jdk",
        }
    }

    /// The lower-case name of the image type as an owned string.
    pub fn to_string(&self) -> (out: String)
        ensures
            out@ == self.name(),
    {
        self.as_str().to_owned()
    }
}

impl Default for ImageType {
    fn default() -> (out: ImageType)
        ensures
            out == ImageType::Jre,
    {
        ImageType::Jre
    }
}

/// The name of an image type names that image type.
pub proof fn law_image_type_name_round_trip(t: ImageType)
    ensures
        image_type_named(t.name()) == Some(t),
{
    reveal_strlit("jre");
    reveal_strlit("jdk");
    let s = t.name();
    assert(s.len() == 3);
    assert(!crate::text::is_space(s.first()));
    assert(!crate::text::is_space(s.last()));
    assert(crate::text::trim_front(s) == s);
    assert(crate::text::trim_back(s) == s);
    assert(ascii_lower(s) =~= s);
    assert("jre"@[2] != "jdk"@[2]);
}

/// Where an installation was found.
#[derive(Debug, Clone, Copy, PartialEq, Eq, Structural)]
pub enum JavaSource {
    /// By the scan of the machine.
    PathScan,
    /// In the tree of installations that the application manages.
    Managed,
    /// At a path that the user named.
    User,
}

impl JavaSource {
    /// The tag of the source.
    pub open spec fn name(self) -> Seq<char> {
        match self {
            JavaSource::PathScan => "path-scan"@,
            JavaSource::Managed => "managed"@,
            JavaSource::User => "user"@,
        }
    }

    /// The tag of the source, as installations carry it.
    pub fn as_str(&self) -> (out: &'static str)
        ensures
            out@ == self.name(),
    {
        match self {
            JavaSource::PathScan => "path-scan",
            JavaSource::Managed => "managed",
            JavaSource::User => "user",
        }
    }
}

/// A runtime that was probed and answered as a Java runtime.
#[derive(Debug, Clone)]
pub struct JavaInstallation {
    /// Absolute path of the `java` executable.
    pub path: String,
    /// The version as the runtime reports it.
    pub version: String,
    pub arch: String,
    pub vendor: String,
    /// Where the installation was found.
    pub source: String,
    pub is_64bit: bool,
}

impl JavaInstallation {
    /// An independent copy.
    pub fn duplicate(&self) -> (out: JavaInstallation)
        ensures
            out == *self,
    {
        JavaInstallation {
            path: self.path.clone(),
            version: self.version.clone(),
            arch: self.arch.clone(),
            vendor: self.vendor.clone(),
            source: self.source.clone(),
            is_64bit: self.is_64bit,
        }
    }
}

/// A release as the catalog lists it.
#[derive(Debug, Clone)]
pub struct JavaReleaseInfo {
    pub major_version: u32,
    pub image_type: ImageType,
    pub version: String,
    pub release_name: String,
    pub release_date: Option<String>,
    pub file_size: u64,
    pub checksum: Option<String>,
    pub download_url: String,
    pub is_lts: bool,
    pub is_available: bool,
    pub architecture: String,
}

impl JavaReleaseInfo {
    /// An available release can be fetched: it has an address and a size.
    pub open spec fn wf(self) -> bool {
        self.is_available ==> self.download_url@.len() > 0 && self.file_size > 0
    }
}

/// The provider's releases as they were last fetched.
#[derive(Debug, Clone)]
pub struct JavaCatalog {
    pub releases: Vec<JavaReleaseInfo>,
    pub available_major_versions: Vec<u32>,
    pub lts_versions: Vec<u32>,
    /// When the catalog was fetched, in seconds since the Unix epoch.
    pub cached_at: u64,
}

impl Default for JavaCatalog {
    fn default() -> (out: JavaCatalog)
        ensures
            out.releases@.len() == 0,
            out.available_major_versions@.len() == 0,
            out.lts_versions@.len() == 0,
            out.cached_at == 0,
    {
        JavaCatalog {
            releases: Vec::new(),
            available_major_versions: Vec::new(),
            lts_versions: Vec::new(),
            cached_at: 0,
        }
    }
}

/// What is needed to download one release.
#[derive(Debug, Clone)]
pub struct JavaDownloadInfo {
    pub version: String,
    pub release_name: String,
    pub download_url: String,
    pub file_name: String,
    pub file_size: u64,
    pub checksum: Option<String>,
    pub image_type: ImageType,
}

/// One pending download that could not be completed on resumption.
#[derive(Debug, Clone)]
pub struct ResumeJavaDownloadFailure {
    pub major_version: u32,
    pub image_type: String,
    pub install_path: String,
    pub reason: ResumeJavaDownloadFailureReason,
    pub error: String,
}

/// The outcome of resuming every pending download.
#[derive(Debug, Clone)]
pub struct ResumeJavaDownloadsResult {
    pub successful_installations: Vec<JavaInstallation>,
    pub failed_downloads: Vec<ResumeJavaDownloadFailure>,
    pub total_pending: usize,
}

/// A copy of an optional string.
pub fn duplicate_opt(s: &Option<String>) -> (out: Option<String>)
    ensures
        out == *s,
{
    match s {
        Some(t) => Some(t.clone()),
        None => None,
    }
}

} // verus!
