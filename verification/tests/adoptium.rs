use java_manager::adoptium::{
    after_attempt, assemble_catalog, assets_parse_failure, catalog_queries,
    release_for_query, release_from_answer, release_from_asset, releases_given_up,
    releases_parse_failure, unavailable_release, versions_from_answer, AdoptiumAsset,
    AdoptiumBinary, AdoptiumPackage, AdoptiumProvider, AdoptiumVersionData, AttemptOutcome,
    AvailableReleases, CatalogQuery, ReleaseAnswer, RetryDecision, RetryTarget, VersionsAnswer,
};
use java_manager::error::JavaError;
use java_manager::platform::{HostArch, HostOs, HostPlatform};
use java_manager::provider::JavaProvider;
use java_manager::types::ImageType;

fn host(os: HostOs, arch: HostArch, alpine: bool) -> HostPlatform {
    HostPlatform { os, arch, alpine }
}

fn asset(link: &str, size: u64) -> AdoptiumAsset {
    AdoptiumAsset {
        binary: AdoptiumBinary {
            os: "linux".to_string(),
            architecture: "x64".to_string(),
            image_type: "jre".to_string(),
            package: AdoptiumPackage {
                name: "OpenJDK21U-jre_x64_linux_hotspot_21.0.5_11.tar.gz".to_string(),
                link: link.to_string(),
                size,
                checksum: Some("abc123".to_string()),
            },
            updated_at: Some("2024-10-15T00:00:00Z".to_string()),
        },
        release_name: "jdk-21.0.5+11".to_string(),
        version: AdoptiumVersionData {
            major: 21,
            minor: 0,
            security: 5,
            semver: "21.0.5+11".to_string(),
            openjdk_version: "21.0.5+11-LTS".to_string(),
        },
    }
}

#[test]
fn provider_names_follow_the_host() {
    let linux = AdoptiumProvider::new(host(HostOs::Linux, HostArch::X86_64, false));
    assert_eq!(linux.provider_name(), "adoptium");
    assert_eq!(linux.install_prefix(), "temurin");
    assert_eq!(linux.os_name(), "linux");
    assert_eq!(linux.arch_name(), "x64");
    assert_eq!(
        AdoptiumProvider::new(host(HostOs::Linux, HostArch::Aarch64, true)).os_name(),
        "alpine-linux"
    );
    assert_eq!(
        AdoptiumProvider::new(host(HostOs::MacOs, HostArch::Aarch64, false)).os_name(),
        "mac"
    );
    assert_eq!(
        AdoptiumProvider::new(host(HostOs::MacOs, HostArch::Aarch64, true)).os_name(),
        "mac"
    );
    assert_eq!(
        AdoptiumProvider::new(host(HostOs::Windows, HostArch::X86, false)).os_name(),
        "windows"
    );
    assert_eq!(
        AdoptiumProvider::new(host(HostOs::Other, HostArch::Other, false)).os_name(),
        "linux"
    );
    assert_eq!(
        AdoptiumProvider::new(host(HostOs::Linux, HostArch::Aarch64, false)).arch_name(),
        "aarch64"
    );
    assert_eq!(
        AdoptiumProvider::new(host(HostOs::Linux, HostArch::X86, false)).arch_name(),
        "x86"
    );
    assert_eq!(
        AdoptiumProvider::new(host(HostOs::Linux, HostArch::Arm, false)).arch_name(),
        "arm"
    );
    assert_eq!(
        AdoptiumProvider::new(host(HostOs::Linux, HostArch::Other, false)).arch_name(),
        "x64"
    );
}

#[test]
fn addresses_of_the_index() {
    let provider = AdoptiumProvider::new(host(HostOs::Linux, HostArch::X86_64, false));
    assert_eq!(
        provider.releases_url(),
        "https://api.adoptium.net/v3/info/available_releases"
    );
    assert_eq!(
        provider.assets_url(17, ImageType::Jre),
        "https://api.adoptium.net/v3/assets/latest/17/hotspot?os=linux&architecture=x64&image_type=jre"
    );
    let mac = AdoptiumProvider::new(host(HostOs::MacOs, HostArch::Aarch64, false));
    assert_eq!(
        mac.assets_url(8, ImageType::Jdk),
        "https://api.adoptium.net/v3/assets/latest/8/hotspot?os=mac&architecture=aarch64&image_type=jdk"
    );
    assert_eq!(
        mac.assets_url(0, ImageType::Jdk),
        "https://api.adoptium.net/v3/assets/latest/0/hotspot?os=mac&architecture=aarch64&image_type=jdk"
    );
    assert_eq!(
        mac.assets_url(4294967295, ImageType::Jdk),
        "https://api.adoptium.net/v3/assets/latest/4294967295/hotspot?os=mac&architecture=aarch64&image_type=jdk"
    );
}

#[test]
fn catalog_retry_on_503() {
    let mut hits = 0;
    let mut attempt = 0;
    let mut slept = Vec::new();
    let result = loop {
        hits += 1;
        let outcome = AttemptOutcome::Status("503 Service Unavailable".to_string());
        match after_attempt(RetryTarget::Releases, attempt, &outcome) {
            RetryDecision::Parse => panic!("a 503 is not parsed"),
            RetryDecision::RetryAfter(ms) => {
                slept.push(ms);
                attempt += 1;
            }
            RetryDecision::GiveUp(detail) => break Err::<(), JavaError>(releases_given_up(detail)),
        }
    };
    assert_eq!(hits, 4);
    assert_eq!(slept, vec![300, 600, 1200]);
    assert!(matches!(
        result,
        Err(JavaError::NetworkError(m))
            if m == "Failed to fetch available releases after retries, status: 503 Service Unavailable"
    ));
}

#[test]
fn catalog_retry_gives_up_on_parse_error() {
    let mut hits = 0;
    hits += 1;
    let decision = after_attempt(RetryTarget::Releases, 0, &AttemptOutcome::Success);
    assert!(matches!(decision, RetryDecision::Parse));
    let err = releases_parse_failure("expected value at line 1 column 2");
    assert_eq!(hits, 1);
    assert!(matches!(
        err,
        JavaError::SerializationError(m)
            if m == "Failed to parse available releases: expected value at line 1 column 2"
    ));
    assert_eq!(assets_parse_failure("eof"), "Failed to parse assets response: eof");
}

#[test]
fn transport_failures_are_retried_and_then_reported() {
    let outcome = AttemptOutcome::Transport("timed out".to_string());
    assert!(matches!(
        after_attempt(RetryTarget::Releases, 0, &outcome),
        RetryDecision::RetryAfter(300)
    ));
    assert!(matches!(
        after_attempt(RetryTarget::Assets, 1, &outcome),
        RetryDecision::RetryAfter(600)
    ));
    assert!(matches!(
        after_attempt(RetryTarget::Assets, 2, &outcome),
        RetryDecision::RetryAfter(1200)
    ));
    assert!(matches!(
        after_attempt(RetryTarget::Releases, 3, &outcome),
        RetryDecision::GiveUp(m) if m == "Failed to fetch available releases: timed out"
    ));
    assert!(matches!(
        after_attempt(RetryTarget::Assets, 3, &outcome),
        RetryDecision::GiveUp(m) if m == "timed out"
    ));
    assert!(matches!(
        after_attempt(RetryTarget::Assets, 3, &AttemptOutcome::Status("404 Not Found".to_string())),
        RetryDecision::GiveUp(m) if m == "HTTP status 404 Not Found"
    ));
    assert!(matches!(
        after_attempt(RetryTarget::Assets, 9, &outcome),
        RetryDecision::GiveUp(_)
    ));
    assert!(matches!(
        after_attempt(RetryTarget::Assets, 3, &AttemptOutcome::Success),
        RetryDecision::Parse
    ));
}

#[test]
fn every_major_is_asked_for_both_images() {
    let available = AvailableReleases {
        available_releases: vec![8, 17, 22],
        available_lts_releases: vec![8, 17],
        most_recent_lts: Some(17),
        most_recent_feature_release: Some(22),
    };
    assert_eq!(
        catalog_queries(&available),
        vec![
            CatalogQuery { major_version: 8, image_type: ImageType::Jre, is_lts: true },
            CatalogQuery { major_version: 8, image_type: ImageType::Jdk, is_lts: true },
            CatalogQuery { major_version: 17, image_type: ImageType::Jre, is_lts: true },
            CatalogQuery { major_version: 17, image_type: ImageType::Jdk, is_lts: true },
            CatalogQuery { major_version: 22, image_type: ImageType::Jre, is_lts: false },
            CatalogQuery { major_version: 22, image_type: ImageType::Jdk, is_lts: false },
        ]
    );
    let none = AvailableReleases {
        available_releases: vec![],
        available_lts_releases: vec![8],
        most_recent_lts: None,
        most_recent_feature_release: None,
    };
    assert!(catalog_queries(&none).is_empty());
}

#[test]
fn asset_becomes_catalog_entry() {
    let query = CatalogQuery { major_version: 21, image_type: ImageType::Jre, is_lts: true };
    let release = release_from_asset(query, asset("https://x/jre.tar.gz", 42));
    assert_eq!(release.major_version, 21);
    assert_eq!(release.image_type, ImageType::Jre);
    assert_eq!(release.version, "21.0.5+11");
    assert_eq!(release.release_name, "jdk-21.0.5+11");
    assert_eq!(release.release_date, Some("2024-10-15T00:00:00Z".to_string()));
    assert_eq!(release.file_size, 42);
    assert_eq!(release.checksum, Some("abc123".to_string()));
    assert_eq!(release.download_url, "https://x/jre.tar.gz");
    assert!(release.is_lts);
    assert!(release.is_available);
    assert_eq!(release.architecture, "x64");
    assert!(!release_from_asset(query, asset("", 42)).is_available);
    assert!(!release_from_asset(query, asset("https://x", 0)).is_available);
}

#[test]
fn failed_query_yields_the_unavailable_entry() {
    let query = CatalogQuery { major_version: 19, image_type: ImageType::Jdk, is_lts: false };
    for release in [
        unavailable_release(query, "aarch64"),
        release_for_query(query, "aarch64", Err("HTTP status 404".to_string())),
        release_for_query(query, "aarch64", Ok(Vec::new())),
    ] {
        assert_eq!(release.major_version, 19);
        assert_eq!(release.image_type, ImageType::Jdk);
        assert_eq!(release.version, "19.x");
        assert_eq!(release.release_name, "jdk-19");
        assert_eq!(release.release_date, None);
        assert_eq!(release.file_size, 0);
        assert_eq!(release.checksum, None);
        assert_eq!(release.download_url, "");
        assert!(!release.is_lts);
        assert!(!release.is_available);
        assert_eq!(release.architecture, "aarch64");
    }
    let mut second = asset("https://second", 2);
    second.release_name = "second".to_string();
    let release = release_for_query(query, "aarch64", Ok(vec![asset("https://first", 1), second]));
    assert_eq!(release.download_url, "https://first");
    assert!(release.is_available);
    assert_eq!(release.architecture, "x64");
}

#[test]
fn catalog_is_stamped_with_the_time() {
    let available = AvailableReleases {
        available_releases: vec![17, 21],
        available_lts_releases: vec![17],
        most_recent_lts: Some(17),
        most_recent_feature_release: Some(21),
    };
    let query = CatalogQuery { major_version: 17, image_type: ImageType::Jre, is_lts: true };
    let catalog = assemble_catalog(vec![unavailable_release(query, "x64")], available, 1700000000);
    assert_eq!(catalog.cached_at, 1700000000);
    assert_eq!(catalog.available_major_versions, vec![17, 21]);
    assert_eq!(catalog.lts_versions, vec![17]);
    assert_eq!(catalog.releases.len(), 1);
    assert_eq!(catalog.releases[0].version, "17.x");
}

#[test]
fn answers_to_the_request_of_one_release() {
    assert!(matches!(
        release_from_answer(ReleaseAnswer::Transport("dns".to_string()), ImageType::Jre),
        Err(JavaError::NetworkError(m)) if m == "Network request failed: dns"
    ));
    assert!(matches!(
        release_from_answer(ReleaseAnswer::Status("404 Not Found".to_string()), ImageType::Jre),
        Err(JavaError::NetworkError(m))
            if m == "Adoptium API returned error: 404 Not Found - The version/platform might be unavailable"
    ));
    assert!(matches!(
        release_from_answer(ReleaseAnswer::Unparsable("eof".to_string()), ImageType::Jre),
        Err(JavaError::SerializationError(m)) if m == "Failed to parse API response: eof"
    ));
    assert!(matches!(
        release_from_answer(ReleaseAnswer::Assets(Vec::new()), ImageType::Jre),
        Err(JavaError::NotFound)
    ));
    let info = release_from_answer(
        ReleaseAnswer::Assets(vec![asset("https://x/jre.tar.gz", 42), asset("https://y", 1)]),
        ImageType::Jdk,
    )
    .unwrap();
    assert_eq!(info.version, "21.0.5+11");
    assert_eq!(info.release_name, "jdk-21.0.5+11");
    assert_eq!(info.download_url, "https://x/jre.tar.gz");
    assert_eq!(info.file_name, "OpenJDK21U-jre_x64_linux_hotspot_21.0.5_11.tar.gz");
    assert_eq!(info.file_size, 42);
    assert_eq!(info.checksum, Some("abc123".to_string()));
    assert_eq!(info.image_type, ImageType::Jdk);
}

#[test]
fn answers_to_the_request_of_versions() {
    assert!(matches!(
        versions_from_answer(VersionsAnswer::Transport("dns".to_string())),
        Err(JavaError::NetworkError(m)) if m == "Network request failed: dns"
    ));
    assert!(matches!(
        versions_from_answer(VersionsAnswer::Unparsable("eof".to_string())),
        Err(JavaError::SerializationError(m)) if m == "Failed to parse response: eof"
    ));
    let releases = AvailableReleases {
        available_releases: vec![8, 11],
        available_lts_releases: vec![],
        most_recent_lts: None,
        most_recent_feature_release: None,
    };
    assert_eq!(
        versions_from_answer(VersionsAnswer::Releases(releases)).unwrap(),
        vec![8, 11]
    );
}

const ATTEMPTS: u32 = java_manager::adoptium::CATALOG_REQUEST_RETRIES + 1;

fn run_requests(
    target: RetryTarget,
    outcome_of: impl Fn(u32) -> AttemptOutcome,
) -> (u32, Result<(), String>) {
    let mut hits = 0;
    let mut attempt = 0;
    loop {
        hits += 1;
        match after_attempt(target, attempt, &outcome_of(attempt)) {
            RetryDecision::Parse => return (hits, Ok(())),
            RetryDecision::RetryAfter(_) => attempt += 1,
            RetryDecision::GiveUp(detail) => return (hits, Err(detail)),
        }
    }
}

#[test]
fn fetch_available_releases_retries_on_timeout() {
    let (hits, result) = run_requests(RetryTarget::Releases, |_| {
        AttemptOutcome::Transport("operation timed out".to_string())
    });
    let result = result.map_err(releases_given_up);
    assert!(matches!(result, Err(JavaError::NetworkError(_))));
    assert_eq!(hits, ATTEMPTS);
}

#[test]
fn fetch_available_releases_retries_on_http_5xx() {
    let (hits, result) = run_requests(RetryTarget::Releases, |_| {
        AttemptOutcome::Status("503 Service Unavailable".to_string())
    });
    let result = result.map_err(releases_given_up);
    assert!(matches!(result, Err(JavaError::NetworkError(_))));
    assert_eq!(hits, ATTEMPTS);
}

#[test]
fn fetch_available_releases_parse_failure_returns_serialization_error() {
    let (hits, sent) = run_requests(RetryTarget::Releases, |_| AttemptOutcome::Success);
    assert!(sent.is_ok());
    let result: Result<AvailableReleases, JavaError> =
        Err(releases_parse_failure("key must be a string at line 1 column 2"));
    assert!(matches!(result, Err(JavaError::SerializationError(_))));
    assert_eq!(hits, 1);
}

#[test]
fn fetch_assets_parse_failure_returns_error() {
    let (hits, sent) = run_requests(RetryTarget::Assets, |_| AttemptOutcome::Success);
    assert!(sent.is_ok());
    let result: Result<Vec<AdoptiumAsset>, String> =
        Err(assets_parse_failure("expected value at line 1 column 2"));
    assert!(result.is_err());
    assert_eq!(hits, 1);
}

#[test]
fn a_request_that_recovers_is_parsed_after_its_retries() {
    let (hits, sent) = run_requests(RetryTarget::Assets, |attempt| {
        if attempt < 2 {
            AttemptOutcome::Status("502 Bad Gateway".to_string())
        } else {
            AttemptOutcome::Success
        }
    });
    assert!(sent.is_ok());
    assert_eq!(hits, 3);
}
