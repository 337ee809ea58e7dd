use java_manager::platform::{
    join, resolve_java_executable, strip_unc_prefix, HostOs,
};
use java_manager::types::{ImageType, JavaSource};
use java_manager::validation::{
    check_java_installation, is_version_compatible, parse_java_version, parse_version_string,
};

#[test]
fn legacy_and_modern_versions_name_their_major() {
    assert_eq!(parse_java_version("1.8.0_301"), 8);
    assert_eq!(parse_java_version("17.0.1"), 17);
    assert_eq!(parse_java_version(""), 0);
    assert_eq!(parse_java_version("21"), 21);
    assert_eq!(parse_java_version("11-ea"), 11);
    assert_eq!(parse_java_version("21.0.5+11"), 21);
}

#[test]
fn versions_that_name_no_number_give_zero() {
    assert_eq!(parse_java_version("1"), 0);
    assert_eq!(parse_java_version("1."), 0);
    assert_eq!(parse_java_version("abc"), 0);
    assert_eq!(parse_java_version("17abc"), 0);
    assert_eq!(parse_java_version(".5"), 0);
    assert_eq!(parse_java_version("-5"), 0);
    assert_eq!(parse_java_version("+"), 0);
    assert_eq!(parse_java_version("4294967296"), 0);
}

#[test]
fn version_edge_forms() {
    assert_eq!(parse_java_version("1.8"), 8);
    assert_eq!(parse_java_version("1.8-ea"), 8);
    assert_eq!(parse_java_version("1-ea"), 1);
    assert_eq!(parse_java_version("+17.0"), 17);
    assert_eq!(parse_java_version("4294967295"), 4294967295);
    assert_eq!(parse_java_version("007"), 7);
    assert_eq!(parse_java_version("10"), 10);
}

#[test]
fn window_of_versions() {
    assert!(is_version_compatible(17, None, None));
    assert!(is_version_compatible(17, Some(17), Some(17)));
    assert!(is_version_compatible(17, Some(8), None));
    assert!(is_version_compatible(17, None, Some(21)));
    assert!(!is_version_compatible(17, Some(18), None));
    assert!(!is_version_compatible(17, None, Some(16)));
    assert!(!is_version_compatible(17, Some(18), Some(16)));
    assert!(!is_version_compatible(u32::MAX, Some(u32::MAX as u64 + 1), None));
}

#[test]
fn banner_yields_quoted_version() {
    assert_eq!(
        parse_version_string("openjdk version \"17.0.1\" 2021-10-19\nOpenJDK Runtime"),
        Some("17.0.1".to_string())
    );
    assert_eq!(
        parse_version_string("java version \"1.8.0_301\""),
        Some("1.8.0_301".to_string())
    );
    assert_eq!(
        parse_version_string("Picked up _JAVA_OPTIONS\nopenjdk version \"21\"\n"),
        Some("21".to_string())
    );
    assert_eq!(parse_version_string("no banner here"), None);
    assert_eq!(parse_version_string(""), None);
    assert_eq!(parse_version_string("version without quotes"), None);
    assert_eq!(parse_version_string("version \"unterminated"), None);
    assert_eq!(parse_version_string("\"17\" but not the word"), None);
    assert_eq!(
        parse_version_string("version \"open\nopenjdk version \"11.0.2\""),
        Some("11.0.2".to_string())
    );
}

#[test]
fn probe_builds_installation_from_banner() {
    let banner = "openjdk version \"21.0.5\" 2024-10-15\nOpenJDK Runtime Environment Temurin-21.0.5+11 (build 21.0.5+11-LTS)\nOpenJDK 64-Bit Server VM Temurin-21.0.5+11 (build 21.0.5+11-LTS, mixed mode, sharing)";
    let java = check_java_installation("/opt/jdk/bin/java", banner, JavaSource::Managed).unwrap();
    assert_eq!(java.path, "/opt/jdk/bin/java");
    assert_eq!(java.version, "21.0.5");
    assert!(java.is_64bit);
    assert_eq!(java.arch, "x64");
    assert_eq!(java.vendor, "openjdk");
    assert_eq!(java.source, "managed");
}

#[test]
fn probe_of_32_bit_runtime() {
    let java = check_java_installation(
        "C:\\Java\\bin\\java.exe",
        "java version \"1.8.0_301\"\nJava HotSpot(TM) Client VM",
        JavaSource::PathScan,
    )
    .unwrap();
    assert_eq!(java.version, "1.8.0_301");
    assert_eq!(java.source, "path-scan");
    assert!(!java.is_64bit);
    assert_eq!(java.arch, "x86");
    assert_eq!(java.vendor, "java");
}

#[test]
fn probe_without_usable_version_finds_nothing() {
    assert!(check_java_installation("/x", "command not found", JavaSource::User).is_none());
    assert!(check_java_installation("/x", "", JavaSource::User).is_none());
    assert!(check_java_installation("/x", "tool version \"abc\"", JavaSource::User).is_none());
    assert!(check_java_installation("/x", "tool version \"0\"", JavaSource::User).is_none());
    let user = check_java_installation("/x", "a version \"9\"", JavaSource::User).unwrap();
    assert_eq!(user.source, "user");
    assert_eq!(user.vendor, "a");
}

#[test]
fn image_type_is_read_without_case_and_space() {
    assert_eq!(ImageType::parse("jre"), Some(ImageType::Jre));
    assert_eq!(ImageType::parse("jdk"), Some(ImageType::Jdk));
    assert_eq!(ImageType::parse("  JDK\n"), Some(ImageType::Jdk));
    assert_eq!(ImageType::parse("\u{3000}Jre\u{a0}"), Some(ImageType::Jre));
    assert_eq!(ImageType::parse("jvm"), None);
    assert_eq!(ImageType::parse(""), None);
    assert_eq!(ImageType::parse("j re"), None);
    assert_eq!(ImageType::default(), ImageType::Jre);
    assert_eq!(ImageType::Jre.to_string(), "jre");
    assert_eq!(ImageType::Jdk.to_string(), "jdk");
    assert_eq!(ImageType::Jdk.as_str(), "jdk");
    assert_eq!(
        ImageType::parse(&ImageType::Jdk.to_string()),
        Some(ImageType::Jdk)
    );
}

#[test]
fn unc_prefix_is_stripped_on_windows_only() {
    assert_eq!(
        strip_unc_prefix("\\\\?\\C:\\Java\\bin\\java.exe".to_string(), HostOs::Windows),
        "C:\\Java\\bin\\java.exe"
    );
    assert_eq!(
        strip_unc_prefix("C:\\Java\\bin\\java.exe".to_string(), HostOs::Windows),
        "C:\\Java\\bin\\java.exe"
    );
    assert_eq!(
        strip_unc_prefix("\\\\?\\C:\\Java".to_string(), HostOs::Linux),
        "\\\\?\\C:\\Java"
    );
    assert_eq!(strip_unc_prefix("\\\\?\\".to_string(), HostOs::Windows), "");
    assert_eq!(strip_unc_prefix("\\\\?".to_string(), HostOs::Windows), "\\\\?");
    assert_eq!(strip_unc_prefix(String::new(), HostOs::Windows), "");
}

#[test]
fn paths_are_joined_by_the_rules_of_the_host() {
    assert_eq!(join("/opt", "java", HostOs::Linux), "/opt/java");
    assert_eq!(join("/opt/", "java", HostOs::Linux), "/opt/java");
    assert_eq!(join("", "java", HostOs::Linux), "java");
    assert_eq!(join("C:\\x", "java", HostOs::Windows), "C:\\x\\java");
    assert_eq!(join("C:\\x\\", "java", HostOs::Windows), "C:\\x\\java");
    assert_eq!(join("C:/x/", "java", HostOs::Windows), "C:/x/java");
    assert_eq!(join("a\\", "b", HostOs::Linux), "a\\/b");
}

#[test]
fn executable_of_a_runtime_home() {
    assert_eq!(
        resolve_java_executable("/opt/jdk-21", HostOs::Linux),
        "/opt/jdk-21/bin/java"
    );
    assert_eq!(
        resolve_java_executable("/opt/jdk-21", HostOs::Other),
        "/opt/jdk-21/bin/java"
    );
    assert_eq!(
        resolve_java_executable("/Library/jdk-21", HostOs::MacOs),
        "/Library/jdk-21/Contents/Home/bin/java"
    );
    assert_eq!(
        resolve_java_executable("C:\\jdk-21", HostOs::Windows),
        "C:\\jdk-21\\bin\\java.exe"
    );
}
