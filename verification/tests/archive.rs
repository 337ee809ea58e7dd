use java_manager::archive::{
    extract_tar_gz, extract_zip, plan_zip_entry, sanitize_relative_path, ArchiveEntry,
    EntryAction, TarExtraction,
};
use java_manager::atomic_write::{write_file_atomic, FsStep};
use java_manager::error::{JavaError, ResumeJavaDownloadFailureReason};
use java_manager::platform::HostOs;

#[test]
fn safe_paths_keep_their_naming_components() {
    assert_eq!(
        sanitize_relative_path("jdk-21/bin/java", HostOs::Linux),
        Ok("jdk-21/bin/java".to_string())
    );
    assert_eq!(
        sanitize_relative_path("./jdk-21//bin/./java", HostOs::Linux),
        Ok("jdk-21/bin/java".to_string())
    );
    assert_eq!(sanitize_relative_path("jdk-21/", HostOs::Linux), Ok("jdk-21".to_string()));
    assert_eq!(sanitize_relative_path("", HostOs::Linux), Ok(String::new()));
    assert_eq!(sanitize_relative_path("./", HostOs::Linux), Ok(String::new()));
    assert_eq!(
        sanitize_relative_path("a/b\\c", HostOs::Linux),
        Ok("a/b\\c".to_string())
    );
    assert_eq!(
        sanitize_relative_path("a/b\\c", HostOs::Windows),
        Ok("a\\b\\c".to_string())
    );
    assert_eq!(sanitize_relative_path("...", HostOs::Linux), Ok("...".to_string()));
}

#[test]
fn unsafe_paths_are_refused() {
    assert_eq!(
        sanitize_relative_path("../evil.sh", HostOs::Linux),
        Err("Unsafe archive entry path detected (parent traversal): ../evil.sh".to_string())
    );
    assert_eq!(
        sanitize_relative_path("a/../../evil.sh", HostOs::Linux),
        Err("Unsafe archive entry path detected (parent traversal): a/../../evil.sh".to_string())
    );
    assert_eq!(
        sanitize_relative_path("/etc/passwd", HostOs::Linux),
        Err("Unsafe archive entry path detected (absolute path): /etc/passwd".to_string())
    );
    assert_eq!(
        sanitize_relative_path("C:\\Windows\\x", HostOs::Windows),
        Err("Unsafe archive entry path detected (absolute path): C:\\Windows\\x".to_string())
    );
    assert_eq!(
        sanitize_relative_path("..\\evil", HostOs::Windows),
        Err("Unsafe archive entry path detected (parent traversal): ..\\evil".to_string())
    );
    assert_eq!(
        sanitize_relative_path("\\\\server\\share", HostOs::Windows),
        Err("Unsafe archive entry path detected (absolute path): \\\\server\\share".to_string())
    );
    assert_eq!(
        sanitize_relative_path("..\\evil", HostOs::Linux),
        Ok("..\\evil".to_string())
    );
}

#[test]
fn archive_traversal_rejected() {
    let mut state = TarExtraction::new();
    let first = state.plan_entry("/root/x", "jdk/bin/java", false, Some(0o755), HostOs::Linux);
    assert!(first.is_ok());
    let refused = state.plan_entry("/root/x", "../evil.sh", false, Some(0o755), HostOs::Linux);
    let message = refused.unwrap_err();
    assert!(message.contains("parent traversal"));
    assert_eq!(
        std::mem::discriminant(&ResumeJavaDownloadFailureReason::from_error_message(&message)),
        std::mem::discriminant(&ResumeJavaDownloadFailureReason::InvalidArchive)
    );
    assert_eq!(state.top_level_dir, Some("jdk".to_string()));

    let entries = vec![
        ArchiveEntry { path: "jdk/".to_string(), is_dir: true, mode: Some(0o755) },
        ArchiveEntry { path: "../evil.sh".to_string(), is_dir: false, mode: Some(0o755) },
    ];
    assert_eq!(
        extract_tar_gz(&entries, "/root/x", HostOs::Linux).unwrap_err(),
        "Unsafe archive entry path detected (parent traversal): ../evil.sh"
    );
}

#[test]
fn tar_entries_are_placed_below_the_root() {
    let mut state = TarExtraction::new();
    assert!(matches!(
        state.plan_entry("/x", "./", true, None, HostOs::Linux),
        Ok(EntryAction::Skip)
    ));
    assert_eq!(state.top_level_dir, None);
    match state.plan_entry("/x", "jdk-21.0.5+11-jre/", true, Some(0o755), HostOs::Linux) {
        Ok(EntryAction::CreateDir { path }) => assert_eq!(path, "/x/jdk-21.0.5+11-jre"),
        other => panic!("unexpected {:?}", other),
    }
    match state.plan_entry("/x", "jdk-21.0.5+11-jre/bin/java", false, Some(0o755), HostOs::Linux)
    {
        Ok(EntryAction::WriteFile { path, parent, mode }) => {
            assert_eq!(path, "/x/jdk-21.0.5+11-jre/bin/java");
            assert_eq!(parent, "/x/jdk-21.0.5+11-jre/bin");
            assert_eq!(mode, Some(0o755));
        }
        other => panic!("unexpected {:?}", other),
    }
    match state.plan_entry("/x", "second/file", false, None, HostOs::Linux) {
        Ok(EntryAction::WriteFile { path, parent, mode }) => {
            assert_eq!(path, "/x/second/file");
            assert_eq!(parent, "/x/second");
            assert_eq!(mode, None);
        }
        other => panic!("unexpected {:?}", other),
    }
    assert_eq!(state.finish(), Ok("jdk-21.0.5+11-jre".to_string()));
}

#[test]
fn mode_bits_are_ignored_on_windows() {
    let mut state = TarExtraction::new();
    match state.plan_entry("C:\\x", "jdk/bin/java.exe", false, Some(0o755), HostOs::Windows) {
        Ok(EntryAction::WriteFile { path, parent, mode }) => {
            assert_eq!(path, "C:\\x\\jdk\\bin\\java.exe");
            assert_eq!(parent, "C:\\x\\jdk\\bin");
            assert_eq!(mode, None);
        }
        other => panic!("unexpected {:?}", other),
    }
    match state.plan_entry("/x", "top", false, Some(0o644), HostOs::MacOs) {
        Ok(EntryAction::WriteFile { path, parent, mode }) => {
            assert_eq!(path, "/x/top");
            assert_eq!(parent, "/x");
            assert_eq!(mode, Some(0o644));
        }
        other => panic!("unexpected {:?}", other),
    }
}

#[test]
fn empty_archive_has_no_top_level_directory() {
    assert_eq!(
        TarExtraction::new().finish(),
        Err("Archive appears to be empty".to_string())
    );
    assert_eq!(
        extract_tar_gz(&Vec::new(), "/x", HostOs::Linux).unwrap_err(),
        "Archive appears to be empty"
    );
    let only_dots = vec![ArchiveEntry { path: "./".to_string(), is_dir: true, mode: None }];
    assert_eq!(
        extract_tar_gz(&only_dots, "/x", HostOs::Linux).unwrap_err(),
        "Archive appears to be empty"
    );
}

#[test]
fn whole_tar_plan() {
    let entries = vec![
        ArchiveEntry { path: "./".to_string(), is_dir: true, mode: Some(0o755) },
        ArchiveEntry { path: "jdk/".to_string(), is_dir: true, mode: Some(0o755) },
        ArchiveEntry { path: "jdk/release".to_string(), is_dir: false, mode: Some(0o644) },
    ];
    let plan = extract_tar_gz(&entries, "/data/v", HostOs::Linux).unwrap();
    assert_eq!(plan.top_level_dir, "jdk");
    assert_eq!(plan.actions.len(), 3);
    assert!(matches!(plan.actions[0], EntryAction::Skip));
    assert!(matches!(&plan.actions[1], EntryAction::CreateDir { path } if path == "/data/v/jdk"));
    assert!(matches!(
        &plan.actions[2],
        EntryAction::WriteFile { path, parent, mode }
            if path == "/data/v/jdk/release" && parent == "/data/v/jdk" && *mode == Some(0o644)
    ));
}

#[test]
fn zip_entries_skip_meta_inf_and_tell_directories_by_name() {
    assert!(matches!(
        plan_zip_entry("/x", "META-INF/MANIFEST.MF", HostOs::Linux),
        Ok(EntryAction::Skip)
    ));
    assert!(matches!(
        plan_zip_entry("/x", "jdk/lib/META-INF/x", HostOs::Linux),
        Ok(EntryAction::Skip)
    ));
    assert!(matches!(plan_zip_entry("/x", "", HostOs::Linux), Ok(EntryAction::Skip)));
    assert!(matches!(
        plan_zip_entry("/x", "jdk/bin/", HostOs::Linux),
        Ok(EntryAction::CreateDir { path }) if path == "/x/jdk/bin"
    ));
    assert!(matches!(
        plan_zip_entry("/x", "jdk/bin/java.exe", HostOs::Linux),
        Ok(EntryAction::WriteFile { path, parent, mode })
            if path == "/x/jdk/bin/java.exe" && parent == "/x/jdk/bin" && mode.is_none()
    ));
    assert_eq!(
        plan_zip_entry("/x", "../evil.sh", HostOs::Linux).unwrap_err(),
        "Unsafe archive entry path detected (parent traversal): ../evil.sh"
    );
    assert_eq!(
        plan_zip_entry("/x", "/abs", HostOs::Linux).unwrap_err(),
        "Unsafe archive entry path detected (absolute path): /abs"
    );
    assert!(matches!(
        plan_zip_entry("/META-INF", "a", HostOs::Linux),
        Ok(EntryAction::Skip)
    ));
}

#[test]
fn whole_zip_plan() {
    let names = vec!["jdk/".to_string(), "jdk/release".to_string(), "META-INF/x".to_string()];
    let actions = extract_zip(&names, "/v", HostOs::Linux).unwrap();
    assert_eq!(actions.len(), 3);
    assert!(matches!(&actions[0], EntryAction::CreateDir { path } if path == "/v/jdk"));
    assert!(matches!(&actions[1], EntryAction::WriteFile { path, .. } if path == "/v/jdk/release"));
    assert!(matches!(actions[2], EntryAction::Skip));
    let bad = vec!["ok".to_string(), "a/../../b".to_string(), "/abs".to_string()];
    assert_eq!(
        extract_zip(&bad, "/v", HostOs::Linux).unwrap_err(),
        "Unsafe archive entry path detected (parent traversal): a/../../b"
    );
    assert!(extract_zip(&Vec::new(), "/v", HostOs::Linux).unwrap().is_empty());
}

#[test]
fn atomic_replacement_goes_through_a_temporary_file() {
    let steps = write_file_atomic("/data/java_config.json", HostOs::Linux).unwrap();
    assert_eq!(steps.len(), 4);
    assert!(matches!(&steps[0], FsStep::CreateDirAll { path } if path == "/data"));
    assert!(matches!(&steps[1], FsStep::Write { path } if path == "/data/java_config.json.tmp"));
    assert!(matches!(&steps[2], FsStep::RemoveIfExists { path } if path == "/data/java_config.json"));
    assert!(matches!(
        &steps[3],
        FsStep::Rename { from, to }
            if from == "/data/java_config.json.tmp" && to == "/data/java_config.json"
    ));
    let steps = write_file_atomic("C:\\d\\q.json", HostOs::Windows).unwrap();
    assert!(matches!(&steps[0], FsStep::CreateDirAll { path } if path == "C:\\d"));
    let steps = write_file_atomic("/q.json", HostOs::Linux).unwrap();
    assert!(matches!(&steps[0], FsStep::CreateDirAll { path } if path == "/"));
    let steps = write_file_atomic("q.json", HostOs::Linux).unwrap();
    assert!(matches!(&steps[0], FsStep::CreateDirAll { path } if path.is_empty()));
}

#[test]
fn path_without_parent_is_refused() {
    assert!(matches!(
        write_file_atomic("", HostOs::Linux),
        Err(JavaError::InvalidConfig(m)) if m == "Path has no parent directory"
    ));
    assert!(matches!(
        write_file_atomic("/", HostOs::Linux),
        Err(JavaError::InvalidConfig(m)) if m == "Path has no parent directory"
    ));
}

fn apply(files: &mut std::collections::HashMap<String, Vec<u8>>, step: &FsStep, content: &[u8]) {
    match step {
        FsStep::CreateDirAll { .. } => {}
        FsStep::Write { path } => {
            files.insert(path.clone(), content.to_vec());
        }
        FsStep::RemoveIfExists { path } => {
            files.remove(path);
        }
        FsStep::Rename { from, to } => {
            if let Some(bytes) = files.remove(from) {
                files.insert(to.clone(), bytes);
            }
        }
    }
}

#[test]
fn crash_leaves_old_content_or_no_file() {
    let path = "/data/java_config.json";
    let steps = write_file_atomic(path, HostOs::Linux).unwrap();
    for old in [None, Some(b"old".to_vec())] {
        for done in 0..=steps.len() {
            let mut files = std::collections::HashMap::new();
            if let Some(bytes) = &old {
                files.insert(path.to_string(), bytes.clone());
            }
            for step in &steps[..done] {
                apply(&mut files, step, b"new");
            }
            let now = files.get(path);
            if done < steps.len() {
                assert!(now.is_none() || now == old.as_ref());
            } else {
                assert_eq!(now, Some(&b"new".to_vec()));
                assert!(!files.contains_key("/data/java_config.json.tmp"));
            }
        }
    }
}
