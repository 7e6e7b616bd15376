use dcm_zed::invocation::upsert_env;
use dcm_zed::{build_command, initialization_options, join_paths, workspace_configuration, ResolvedSettings, UserSettings};

fn settings() -> ResolvedSettings {
    ResolvedSettings {
        user: UserSettings::default(),
        executable_path: "/bin/dcm".to_string(),
        sdk_path: None,
        root_path: "/w".to_string(),
        excluded_folders: Vec::new(),
        log_file_path: None,
        env: vec![("PATH".to_string(), "/bin".to_string()), ("PWD".to_string(), "/old".to_string())],
    }
}

#[test]
fn default_settings_give_minimal_arguments() {
    let c = build_command(&settings());
    assert_eq!(c.command, "/bin/dcm");
    assert_eq!(c.args, vec!["start-server", "--root-folder=/w", "--client=zed"]);
}

#[test]
fn excluded_folders_join_with_commas() {
    let mut s = settings();
    s.excluded_folders = vec!["/a".to_string(), "/b".to_string(), "/c".to_string()];
    let c = build_command(&s);
    assert!(c.args.contains(&"--excluded-folders=/a,/b,/c".to_string()));
    assert_eq!(join_paths(&s.excluded_folders), "/a,/b,/c");
}

#[test]
fn empty_excluded_folders_omit_the_flag() {
    let c = build_command(&settings());
    assert!(!c.args.iter().any(|a| a.starts_with("--excluded-folders")));
    assert_eq!(join_paths(&Vec::new()), "");
}

#[test]
fn every_flag_in_fixed_order() {
    let mut s = settings();
    s.user.show_new_version = false;
    s.user.show_unused_code = true;
    s.user.analyze_only_opened = true;
    s.user.show_unused_files = true;
    s.user.disable_baseline = true;
    s.user.enable_old_formatter = true;
    s.sdk_path = Some("/sdk".to_string());
    s.log_file_path = Some("/w/.zed/dcm.log".to_string());
    s.excluded_folders = vec!["/x".to_string()];
    let c = build_command(&s);
    assert_eq!(
        c.args,
        vec![
            "start-server",
            "--sdk-path=/sdk",
            "--root-folder=/w",
            "--no-show-new-version-update",
            "--show-unused-code",
            "--only-opened",
            "--excluded-folders=/x",
            "--show-unused-files",
            "--disable-baseline",
            "--logs=/w/.zed/dcm.log",
            "--old-formatter",
            "--client=zed",
        ]
    );
    assert_eq!(
        c.env,
        vec![
            ("PATH".to_string(), "/bin".to_string()),
            ("PWD".to_string(), "/w".to_string()),
            ("ZED_WORKTREE_ROOT".to_string(), "/w".to_string()),
            ("DART_SDK".to_string(), "/sdk".to_string()),
        ]
    );
}

#[test]
fn upsert_overwrites_first_match_or_appends() {
    let mut e = vec![("A".to_string(), "1".to_string()), ("A".to_string(), "2".to_string())];
    upsert_env(&mut e, "A", "9".to_string());
    assert_eq!(e[0].1, "9");
    assert_eq!(e[1].1, "2");
    upsert_env(&mut e, "B", "3".to_string());
    assert_eq!(e.len(), 3);
    assert_eq!(e[2], ("B".to_string(), "3".to_string()));
}

#[test]
fn initialization_payload_has_flags_and_nullable_log() {
    let v = initialization_options(&settings());
    let expected: serde_json::Value = serde_json::from_str(
        r#"{"show_unused_code":false,"show_unused_files":false,"disable_baseline":false,
            "enable_old_formatter":false,"analyze_only_opened":false,"log_file_path":null}"#,
    )
    .unwrap();
    assert_eq!(v, expected);
}

#[test]
fn workspace_payload_uses_camel_case_under_dcm() {
    let mut s = settings();
    s.user.disable_baseline = true;
    s.sdk_path = Some("/sdk".to_string());
    s.excluded_folders = vec!["/a".to_string(), "/b".to_string()];
    let v = workspace_configuration(&s).unwrap();
    let expected: serde_json::Value = serde_json::from_str(
        r#"{"dcm":{"showUnusedCode":false,"showUnusedFiles":false,"disableBaseline":true,
            "enableOldFormatter":false,"analyzeOnlyOpened":false,"logFilePath":null,
            "dartSdkPath":"/sdk","excludedFolders":["/a","/b"]}}"#,
    )
    .unwrap();
    assert_eq!(v, expected);
}
