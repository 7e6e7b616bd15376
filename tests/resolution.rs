use dcm_zed::invocation::{choose_executable, ExecutableError};
use dcm_zed::paths::{
    absolutize, default_log_path, env_lookup, join_path, resolve_excluded_folders, resolve_optional_path,
    settings_file_path, PathError,
};
use dcm_zed::{path_to_string, resolve_path, UserSettings};

fn env(pairs: &[(&str, &str)]) -> Vec<(String, String)> {
    pairs.iter().map(|(k, v)| (k.to_string(), v.to_string())).collect()
}

#[test]
fn tilde_expands_to_home() {
    let e = env(&[("HOME", "/home/u")]);
    assert_eq!(resolve_path("~/x", &e, "/w").unwrap(), "/home/u/x");
}

#[test]
fn relative_path_joins_under_root() {
    assert_eq!(resolve_path("rel/y", &env(&[]), "/w").unwrap(), "/w/rel/y");
}

#[test]
fn absolute_path_is_kept() {
    assert_eq!(resolve_path("/abs/z", &env(&[]), "/w").unwrap(), "/abs/z");
}

#[test]
fn input_is_trimmed_and_variables_expand() {
    let e = env(&[("SDK", "/opt/sdk")]);
    assert_eq!(resolve_path("  $SDK/bin  ", &e, "/w").unwrap(), "/opt/sdk/bin");
}

#[test]
fn unknown_variable_expands_to_empty() {
    assert_eq!(resolve_path("$NOPE/bar", &env(&[]), "/w").unwrap(), "/bar");
}

#[test]
fn blank_path_is_an_error() {
    assert_eq!(resolve_path("   ", &env(&[]), "/w").unwrap_err(), PathError::Empty);
    assert_eq!(resolve_path("", &env(&[]), "/w").unwrap_err(), PathError::Empty);
}

#[test]
fn later_environment_entry_wins() {
    let e = env(&[("A", "1"), ("B", "2"), ("A", "3")]);
    assert_eq!(env_lookup(&e, "A"), Some("3".to_string()));
    assert_eq!(env_lookup(&e, "C"), None);
}

#[test]
fn join_follows_path_rules() {
    assert_eq!(join_path("/w", "a"), "/w/a");
    assert_eq!(join_path("/w/", "a"), "/w/a");
    assert_eq!(join_path("/w", "/b"), "/b");
    assert_eq!(join_path("", "a"), "a");
    assert_eq!(absolutize("x/y", "/root"), "/root/x/y");
}

#[test]
fn optional_paths_treat_blank_as_absent() {
    let e = env(&[]);
    assert_eq!(resolve_optional_path(&None, &e, "/w").unwrap(), None);
    assert_eq!(resolve_optional_path(&Some("  ".to_string()), &e, "/w").unwrap(), None);
    assert_eq!(resolve_optional_path(&Some("sdk".to_string()), &e, "/w").unwrap(), Some("/w/sdk".to_string()));
}

#[test]
fn excluded_folders_skip_blanks_and_keep_order_and_duplicates() {
    let mut u = UserSettings::default();
    u.excluded_folders = vec!["b".to_string(), " ".to_string(), "/a".to_string(), "b".to_string()];
    let got = resolve_excluded_folders(&u, &env(&[]), "/w").unwrap();
    assert_eq!(got, vec!["/w/b".to_string(), "/a".to_string(), "/w/b".to_string()]);
}

#[test]
fn well_known_paths() {
    assert_eq!(default_log_path("/w"), "/w/.zed/dcm.log");
    assert_eq!(settings_file_path("/w"), "/w/.zed/settings.json");
    assert_eq!(path_to_string("/a b/c").unwrap(), "/a b/c");
}

#[test]
fn missing_executable_names_both_remedies() {
    let e = choose_executable(None, false, None).unwrap_err();
    assert!(matches!(e, ExecutableError::NotFound));
    let msg = e.message();
    assert!(msg.contains("dcm.executable_path"));
    assert!(msg.contains("PATH"));
}

#[test]
fn configured_executable_must_exist() {
    let e = choose_executable(Some("/x/dcm".to_string()), false, Some("/usr/bin/dcm".to_string())).unwrap_err();
    assert_eq!(e.message(), "Configured DCM executable path does not exist: /x/dcm");
    assert_eq!(
        choose_executable(Some("/x/dcm".to_string()), true, Some("/usr/bin/dcm".to_string())).unwrap(),
        "/x/dcm"
    );
    assert_eq!(choose_executable(None, false, Some("/usr/bin/dcm".to_string())).unwrap(), "/usr/bin/dcm");
}
