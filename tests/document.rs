use dcm_zed::document::{
    capture_log_document, clear_log_document, decode_settings, encode_settings, load_user_settings, read_document,
    toggle_document, SettingsError,
};
use dcm_zed::{ToggleTarget, UserSettings};

fn json(s: &str) -> serde_json::Value {
    serde_json::from_str(s).unwrap()
}

fn object(v: serde_json::Value) -> serde_json::Map<String, serde_json::Value> {
    v.as_object().unwrap().clone()
}

#[test]
fn absent_or_blank_file_reads_as_empty_object() {
    assert!(read_document(None).unwrap().is_empty());
    assert!(read_document(Some("  \n\t".to_string())).unwrap().is_empty());
}

#[test]
fn malformed_file_is_a_parse_error() {
    assert!(matches!(read_document(Some("{ nope".to_string())), Err(SettingsError::Parse(_))));
}

#[test]
fn non_object_file_is_a_shape_error() {
    assert!(matches!(read_document(Some("[1, 2]".to_string())), Err(SettingsError::NotAnObject)));
}

#[test]
fn missing_block_gives_defaults() {
    let u = load_user_settings(Some(r#"{"theme":"x"}"#.to_string())).unwrap();
    assert!(u.show_new_version);
    assert!(!u.disable_baseline);
    assert!(u.excluded_folders.is_empty());
    assert_eq!(u.executable_path, None);
}

#[test]
fn block_fields_are_read_with_defaults() {
    let u = load_user_settings(Some(
        r#"{"dcm":{"executable_path":"~/dcm","show_unused_code":true,"excluded_folders":["a","b"],"log_file_path":null,"extra":1}}"#
            .to_string(),
    ))
    .unwrap();
    assert_eq!(u.executable_path, Some("~/dcm".to_string()));
    assert!(u.show_unused_code);
    assert!(u.show_new_version);
    assert_eq!(u.excluded_folders, vec!["a".to_string(), "b".to_string()]);
    assert_eq!(u.log_file_path, None);
}

#[test]
fn wrong_typed_field_is_rejected() {
    let r = load_user_settings(Some(r#"{"dcm":{"show_unused_code":"yes"}}"#.to_string()));
    match r {
        Err(SettingsError::InvalidField(k)) => assert_eq!(k, "show_unused_code"),
        _ => panic!("expected an invalid field"),
    }
}

#[test]
fn non_object_block_is_rejected() {
    assert!(matches!(
        load_user_settings(Some(r#"{"dcm":3}"#.to_string())),
        Err(SettingsError::BlockNotAnObject)
    ));
}

#[test]
fn all_default_settings_round_trip() {
    let u = UserSettings::default();
    let back = decode_settings(&encode_settings(&u)).unwrap();
    assert_eq!(format!("{back:?}"), format!("{u:?}"));
}

#[test]
fn all_set_settings_round_trip_through_text() {
    let u = UserSettings {
        executable_path: Some("/bin/dcm".to_string()),
        dart_sdk_path: Some("~/sdk".to_string()),
        show_new_version: false,
        show_unused_code: true,
        show_unused_files: true,
        disable_baseline: true,
        enable_old_formatter: true,
        analyze_only_opened: true,
        excluded_folders: vec!["gen".to_string(), "build".to_string()],
        log_file_path: Some("/tmp/dcm.log".to_string()),
    };
    let block = encode_settings(&u);
    let text = serde_json::to_string_pretty(&serde_json::Value::Object(block)).unwrap();
    let back = decode_settings(&object(json(&text))).unwrap();
    assert_eq!(format!("{back:?}"), format!("{u:?}"));
}

#[test]
fn toggle_baseline_on_empty_file() {
    let doc = read_document(Some(String::new())).unwrap();
    let (v, on) = toggle_document(doc, ToggleTarget::Baseline).unwrap();
    assert!(on);
    assert_eq!(v, json(r#"{"dcm":{"disable_baseline":true}}"#));
    let (v2, on2) = toggle_document(object(v), ToggleTarget::Baseline).unwrap();
    assert!(!on2);
    assert_eq!(v2, json(r#"{"dcm":{"disable_baseline":false}}"#));
}

#[test]
fn toggle_keeps_sibling_keys() {
    let doc = object(json(r#"{"a":{"x":[1,2]},"b":"text","dcm":{"show_unused_code":true,"excluded_folders":["z"]}}"#));
    let (v, on) = toggle_document(doc, ToggleTarget::UnusedCode).unwrap();
    assert!(!on);
    assert_eq!(
        v,
        json(r#"{"a":{"x":[1,2]},"b":"text","dcm":{"show_unused_code":false,"excluded_folders":["z"]}}"#)
    );
}

#[test]
fn double_toggle_restores_each_flag() {
    for t in [ToggleTarget::Baseline, ToggleTarget::UnusedCode, ToggleTarget::UnusedFiles, ToggleTarget::NewVersion] {
        let doc = object(json(r#"{"k":1,"dcm":{"show_new_version":false}}"#));
        let before = dcm_zed::document::document_user_settings(&doc).unwrap();
        let (v1, _) = toggle_document(doc, t).unwrap();
        let (v2, _) = toggle_document(object(v1), t).unwrap();
        let after = dcm_zed::document::document_user_settings(&object(v2)).unwrap();
        assert_eq!(t.current(&after), t.current(&before));
        assert_eq!(format!("{after:?}"), format!("{before:?}"));
    }
}

#[test]
fn new_version_toggle_starts_from_true_default() {
    let (v, on) = toggle_document(serde_json::Map::new(), ToggleTarget::NewVersion).unwrap();
    assert!(!on);
    assert_eq!(v, json(r#"{"dcm":{"show_new_version":false}}"#));
}

#[test]
fn toggle_refuses_a_broken_block() {
    let doc = object(json(r#"{"dcm":{"disable_baseline":"no"}}"#));
    assert!(toggle_document(doc, ToggleTarget::Baseline).is_err());
}

#[test]
fn log_capture_then_clear() {
    let doc = object(json(r#"{"other":true,"dcm":{"show_unused_files":true}}"#));
    let path = dcm_zed::paths::default_log_path("/w");
    let v = capture_log_document(doc, path);
    assert_eq!(
        v,
        json(r#"{"other":true,"dcm":{"show_unused_files":true,"log_file_path":"/w/.zed/dcm.log"}}"#)
    );
    let v2 = clear_log_document(object(v));
    assert_eq!(v2, json(r#"{"other":true,"dcm":{"show_unused_files":true}}"#));
}

#[test]
fn clear_without_log_path_is_fine() {
    let v = clear_log_document(serde_json::Map::new());
    assert_eq!(v, json(r#"{"dcm":{}}"#));
}

#[test]
fn toggle_and_log_outputs() {
    let o = dcm_zed::commands::toggle_output(ToggleTarget::Baseline, true);
    assert_eq!(
        o.text,
        "Baseline Toggle: Baseline filtering disabled. Restart the DCM server for changes to take effect."
    );
    assert_eq!(o.sections[0].end, 15);
    let o = dcm_zed::commands::toggle_output(ToggleTarget::NewVersion, false);
    assert_eq!(o.text, "Version Notification Toggle: New version notifications disabled.");
    let o = dcm_zed::commands::log_capture_output("/w/.zed/dcm.log");
    assert_eq!(
        o.text,
        "Log Capture Enabled: Server communication will be captured to /w/.zed/dcm.log. Restart DCM to begin logging."
    );
}
