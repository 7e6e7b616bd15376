use dcm_zed::commands::{parse_command, Action, ErrorKind, LogAction, OpenTarget};
use dcm_zed::{complete, run, RunStep, ToggleTarget};

fn args(words: &[&str]) -> Vec<String> {
    words.iter().map(|w| w.to_string()).collect()
}

#[test]
fn empty_input_offers_every_top_level_command() {
    let out = complete(&args(&[]));
    let labels: Vec<&str> = out.iter().map(|c| c.label.as_str()).collect();
    assert_eq!(labels, vec!["help", "open", "toggle", "restart", "log"]);
    let restart = out.iter().find(|c| c.label == "restart").unwrap();
    assert!(restart.run_command);
    assert_eq!(restart.new_text, "restart");
    let open = out.iter().find(|c| c.label == "open").unwrap();
    assert!(!open.run_command);
    assert_eq!(open.new_text, "open ");
}

#[test]
fn tog_completes_to_toggle_only() {
    let out = complete(&args(&["tog"]));
    assert_eq!(out.len(), 1);
    assert_eq!(out[0].label, "toggle");
    assert_eq!(out[0].new_text, "toggle ");
    assert!(!out[0].run_command);
}

#[test]
fn toggle_base_completes_to_baseline() {
    let out = complete(&args(&["toggle", "base"]));
    assert_eq!(out.len(), 1);
    assert_eq!(out[0].label, "baseline");
    assert_eq!(out[0].new_text, "toggle baseline");
    assert!(out[0].run_command);
}

#[test]
fn open_with_empty_last_word_offers_all_targets() {
    let out = complete(&args(&["open", ""]));
    let labels: Vec<&str> = out.iter().map(|c| c.label.as_str()).collect();
    assert_eq!(labels, vec!["rules", "metrics", "feedback", "logs"]);
    assert_eq!(out[2].new_text, "open feedback");
}

#[test]
fn log_c_offers_capture_and_clear() {
    let out = complete(&args(&["log", "c"]));
    let texts: Vec<&str> = out.iter().map(|c| c.new_text.as_str()).collect();
    assert_eq!(texts, vec!["log capture", "log clear"]);
}

#[test]
fn unknown_first_word_offers_nothing() {
    assert!(complete(&args(&["frobnicate", "x"])).is_empty());
    assert!(complete(&args(&["zzz"])).is_empty());
}

#[test]
fn parse_recognises_each_command() {
    assert_eq!(parse_command(&args(&[]), true).unwrap(), Action::Help);
    assert_eq!(parse_command(&args(&["help"]), true).unwrap(), Action::Help);
    assert_eq!(parse_command(&args(&["restart"]), true).unwrap(), Action::Restart);
    assert_eq!(parse_command(&args(&["open", "metrics"]), true).unwrap(), Action::Open(OpenTarget::Metrics));
    assert_eq!(
        parse_command(&args(&["toggle", "unused-files"]), true).unwrap(),
        Action::Toggle(ToggleTarget::UnusedFiles)
    );
    assert_eq!(parse_command(&args(&["log", "clear"]), true).unwrap(), Action::Log(LogAction::Clear));
}

#[test]
fn parse_errors_name_the_word_and_choices() {
    let e = parse_command(&args(&["help"]), false).unwrap_err();
    assert_eq!(e.kind, ErrorKind::NoWorktree);
    assert_eq!(e.message(), "DCM commands require an active worktree");

    let e = parse_command(&args(&["bogus"]), true).unwrap_err();
    assert_eq!(e.kind, ErrorKind::UnknownSubcommand);
    assert_eq!(e.message(), "Unknown DCM subcommand `bogus`. Run `dcm help` for options.");

    let e = parse_command(&args(&["open"]), true).unwrap_err();
    assert_eq!(e.message(), "Specify what to open: rules, metrics, feedback, or logs");

    let e = parse_command(&args(&["open", "x"]), true).unwrap_err();
    assert_eq!(e.message(), "Unknown open target `x`. Use rules, metrics, feedback, or logs.");

    let e = parse_command(&args(&["toggle"]), true).unwrap_err();
    assert_eq!(e.message(), "Specify toggle target: baseline, unused-code, unused-files, or new-version");

    let e = parse_command(&args(&["toggle", "y"]), true).unwrap_err();
    assert_eq!(
        e.message(),
        "Unknown toggle target `y`. Use baseline, unused-code, unused-files, or new-version."
    );

    let e = parse_command(&args(&["log"]), true).unwrap_err();
    assert_eq!(e.message(), "Specify log command: capture or clear");

    let e = parse_command(&args(&["log", "z"]), true).unwrap_err();
    assert_eq!(e.message(), "Unknown log command `z`. Use capture or clear.");
}

#[test]
fn run_shows_help_and_open_outputs() {
    match run(&args(&[]), true).unwrap() {
        RunStep::Output(o) => {
            assert!(o.text.starts_with("DCM commands:\n- dcm help"));
            assert!(o.sections.is_empty());
        }
        _ => panic!("help should produce output"),
    }
    match run(&args(&["open", "rules"]), true).unwrap() {
        RunStep::Output(o) => {
            assert_eq!(o.text, "DCM Rules: Documentation: https://dcm.dev/docs/rules/");
            assert_eq!(o.sections.len(), 1);
            assert_eq!(o.sections[0].start, 0);
            assert_eq!(o.sections[0].end, 9);
            assert_eq!(o.sections[0].label, "DCM Rules");
        }
        _ => panic!("open should produce output"),
    }
    match run(&args(&["toggle", "baseline"]), true).unwrap() {
        RunStep::Toggle(t) => assert_eq!(t, ToggleTarget::Baseline),
        _ => panic!("toggle should ask for the settings file"),
    }
}
