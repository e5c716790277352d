use nono_cli::cli_bootstrap::{cli_log_override, legacy_network_warnings, log_target_is_private, LogTargetState};
use std::path::Path;

fn canon(p: &str) -> Option<String> {
    if p.contains("missing") {
        None
    } else {
        Some(p.to_string())
    }
}

fn starts(a: &str, b: &str) -> bool {
    Path::new(a).starts_with(Path::new(b))
}

fn state(arm: bool, path: Option<&str>, granted: Option<Vec<&str>>) -> LogTargetState {
    LogTargetState {
        file_arm_selected: arm,
        stored_path: path.map(str::to_string),
        granted_paths: granted.map(|g| g.into_iter().map(str::to_string).collect()),
    }
}

#[test]
fn no_log_path_recorded_is_not_private() {
    let result = log_target_is_private(&state(false, None, None), canon, starts);
    assert!(!result, "when the file-log arm was never selected, the target is not private");
}

#[test]
fn log_arm_selected_but_no_path_recorded_is_not_private() {
    let result = log_target_is_private(&state(true, None, Some(vec![])), canon, starts);
    assert!(!result, "an arm selected with no recorded path must fail secure");
}

#[test]
fn log_path_inside_a_granted_directory_is_not_private() {
    let s = state(true, Some("/home/u/work/nono.log"), Some(vec!["/etc", "/home/u/work"]));
    assert!(!log_target_is_private(&s, canon, starts));
}

#[test]
fn log_path_outside_every_granted_directory_is_private() {
    let s = state(true, Some("/home/u/logs/nono.log"), Some(vec!["/home/u/work", "/home/u/log"]));
    assert!(log_target_is_private(&s, canon, starts));
}

#[test]
fn unknown_cases_fail_secure() {
    assert!(!log_target_is_private(&state(true, Some("/home/u/x.log"), None), canon, starts));
    assert!(!log_target_is_private(&state(true, Some("/missing/x.log"), Some(vec![])), canon, starts));
    assert!(log_target_is_private(&state(true, Some("/home/u/x.log"), Some(vec![])), canon, starts));
    let s = state(true, Some("/home/u/a/x.log"), Some(vec!["/home/u/a/missing-later"]));
    assert!(log_target_is_private(&s, canon, starts), "an uncanonicalisable grant is still compared as given");
    let s = state(true, Some("/home/u/missing-grant/x.log"), Some(vec!["/home/u/missing-grant"]));
    assert!(!log_target_is_private(&s, |p: &str| if p.ends_with(".log") { Some(p.to_string()) } else { None }, starts));
}

#[test]
fn deprecated_flags_and_variables_are_warned_in_table_order() {
    let args: Vec<String> = vec!["run".into(), "--proxy-credential=x".into(), "--allow-net".into(), "--net-allowed".into()];
    let env: Vec<String> = vec!["NONO_EXTERNAL_PROXY".into(), "HOME".into(), "NONO_NET_BLOCK".into()];
    assert_eq!(
        legacy_network_warnings(&args, &env),
        vec![
            "Warning: `--allow-net` is deprecated; use `network is unrestricted by default` instead.".to_string(),
            "Warning: `--proxy-credential` is deprecated; use `--credential` instead. Will be removed in v1.0.0."
                .to_string(),
            "Warning: `NONO_NET_BLOCK` is deprecated; use `NONO_BLOCK_NET` instead.".to_string(),
            "Warning: `NONO_EXTERNAL_PROXY` is deprecated; use `NONO_UPSTREAM_PROXY` instead.".to_string(),
        ]
    );
    assert!(legacy_network_warnings(&[], &[]).is_empty());
}

#[test]
fn log_override_follows_silence_and_verbosity() {
    assert_eq!(cli_log_override(true, 3), Some("off"));
    assert_eq!(cli_log_override(false, 0), None);
    assert_eq!(cli_log_override(false, 1), Some("info"));
    assert_eq!(cli_log_override(false, 2), Some("debug"));
    assert_eq!(cli_log_override(false, 9), Some("trace"));
}
