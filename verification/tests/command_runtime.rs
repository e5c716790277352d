use nono_cli::command_runtime::{
    default_shell, windows_powershell_path,
    check_wrap_network_mode, ignored_command_warning, resolve_profile_binary,
    resolve_program_from_profile_or_cli, split_pack_ref,
};
use nono_cli::error::NonoError;

fn words(ws: &[&str]) -> Vec<String> {
    ws.iter().map(|w| w.to_string()).collect()
}

#[test]
fn only_user_profiles_may_name_the_binary() {
    assert_eq!(resolve_profile_binary(Some("/opt/agent"), true), Some("/opt/agent".to_string()));
    assert_eq!(resolve_profile_binary(Some("/opt/agent"), false), None);
    assert_eq!(resolve_profile_binary(None, true), None);
}

#[test]
fn profile_binary_wins_over_the_trailing_command() {
    let (program, args) =
        resolve_program_from_profile_or_cli(&words(&["ls", "-la"]), Some("/opt/agent".to_string())).unwrap();
    assert_eq!(program, "/opt/agent");
    assert!(args.is_empty());
    assert_eq!(
        ignored_command_warning(Some("/opt/agent"), &words(&["ls", "-la"])),
        Some("Profile specifies binary '/opt/agent'; ignoring trailing command 'ls -la'".to_string())
    );
    assert_eq!(ignored_command_warning(Some("/opt/agent"), &[]), None);
    assert_eq!(ignored_command_warning(None, &words(&["ls"])), None);
}

#[test]
fn trailing_command_splits_into_program_and_arguments() {
    let (program, args) = resolve_program_from_profile_or_cli(&words(&["git", "commit", "-m", "x y"]), None).unwrap();
    assert_eq!(program, "git");
    assert_eq!(args, words(&["commit", "-m", "x y"]));
    let (program, args) = resolve_program_from_profile_or_cli(&words(&["true"]), None).unwrap();
    assert_eq!(program, "true");
    assert!(args.is_empty());
}

#[test]
fn nothing_to_run_is_no_command() {
    assert_eq!(resolve_program_from_profile_or_cli(&[], None).unwrap_err(), NonoError::NoCommand);
}

#[test]
fn pack_references_split_at_the_first_slash() {
    assert_eq!(split_pack_ref("acme/tools"), Some(("acme".to_string(), "tools".to_string())));
    assert_eq!(split_pack_ref("acme/tools/extra"), Some(("acme".to_string(), "tools/extra".to_string())));
    assert_eq!(split_pack_ref("/x"), Some((String::new(), "x".to_string())));
    assert_eq!(split_pack_ref("acme"), None);
}

#[test]
fn wrap_refuses_proxy_mode() {
    assert!(check_wrap_network_mode(false, false).is_ok());
    let expected = NonoError::ConfigParse(
        "nono wrap does not support proxy mode (activated by profile network settings). Use `nono run` instead."
            .to_string(),
    );
    assert_eq!(check_wrap_network_mode(true, false).unwrap_err(), expected);
    assert_eq!(check_wrap_network_mode(false, true).unwrap_err(), expected);
}

#[test]
fn shell_choice_follows_platform_defaults() {
    assert_eq!(default_shell(true, Some("pwsh.exe"), None, None, true), "pwsh.exe");
    assert_eq!(
        default_shell(true, None, None, None, true),
        r"C:\Windows\System32\WindowsPowerShell\v1.0\powershell.exe"
    );
    assert_eq!(default_shell(true, None, Some(r"D:\Win\"), None, false), r"D:\Win\System32\cmd.exe");
    assert_eq!(windows_powershell_path(Some(r"E:\W")), r"E:\W\System32\WindowsPowerShell\v1.0\powershell.exe");
    assert_eq!(default_shell(false, None, None, Some("/bin/zsh"), false), "/bin/zsh");
    assert_eq!(default_shell(false, None, None, Some(""), false), "/bin/sh");
    assert_eq!(default_shell(false, None, None, None, false), "/bin/sh");
}
