use nono_cli::error::NonoError;
use nono_cli::hook_runtime_windows::{
    after_hook_env, before_hook_env, before_hook_exports, build_windows_hook_command,
    check_after_hook_outcome, check_before_hook_outcome, check_no_world_writable_acl,
    hook_output_from_wait, parse_env_file, validate_hook_script_windows, AceEntry, HookOutput,
};
use std::cell::RefCell;

fn canon_ok(p: &str) -> Result<String, String> {
    Ok(format!(r"\\?\{p}"))
}
fn file_yes(_p: &str) -> Result<bool, String> {
    Ok(true)
}
fn owned_yes(_p: &str) -> Result<bool, NonoError> {
    Ok(true)
}
fn acl_ok(_p: &str) -> Result<(), String> {
    Ok(())
}
fn parent_dir(p: &str) -> Option<String> {
    p.rfind('\\').map(|i| p[..i].to_string())
}

#[test]
fn test_validate_hook_script_windows_rejects_relative() {
    let result = validate_hook_script_windows(
        "relative/path/script.exe",
        false,
        |_p: &str| -> Result<String, String> { panic!("must not canonicalize a relative path") },
        file_yes,
        owned_yes,
        acl_ok,
        parent_dir,
    );
    assert!(result.is_err(), "Relative paths must be rejected");
    let err = result.unwrap_err();
    assert_eq!(
        err,
        NonoError::ConfigParse("Hook script path must be absolute: relative/path/script.exe".to_string())
    );
    assert!(err.detail().contains("absolute"), "Error must mention 'absolute': {err:?}");
}

#[test]
fn test_validate_hook_script_windows_rejects_non_file() {
    let result = validate_hook_script_windows(
        r"C:\tmp\dir",
        true,
        canon_ok,
        |_p: &str| -> Result<bool, String> { Ok(false) },
        owned_yes,
        acl_ok,
        parent_dir,
    );
    assert!(result.is_err(), "Directory paths must be rejected");
    let err = result.unwrap_err().detail();
    assert!(err.to_ascii_lowercase().contains("regular file"), "Error must mention 'regular file': {err}");
    assert_eq!(err, r"Hook script is not a regular file: \\?\C:\tmp\dir");
}

#[test]
fn test_validate_rejects_world_writable_parent() {
    let checked = RefCell::new(Vec::new());
    let result = validate_hook_script_windows(
        r"C:\tmp\hooks\hook.ps1",
        true,
        canon_ok,
        file_yes,
        owned_yes,
        |p: &str| -> Result<(), String> {
            checked.borrow_mut().push(p.to_string());
            if p.ends_with("hooks") {
                check_no_world_writable_acl(Ok(Some(vec![Some(AceEntry {
                    ace_type: 0,
                    mask: 0x0000_0002,
                    is_everyone: true,
                })])))
            } else {
                Ok(())
            }
        },
        parent_dir,
    );
    assert!(result.is_err(), "scripts in world-writable parent directories must be rejected");
    let err = result.unwrap_err().detail();
    assert!(
        err.to_ascii_lowercase().contains("world-writable") || err.to_ascii_lowercase().contains("everyone"),
        "Error must mention world-writable or Everyone: {err}"
    );
    assert_eq!(
        err,
        r"Hook script parent directory has world-writable ACL (D-10 security check): \\?\C:\tmp\hooks: Everyone (S-1-1-0) has write access (mask=0x00000002)"
    );
    assert_eq!(
        *checked.borrow(),
        vec![r"\\?\C:\tmp\hooks\hook.ps1".to_string(), r"\\?\C:\tmp\hooks".to_string()]
    );
}

#[test]
fn validation_accepts_a_sound_script_and_reports_each_failure() {
    assert_eq!(
        validate_hook_script_windows(r"C:\h\a.ps1", true, canon_ok, file_yes, owned_yes, acl_ok, parent_dir),
        Ok(r"\\?\C:\h\a.ps1".to_string())
    );
    assert_eq!(
        validate_hook_script_windows(
            r"C:\h\a.ps1",
            true,
            |_p: &str| -> Result<String, String> { Err("The system cannot find the file specified.".to_string()) },
            file_yes,
            owned_yes,
            acl_ok,
            parent_dir
        ),
        Err(NonoError::ConfigParse(
            r"Hook script not found: C:\h\a.ps1: The system cannot find the file specified.".to_string()
        ))
    );
    assert_eq!(
        validate_hook_script_windows(
            r"C:\h\a.ps1",
            true,
            canon_ok,
            file_yes,
            |_p: &str| -> Result<bool, NonoError> { Ok(false) },
            acl_ok,
            parent_dir
        ),
        Err(NonoError::ConfigParse(r"Hook script not owned by current user: \\?\C:\h\a.ps1".to_string()))
    );
    assert_eq!(
        validate_hook_script_windows(
            r"C:\h\a.ps1",
            true,
            canon_ok,
            file_yes,
            owned_yes,
            |p: &str| -> Result<(), String> {
                if p.ends_with(".ps1") {
                    check_no_world_writable_acl(Ok(None))
                } else {
                    Ok(())
                }
            },
            parent_dir
        ),
        Err(NonoError::ConfigParse(
            r"Hook script file has world-writable ACL (D-10 security check): \\?\C:\h\a.ps1: Path has a null DACL (all access allowed to everyone)"
                .to_string()
        ))
    );
}

#[test]
fn acl_verdicts() {
    assert_eq!(check_no_world_writable_acl(Ok(Some(vec![]))), Ok(()));
    assert_eq!(
        check_no_world_writable_acl(Err("GetNamedSecurityInfoW(DACL) failed: status=0x00000005".to_string())),
        Err("GetNamedSecurityInfoW(DACL) failed: status=0x00000005".to_string())
    );
    let aces = vec![
        None,
        Some(AceEntry { ace_type: 1, mask: 0x4000_0000, is_everyone: true }),
        Some(AceEntry { ace_type: 0, mask: 0x0010_0089, is_everyone: true }),
        Some(AceEntry { ace_type: 0, mask: 0x001F_01FF, is_everyone: false }),
        Some(AceEntry { ace_type: 0, mask: 0x4000_0000, is_everyone: true }),
        Some(AceEntry { ace_type: 0, mask: 0x0000_0002, is_everyone: true }),
    ];
    assert_eq!(
        check_no_world_writable_acl(Ok(Some(aces))),
        Err("Everyone (S-1-1-0) has write access (mask=0x40000000)".to_string())
    );
    let read_only = vec![Some(AceEntry { ace_type: 0, mask: 0x0010_00A9, is_everyone: true })];
    assert_eq!(check_no_world_writable_acl(Ok(Some(read_only))), Ok(()));
    let generic_read = vec![Some(AceEntry { ace_type: 0, mask: 0x0012_0089, is_everyone: true })];
    assert_eq!(check_no_world_writable_acl(Ok(Some(generic_read))), Ok(()));
    let write_owner = vec![Some(AceEntry { ace_type: 0, mask: 0x0008_0000, is_everyone: true })];
    assert_eq!(
        check_no_world_writable_acl(Ok(Some(write_owner))),
        Err("Everyone (S-1-1-0) has write access (mask=0x00080000)".to_string())
    );
    let delete = vec![Some(AceEntry { ace_type: 0, mask: 0x0001_0000, is_everyone: true })];
    assert!(check_no_world_writable_acl(Ok(Some(delete))).is_err());
}

#[test]
fn test_windows_dangerous_vars_filtered_from_env_file() {
    let content = "PATH=evil\\bin\nMY_VAR=safe_value\nCOMSPEC=evil.exe\nMY_OTHER_VAR=also_safe\n";
    let filtered = before_hook_exports(content);
    assert!(!filtered.iter().any(|(k, _)| k == "PATH"), "PATH must be filtered (D-09)");
    assert!(!filtered.iter().any(|(k, _)| k == "COMSPEC"), "COMSPEC must be filtered (D-09)");
    assert!(
        filtered.iter().any(|(k, v)| k == "MY_VAR" && v == "safe_value"),
        "MY_VAR must pass through"
    );
    assert!(
        filtered.iter().any(|(k, v)| k == "MY_OTHER_VAR" && v == "also_safe"),
        "MY_OTHER_VAR must pass through"
    );
}

#[test]
fn env_file_lines_are_trimmed_split_and_filtered() {
    let content = "  A = 1 \r\n# comment\n\nnoequals\n=novalue\nB==2\n  C=\n";
    assert_eq!(
        parse_env_file(content),
        vec![
            ("A".to_string(), "1".to_string()),
            ("B".to_string(), "=2".to_string()),
            ("C".to_string(), String::new()),
        ]
    );
    assert!(parse_env_file("").is_empty());
}

#[test]
fn interpreter_follows_the_extension() {
    let c = build_windows_hook_command(r"C:\hooks\Setup.PS1");
    assert_eq!(c.program, "powershell.exe");
    assert_eq!(c.args, vec!["-NoProfile", "-NonInteractive", "-File", r"C:\hooks\Setup.PS1"]);
    let c = build_windows_hook_command(r"C:\hooks\run.bat");
    assert_eq!(c.program, "cmd.exe");
    assert_eq!(c.args, vec!["/D", "/C", r"C:\hooks\run.bat"]);
    let c = build_windows_hook_command(r"C:\hooks\run.cmd");
    assert_eq!(c.program, "cmd.exe");
    let c = build_windows_hook_command(r"C:\hooks.ps1\tool.exe");
    assert_eq!(c.program, r"C:\hooks.ps1\tool.exe");
    assert!(c.args.is_empty());
    let c = build_windows_hook_command(r"C:\hooks\.ps1");
    assert_eq!(c.program, r"C:\hooks\.ps1");
}

#[test]
fn hook_outcomes_fail_closed() {
    let ok = HookOutput { exit_code: 0, timed_out: false };
    assert!(check_before_hook_outcome(ok, Some(5), r"C:\h\a.ps1").is_ok());
    assert_eq!(
        check_before_hook_outcome(HookOutput { exit_code: -1, timed_out: true }, Some(5), r"C:\h\a.ps1"),
        Err(NonoError::ConfigParse(r"Before-hook timed out after 5s (fail-closed): C:\h\a.ps1".to_string()))
    );
    assert_eq!(
        check_after_hook_outcome(HookOutput { exit_code: 3, timed_out: false }, None, "x"),
        Err(NonoError::ConfigParse("After-hook exited with code 3 (fail-closed): x".to_string()))
    );
    assert_eq!(
        check_after_hook_outcome(HookOutput { exit_code: -1, timed_out: true }, None, "x"),
        Err(NonoError::ConfigParse("After-hook timed out after 0s (fail-closed): x".to_string()))
    );
}

#[test]
fn waiting_results_map_to_outputs() {
    assert_eq!(hook_output_from_wait(Some(Ok(Some(2))), true), Ok(HookOutput { exit_code: 2, timed_out: false }));
    assert_eq!(hook_output_from_wait(Some(Ok(None)), false), Ok(HookOutput { exit_code: -1, timed_out: false }));
    assert_eq!(hook_output_from_wait(None, true), Ok(HookOutput { exit_code: -1, timed_out: true }));
    assert_eq!(
        hook_output_from_wait(None, false),
        Err(NonoError::CommandExecution("Hook channel closed unexpectedly".to_string()))
    );
    assert_eq!(
        hook_output_from_wait(Some(Err("broken pipe".to_string())), true),
        Err(NonoError::CommandExecution("broken pipe".to_string()))
    );
}

#[test]
fn hook_environments() {
    assert_eq!(
        before_hook_env("s1", r"C:\w", r"C:\s\env"),
        vec![
            ("NONO_SESSION_ID".to_string(), "s1".to_string()),
            ("NONO_WORKDIR".to_string(), r"C:\w".to_string()),
            ("NONO_HOOK_TYPE".to_string(), "before".to_string()),
            ("NONO_ENV_FILE".to_string(), r"C:\s\env".to_string()),
        ]
    );
    assert_eq!(after_hook_env("s1", r"C:\w", -3)[3], ("NONO_EXIT_CODE".to_string(), "-3".to_string()));
    assert_eq!(after_hook_env("s1", r"C:\w", 0)[2].1, "after");
}
