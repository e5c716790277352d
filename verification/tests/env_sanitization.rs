use nono_cli::env_sanitization::{
    env_key_matches, is_dangerous_env_var, is_env_var_allowed, is_env_var_denied,
    is_valid_env_var_name, matches_env_var_patterns, should_skip_env_var,
    validate_env_var_patterns, validate_set_var_keys, validate_set_vars,
};
use std::collections::HashMap;

const UNIX: bool = false;
const WINDOWS: bool = true;

#[test]
fn test_blocks_op_service_account_token() {
    assert!(is_dangerous_env_var("OP_SERVICE_ACCOUNT_TOKEN", UNIX));
}

#[test]
fn test_blocks_op_connect_token() {
    assert!(is_dangerous_env_var("OP_CONNECT_TOKEN", UNIX));
}

#[test]
fn test_blocks_op_connect_host() {
    assert!(is_dangerous_env_var("OP_CONNECT_HOST", UNIX));
}

#[test]
fn test_blocks_op_session_prefix() {
    assert!(is_dangerous_env_var("OP_SESSION_my_team", UNIX));
    assert!(is_dangerous_env_var("OP_SESSION_personal", UNIX));
    assert!(is_dangerous_env_var("OP_SESSION_", UNIX));
}

#[test]
fn test_allows_unrelated_env_vars() {
    assert!(!is_dangerous_env_var("OPENAI_API_KEY", UNIX));
    assert!(!is_dangerous_env_var("OPERATOR_TOKEN", UNIX));
    assert!(!is_dangerous_env_var("OPTIONS", UNIX));
    assert!(!is_dangerous_env_var("HOME", UNIX));
    assert!(!is_dangerous_env_var("PATH", UNIX));
}

#[test]
fn test_blocks_aws_access_key_id() {
    assert!(is_dangerous_env_var("AWS_ACCESS_KEY_ID", UNIX));
}

#[test]
fn test_blocks_aws_secret_access_key() {
    assert!(is_dangerous_env_var("AWS_SECRET_ACCESS_KEY", UNIX));
}

#[test]
fn test_blocks_aws_session_token() {
    assert!(is_dangerous_env_var("AWS_SESSION_TOKEN", UNIX));
}

#[test]
fn test_blocks_aws_region() {
    assert!(is_dangerous_env_var("AWS_REGION", UNIX));
}

#[test]
fn test_blocks_aws_prefix_arbitrary_suffix() {
    assert!(is_dangerous_env_var("AWS_DEFAULT_REGION", UNIX));
    assert!(is_dangerous_env_var("AWS_PROFILE", UNIX));
    assert!(is_dangerous_env_var("AWS_ROLE_ARN", UNIX));
    assert!(is_dangerous_env_var("AWS_WEB_IDENTITY_TOKEN_FILE", UNIX));
    assert!(is_dangerous_env_var("AWS_", UNIX));
}

#[test]
fn test_allows_non_aws_unrelated_var() {
    assert!(!is_dangerous_env_var("HOME", UNIX));
    assert!(!is_dangerous_env_var("USER", UNIX));
    assert!(!is_dangerous_env_var("LANG", UNIX));
}

#[test]
fn test_blocks_linker_injection() {
    assert!(is_dangerous_env_var("LD_PRELOAD", UNIX));
    assert!(is_dangerous_env_var("DYLD_INSERT_LIBRARIES", UNIX));
}

#[test]
fn test_blocks_interpreter_injection() {
    assert!(is_dangerous_env_var("NODE_OPTIONS", UNIX));
    assert!(is_dangerous_env_var("PYTHONPATH", UNIX));
    assert!(is_dangerous_env_var("RUBYOPT", UNIX));
}

#[test]
fn test_should_skip_env_var_matches_windows_keys_case_insensitively() {
    assert!(should_skip_env_var(
        "ProgramData",
        &[("PROGRAMDATA", r"C:\sandbox\programdata")],
        &[],
        WINDOWS
    ));
    assert!(should_skip_env_var("Path", &[], &["PATH"], WINDOWS));
}

#[test]
fn test_windows_dangerous_vars_blocked() {
    assert!(is_dangerous_env_var("PATH", WINDOWS));
    assert!(is_dangerous_env_var("Path", WINDOWS));
    assert!(is_dangerous_env_var("PATHEXT", WINDOWS));
    assert!(is_dangerous_env_var("COMSPEC", WINDOWS));
    assert!(is_dangerous_env_var("PSModulePath", WINDOWS));
    assert!(is_dangerous_env_var("PSModuleAnalysisCachePath", WINDOWS));
    assert!(is_dangerous_env_var("__PSLockdownPolicy", WINDOWS));
    assert!(is_dangerous_env_var("SystemRoot", WINDOWS));
    assert!(is_dangerous_env_var("windir", WINDOWS));
    assert!(is_dangerous_env_var("TEMP", WINDOWS));
    assert!(is_dangerous_env_var("TMP", WINDOWS));
}

#[test]
fn test_env_var_allowed_exact_match() {
    let allowed: Vec<String> = vec!["PATH".into(), "HOME".into()];
    assert!(is_env_var_allowed("PATH", &allowed));
    assert!(is_env_var_allowed("HOME", &allowed));
}

#[test]
fn test_env_var_allowed_exact_no_match() {
    let allowed: Vec<String> = vec!["PATH".into(), "HOME".into()];
    assert!(!is_env_var_allowed("SECRET", &allowed));
}

#[test]
fn test_env_var_allowed_prefix_match() {
    let allowed: Vec<String> = vec!["AWS_*".into()];
    assert!(is_env_var_allowed("AWS_REGION", &allowed));
    assert!(is_env_var_allowed("AWS_SECRET_ACCESS_KEY", &allowed));
}

#[test]
fn test_env_var_allowed_prefix_no_match() {
    let allowed: Vec<String> = vec!["AWS_*".into()];
    assert!(!is_env_var_allowed("GCP_REGION", &allowed));
}

#[test]
fn test_env_var_allowed_empty_list() {
    let allowed: Vec<String> = vec![];
    assert!(!is_env_var_allowed("PATH", &allowed));
}

#[test]
fn test_env_var_allowed_bare_star() {
    let allowed: Vec<String> = vec!["*".into()];
    assert!(is_env_var_allowed("ANYTHING", &allowed));
    assert!(is_env_var_allowed("PATH", &allowed));
}

#[test]
fn test_env_var_allowed_prefix_does_not_match_partial() {
    let allowed: Vec<String> = vec!["AWS_*".into()];
    assert!(!is_env_var_allowed("AWS", &allowed));
}

#[test]
fn test_env_var_allowed_prefix_matches_empty_suffix() {
    let allowed: Vec<String> = vec!["AWS_*".into()];
    assert!(is_env_var_allowed("AWS_", &allowed));
}

#[test]
fn test_env_var_allowed_mixed_patterns() {
    let allowed: Vec<String> = vec!["PATH".into(), "AWS_*".into()];
    assert!(is_env_var_allowed("PATH", &allowed));
    assert!(is_env_var_allowed("AWS_REGION", &allowed));
    assert!(!is_env_var_allowed("HOME", &allowed));
}

#[test]
fn test_env_var_allowed_mid_star_ignored() {
    let allowed: Vec<String> = vec!["A*B".into()];
    assert!(!is_env_var_allowed("AXB", &allowed));
    assert!(!is_env_var_allowed("A*B", &allowed));
}

#[test]
fn test_validate_valid_patterns() {
    let patterns: Vec<String> = vec!["PATH".into(), "AWS_*".into(), "*".into()];
    assert!(validate_env_var_patterns(&patterns, "allow_vars").is_none());
}

#[test]
fn test_validate_rejects_mid_star() {
    let patterns: Vec<String> = vec!["A*B".into()];
    let err = validate_env_var_patterns(&patterns, "allow_vars");
    assert!(err.is_some());
    assert!(err.as_ref().is_some_and(|e| e.contains("A*B")));
}

#[test]
fn test_validate_rejects_leading_star_with_suffix() {
    let patterns: Vec<String> = vec!["*X".into()];
    let err = validate_env_var_patterns(&patterns, "allow_vars");
    assert!(err.is_some());
    assert!(err.as_ref().is_some_and(|e| e.contains("*X")));
}

#[test]
fn test_validate_accepts_bare_star() {
    let patterns: Vec<String> = vec!["*".into()];
    assert!(validate_env_var_patterns(&patterns, "allow_vars").is_none());
}

#[test]
fn test_validate_exact_name_no_star() {
    let patterns: Vec<String> = vec!["PATH".into()];
    assert!(validate_env_var_patterns(&patterns, "allow_vars").is_none());
}

#[test]
fn test_validate_deny_vars_field_name_in_error() {
    let patterns: Vec<String> = vec!["A*B".into()];
    let err = validate_env_var_patterns(&patterns, "deny_vars");
    assert!(err.as_ref().is_some_and(|e| e.contains("deny_vars")));
    assert!(err.as_ref().is_some_and(|e| e.contains("A*B")));
}

#[test]
fn test_env_var_denied_exact_match() {
    let denied: Vec<String> = vec!["GH_TOKEN".into(), "ANTHROPIC_API_KEY".into()];
    assert!(is_env_var_denied("GH_TOKEN", &denied));
    assert!(is_env_var_denied("ANTHROPIC_API_KEY", &denied));
}

#[test]
fn test_env_var_denied_prefix_match() {
    let denied: Vec<String> = vec!["GITHUB_*".into()];
    assert!(is_env_var_denied("GITHUB_TOKEN", &denied));
    assert!(is_env_var_denied("GITHUB_ACTIONS", &denied));
    assert!(!is_env_var_denied("GH_TOKEN", &denied));
}

#[test]
fn test_env_var_denied_no_match() {
    let denied: Vec<String> = vec!["GH_TOKEN".into()];
    assert!(!is_env_var_denied("PATH", &denied));
    assert!(!is_env_var_denied("HOME", &denied));
}

#[test]
fn test_env_var_denied_empty_list() {
    let denied: Vec<String> = vec![];
    assert!(!is_env_var_denied("GH_TOKEN", &denied));
}

#[test]
fn test_env_var_denied_overrides_allowed() {
    let denied: Vec<String> = vec!["GH_TOKEN".into()];
    let allowed: Vec<String> = vec!["GH_TOKEN".into()];
    assert!(is_env_var_denied("GH_TOKEN", &denied));
    assert!(is_env_var_allowed("GH_TOKEN", &allowed));
}

fn set_vars_from(pairs: &[(&str, &str)]) -> HashMap<String, String> {
    pairs
        .iter()
        .map(|(k, v)| ((*k).to_string(), (*v).to_string()))
        .collect()
}

#[test]
fn test_set_vars_accepts_normal_keys() {
    let set_vars = set_vars_from(&[("RUST_LOG", "debug"), ("MY_VAR", "value")]);
    assert_eq!(validate_set_vars(&set_vars), None);
}

#[test]
fn test_set_vars_accepts_dangerous_keys() {
    let set_vars = set_vars_from(&[("LD_PRELOAD", "/tmp/x.so")]);
    assert_eq!(validate_set_vars(&set_vars), None);
    let set_vars = set_vars_from(&[("NODE_OPTIONS", "--max-old-space-size=4096")]);
    assert_eq!(validate_set_vars(&set_vars), None);
    let set_vars = set_vars_from(&[("DYLD_INSERT_LIBRARIES", "/tmp/x.dylib")]);
    assert_eq!(validate_set_vars(&set_vars), None);
}

#[test]
fn test_set_vars_rejects_path() {
    let set_vars = set_vars_from(&[("PATH", "/usr/bin")]);
    assert!(validate_set_vars(&set_vars).is_some());
}

#[test]
fn test_set_vars_rejects_nono_prefix() {
    let set_vars = set_vars_from(&[("NONO_FOO", "bar")]);
    assert!(validate_set_vars(&set_vars).is_some());
    let set_vars = set_vars_from(&[("NONO_CAP_FILE", "/tmp/cap")]);
    assert!(validate_set_vars(&set_vars).is_some());
}

#[test]
fn test_set_vars_rejects_invalid_names() {
    assert!(validate_set_vars(&set_vars_from(&[("", "v")])).is_some());
    assert!(validate_set_vars(&set_vars_from(&[("1FOO", "v")])).is_some());
    assert!(validate_set_vars(&set_vars_from(&[("A=B", "v")])).is_some());
    assert!(validate_set_vars(&set_vars_from(&[("MY-VAR", "v")])).is_some());
}

#[test]
fn test_set_vars_empty_is_ok() {
    let set_vars: HashMap<String, String> = HashMap::new();
    assert_eq!(validate_set_vars(&set_vars), None);
}

// ---- further cases -------------------------------------------------------

#[test]
fn windows_only_names_are_not_dangerous_on_unix() {
    for name in ["PATHEXT", "COMSPEC", "SystemRoot", "windir", "TEMP", "TMP"] {
        assert!(!is_dangerous_env_var(name, UNIX), "{name}");
    }
    assert!(is_dangerous_env_var("tmp", WINDOWS));
    assert!(!is_dangerous_env_var("TMPDIR", WINDOWS));
}

#[test]
fn dangerous_names_are_case_sensitive_outside_the_windows_set() {
    assert!(!is_dangerous_env_var("ld_preload", UNIX));
    assert!(!is_dangerous_env_var("ld_preload", WINDOWS));
    assert!(is_dangerous_env_var("BASH_FUNC_x%%", UNIX));
    assert!(!is_dangerous_env_var("BASH_ENVX", UNIX));
}

#[test]
fn env_key_matching_depends_on_platform() {
    assert!(env_key_matches("Path", "PATH", WINDOWS));
    assert!(!env_key_matches("Path", "PATH", UNIX));
    assert!(env_key_matches("PATH", "PATH", UNIX));
}

#[test]
fn skip_covers_config_blocked_and_dangerous() {
    assert!(should_skip_env_var("FOO", &[("FOO", "1")], &[], UNIX));
    assert!(!should_skip_env_var("foo", &[("FOO", "1")], &[], UNIX));
    assert!(should_skip_env_var("BAR", &[], &["BAR"], UNIX));
    assert!(should_skip_env_var("LD_PRELOAD", &[], &[], UNIX));
    assert!(!should_skip_env_var("HOME", &[], &[], UNIX));
}

#[test]
fn star_only_as_trailing_suffix_in_matching() {
    let patterns: Vec<String> = vec!["*X".into(), "A**".into()];
    assert!(!matches_env_var_patterns("AX", &patterns));
    assert!(!matches_env_var_patterns("A*", &patterns));
    assert!(!matches_env_var_patterns("A**", &patterns));
}

#[test]
fn validation_reports_the_first_invalid_pattern_with_exact_text() {
    let patterns: Vec<String> = vec!["OK".into(), "*X".into(), "A*B".into()];
    assert_eq!(
        validate_env_var_patterns(&patterns, "allow_vars"),
        Some(
            "Invalid allow_vars pattern '*X': '*' is only valid as a trailing suffix"
                .to_string()
        )
    );
    let patterns: Vec<String> = vec!["A*B".into()];
    assert_eq!(
        validate_env_var_patterns(&patterns, "deny_vars"),
        Some("Invalid deny_vars pattern 'A*B': '*' is only valid as a trailing suffix".to_string())
    );
    let patterns: Vec<String> = vec!["PATH".into(), "AWS_*".into(), "*".into(), "A**".into()];
    assert_eq!(
        validate_env_var_patterns(&patterns, "allow_vars"),
        Some("Invalid allow_vars pattern 'A**': '*' is only valid as a trailing suffix".to_string())
    );
    let patterns: Vec<String> = vec!["PATH".into(), "AWS_*".into(), "*".into()];
    assert_eq!(validate_env_var_patterns(&patterns, "allow_vars"), None);
    let patterns: Vec<String> = vec!["*".into(), "*AWS*".into()];
    assert_eq!(
        validate_env_var_patterns(&patterns, "allow_vars"),
        Some(
            "Invalid allow_vars pattern '*AWS*': use a bare '*' to match all variables, or a specific prefix like 'AWS_*'"
                .to_string()
        )
    );
}

#[test]
fn set_var_key_messages_are_exact_and_ordered() {
    let keys: Vec<String> = vec!["GOOD".into(), "NONO_X".into(), "PATH".into()];
    assert_eq!(
        validate_set_var_keys(&keys),
        Some("Invalid set_vars key 'NONO_X': the NONO_* prefix is reserved".to_string())
    );
    let keys: Vec<String> = vec!["PATH".into()];
    assert_eq!(
        validate_set_var_keys(&keys),
        Some(
            "Invalid set_vars key 'PATH': PATH is reserved; use allow_vars/deny_vars to control it"
                .to_string()
        )
    );
    let keys: Vec<String> = vec!["9X".into()];
    assert_eq!(
        validate_set_var_keys(&keys),
        Some(
            "Invalid set_vars key '9X': environment variable names must match [A-Za-z_][A-Za-z0-9_]*"
                .to_string()
        )
    );
}

#[test]
fn env_var_names() {
    assert!(is_valid_env_var_name("_a1"));
    assert!(is_valid_env_var_name("Z"));
    assert!(!is_valid_env_var_name(""));
    assert!(!is_valid_env_var_name("é"));
    assert!(!is_valid_env_var_name("A B"));
}
