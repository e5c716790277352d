use nono_cli::attestation_downgrade_event::attestation_event_payload;
use nono_cli::error::NonoError;
use nono_cli::execution_runtime::{
    assemble_child_env, capability_pipe_file_name, check_proxy_only_has_proxy, check_secret_targets,
    effective_startup_timeout, generate_session_token, next_capability_state_file_name,
    session_token_from, capability_state_file_name_from,
};

fn pairs(ps: &[(&str, &str)]) -> Vec<(String, String)> {
    ps.iter().map(|(k, v)| (k.to_string(), v.to_string())).collect()
}

#[test]
fn secrets_may_not_target_dangerous_variables() {
    let keys: Vec<String> = vec!["API_KEY".into(), "LD_PRELOAD".into(), "PATH".into()];
    assert_eq!(
        check_secret_targets(&keys, false),
        Err(NonoError::ConfigParse(
            "secret mapping targets dangerous environment variable: LD_PRELOAD".to_string()
        ))
    );
    let keys: Vec<String> = vec!["API_KEY".into(), "GITHUB_TOKEN".into()];
    assert!(check_secret_targets(&keys, false).is_ok());
    assert!(check_secret_targets(&[], true).is_ok());
}

#[test]
fn proxy_only_needs_a_running_proxy() {
    assert_eq!(
        check_proxy_only_has_proxy(true, false),
        Err(NonoError::SandboxInit(
            "Cannot use proxy-only mode without a network profile or credential configuration.".to_string()
        ))
    );
    assert!(check_proxy_only_has_proxy(true, true).is_ok());
    assert!(check_proxy_only_has_proxy(false, false).is_ok());
}

#[test]
fn child_environment_puts_hook_exports_lowest() {
    let env = assemble_child_env(
        &pairs(&[("A", "hook"), ("B", "hook")]),
        &pairs(&[("A", "secret")]),
        &pairs(&[("HTTPS_PROXY", "http://127.0.0.1:9")]),
        Some(("tok", r"C:\t\nono-cap-s.pipe")),
    );
    assert_eq!(
        env,
        pairs(&[
            ("A", "hook"),
            ("B", "hook"),
            ("A", "secret"),
            ("HTTPS_PROXY", "http://127.0.0.1:9"),
            ("NONO_SESSION_TOKEN", "tok"),
            ("NONO_SUPERVISOR_PIPE", r"C:\t\nono-cap-s.pipe"),
        ])
    );
    assert!(assemble_child_env(&[], &[], &[], None).is_empty());
}

#[test]
fn generated_names_and_tokens() {
    let t = generate_session_token().unwrap();
    assert_eq!(t.len(), 64);
    assert!(t.chars().all(|c| c.is_ascii_hexdigit() && !c.is_ascii_uppercase()));
    assert_ne!(t, generate_session_token().unwrap());
    let f = next_capability_state_file_name().unwrap();
    assert!(f.starts_with(".nono-") && f.ends_with(".json"));
    assert_eq!(f.len(), ".nono-".len() + 16 + ".json".len());
    assert_eq!(capability_pipe_file_name("abc"), "nono-cap-abc.pipe");
}

#[test]
fn startup_timeout_requires_a_positive_value() {
    assert_eq!(effective_startup_timeout(Some(30)), Some(30));
    assert_eq!(effective_startup_timeout(Some(0)), None);
    assert_eq!(effective_startup_timeout(None), None);
}

#[test]
fn downgrade_payload_joins_layers_session_and_time() {
    assert_eq!(
        attestation_event_payload(&["AppContainerProfile", "WfpEgressFilters"], "sid-1", 1700000000123),
        "LayerAttestationDowngraded|AppContainerProfile,WfpEgressFilters|sid-1|1700000000123"
    );
    assert_eq!(attestation_event_payload(&[], "s", 0), "LayerAttestationDowngraded||s|0");
}

#[test]
fn names_and_tokens_from_drawn_bytes() {
    let token = session_token_from(Ok((0u8..32).collect())).unwrap();
    assert_eq!(token, "000102030405060708090a0b0c0d0e0f101112131415161718191a1b1c1d1e1f");
    match session_token_from(Err("no entropy".to_string())) {
        Err(NonoError::SandboxInit(m)) => assert_eq!(m, "Failed to generate session token: no entropy"),
        other => panic!("unexpected {other:?}"),
    }
    assert_eq!(
        capability_state_file_name_from(Ok(vec![0xde, 0xad, 0xbe, 0xef, 0, 1, 2, 255])).unwrap(),
        ".nono-deadbeef000102ff.json"
    );
    assert_eq!(capability_state_file_name_from(Err("gone".to_string())), Err("gone".to_string()));
}
