use nono_cli::error::NonoError;
use nono_cli::network::{
    WfpProbeConfig, WfpProbeStatus, WfpRuntimeActivationResponse, WfpRuntimeProbeOutput,
    WindowsWfpReport, WINDOWS_WFP_BACKEND_DRIVER, WINDOWS_WFP_BACKEND_SERVICE,
    WINDOWS_WFP_PLATFORM_SERVICE,
};
use nono_cli::network_policy::{
    build_firewall_block_rule_args, build_firewall_delete_rule_args,
    build_wfp_runtime_activation_request, build_wfp_runtime_cleanup_request,
    build_wfp_target_activation_request, cleanup_wfp_service_managed_enforcement_with_runner,
    describe_wfp_runtime_activation_failure, describe_windows_network_runtime_target,
    format_ports, install_wfp_network_backend_with_runner, prepare_network_enforcement,
    select_network_backend, sorted_union, unique_windows_firewall_rule_suffix, wfp_install_step, rule_suffix_from,
    WfpInstallAction, WfpInstallEvent,
    NetworkBackendChoice, NetworkEnforcementGuard, WfpRuntimeActivationRequest,
    WindowsNetworkBackendKind, WindowsNetworkPolicy, WindowsNetworkPolicyMode,
    WFP_RUNTIME_PROTOCOL_VERSION,
};
use std::cell::Cell;

type Result<T> = std::result::Result<T, NonoError>;

fn make_blocked_policy() -> WindowsNetworkPolicy {
    WindowsNetworkPolicy {
        mode: WindowsNetworkPolicyMode::Blocked,
        tcp_connect_ports: vec![],
        tcp_bind_ports: vec![],
        localhost_ports: vec![],
        unsupported: vec![],
        preferred_backend: WindowsNetworkBackendKind::Wfp,
        active_backend: WindowsNetworkBackendKind::Wfp,
    }
}

fn make_test_probe_config() -> WfpProbeConfig {
    WfpProbeConfig {
        platform_service: WINDOWS_WFP_PLATFORM_SERVICE.to_string(),
        backend_service: WINDOWS_WFP_BACKEND_SERVICE.to_string(),
        backend_driver: WINDOWS_WFP_BACKEND_DRIVER.to_string(),
        backend_binary_path: r"C:\tools\nono-wfp-service.exe".to_string(),
        backend_driver_binary_path: r"C:\tools\nono-wfp-driver.sys".to_string(),
        backend_service_args: vec!["--service".to_string()],
    }
}

fn reply(status: &str, details: &str) -> WfpRuntimeProbeOutput {
    WfpRuntimeProbeOutput {
        status_code: Some(0),
        response: WfpRuntimeActivationResponse {
            protocol_version: WFP_RUNTIME_PROTOCOL_VERSION,
            status: status.to_string(),
            details: details.to_string(),
        },
        stderr: String::new(),
    }
}

const PROGRAM: &str = r"C:\tools\agent.exe";
const PACKAGE_SID: &str = "S-1-15-2-1-2-3-4-5-6-7";

#[test]
fn install_wfp_network_backend_returns_guard_on_enforced_pending_cleanup() {
    let policy = make_blocked_policy();
    let probe_config = make_test_probe_config();
    let mock_probe = |_config: &WfpProbeConfig| -> Result<WfpProbeStatus> { Ok(WfpProbeStatus::Ready) };
    let mock_runner = |_config: &WfpProbeConfig,
                       _request: &WfpRuntimeActivationRequest|
     -> Result<WfpRuntimeProbeOutput> {
        Ok(reply("enforced-pending-cleanup", "WFP filters installed"))
    };
    let mock_start = |_cfg: &WfpProbeConfig| -> Result<WindowsWfpReport> {
        panic!("start_service_fn must not be called when probe returns Ready")
    };
    let result = install_wfp_network_backend_with_runner(
        &policy,
        PROGRAM,
        Some(PACKAGE_SID),
        &probe_config,
        mock_probe,
        mock_runner,
        mock_start,
    );
    assert!(result.is_ok(), "Expected Ok, got: {:?}", result);
    let guard = result.unwrap();
    assert!(guard.is_some(), "Expected Some(NetworkEnforcementGuard)");
    match guard.unwrap() {
        NetworkEnforcementGuard::WfpServiceManaged { target_program, inbound_rule, outbound_rule, .. } => {
            assert_eq!(target_program, PROGRAM);
            assert!(inbound_rule.starts_with("nono-wfp-block-in-"));
            assert!(outbound_rule.starts_with("nono-wfp-block-out-"));
            assert_eq!(inbound_rule.len(), "nono-wfp-block-in-".len() + 32);
        }
        other => panic!("Expected WfpServiceManaged, got: {:?}", other),
    }
}

#[test]
fn install_wfp_network_backend_returns_error_on_prerequisites_missing() {
    let policy = make_blocked_policy();
    let probe_config = make_test_probe_config();
    let mock_probe = |_config: &WfpProbeConfig| -> Result<WfpProbeStatus> { Ok(WfpProbeStatus::Ready) };
    let mock_runner = |_config: &WfpProbeConfig,
                       _request: &WfpRuntimeActivationRequest|
     -> Result<WfpRuntimeProbeOutput> { Ok(reply("prerequisites-missing", "Service not available")) };
    let mock_start = |_cfg: &WfpProbeConfig| -> Result<WindowsWfpReport> {
        panic!("start_service_fn must not be called when probe returns Ready")
    };
    let result = install_wfp_network_backend_with_runner(
        &policy,
        PROGRAM,
        Some(PACKAGE_SID),
        &probe_config,
        mock_probe,
        mock_runner,
        mock_start,
    );
    assert!(result.is_err());
    let err = result.unwrap_err();
    assert!(
        matches!(err, NonoError::UnsupportedPlatform(_)),
        "Expected UnsupportedPlatform, got: {:?}",
        err
    );
}

#[test]
fn build_wfp_target_activation_request_populates_session_sid() {
    let policy = make_blocked_policy();
    let request = build_wfp_target_activation_request(
        &policy,
        r"C:\tools\agent.exe",
        "nono-wfp-block-out-abc123",
        "nono-wfp-block-in-abc123",
        Some("S-1-15-2-1111111111-2222222222-3333333333-4444444444-5555555555-6666666666-7777777777"),
    );
    assert_eq!(
        request.session_sid.as_deref(),
        Some("S-1-15-2-1111111111-2222222222-3333333333-4444444444-5555555555-6666666666-7777777777")
    );
    assert_eq!(request.outbound_rule_name.as_deref(), Some("nono-wfp-block-out-abc123"));
    assert_eq!(request.inbound_rule_name.as_deref(), Some("nono-wfp-block-in-abc123"));
    assert_eq!(request.network_mode, "blocked");
    assert_eq!(request.request_kind, "activate_blocked_mode");
    assert_eq!(request.target_program_path.as_deref(), Some(r"C:\tools\agent.exe"));
}

#[test]
fn build_wfp_target_activation_request_leaves_session_sid_none_for_appid_fallback() {
    let policy = make_blocked_policy();
    let request = build_wfp_target_activation_request(
        &policy,
        r"C:\tools\agent.exe",
        "nono-wfp-block-out-abc123",
        "nono-wfp-block-in-abc123",
        None,
    );
    assert!(request.session_sid.is_none());
    assert_eq!(request.outbound_rule_name.as_deref(), Some("nono-wfp-block-out-abc123"));
    assert_eq!(request.inbound_rule_name.as_deref(), Some("nono-wfp-block-in-abc123"));
}

#[test]
fn test_wfp_autostart_on_stopped() {
    let policy = make_blocked_policy();
    let probe_config = make_test_probe_config();
    let call_count = Cell::new(0u32);
    let mock_probe = |_cfg: &WfpProbeConfig| -> Result<WfpProbeStatus> {
        let n = call_count.get();
        call_count.set(n + 1);
        if n == 0 {
            Ok(WfpProbeStatus::BackendServiceStopped)
        } else {
            Ok(WfpProbeStatus::Ready)
        }
    };
    let mock_start = |_cfg: &WfpProbeConfig| -> Result<WindowsWfpReport> {
        Ok(WindowsWfpReport { status_label: "running", details: "service started by mock".to_string() })
    };
    let mock_runner = |_cfg: &WfpProbeConfig,
                       _req: &WfpRuntimeActivationRequest|
     -> Result<WfpRuntimeProbeOutput> { Ok(reply("enforced-pending-cleanup", "WFP filters installed")) };
    let result = install_wfp_network_backend_with_runner(
        &policy,
        PROGRAM,
        Some(PACKAGE_SID),
        &probe_config,
        mock_probe,
        mock_runner,
        mock_start,
    );
    assert!(result.is_ok(), "Expected Ok after auto-start, got: {:?}", result);
    let guard = result.unwrap();
    assert!(guard.is_some(), "Expected Some(NetworkEnforcementGuard)");
    match guard.unwrap() {
        NetworkEnforcementGuard::WfpServiceManaged { .. } => {}
        other => panic!("Expected WfpServiceManaged, got: {:?}", other),
    }
    assert_eq!(call_count.get(), 2);
}

#[test]
fn test_wfp_autostart_fail_remediation_message() {
    let policy = make_blocked_policy();
    let probe_config = make_test_probe_config();
    let mock_probe = |_cfg: &WfpProbeConfig| -> Result<WfpProbeStatus> { Ok(WfpProbeStatus::BackendServiceStopped) };
    let mock_start = |_cfg: &WfpProbeConfig| -> Result<WindowsWfpReport> {
        Err(NonoError::Setup("elevation required".to_string()))
    };
    let mock_runner = |_cfg: &WfpProbeConfig,
                       _req: &WfpRuntimeActivationRequest|
     -> Result<WfpRuntimeProbeOutput> {
        panic!("run_probe should never be called when start_service_fn fails")
    };
    let result = install_wfp_network_backend_with_runner(
        &policy,
        PROGRAM,
        Some(PACKAGE_SID),
        &probe_config,
        mock_probe,
        mock_runner,
        mock_start,
    );
    assert!(result.is_err(), "Expected Err, got: {:?}", result);
    match &result.unwrap_err() {
        NonoError::UnsupportedPlatform(msg) => {
            assert!(msg.contains("nono-wfp-service"), "Expected service name in message, got: {msg}");
            assert!(
                msg.contains("nono setup --start-wfp-service"),
                "Expected remediation command in message, got: {msg}"
            );
            assert!(msg.contains("elevated"), "Expected 'elevated' in message, got: {msg}");
            assert_eq!(
                msg,
                "Windows WFP runtime activation is required for blocked Windows network access but the WFP service `nono-wfp-service` is not running and could not be started automatically (elevation is required). To start it, run this command once in an elevated (Administrator) terminal: `nono setup --start-wfp-service` (preferred backend: wfp, active backend: wfp). This request remains fail-closed."
            );
        }
        other => panic!("Expected UnsupportedPlatform, got: {:?}", other),
    }
}

#[test]
fn test_wfp_non_stopped_status_unchanged() {
    let policy = make_blocked_policy();
    let probe_config = make_test_probe_config();
    let mock_probe = |_cfg: &WfpProbeConfig| -> Result<WfpProbeStatus> { Ok(WfpProbeStatus::BackendServiceMissing) };
    let mock_start = |_cfg: &WfpProbeConfig| -> Result<WindowsWfpReport> {
        panic!("start_service_fn must NOT be called for BackendServiceMissing")
    };
    let mock_runner = |_cfg: &WfpProbeConfig,
                       _req: &WfpRuntimeActivationRequest|
     -> Result<WfpRuntimeProbeOutput> {
        panic!("run_probe should never be called when service is missing")
    };
    let result = install_wfp_network_backend_with_runner(
        &policy,
        PROGRAM,
        Some(PACKAGE_SID),
        &probe_config,
        mock_probe,
        mock_runner,
        mock_start,
    );
    assert!(result.is_err(), "Expected Err, got: {:?}", result);
    match &result.unwrap_err() {
        NonoError::UnsupportedPlatform(msg) => {
            assert!(
                !msg.contains("could not be started automatically"),
                "BackendServiceMissing must NOT route through auto-start path, got: {msg}"
            );
            assert_eq!(
                msg,
                "Windows WFP runtime activation is required for blocked Windows network access but the WFP service `nono-wfp-service` is not registered. Run `nono setup --install-wfp-service` first (preferred backend: wfp, active backend: wfp). This request remains fail-closed until WFP activation is implemented."
            );
        }
        other => panic!("Expected UnsupportedPlatform, got: {:?}", other),
    }
}

#[test]
fn install_is_a_noop_for_an_unrestricted_allow_all_policy() {
    let policy = WindowsNetworkPolicy {
        mode: WindowsNetworkPolicyMode::AllowAll,
        active_backend: WindowsNetworkBackendKind::NoBackend,
        ..make_blocked_policy()
    };
    let probe_config = make_test_probe_config();
    let result = install_wfp_network_backend_with_runner(
        &policy,
        PROGRAM,
        None,
        &probe_config,
        |_c: &WfpProbeConfig| -> Result<WfpProbeStatus> { panic!("no probe expected") },
        |_c: &WfpProbeConfig, _r: &WfpRuntimeActivationRequest| -> Result<WfpRuntimeProbeOutput> {
            panic!("no request expected")
        },
        |_c: &WfpProbeConfig| -> Result<WindowsWfpReport> { panic!("no start expected") },
    );
    assert!(matches!(result, Ok(None)));
}

#[test]
fn install_reports_probe_failures_and_unexpected_replies() {
    let policy = make_blocked_policy();
    let probe_config = make_test_probe_config();
    let result = install_wfp_network_backend_with_runner(
        &policy,
        PROGRAM,
        None,
        &probe_config,
        |_c: &WfpProbeConfig| -> Result<WfpProbeStatus> { Err(NonoError::Setup("sc failed".to_string())) },
        |_c: &WfpProbeConfig, _r: &WfpRuntimeActivationRequest| -> Result<WfpRuntimeProbeOutput> {
            panic!("no request expected")
        },
        |_c: &WfpProbeConfig| -> Result<WindowsWfpReport> { panic!("no start expected") },
    );
    assert_eq!(
        result.unwrap_err(),
        NonoError::SandboxInit(
            "Failed to probe Windows WFP backend status (preferred backend: wfp, active backend: wfp): sc failed"
                .to_string()
        )
    );
    for (status, expected) in [
        (
            "cleanup-succeeded",
            NonoError::SandboxInit(
                "Windows WFP activation returned cleanup success during install; this is an unexpected protocol state."
                    .to_string(),
            ),
        ),
        (
            "accepted-but-not-enforced",
            NonoError::UnsupportedPlatform(
                "Windows WFP network-policy activation was accepted by the service host but no filtering primitive was installed yet: d. This request remains fail-closed."
                    .to_string(),
            ),
        ),
        (
            "ready",
            NonoError::UnsupportedPlatform(
                "Windows WFP service returned 'ready' in response to an activation request for blocked Windows network access, which is an unexpected protocol state that violates the WFP IPC contract (preferred backend: wfp, active backend: wfp). This request remains fail-closed."
                    .to_string(),
            ),
        ),
    ] {
        let result = install_wfp_network_backend_with_runner(
            &policy,
            PROGRAM,
            None,
            &probe_config,
            |_c: &WfpProbeConfig| -> Result<WfpProbeStatus> { Ok(WfpProbeStatus::Ready) },
            |_c: &WfpProbeConfig, r: &WfpRuntimeActivationRequest| -> Result<WfpRuntimeProbeOutput> {
                assert_eq!(r.request_kind, "activate_blocked_mode");
                assert_eq!(r.target_program_path.as_deref(), Some(PROGRAM));
                assert!(r.session_sid.is_none());
                Ok(reply(status, "d"))
            },
            |_c: &WfpProbeConfig| -> Result<WindowsWfpReport> { panic!("no start expected") },
        );
        assert_eq!(result.unwrap_err(), expected);
    }
}

#[test]
fn runtime_target_lists_each_port_restriction() {
    let mut policy = make_blocked_policy();
    assert_eq!(describe_windows_network_runtime_target(&policy), "blocked Windows network access");
    policy.mode = WindowsNetworkPolicyMode::ProxyOnly { port: 8080, bind_ports: vec![3000, 80] };
    policy.tcp_connect_ports = vec![443];
    policy.localhost_ports = vec![5432, 6379];
    assert_eq!(
        describe_windows_network_runtime_target(&policy),
        "Windows proxy-only network access via localhost:8080 with bind ports [3000, 80] with connect ports [443], localhost ports [5432, 6379]"
    );
    assert_eq!(format_ports(&[]), "[]");
}

#[test]
fn proxy_only_request_merges_sorts_and_dedups_ports() {
    let policy = WindowsNetworkPolicy {
        mode: WindowsNetworkPolicyMode::ProxyOnly { port: 8080, bind_ports: vec![3000, 22, 3000] },
        tcp_connect_ports: vec![443, 80],
        tcp_bind_ports: vec![4000, 22],
        localhost_ports: vec![9000, 8080],
        unsupported: vec![],
        preferred_backend: WindowsNetworkBackendKind::Wfp,
        active_backend: WindowsNetworkBackendKind::NoBackend,
    };
    let request = build_wfp_runtime_activation_request(&policy);
    assert_eq!(request.protocol_version, WFP_RUNTIME_PROTOCOL_VERSION);
    assert_eq!(request.request_kind, "activate_proxy_mode");
    assert_eq!(request.network_mode, "proxy-only");
    assert_eq!(request.preferred_backend, "wfp");
    assert_eq!(request.active_backend, "none");
    assert_eq!(request.tcp_connect_ports, vec![443, 80]);
    assert_eq!(request.tcp_bind_ports, vec![22, 3000, 4000]);
    assert_eq!(request.localhost_ports, vec![8080, 9000]);
    assert!(request.target_program_path.is_none());
    assert_eq!(sorted_union(&[5, 1, 5], &[3, 1]), vec![1, 3, 5]);
}

#[test]
fn blocked_request_keeps_ports_as_given() {
    let mut policy = make_blocked_policy();
    policy.tcp_bind_ports = vec![9, 1, 9];
    let request = build_wfp_runtime_activation_request(&policy);
    assert_eq!(request.tcp_bind_ports, vec![9, 1, 9]);
    assert_eq!(request.runtime_target, "blocked Windows network access with bind ports [9, 1, 9]");
}

#[test]
fn cleanup_request_names_the_target() {
    let policy = make_blocked_policy();
    let request = build_wfp_runtime_cleanup_request(&policy, PROGRAM, "in-rule", "out-rule");
    assert_eq!(request.request_kind, "deactivate_policy_mode");
    assert_eq!(request.runtime_target, r"blocked Windows network access for C:\tools\agent.exe");
    assert_eq!(request.inbound_rule_name.as_deref(), Some("in-rule"));
    assert_eq!(request.outbound_rule_name.as_deref(), Some("out-rule"));
}

#[test]
fn cleanup_succeeds_only_on_cleanup_reply() {
    let policy = make_blocked_policy();
    let cfg = make_test_probe_config();
    let ok = cleanup_wfp_service_managed_enforcement_with_runner(&policy, &cfg, PROGRAM, "i", "o", |_c, r| {
        assert_eq!(r.request_kind, "deactivate_policy_mode");
        Ok(reply("cleanup-succeeded", ""))
    });
    assert!(ok.is_ok());
    let bad = cleanup_wfp_service_managed_enforcement_with_runner(&policy, &cfg, PROGRAM, "i", "o", |_c, _r| {
        Ok(reply("enforced-pending-cleanup", "x"))
    });
    assert_eq!(
        bad.unwrap_err(),
        NonoError::SandboxInit(
            "Windows WFP cleanup returned an unexpected network-policy state: WfpRuntimeActivationResponse { protocol_version: 1, status: \"enforced-pending-cleanup\", details: \"x\" }"
                .to_string()
        )
    );
    let failed = cleanup_wfp_service_managed_enforcement_with_runner(&policy, &cfg, PROGRAM, "i", "o", |_c, _r| {
        Err(NonoError::Setup("pipe".to_string()))
    });
    assert_eq!(failed.unwrap_err(), NonoError::Setup("pipe".to_string()));
}

#[test]
fn backend_selection_follows_mode_and_backends() {
    let mut policy = make_blocked_policy();
    assert_eq!(select_network_backend(&policy).unwrap(), Some(NetworkBackendChoice::Wfp));
    policy.active_backend = WindowsNetworkBackendKind::FirewallRules;
    assert_eq!(select_network_backend(&policy).unwrap(), Some(NetworkBackendChoice::FirewallRules));
    policy.active_backend = WindowsNetworkBackendKind::NoBackend;
    assert_eq!(select_network_backend(&policy).unwrap(), Some(NetworkBackendChoice::Wfp));
    policy.preferred_backend = WindowsNetworkBackendKind::FirewallRules;
    assert_eq!(
        select_network_backend(&policy).unwrap_err(),
        NonoError::UnsupportedPlatform(
            "Windows network enforcement does not have an applicable active backend for this policy (preferred backend: firewall-rules, active backend: none, active backend: none)."
                .to_string()
        )
    );
    policy.mode = WindowsNetworkPolicyMode::AllowAll;
    assert_eq!(select_network_backend(&policy).unwrap(), None);
    policy.tcp_connect_ports = vec![443];
    assert_eq!(select_network_backend(&policy).unwrap(), Some(NetworkBackendChoice::Wfp));
    assert_eq!(NetworkBackendChoice::Wfp.label(), "windows-filtering-platform");
    assert_eq!(NetworkBackendChoice::FirewallRules.label(), "windows-firewall-rules");
}

#[test]
fn enforcement_refuses_unenforceable_capabilities() {
    let mut policy = make_blocked_policy();
    policy.unsupported = vec!["unix sockets".to_string(), "raw sockets".to_string()];
    assert_eq!(
        prepare_network_enforcement(&policy).unwrap_err(),
        NonoError::UnsupportedPlatform(
            "Windows network enforcement does not support this capability set yet (unix sockets, raw sockets, preferred backend: wfp, active backend: wfp)."
                .to_string()
        )
    );
    policy.unsupported.clear();
    assert_eq!(prepare_network_enforcement(&policy).unwrap(), Some(NetworkBackendChoice::Wfp));
}

#[test]
fn activation_failure_names_each_missing_component() {
    let policy = make_blocked_policy();
    let cfg = make_test_probe_config();
    assert_eq!(
        describe_wfp_runtime_activation_failure(&policy, &cfg, WfpProbeStatus::BackendDriverStopped),
        "Windows WFP runtime activation is required for blocked Windows network access but the WFP driver `nono-wfp-driver` is registered but not running. Run `nono setup --start-wfp-driver` first (preferred backend: wfp, active backend: wfp). This request remains fail-closed until WFP activation is implemented."
    );
    assert!(describe_wfp_runtime_activation_failure(&policy, &cfg, WfpProbeStatus::BackendBinaryMissing)
        .contains(r"the WFP service binary `C:\tools\nono-wfp-service.exe` is missing"));
}

#[test]
fn firewall_rule_arguments_and_suffixes() {
    assert_eq!(
        build_firewall_block_rule_args("nono-win-block-out-ab", "out", r"C:\s\agent.exe"),
        vec![
            "advfirewall",
            "firewall",
            "add",
            "rule",
            "name=nono-win-block-out-ab",
            "dir=out",
            "action=block",
            r"program=C:\s\agent.exe",
            "enable=yes",
            "profile=any",
        ]
    );
    assert_eq!(
        build_firewall_delete_rule_args("r1"),
        vec!["advfirewall", "firewall", "delete", "rule", "name=r1"]
    );
    let a = unique_windows_firewall_rule_suffix().unwrap();
    let b = unique_windows_firewall_rule_suffix().unwrap();
    assert_eq!(a.len(), 32);
    assert!(a.chars().all(|c| c.is_ascii_hexdigit() && !c.is_ascii_uppercase()));
    assert_ne!(a, b);
}

#[test]
fn wfp_install_steps_follow_the_probe_answers() {
    let cfg = make_test_probe_config();
    let blocked = make_blocked_policy();
    let mut allow_all = make_blocked_policy();
    allow_all.mode = WindowsNetworkPolicyMode::AllowAll;
    assert!(matches!(wfp_install_step(&allow_all, &cfg, &[]), WfpInstallAction::NoEnforcement));
    assert!(matches!(
        wfp_install_step(&allow_all, &cfg, &[WfpInstallEvent::Probed(Ok(WfpProbeStatus::BackendServiceStopped))]),
        WfpInstallAction::NoEnforcement
    ));
    assert!(matches!(wfp_install_step(&blocked, &cfg, &[]), WfpInstallAction::Probe));
    assert!(matches!(
        wfp_install_step(&blocked, &cfg, &[WfpInstallEvent::Probed(Ok(WfpProbeStatus::Ready))]),
        WfpInstallAction::Activate(WfpProbeStatus::Ready)
    ));
    assert!(matches!(
        wfp_install_step(&blocked, &cfg, &[WfpInstallEvent::Probed(Ok(WfpProbeStatus::BackendServiceStopped))]),
        WfpInstallAction::StartService
    ));
    let refused = wfp_install_step(
        &blocked,
        &cfg,
        &[WfpInstallEvent::Probed(Ok(WfpProbeStatus::BackendServiceStopped)), WfpInstallEvent::Started(false)],
    );
    match refused {
        WfpInstallAction::Refuse(NonoError::UnsupportedPlatform(m)) => {
            assert!(m.contains("nono setup --start-wfp-service"));
        }
        other => panic!("unexpected step: {:?}", other),
    }
    assert!(matches!(
        wfp_install_step(
            &blocked,
            &cfg,
            &[WfpInstallEvent::Probed(Ok(WfpProbeStatus::BackendServiceStopped)), WfpInstallEvent::Started(true)],
        ),
        WfpInstallAction::Probe
    ));
    assert!(matches!(
        wfp_install_step(
            &blocked,
            &cfg,
            &[
                WfpInstallEvent::Probed(Ok(WfpProbeStatus::BackendServiceStopped)),
                WfpInstallEvent::Started(true),
                WfpInstallEvent::Probed(Ok(WfpProbeStatus::Ready)),
            ],
        ),
        WfpInstallAction::Activate(WfpProbeStatus::Ready)
    ));
    assert!(matches!(
        wfp_install_step(
            &blocked,
            &cfg,
            &[WfpInstallEvent::Probed(Ok(WfpProbeStatus::Ready)), WfpInstallEvent::Started(true)],
        ),
        WfpInstallAction::Invalid
    ));
    match wfp_install_step(
        &blocked,
        &cfg,
        &[WfpInstallEvent::Probed(Err(NonoError::SandboxInit("boom".to_string())))],
    ) {
        WfpInstallAction::Refuse(NonoError::SandboxInit(m)) => {
            assert!(m.starts_with("Failed to probe Windows WFP backend status ("));
            assert!(m.ends_with("): boom"));
        }
        other => panic!("unexpected step: {:?}", other),
    }
}

#[test]
fn rule_suffix_from_drawn_bytes() {
    assert_eq!(rule_suffix_from(Ok(vec![0xab; 16])).unwrap(), "ab".repeat(16));
    assert_eq!(rule_suffix_from(Err("gone".to_string())), Err("gone".to_string()));
}
