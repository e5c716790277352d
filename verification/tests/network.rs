use nono_cli::error::NonoError;
use nono_cli::network::{
    build_wfp_driver_create_args, build_wfp_driver_delete_args, build_wfp_driver_stop_args,
    build_wfp_probe_status, build_wfp_service_create_args, build_wfp_service_delete_args,
    build_wfp_service_stop_args, classify_netsh_firewall_failure, describe_wfp_driver_status_for_setup,
    describe_wfp_next_action_for_setup, describe_wfp_probe_status_for_setup,
    describe_wfp_readiness, describe_wfp_service_status_for_setup, format_wfp_service_command,
    install_windows_wfp_driver_with_runner, install_windows_wfp_service_with_runner,
    parse_wfp_runtime_probe_status, parse_windows_service_state, probe_wfp_backend_status_with_config,
    sc_create_conflict_is_registered, start_windows_wfp_driver_with_runner,
    start_windows_wfp_service_with_runner, uninstall_windows_wfp_with_runner, WfpProbeConfig,
    WfpProbeStatus, WfpRuntimeActivationProbeStatus, WfpRuntimeActivationResponse,
    WfpRuntimeProbeOutput, WindowsServiceState, WINDOWS_WFP_BACKEND_DRIVER,
    WINDOWS_WFP_BACKEND_SERVICE, WINDOWS_WFP_PLATFORM_SERVICE, install_step, remove_step, InstallTexts,
    ScAnswer, ScStep, uninstall_step, UninstallEvent, UninstallStep,
};
use std::cell::RefCell;

type Result<T> = std::result::Result<T, NonoError>;

fn make_test_probe_config() -> WfpProbeConfig {
    WfpProbeConfig {
        platform_service: WINDOWS_WFP_PLATFORM_SERVICE.to_string(),
        backend_service: WINDOWS_WFP_BACKEND_SERVICE.to_string(),
        backend_driver: WINDOWS_WFP_BACKEND_DRIVER.to_string(),
        backend_binary_path: r"C:\tools\nono-wfp-service.exe".to_string(),
        backend_driver_binary_path: r"C:\tools\nono-wfp-driver.sys".to_string(),
        backend_service_args: vec!["--service".to_string()],
    }
}

fn sc_missing_output() -> String {
    "[SC] EnumQueryServicesStatus:OpenService FAILED 1060: The specified service does not exist as an installed service.".to_string()
}
fn sc_running_output() -> String {
    "SERVICE_NAME: x\n        STATE              : 4  RUNNING".to_string()
}
fn sc_stopped_output() -> String {
    "SERVICE_NAME: x\n        STATE              : 1  STOPPED".to_string()
}

#[test]
fn uninstall_stops_and_deletes_both_running_services() {
    let config = make_test_probe_config();
    let deleted: RefCell<Vec<String>> = RefCell::new(Vec::new());
    let calls: RefCell<Vec<Vec<String>>> = RefCell::new(Vec::new());
    let query = |service: &str| -> Result<String> {
        if deleted.borrow().iter().any(|s| s == service) {
            Ok(sc_missing_output())
        } else {
            Ok(sc_running_output())
        }
    };
    let run = |args: &[String]| -> Result<String> {
        calls.borrow_mut().push(args.to_vec());
        if args.first().map(String::as_str) == Some("delete") {
            if let Some(name) = args.get(1) {
                deleted.borrow_mut().push(name.clone());
            }
        }
        Ok(String::new())
    };
    let purge = |_p: &str| -> Result<String> { Ok("purged".into()) };
    let report = uninstall_windows_wfp_with_runner(&config, query, run, purge).unwrap();
    assert_eq!(report.status_label, "removed");
    assert!(report.details.contains("wfp objects purged"));
    let calls = calls.into_inner();
    assert!(calls.contains(&build_wfp_service_stop_args(&config)));
    assert!(calls.contains(&build_wfp_service_delete_args(&config)));
    assert!(calls.contains(&build_wfp_driver_stop_args(&config)));
    assert!(calls.contains(&build_wfp_driver_delete_args(&config)));
}

#[test]
fn uninstall_is_noop_when_nothing_installed() {
    let config = make_test_probe_config();
    let calls: RefCell<Vec<Vec<String>>> = RefCell::new(Vec::new());
    let query = |_service: &str| -> Result<String> { Ok(sc_missing_output()) };
    let run = |args: &[String]| -> Result<String> {
        calls.borrow_mut().push(args.to_vec());
        Ok(String::new())
    };
    let purge = |_p: &str| -> Result<String> { Ok("purged".into()) };
    let report = uninstall_windows_wfp_with_runner(&config, query, run, purge).unwrap();
    assert_eq!(report.status_label, "nothing to remove");
    assert!(calls.into_inner().is_empty());
}

#[test]
fn uninstall_deletes_stopped_service_without_stopping_it() {
    let config = make_test_probe_config();
    let deleted: RefCell<Vec<String>> = RefCell::new(Vec::new());
    let calls: RefCell<Vec<Vec<String>>> = RefCell::new(Vec::new());
    let query = |service: &str| -> Result<String> {
        if deleted.borrow().iter().any(|s| s == service) {
            Ok(sc_missing_output())
        } else {
            Ok(sc_stopped_output())
        }
    };
    let run = |args: &[String]| -> Result<String> {
        calls.borrow_mut().push(args.to_vec());
        if args.first().map(String::as_str) == Some("delete") {
            if let Some(name) = args.get(1) {
                deleted.borrow_mut().push(name.clone());
            }
        }
        Ok(String::new())
    };
    let purge = |_p: &str| -> Result<String> { Ok("purged".into()) };
    let report = uninstall_windows_wfp_with_runner(&config, query, run, purge).unwrap();
    assert_eq!(report.status_label, "removed");
    let calls = calls.into_inner();
    assert!(!calls.iter().any(|c| c.first().map(String::as_str) == Some("stop")));
    assert!(calls.contains(&build_wfp_service_delete_args(&config)));
    assert!(calls.contains(&build_wfp_driver_delete_args(&config)));
}

#[test]
fn uninstall_propagates_delete_failure() {
    let config = make_test_probe_config();
    let query = |_service: &str| -> Result<String> { Ok(sc_running_output()) };
    let run = |args: &[String]| -> Result<String> {
        if args.first().map(String::as_str) == Some("delete") {
            return Err(NonoError::Setup("access is denied".to_string()));
        }
        Ok(String::new())
    };
    let purge = |_p: &str| -> Result<String> { Ok("purged".into()) };
    let result = uninstall_windows_wfp_with_runner(&config, query, run, purge);
    assert!(result.is_err());
}

#[test]
fn uninstall_purge_failure_is_fail_open() {
    let config = make_test_probe_config();
    let query = |_service: &str| -> Result<String> { Ok(sc_missing_output()) };
    let run = |_args: &[String]| -> Result<String> { Ok(String::new()) };
    let purge = |_p: &str| -> Result<String> { Err(NonoError::Setup("boom".to_string())) };
    let result = uninstall_windows_wfp_with_runner(&config, query, run, purge);
    assert!(result.is_ok());
    let report = result.unwrap();
    assert!(report.details.contains("wfp object purge skipped (best-effort)"));
    assert_eq!(
        report.details,
        "purge: wfp object purge skipped (best-effort); user-mode service nono-wfp-service: not installed; kernel driver nono-wfp-driver: not installed"
    );
}

#[test]
fn test_wfp_ready_without_kernel_driver() {
    let status = build_wfp_probe_status(true, WindowsServiceState::Running, WindowsServiceState::Running);
    assert_eq!(status, WfpProbeStatus::Ready);
}

#[test]
fn test_wfp_platform_service_stopped_is_fail_closed() {
    let status = build_wfp_probe_status(true, WindowsServiceState::Stopped, WindowsServiceState::Running);
    assert_eq!(status, WfpProbeStatus::PlatformServiceStopped);
}

#[test]
fn test_wfp_backend_service_missing_is_fail_closed() {
    let status = build_wfp_probe_status(true, WindowsServiceState::Running, WindowsServiceState::Missing);
    assert_eq!(status, WfpProbeStatus::BackendServiceMissing);
}

#[test]
fn test_wfp_backend_service_stopped_is_fail_closed() {
    let status = build_wfp_probe_status(true, WindowsServiceState::Running, WindowsServiceState::Stopped);
    assert_eq!(status, WfpProbeStatus::BackendServiceStopped);
}

#[test]
fn test_wfp_backend_binary_missing_is_fail_closed() {
    let status = build_wfp_probe_status(false, WindowsServiceState::Running, WindowsServiceState::Running);
    assert_eq!(status, WfpProbeStatus::BackendBinaryMissing);
}

#[test]
fn unknown_platform_state_counts_as_missing() {
    assert_eq!(
        build_wfp_probe_status(true, WindowsServiceState::Unknown, WindowsServiceState::Running),
        WfpProbeStatus::PlatformServiceMissing
    );
}

#[test]
fn service_states_are_read_from_sc_output() {
    assert_eq!(parse_windows_service_state(&sc_missing_output()), WindowsServiceState::Missing);
    assert_eq!(parse_windows_service_state(&sc_running_output()), WindowsServiceState::Running);
    assert_eq!(parse_windows_service_state(&sc_stopped_output()), WindowsServiceState::Stopped);
    assert_eq!(parse_windows_service_state("state: stop_pending"), WindowsServiceState::Stopped);
    assert_eq!(parse_windows_service_state("something else"), WindowsServiceState::Unknown);
    assert_eq!(parse_windows_service_state("service does not exist"), WindowsServiceState::Missing);
}

#[test]
fn create_conflicts_are_recognized() {
    assert!(sc_create_conflict_is_registered("[SC] CreateService FAILED 1073:"));
    assert!(sc_create_conflict_is_registered("The specified service already exists."));
    assert!(sc_create_conflict_is_registered("marked for deletion"));
    assert!(!sc_create_conflict_is_registered("FAILED 5: Access is denied."));
}

#[test]
fn sc_command_lines() {
    let config = make_test_probe_config();
    assert_eq!(format_wfp_service_command(&config), "\"C:\\tools\\nono-wfp-service.exe\" --service");
    assert_eq!(
        build_wfp_service_create_args(&config),
        vec![
            "create",
            "nono-wfp-service",
            "binPath=",
            "\"C:\\tools\\nono-wfp-service.exe\" --service",
            "start=",
            "auto",
            "type=",
            "own",
            "DisplayName=",
            "nono WFP Service"
        ]
    );
    assert_eq!(build_wfp_driver_create_args(&config)[3], "\"C:\\tools\\nono-wfp-driver.sys\"");
    assert_eq!(build_wfp_service_stop_args(&config), vec!["stop", "nono-wfp-service"]);
    assert_eq!(build_wfp_driver_delete_args(&config), vec!["delete", "nono-wfp-driver"]);
}

#[test]
fn setup_descriptions() {
    let config = make_test_probe_config();
    assert_eq!(
        describe_wfp_probe_status_for_setup(&config, WfpProbeStatus::PlatformServiceStopped),
        "Base Filtering Engine service (BFE) is not running."
    );
    let (label, details) =
        describe_wfp_service_status_for_setup(&config, WfpProbeStatus::BackendDriverMissing);
    assert_eq!(label, "ready");
    assert!(details.starts_with("WFP backend service nono-wfp-service is present and running."));
    let (label, _) = describe_wfp_driver_status_for_setup(&config, WfpProbeStatus::BackendServiceStopped);
    assert_eq!(label, "blocked by service");
    assert_eq!(
        describe_wfp_next_action_for_setup(&config, WfpProbeStatus::BackendServiceMissing),
        Some("Next action: run `nono setup --install-wfp-service`.".to_string())
    );
    let report = describe_wfp_readiness(&config, Ok(WfpProbeStatus::Ready));
    assert_eq!(report.status_label, "ready");
    let failed = describe_wfp_readiness(&config, Err(NonoError::Setup("no sc".to_string())));
    assert_eq!(failed.status_label, "probe failed");
    assert_eq!(failed.details, "Failed to probe Windows WFP readiness: no sc");
    assert!(failed.next_action.is_none());
}

fn output(status: &str, details: &str) -> WfpRuntimeProbeOutput {
    WfpRuntimeProbeOutput {
        status_code: Some(0),
        response: WfpRuntimeActivationResponse {
            protocol_version: 1,
            status: status.to_string(),
            details: details.to_string(),
        },
        stderr: String::new(),
    }
}

#[test]
fn runtime_replies_are_read() {
    assert_eq!(
        parse_wfp_runtime_probe_status(&output("enforced-pending-cleanup", "")).unwrap(),
        WfpRuntimeActivationProbeStatus::EnforcedPendingCleanup
    );
    match parse_wfp_runtime_probe_status(&output("prerequisites-missing", "Service not available")) {
        Err(NonoError::UnsupportedPlatform(m)) => assert_eq!(
            m,
            "Windows WFP activation prerequisites are missing: Service not available"
        ),
        other => panic!("unexpected {other:?}"),
    }
    match parse_wfp_runtime_probe_status(&output("weird", "x")) {
        Err(NonoError::SandboxInit(m)) => assert_eq!(
            m,
            "Windows WFP runtime probe returned unexpected response (status: Some(0), response: WfpRuntimeActivationResponse { protocol_version: 1, status: \"weird\", details: \"x\" }, stderr: \"\")"
        ),
        other => panic!("unexpected {other:?}"),
    }
}

#[test]
fn firewall_failures_are_classified() {
    match classify_netsh_firewall_failure(&["advfirewall", "firewall"], "The requested operation requires elevation.") {
        NonoError::SandboxInit(m) => assert!(m.starts_with(
            "Failed to apply Windows blocked-network rule (args: advfirewall firewall): Windows blocked-network enforcement"
        )),
        other => panic!("unexpected {other:?}"),
    }
    match classify_netsh_firewall_failure(&["x"], "  boom \n") {
        NonoError::SandboxInit(m) => assert_eq!(
            m,
            "Failed to apply Windows blocked-network rule (args: x): boom (current backend: Windows Firewall rules; preferred backend: WFP)"
        ),
        other => panic!("unexpected {other:?}"),
    }
}

#[test]
fn install_service_when_already_registered() {
    let config = make_test_probe_config();
    let query = |_s: &str| -> Result<String> { Ok(sc_running_output()) };
    let run = |_a: &[String]| -> Result<String> { panic!("nothing is run") };
    let report = install_windows_wfp_service_with_runner(&config, true, query, run).unwrap();
    assert_eq!(report.status_label, "already installed");
}

#[test]
fn install_service_registers_a_missing_service() {
    let config = make_test_probe_config();
    let created = RefCell::new(false);
    let query = |s: &str| -> Result<String> {
        if s == "BFE" || *created.borrow() {
            Ok(sc_running_output())
        } else {
            Ok(sc_missing_output())
        }
    };
    let run = |a: &[String]| -> Result<String> {
        if a[0] == "create" {
            *created.borrow_mut() = true;
        }
        Ok(String::new())
    };
    let report = install_windows_wfp_service_with_runner(&config, true, query, run).unwrap();
    assert_eq!(report.status_label, "installed");
}

#[test]
fn install_driver_refuses_a_missing_binary_and_a_stopped_bfe() {
    let config = make_test_probe_config();
    let query = |_s: &str| -> Result<String> { Ok(sc_stopped_output()) };
    let run = |_a: &[String]| -> Result<String> { Ok(String::new()) };
    match install_windows_wfp_driver_with_runner(&config, false, query, run) {
        Err(NonoError::Setup(m)) => assert!(m.contains("driver binary is missing")),
        other => panic!("unexpected {other:?}"),
    }
    match install_windows_wfp_driver_with_runner(&config, true, query, run) {
        Err(NonoError::Setup(m)) => assert_eq!(
            m,
            "Cannot register Windows WFP driver because the Base Filtering Engine service (BFE) is not running."
        ),
        other => panic!("unexpected {other:?}"),
    }
}

#[test]
fn start_service_reports_a_failed_start_with_trimmed_output() {
    let config = make_test_probe_config();
    let query = |s: &str| -> Result<String> {
        if s == "BFE" {
            Ok(sc_running_output())
        } else {
            Ok(sc_stopped_output())
        }
    };
    let run = |_a: &[String]| -> Result<String> { Ok("  START_PENDING \n".to_string()) };
    match start_windows_wfp_service_with_runner(&config, true, query, run) {
        Err(NonoError::Setup(m)) => assert!(m.ends_with("Current host output: START_PENDING.")),
        other => panic!("unexpected {other:?}"),
    }
    let report = start_windows_wfp_driver_with_runner(&config, true, |_s: &str| Ok(sc_running_output()), run)
        .unwrap();
    assert_eq!(report.status_label, "already running");
}

#[test]
fn probing_queries_both_services() {
    let config = make_test_probe_config();
    let query = |s: &str| -> Result<String> {
        if s == "BFE" {
            Ok(sc_running_output())
        } else {
            Ok(sc_stopped_output())
        }
    };
    assert_eq!(
        probe_wfp_backend_status_with_config(&config, false, true, query).unwrap(),
        WfpProbeStatus::BackendServiceStopped
    );
    assert_eq!(
        probe_wfp_backend_status_with_config(&config, false, false, query).unwrap(),
        WfpProbeStatus::BackendBinaryMissing
    );
    assert_eq!(
        probe_wfp_backend_status_with_config(&config, true, true, query).unwrap(),
        WfpProbeStatus::Ready
    );
}

fn strings(v: &[&str]) -> Vec<String> {
    v.iter().map(|s| s.to_string()).collect()
}

#[test]
fn removal_steps_stop_only_a_running_service() {
    let stop = strings(&["stop", "svc"]);
    let delete = strings(&["delete", "svc"]);
    assert!(matches!(remove_step("svc", &stop, &delete, &[]), ScStep::Query(n) if n == "svc"));
    let running = "STATE              : 4  RUNNING".to_string();
    let stopped = "STATE              : 1  STOPPED".to_string();
    assert!(matches!(
        remove_step("svc", &stop, &delete, &[ScAnswer::Queried(Ok(running.clone()))]),
        ScStep::Run(a) if a == stop
    ));
    assert!(matches!(
        remove_step("svc", &stop, &delete, &[ScAnswer::Queried(Ok(stopped.clone()))]),
        ScStep::Run(a) if a == delete
    ));
    assert!(matches!(
        remove_step(
            "svc",
            &stop,
            &delete,
            &[ScAnswer::Queried(Ok(running)), ScAnswer::Ran(Err(NonoError::Setup("x".into())))]
        ),
        ScStep::Run(a) if a == delete
    ));
    let missing = "[SC] EnumQueryServicesStatus:OpenService FAILED 1060".to_string();
    match remove_step("svc", &stop, &delete, &[ScAnswer::Queried(Ok(missing.clone()))]) {
        ScStep::Finish(Ok(r)) => assert_eq!(r.status_label, "not installed"),
        other => panic!("unexpected step: {:?}", other),
    }
    match remove_step(
        "svc",
        &stop,
        &delete,
        &[ScAnswer::Queried(Ok(stopped.clone())), ScAnswer::Ran(Ok(String::new())), ScAnswer::Queried(Ok(missing))],
    ) {
        ScStep::Finish(Ok(r)) => assert_eq!(r.status_label, "removed"),
        other => panic!("unexpected step: {:?}", other),
    }
    assert!(matches!(
        remove_step("svc", &stop, &delete, &[ScAnswer::Ran(Ok(String::new()))]),
        ScStep::Invalid
    ));
}

#[test]
fn registration_steps_create_only_a_missing_component() {
    let t = InstallTexts {
        missing_binary: "mb".into(),
        bfe_stopped: "bs".into(),
        bfe_missing: "bm".into(),
        already_installed: "ai".into(),
        not_persisted: "np".into(),
        installed: "in".into(),
    };
    let create = strings(&["create", "svc"]);
    let describe = strings(&["description", "svc", "d"]);
    match install_step("BFE", "svc", false, &create, &describe, &t, &[]) {
        ScStep::Finish(Err(NonoError::Setup(m))) => assert_eq!(m, "mb"),
        other => panic!("unexpected step: {:?}", other),
    }
    assert!(matches!(install_step("BFE", "svc", true, &create, &describe, &t, &[]), ScStep::Query(n) if n == "BFE"));
    let running = "STATE              : 4  RUNNING".to_string();
    let missing = "FAILED 1060".to_string();
    let h1 = [ScAnswer::Queried(Ok(running.clone()))];
    assert!(matches!(install_step("BFE", "svc", true, &create, &describe, &t, &h1), ScStep::Query(n) if n == "svc"));
    let h2 = [ScAnswer::Queried(Ok(running.clone())), ScAnswer::Queried(Ok(running.clone()))];
    match install_step("BFE", "svc", true, &create, &describe, &t, &h2) {
        ScStep::Finish(Ok(r)) => {
            assert_eq!(r.status_label, "already installed");
            assert_eq!(r.details, "ai");
        }
        other => panic!("unexpected step: {:?}", other),
    }
    let h3 = [ScAnswer::Queried(Ok(running.clone())), ScAnswer::Queried(Ok(missing.clone()))];
    assert!(matches!(install_step("BFE", "svc", true, &create, &describe, &t, &h3), ScStep::Run(a) if a == create));
    let h4 = [
        ScAnswer::Queried(Ok(running.clone())),
        ScAnswer::Queried(Ok(missing.clone())),
        ScAnswer::Ran(Ok(String::new())),
    ];
    assert!(matches!(install_step("BFE", "svc", true, &create, &describe, &t, &h4), ScStep::Run(a) if a == describe));
    let h6 = [
        ScAnswer::Queried(Ok(running.clone())),
        ScAnswer::Queried(Ok(missing.clone())),
        ScAnswer::Ran(Ok(String::new())),
        ScAnswer::Ran(Ok(String::new())),
        ScAnswer::Queried(Ok(running)),
    ];
    match install_step("BFE", "svc", true, &create, &describe, &t, &h6) {
        ScStep::Finish(Ok(r)) => assert_eq!((r.status_label, r.details.as_str()), ("installed", "in")),
        other => panic!("unexpected step: {:?}", other),
    }
}

#[test]
fn uninstall_purges_first_then_removes_service_then_driver() {
    let config = make_test_probe_config();
    match uninstall_step(&config, &[]) {
        UninstallStep::Purge(p) => assert_eq!(p, config.backend_binary_path),
        other => panic!("unexpected step: {:?}", other),
    }
    let h1 = [UninstallEvent::Purged(Err(NonoError::Setup("x".into())))];
    match uninstall_step(&config, &h1) {
        UninstallStep::Remove { name, stop, delete } => {
            assert_eq!(name, config.backend_service);
            assert_eq!(stop, build_wfp_service_stop_args(&config));
            assert_eq!(delete, build_wfp_service_delete_args(&config));
        }
        other => panic!("unexpected step: {:?}", other),
    }
    let h2 = [UninstallEvent::Purged(Err(NonoError::Setup("x".into()))), UninstallEvent::Removed(Ok("not installed"))];
    match uninstall_step(&config, &h2) {
        UninstallStep::Remove { name, .. } => assert_eq!(name, config.backend_driver),
        other => panic!("unexpected step: {:?}", other),
    }
    let h3 = [
        UninstallEvent::Purged(Err(NonoError::Setup("x".into()))),
        UninstallEvent::Removed(Ok("not installed")),
        UninstallEvent::Removed(Ok("not installed")),
    ];
    match uninstall_step(&config, &h3) {
        UninstallStep::Finish(Ok(r)) => {
            assert_eq!(r.status_label, "nothing to remove");
            assert!(r.details.contains("wfp object purge skipped (best-effort)"));
        }
        other => panic!("unexpected step: {:?}", other),
    }
    let failed = [UninstallEvent::Purged(Ok(String::new())), UninstallEvent::Removed(Err(NonoError::Setup("denied".into())))];
    assert!(matches!(uninstall_step(&config, &failed), UninstallStep::Finish(Err(NonoError::Setup(m))) if m == "denied"));
    assert!(matches!(uninstall_step(&config, &[UninstallEvent::Removed(Ok("removed"))]), UninstallStep::Invalid));
}
