use nono_cli::attestation::{
    attest_and_decide, classify_probe_outcome, classify_row, decide_from_entries,
    required_layers_for_broker, token_arm_matches, AttestationDecision, AttestationInput,
    LayerAttestationStatus, LiveProbeResults, BROKER_REQUIRED_LAYERS_ENV_VAR,
};
use nono_cli::error::NonoError;
use nono_cli::layer_registry::{
    all_entries, ArmExpectancy, ContractOutcome, EntryPath, LayerId, LayerRegistryEntry,
    ProbeKind, WindowsTokenArm,
};
use std::collections::HashSet;

fn failed() -> NonoError {
    NonoError::SandboxInit("probe of a null process handle failed".to_string())
}

fn dummy_process() -> LiveProbeResults {
    LiveProbeResults {
        restricted_sids: Err(failed()),
        in_job: Err(failed()),
        app_container_sid: Err(failed()),
        integrity_level: Err(failed()),
    }
}

fn input<'a>(
    entry_path: EntryPath,
    token_arm: Option<WindowsTokenArm>,
    wfp_preconfirmed: bool,
    overrides: &'a [String],
    machine: &'a [String],
) -> AttestationInput<'a> {
    AttestationInput {
        child_process: dummy_process(),
        entry_path,
        token_arm,
        wfp_preconfirmed,
        required_layers_override: overrides,
        machine_required_layers: machine,
    }
}

fn null_arm() -> Vec<ArmExpectancy> {
    vec![ArmExpectancy {
        entry_path: EntryPath::DirectCli,
        token_arm: Some("Null"),
        expected: true,
    }]
}

fn row(
    id: LayerId,
    name: &'static str,
    outcome: ContractOutcome,
    probe: ProbeKind,
) -> LayerRegistryEntry {
    LayerRegistryEntry {
        id,
        name,
        call_sites: vec![],
        expectancy: null_arm(),
        outcome,
        probe,
    }
}

// ---- classify_probe_outcome ----

#[test]
fn positive_bool_confirms() {
    let result: Result<bool, NonoError> = Ok(true);
    assert_eq!(classify_probe_outcome(result), LayerAttestationStatus::Confirmed);
}

#[test]
fn negative_bool_is_unconfirmed() {
    let result: Result<bool, NonoError> = Ok(false);
    assert_eq!(classify_probe_outcome(result), LayerAttestationStatus::Unconfirmed);
}

#[test]
fn err_is_unconfirmed() {
    let result: Result<bool, NonoError> = Err(NonoError::LayerAttestationFailed {
        layer: "Test".to_string(),
        reason: "synthetic".to_string(),
    });
    assert_eq!(classify_probe_outcome(result), LayerAttestationStatus::Unconfirmed);
}

#[test]
fn positive_option_confirms() {
    let result: Result<Option<String>, NonoError> = Ok(Some("S-1-15-2-1".to_string()));
    assert_eq!(classify_probe_outcome(result), LayerAttestationStatus::Confirmed);
}

#[test]
fn negative_option_is_unconfirmed() {
    let result: Result<Option<String>, NonoError> = Ok(None);
    assert_eq!(classify_probe_outcome(result), LayerAttestationStatus::Unconfirmed);
}

#[test]
fn positive_vec_confirms() {
    let result: Result<Vec<String>, NonoError> = Ok(vec!["S-1-5-12".to_string()]);
    assert_eq!(classify_probe_outcome(result), LayerAttestationStatus::Confirmed);
}

#[test]
fn empty_vec_is_unconfirmed() {
    let result: Result<Vec<String>, NonoError> = Ok(Vec::new());
    assert_eq!(classify_probe_outcome(result), LayerAttestationStatus::Unconfirmed);
}

// ---- token_arm_matches ----

#[test]
fn token_arm_matches_none_none() {
    assert!(token_arm_matches(None, None));
}

#[test]
fn token_arm_matches_debug_format() {
    assert!(token_arm_matches(
        Some(WindowsTokenArm::WriteRestricted),
        Some("WriteRestricted")
    ));
}

#[test]
fn token_arm_mismatched_option_shape_is_false() {
    assert!(!token_arm_matches(Some(WindowsTokenArm::Null), None));
    assert!(!token_arm_matches(None, Some("Null")));
}

#[test]
fn token_arm_of_another_name_does_not_match() {
    assert!(!token_arm_matches(Some(WindowsTokenArm::Null), Some("WriteRestricted")));
}

// ---- decide_from_entries ----

#[test]
fn established_not_independently_observable_downgrades_but_does_not_abort() {
    let entries = [row(
        LayerId::DaclSessionSidGrant,
        "synthetic-configured-only-abort",
        ContractOutcome::Abort,
        ProbeKind::ConfiguredOnly,
    )];
    let i = input(EntryPath::DirectCli, Some(WindowsTokenArm::Null), false, &[], &[]);
    let decision = decide_from_entries(&entries, &i, &HashSet::new());
    assert_eq!(
        decision,
        AttestationDecision::ProceedDowngraded {
            downgraded: vec![LayerId::DaclSessionSidGrant]
        }
    );
}

#[test]
fn tightened_required_layer_aborts_even_when_default_outcome_is_fail_open() {
    let entries = [row(
        LayerId::MinifilterAbsence,
        "synthetic-fail-open",
        ContractOutcome::FailOpen { justification: "test fixture" },
        ProbeKind::ConfiguredOnly,
    )];
    let i = input(EntryPath::DirectCli, Some(WindowsTokenArm::Null), false, &[], &[]);
    let mut required = HashSet::new();
    required.insert(format!("{:?}", LayerId::MinifilterAbsence));
    let decision = decide_from_entries(&entries, &i, &required);
    assert_eq!(
        decision,
        AttestationDecision::Abort {
            layer: LayerId::MinifilterAbsence,
            status: LayerAttestationStatus::EstablishedNotIndependentlyObservable,
        }
    );
}

#[test]
fn untightened_fail_open_row_never_downgrades() {
    let entries = [row(
        LayerId::MinifilterAbsence,
        "synthetic-fail-open",
        ContractOutcome::FailOpen { justification: "test fixture" },
        ProbeKind::ConfiguredOnly,
    )];
    let i = input(EntryPath::DirectCli, Some(WindowsTokenArm::Null), false, &[], &[]);
    let decision = decide_from_entries(&entries, &i, &HashSet::new());
    assert_eq!(decision, AttestationDecision::Proceed);
}

#[test]
fn substitute_equivalent_mechanism_falls_through_to_abort_when_alternate_unconfirmed() {
    let entries = [
        row(
            LayerId::RestrictedToken,
            "primary",
            ContractOutcome::SubstituteEquivalentMechanism { alternate: "alternate-mechanism" },
            ProbeKind::ConfiguredOnly,
        ),
        row(
            LayerId::MandatoryIntegrityLabel,
            "alternate-mechanism",
            ContractOutcome::Abort,
            ProbeKind::ConfiguredOnly,
        ),
    ];
    let i = input(EntryPath::DirectCli, Some(WindowsTokenArm::Null), false, &[], &[]);
    let decision = decide_from_entries(&entries, &i, &HashSet::new());
    assert_eq!(
        decision,
        AttestationDecision::Abort {
            layer: LayerId::RestrictedToken,
            status: LayerAttestationStatus::EstablishedNotIndependentlyObservable,
        }
    );
}

#[test]
fn substitute_equivalent_mechanism_proceeds_when_alternate_confirmed() {
    let entries = [
        row(
            LayerId::RestrictedToken,
            "primary",
            ContractOutcome::SubstituteEquivalentMechanism { alternate: "alternate-mechanism" },
            ProbeKind::ConfiguredOnly,
        ),
        row(
            LayerId::WfpEgressFilters,
            "alternate-mechanism",
            ContractOutcome::Abort,
            ProbeKind::ConfirmedByEnforcingComponentReport,
        ),
    ];
    let i = input(EntryPath::DirectCli, Some(WindowsTokenArm::Null), true, &[], &[]);
    let decision = decide_from_entries(&entries, &i, &HashSet::new());
    assert_eq!(decision, AttestationDecision::Proceed);
}

#[test]
fn unconfirmed_abort_row_aborts_and_stops_at_the_first_halt() {
    let entries = [
        row(
            LayerId::DaclSessionSidGrant,
            "configured",
            ContractOutcome::Abort,
            ProbeKind::ConfiguredOnly,
        ),
        row(
            LayerId::WfpEgressFilters,
            "reported",
            ContractOutcome::Abort,
            ProbeKind::ConfirmedByEnforcingComponentReport,
        ),
        row(
            LayerId::JobObjectContainment,
            "live",
            ContractOutcome::Abort,
            ProbeKind::LiveTokenOrJobQuery,
        ),
    ];
    let i = input(EntryPath::DirectCli, Some(WindowsTokenArm::Null), false, &[], &[]);
    let decision = decide_from_entries(&entries, &i, &HashSet::new());
    assert_eq!(
        decision,
        AttestationDecision::Abort {
            layer: LayerId::WfpEgressFilters,
            status: LayerAttestationStatus::Unconfirmed,
        }
    );
}

#[test]
fn tightening_makes_a_downgrade_an_abort() {
    let entries = [row(
        LayerId::DaclSessionSidGrant,
        "configured",
        ContractOutcome::Abort,
        ProbeKind::ConfiguredOnly,
    )];
    let i = input(EntryPath::DirectCli, Some(WindowsTokenArm::Null), false, &[], &[]);
    let loose = decide_from_entries(&entries, &i, &HashSet::new());
    let mut required = HashSet::new();
    required.insert("DaclSessionSidGrant".to_string());
    let tight = decide_from_entries(&entries, &i, &required);
    assert!(matches!(loose, AttestationDecision::ProceedDowngraded { .. }));
    assert!(matches!(tight, AttestationDecision::Abort { .. }));
}

#[test]
fn tightening_a_layer_that_does_not_abort_changes_nothing() {
    let entries = [row(
        LayerId::DaclSessionSidGrant,
        "configured",
        ContractOutcome::Abort,
        ProbeKind::ConfiguredOnly,
    )];
    let i = input(EntryPath::DirectCli, Some(WindowsTokenArm::Null), false, &[], &[]);
    let loose = decide_from_entries(&entries, &i, &HashSet::new());
    let mut required = HashSet::new();
    required.insert("MinifilterAbsence".to_string());
    let tight = decide_from_entries(&entries, &i, &required);
    assert!(matches!(tight, AttestationDecision::ProceedDowngraded { .. }));
    assert_eq!(format!("{loose:?}"), format!("{tight:?}"));
}

#[test]
fn live_probe_results_decide_live_rows() {
    let entries = [row(
        LayerId::JobObjectContainment,
        "job",
        ContractOutcome::Abort,
        ProbeKind::LiveTokenOrJobQuery,
    )];
    let mut i = input(EntryPath::DirectCli, Some(WindowsTokenArm::Null), false, &[], &[]);
    i.child_process.in_job = Ok(true);
    assert_eq!(
        decide_from_entries(&entries, &i, &HashSet::new()),
        AttestationDecision::Proceed
    );
    i.child_process.in_job = Ok(false);
    assert_eq!(
        decide_from_entries(&entries, &i, &HashSet::new()),
        AttestationDecision::Abort {
            layer: LayerId::JobObjectContainment,
            status: LayerAttestationStatus::Unconfirmed,
        }
    );
}

// ---- attest_and_decide ----

#[test]
fn attest_and_decide_rejects_unrecognized_required_layer_name_from_cli_flag() {
    let overrides = vec!["NotARealLayer".to_string()];
    let i = input(EntryPath::DirectCli, Some(WindowsTokenArm::Null), false, &overrides, &[]);
    match attest_and_decide(i) {
        Err(NonoError::LayerAttestationFailed { layer, .. }) => {
            assert_eq!(layer, "NotARealLayer");
        }
        other => panic!("expected Err(LayerAttestationFailed), got {other:?}"),
    }
}

#[test]
fn attest_and_decide_rejects_unrecognized_required_layer_name_from_machine_policy() {
    let machine_required = vec!["AlsoNotReal".to_string()];
    let i = input(
        EntryPath::DirectCli,
        Some(WindowsTokenArm::Null),
        false,
        &[],
        &machine_required,
    );
    assert!(matches!(
        attest_and_decide(i),
        Err(NonoError::LayerAttestationFailed { .. })
    ));
}

#[test]
fn attest_and_decide_accepts_known_layer_names() {
    let overrides = vec![format!("{:?}", LayerId::RestrictedToken)];
    let i = input(EntryPath::DirectCli, Some(WindowsTokenArm::Null), false, &overrides, &[]);
    assert!(attest_and_decide(i).is_ok());
}

#[test]
fn attest_and_decide_reports_the_first_unrecognized_name_and_its_reason() {
    let overrides = vec!["RestrictedToken".to_string(), "Bogus1".to_string()];
    let machine = vec!["Bogus2".to_string()];
    let i = input(EntryPath::DirectCli, Some(WindowsTokenArm::Null), false, &overrides, &machine);
    match attest_and_decide(i) {
        Err(NonoError::LayerAttestationFailed { layer, reason }) => {
            assert_eq!(layer, "Bogus1");
            assert_eq!(
                reason,
                "unrecognized required-layer name in machine policy or CLI flag (fail-closed; must match a LayerId Debug-format name)"
            );
        }
        other => panic!("expected Err(LayerAttestationFailed), got {other:?}"),
    }
}

#[test]
fn attest_and_decide_on_the_write_restricted_arm() {
    let i = input(
        EntryPath::DirectCli,
        Some(WindowsTokenArm::WriteRestricted),
        false,
        &[],
        &[],
    );
    // The restricted token is probed live and the null-handle probe fails.
    assert_eq!(
        attest_and_decide(i).unwrap(),
        AttestationDecision::Abort {
            layer: LayerId::RestrictedToken,
            status: LayerAttestationStatus::Unconfirmed,
        }
    );
}

#[test]
fn attest_and_decide_downgrades_configured_rows_on_the_null_arm() {
    let mut i = input(EntryPath::DirectCli, Some(WindowsTokenArm::Null), false, &[], &[]);
    i.child_process.in_job = Ok(true);
    assert_eq!(
        attest_and_decide(i).unwrap(),
        AttestationDecision::ProceedDowngraded {
            downgraded: vec![LayerId::MandatoryIntegrityLabel, LayerId::FirewallRulesEgress]
        }
    );
}

// ---- classify_row against the registry ----

#[test]
fn not_expected_for_arm_classifies_not_applicable() {
    let entries = all_entries(true);
    let restricted_token = entries
        .iter()
        .find(|e| e.id == LayerId::RestrictedToken)
        .expect("RestrictedToken row must exist");
    let i = input(EntryPath::DirectCli, Some(WindowsTokenArm::Null), false, &[], &[]);
    assert_eq!(
        classify_row(restricted_token, &i),
        LayerAttestationStatus::NotApplicable
    );
}

#[test]
fn app_container_profile_is_never_expected_at_direct_cli() {
    let entries = all_entries(true);
    let app_container = entries
        .iter()
        .find(|e| e.id == LayerId::AppContainerProfile)
        .expect("AppContainerProfile row must exist");
    for arm in [
        WindowsTokenArm::Null,
        WindowsTokenArm::WriteRestricted,
        WindowsTokenArm::LowIlPrimary,
        WindowsTokenArm::BrokerLaunch,
        WindowsTokenArm::BrokerLaunchNoPty,
    ] {
        let i = input(EntryPath::DirectCli, Some(arm), false, &[], &[]);
        assert_eq!(
            classify_row(app_container, &i),
            LayerAttestationStatus::NotApplicable,
            "AppContainerProfile must be NotApplicable at (DirectCli, {arm:?})"
        );
    }
}

#[test]
fn wfp_egress_filters_classifies_from_preconfirmed_flag() {
    let entries = all_entries(true);
    let wfp = entries
        .iter()
        .find(|e| e.id == LayerId::WfpEgressFilters)
        .expect("WfpEgressFilters row must exist");
    let confirmed = input(EntryPath::Daemon, None, true, &[], &[]);
    assert_eq!(classify_row(wfp, &confirmed), LayerAttestationStatus::Confirmed);
    let unconfirmed = input(EntryPath::Daemon, None, false, &[], &[]);
    assert_eq!(classify_row(wfp, &unconfirmed), LayerAttestationStatus::Unconfirmed);
}

#[test]
fn minifilter_absence_always_not_applicable() {
    let entries = all_entries(true);
    let minifilter = entries
        .iter()
        .find(|e| e.id == LayerId::MinifilterAbsence)
        .expect("MinifilterAbsence row must exist");
    for (entry_path, token_arm) in [
        (EntryPath::DirectCli, Some(WindowsTokenArm::Null)),
        (EntryPath::Broker, None),
        (EntryPath::Daemon, None),
    ] {
        let i = input(entry_path, token_arm, false, &[], &[]);
        assert_eq!(
            classify_row(minifilter, &i),
            LayerAttestationStatus::NotApplicable
        );
    }
}

// ---- the broker wire contract ----

fn is_broker_expected(entry: &LayerRegistryEntry) -> bool {
    entry.expectancy.iter().any(|arm| {
        matches!(
            arm,
            ArmExpectancy {
                entry_path: EntryPath::Broker,
                expected: true,
                ..
            }
        )
    })
}

#[test]
fn required_layers_for_broker_includes_only_broker_expected_abort_rows() {
    let entries = all_entries(true);
    let value = required_layers_for_broker(&entries);
    let got: HashSet<String> = value
        .split(',')
        .filter(|s| !s.is_empty())
        .map(str::to_string)
        .collect();
    let expected: HashSet<String> = entries
        .iter()
        .filter(|entry| entry.outcome == ContractOutcome::Abort && is_broker_expected(entry))
        .map(|entry| format!("{:?}", entry.id))
        .collect();
    assert_eq!(got, expected);
    assert!(
        !expected.is_empty(),
        "expected at least one Broker-expected Abort row to exercise this test"
    );
}

#[test]
fn required_layers_for_broker_never_includes_non_broker_only_rows() {
    let entries = all_entries(true);
    let value = required_layers_for_broker(&entries);
    for entry in &entries {
        if !is_broker_expected(entry) {
            let name = format!("{:?}", entry.id);
            assert!(
                !value.split(',').any(|s| s == name),
                "{name} is not Broker-expected but appeared in required_layers_for_broker output"
            );
        }
    }
}

#[test]
fn required_layers_for_broker_value_for_the_registry() {
    assert_eq!(BROKER_REQUIRED_LAYERS_ENV_VAR, "NONO_BROKER_REQUIRED_LAYERS");
    assert_eq!(
        required_layers_for_broker(&all_entries(true)),
        "MandatoryIntegrityLabel,AppContainerProfile"
    );
    assert_eq!(required_layers_for_broker(&[]), "");
}
