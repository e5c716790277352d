use nono_cli::layer_registry::{
    all_entries, all_layer_ids, assert_all_layer_ids_covered, layer_name, token_arm_name,
    ArmExpectancy, ContractOutcome, EntryPath, LayerId, ProbeKind, WindowsTokenArm, ALL,
};

fn broker_expected(arms: &[ArmExpectancy]) -> bool {
    arms.iter().any(|arm| {
        matches!(
            arm,
            ArmExpectancy {
                entry_path: EntryPath::Broker,
                expected: true,
                ..
            }
        )
    })
}

#[test]
fn broker_expected_rows_are_abort_only() {
    for entry in all_entries(true) {
        if entry.probe == ProbeKind::NotApplicable {
            continue;
        }
        if broker_expected(&entry.expectancy) {
            assert_eq!(
                entry.outcome,
                ContractOutcome::Abort,
                "{:?} is expected at EntryPath::Broker but its outcome is {:?}, not Abort",
                entry.id,
                entry.outcome
            );
        }
    }
}

#[test]
fn at_least_one_row_is_broker_expected() {
    let count = all_entries(true)
        .iter()
        .filter(|entry| broker_expected(&entry.expectancy))
        .count();
    assert!(count > 0, "expected at least one EntryPath::Broker-expected row");
}

#[test]
fn all_entries_covers_every_layer_id() {
    let covered: Vec<LayerId> = all_entries(true).iter().map(|e| e.id).collect();
    for id in ALL {
        assert!(
            covered.contains(&id),
            "{id:?} is in LayerId::ALL but has no corresponding row in all_entries()"
        );
    }
    assert_eq!(
        covered.len(),
        ALL.len(),
        "all_entries() row count must match LayerId::ALL length"
    );
}

#[test]
fn every_call_site_string_names_a_line_number() {
    for entry in all_entries(true) {
        for site in entry.call_sites {
            assert!(
                site.contains(".rs:"),
                "{:?}'s call_sites entry {site:?} does not look like a \"file:line\" citation",
                entry.id
            );
        }
    }
}

#[test]
fn registry_lists_the_layers_in_declaration_order() {
    let ids: Vec<LayerId> = all_entries(true).iter().map(|e| e.id).collect();
    assert_eq!(ids, ALL.to_vec());
    assert_eq!(all_layer_ids(), ALL.to_vec());
    for id in ALL {
        assert_all_layer_ids_covered(&id);
    }
}

#[test]
fn minifilter_absence_is_the_only_fail_open_row() {
    for entry in all_entries(true) {
        match entry.id {
            LayerId::MinifilterAbsence => {
                assert!(matches!(entry.outcome, ContractOutcome::FailOpen { .. }));
                assert!(entry.call_sites.is_empty());
                assert_eq!(entry.probe, ProbeKind::NotApplicable);
            }
            _ => assert_eq!(entry.outcome, ContractOutcome::Abort),
        }
    }
}

#[test]
fn app_container_profile_is_expected_only_at_broker_and_daemon() {
    let entries = all_entries(true);
    let row = entries
        .iter()
        .find(|e| e.id == LayerId::AppContainerProfile)
        .expect("row exists");
    assert_eq!(row.name, "app-container-profile");
    assert_eq!(row.expectancy.len(), 2);
    assert!(row.expectancy.iter().all(|a| a.entry_path != EntryPath::DirectCli));
}

#[test]
fn debug_names_match_the_variants() {
    assert_eq!(layer_name(LayerId::RestrictedToken), "RestrictedToken");
    assert_eq!(layer_name(LayerId::InterpreterCoverageGate), "InterpreterCoverageGate");
    for id in ALL {
        assert_eq!(layer_name(id), format!("{id:?}"));
    }
    for arm in [
        WindowsTokenArm::Null,
        WindowsTokenArm::WriteRestricted,
        WindowsTokenArm::LowIlPrimary,
        WindowsTokenArm::BrokerLaunch,
        WindowsTokenArm::BrokerLaunchNoPty,
    ] {
        assert_eq!(token_arm_name(arm), format!("{arm:?}"));
    }
}

#[test]
fn registry_is_empty_off_windows() {
    assert!(all_entries(false).is_empty());
}
