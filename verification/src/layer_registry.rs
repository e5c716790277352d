//! The Windows fail-direction layer registry: every confinement layer the
//! Windows backend composes, on which (entry path, token arm) cells it is
//! expected, how its presence is established, and what its absence means.
//!
//! The registry is the single source of truth the attestation decision and
//! the broker wire contract read from.
use crate::text::{has_infix, occurs_at};
use vstd::prelude::*;

verus! {

/// Identity of every layer the Windows backend composes, plus the
/// deliberate structural-absence row (`MinifilterAbsence`).
#[derive(Debug, Clone, Copy, PartialEq, Eq, Structural)]
pub enum LayerId {
    /// WRITE_RESTRICTED token + per-session synthetic restricting SID.
    RestrictedToken,
    /// NO_WRITE_UP mandatory-label ACE on every compiled filesystem-policy path.
    MandatoryIntegrityLabel,
    /// Per-run AppContainer profile and derived package SID.
    AppContainerProfile,
    /// DACL grant of the synthetic per-session SID on writable grants.
    DaclSessionSidGrant,
    /// DACL grant of the per-run AppContainer package SID on writable grants.
    DaclPackageSidGrant,
    /// `FILE_TRAVERSE` grant to the package SID on owned ancestors of the cwd.
    DaclAncestorTraverse,
    /// `FILE_READ_ATTRIBUTES` grant to the package SID on owned ancestors.
    DaclAncestorReadAttrs,
    /// Session/package-SID-scoped WFP allow-filter egress enforcement.
    WfpEgressFilters,
    /// Program-path-scoped firewall block-rule egress enforcement.
    FirewallRulesEgress,
    /// No production minifilter exists: per-file read policy inside one
    /// directory is not claimed.
    MinifilterAbsence,
    /// Job Object assignment of the suspended child.
    JobObjectContainment,
    /// Authenticode comparison of the CLI and the broker binary.
    BrokerAuthenticodeTrustGate,
    /// Pre-spawn coverage check of program, cwd and interpreters.
    InterpreterCoverageGate,
}

/// Which binary handles the spawn.
#[derive(Debug, Clone, Copy, PartialEq, Eq, Structural)]
pub enum EntryPath {
    /// The CLI spawning directly.
    DirectCli,
    /// The shell broker spawning the real confined grandchild.
    Broker,
    /// The agent daemon's launch path.
    Daemon,
}

/// The token-construction arm selected for a direct CLI launch.
#[derive(Debug, Clone, Copy, PartialEq, Eq, Structural)]
pub enum WindowsTokenArm {
    Null,
    WriteRestricted,
    LowIlPrimary,
    BrokerLaunch,
    BrokerLaunchNoPty,
}

/// One cell of the expectancy matrix: is the row's layer expected for the
/// (entry path, token arm) combination this value names. `token_arm` names a
/// `WindowsTokenArm` variant by its `Debug` name; `None` means no token arm
/// applies (broker and daemon cells).
#[derive(Debug, Clone, Copy, PartialEq, Eq)]
pub struct ArmExpectancy {
    pub entry_path: EntryPath,
    pub token_arm: Option<&'static str>,
    pub expected: bool,
}

/// What the absence of a layer means for the session.
#[derive(Debug, Clone, PartialEq, Eq)]
pub enum ContractOutcome {
    /// Fail closed: the launch is refused.
    Abort,
    /// The session proceeds with a visibly downgraded claim.
    DegradeWithVisibleClaim,
    /// A named alternate mechanism of the same confinement class stands in.
    SubstituteEquivalentMechanism { alternate: &'static str },
    /// Hardening only; absence does not widen the confinement claim.
    FailOpen { justification: &'static str },
    /// The code fails open and should not; a successor is named.
    FailOpenDefect { successor: &'static str },
}

/// How a row's expectancy is established against the spawned child.
#[derive(Debug, Clone, Copy, PartialEq, Eq, Structural)]
pub enum ProbeKind {
    /// A live query against the child's own token or job membership.
    LiveTokenOrJobQuery,
    /// A report from the enforcing component itself.
    ConfirmedByEnforcingComponentReport,
    /// The apply-time result of the supervisor's own call is the confirmation.
    ConfiguredOnly,
    /// Pre-flight gate or structural absence: nothing to probe.
    NotApplicable,
}

/// One row of the registry.
#[derive(Debug, Clone)]
pub struct LayerRegistryEntry {
    pub id: LayerId,
    pub name: &'static str,
    /// `"file:line"` citations of the enforcing call sites.
    pub call_sites: Vec<&'static str>,
    pub expectancy: Vec<ArmExpectancy>,
    pub outcome: ContractOutcome,
    pub probe: ProbeKind,
}

/// Every `LayerId` variant, in declaration order.
pub const ALL: [LayerId; 13] = [
    LayerId::RestrictedToken,
    LayerId::MandatoryIntegrityLabel,
    LayerId::AppContainerProfile,
    LayerId::DaclSessionSidGrant,
    LayerId::DaclPackageSidGrant,
    LayerId::DaclAncestorTraverse,
    LayerId::DaclAncestorReadAttrs,
    LayerId::WfpEgressFilters,
    LayerId::FirewallRulesEgress,
    LayerId::MinifilterAbsence,
    LayerId::JobObjectContainment,
    LayerId::BrokerAuthenticodeTrustGate,
    LayerId::InterpreterCoverageGate,
];


// ---------------------------------------------------------------------------
// Specification of the registry contents
// ---------------------------------------------------------------------------

/// The spec view of one expectancy cell: (entry path, token-arm name, expected).
pub type CellView = (EntryPath, Option<Seq<char>>, bool);

pub open spec fn opt_str_view(o: Option<&'static str>) -> Option<Seq<char>> {
    match o {
        Some(s) => Some(s@),
        None => None,
    }
}

pub open spec fn cell_view(a: ArmExpectancy) -> CellView {
    (a.entry_path, opt_str_view(a.token_arm), a.expected)
}

/// The `Debug` name of a token arm.
pub open spec fn token_arm_name_spec(arm: WindowsTokenArm) -> Seq<char> {
    match arm {
        WindowsTokenArm::Null => "Null"@,
        WindowsTokenArm::WriteRestricted => "WriteRestricted"@,
        WindowsTokenArm::LowIlPrimary => "LowIlPrimary"@,
        WindowsTokenArm::BrokerLaunch => "BrokerLaunch"@,
        WindowsTokenArm::BrokerLaunchNoPty => "BrokerLaunchNoPty"@,
    }
}

/// The `Debug` name of a layer.
pub open spec fn layer_name_spec(id: LayerId) -> Seq<char> {
    match id {
        LayerId::RestrictedToken => "RestrictedToken"@,
        LayerId::MandatoryIntegrityLabel => "MandatoryIntegrityLabel"@,
        LayerId::AppContainerProfile => "AppContainerProfile"@,
        LayerId::DaclSessionSidGrant => "DaclSessionSidGrant"@,
        LayerId::DaclPackageSidGrant => "DaclPackageSidGrant"@,
        LayerId::DaclAncestorTraverse => "DaclAncestorTraverse"@,
        LayerId::DaclAncestorReadAttrs => "DaclAncestorReadAttrs"@,
        LayerId::WfpEgressFilters => "WfpEgressFilters"@,
        LayerId::FirewallRulesEgress => "FirewallRulesEgress"@,
        LayerId::MinifilterAbsence => "MinifilterAbsence"@,
        LayerId::JobObjectContainment => "JobObjectContainment"@,
        LayerId::BrokerAuthenticodeTrustGate => "BrokerAuthenticodeTrustGate"@,
        LayerId::InterpreterCoverageGate => "InterpreterCoverageGate"@,
    }
}

/// Every layer, in declaration order.
pub open spec fn layer_ids() -> Seq<LayerId> {
    seq![
        LayerId::RestrictedToken,
        LayerId::MandatoryIntegrityLabel,
        LayerId::AppContainerProfile,
        LayerId::DaclSessionSidGrant,
        LayerId::DaclPackageSidGrant,
        LayerId::DaclAncestorTraverse,
        LayerId::DaclAncestorReadAttrs,
        LayerId::WfpEgressFilters,
        LayerId::FirewallRulesEgress,
        LayerId::MinifilterAbsence,
        LayerId::JobObjectContainment,
        LayerId::BrokerAuthenticodeTrustGate,
        LayerId::InterpreterCoverageGate,
    ]
}

pub open spec fn direct_cli_cell(arm: WindowsTokenArm) -> CellView {
    (EntryPath::DirectCli, Some(token_arm_name_spec(arm)), true)
}

pub open spec fn unarmed_cell(path: EntryPath) -> CellView {
    (path, None, true)
}

/// The five direct-CLI cells, one per token arm.
pub open spec fn all_direct_cli_cells() -> Seq<CellView> {
    seq![
        direct_cli_cell(WindowsTokenArm::Null),
        direct_cli_cell(WindowsTokenArm::WriteRestricted),
        direct_cli_cell(WindowsTokenArm::LowIlPrimary),
        direct_cli_cell(WindowsTokenArm::BrokerLaunch),
        direct_cli_cell(WindowsTokenArm::BrokerLaunchNoPty),
    ]
}

/// Cells of the rows scoped to a package SID: the no-PTY broker arm and the daemon.
pub open spec fn package_sid_cells() -> Seq<CellView> {
    seq![direct_cli_cell(WindowsTokenArm::BrokerLaunchNoPty), unarmed_cell(EntryPath::Daemon)]
}

/// The expectancy cells of each row.
pub open spec fn entry_cells(id: LayerId) -> Seq<CellView> {
    match id {
        LayerId::RestrictedToken => seq![direct_cli_cell(WindowsTokenArm::WriteRestricted)],
        LayerId::MandatoryIntegrityLabel => all_direct_cli_cells().push(
            unarmed_cell(EntryPath::Broker),
        ),
        LayerId::AppContainerProfile => seq![
            unarmed_cell(EntryPath::Broker),
            unarmed_cell(EntryPath::Daemon),
        ],
        LayerId::DaclSessionSidGrant => seq![direct_cli_cell(WindowsTokenArm::WriteRestricted)],
        LayerId::DaclPackageSidGrant => package_sid_cells(),
        LayerId::DaclAncestorTraverse => package_sid_cells(),
        LayerId::DaclAncestorReadAttrs => package_sid_cells(),
        LayerId::WfpEgressFilters => package_sid_cells(),
        LayerId::FirewallRulesEgress => all_direct_cli_cells(),
        LayerId::MinifilterAbsence => seq![
            unarmed_cell(EntryPath::DirectCli),
            unarmed_cell(EntryPath::Broker),
            unarmed_cell(EntryPath::Daemon),
        ],
        LayerId::JobObjectContainment => all_direct_cli_cells().push(
            unarmed_cell(EntryPath::Daemon),
        ),
        LayerId::BrokerAuthenticodeTrustGate => seq![
            direct_cli_cell(WindowsTokenArm::BrokerLaunch),
            direct_cli_cell(WindowsTokenArm::BrokerLaunchNoPty),
        ],
        LayerId::InterpreterCoverageGate => all_direct_cli_cells(),
    }
}

/// The human-readable row name.
pub open spec fn entry_name(id: LayerId) -> Seq<char> {
    match id {
        LayerId::RestrictedToken => "restricted-token"@,
        LayerId::MandatoryIntegrityLabel => "mandatory-integrity-label"@,
        LayerId::AppContainerProfile => "app-container-profile"@,
        LayerId::DaclSessionSidGrant => "dacl-session-sid-grant"@,
        LayerId::DaclPackageSidGrant => "dacl-package-sid-grant"@,
        LayerId::DaclAncestorTraverse => "dacl-ancestor-traverse"@,
        LayerId::DaclAncestorReadAttrs => "dacl-ancestor-read-attrs"@,
        LayerId::WfpEgressFilters => "wfp-egress-filters"@,
        LayerId::FirewallRulesEgress => "firewall-rules-egress"@,
        LayerId::MinifilterAbsence => "minifilter-absence"@,
        LayerId::JobObjectContainment => "job-object-containment"@,
        LayerId::BrokerAuthenticodeTrustGate => "broker-authenticode-trust-gate"@,
        LayerId::InterpreterCoverageGate => "interpreter-coverage-gate"@,
    }
}

/// The enforcing call sites cited by each row.
pub open spec fn entry_call_sites(id: LayerId) -> Seq<Seq<char>> {
    match id {
        LayerId::RestrictedToken => seq!["restricted_token.rs:55"@, "launch.rs:1403"@],
        LayerId::MandatoryIntegrityLabel => seq![
            "labels_guard.rs:83"@,
            "mod.rs:425"@,
            "nono-shell-broker/src/main.rs:615-644"@,
        ],
        LayerId::AppContainerProfile => seq![
            "nono-shell-broker/src/main.rs:322-336"@,
            "nono-shell-broker/src/main.rs:536-556"@,
            "agent_daemon/launch.rs:636-650"@,
        ],
        LayerId::DaclSessionSidGrant => seq!["dacl_guard.rs:92"@, "mod.rs:436-440"@],
        LayerId::DaclPackageSidGrant => seq![
            "dacl_guard.rs:92"@,
            "mod.rs:436-440"@,
            "agent_daemon/launch.rs:133"@,
            "agent_daemon/launch.rs:764"@,
        ],
        LayerId::DaclAncestorTraverse => seq!["dacl_guard.rs:236"@, "mod.rs:449-455"@],
        LayerId::DaclAncestorReadAttrs => seq!["dacl_guard.rs:401"@, "mod.rs:473-482"@],
        LayerId::WfpEgressFilters => seq![
            "network.rs:1602-1610"@,
            "network.rs:1730"@,
            "network.rs:1775-1800"@,
            "agent_daemon/launch.rs:444"@,
        ],
        LayerId::FirewallRulesEgress => seq!["network.rs:1500-1533"@, "network.rs:1535-1594"@],
        LayerId::MinifilterAbsence => seq![],
        LayerId::JobObjectContainment => seq![
            "launch.rs:375"@,
            "launch.rs:2134-2137"@,
            "agent_daemon/launch.rs:959"@,
            "agent_daemon/launch.rs:1049"@,
        ],
        LayerId::BrokerAuthenticodeTrustGate => seq![
            "launch.rs:1505-1506"@,
            "launch.rs:1828-1829"@,
            "launch.rs:2190"@,
            "launch.rs:2236"@,
        ],
        LayerId::InterpreterCoverageGate => seq![
            "crates/nono/src/sandbox/windows.rs:2247"@,
            "crates/nono/src/sandbox/mod.rs:925"@,
            "mod.rs:357-362"@,
        ],
    }
}

/// The justification recorded for the structural-absence row.
pub open spec fn minifilter_justification() -> Seq<char> {
    "ADR-65: no minifilter exists; per-file read policy inside one directory is explicitly not claimed"@
}

/// The contracted outcome of each row: every row aborts except the
/// justified structural-absence row, which fails open.
pub open spec fn outcome_matches(id: LayerId, o: ContractOutcome) -> bool {
    match id {
        LayerId::MinifilterAbsence => o matches ContractOutcome::FailOpen { justification } && justification@
            == minifilter_justification(),
        _ => o is Abort,
    }
}

/// How each row's presence is established.
pub open spec fn entry_probe(id: LayerId) -> ProbeKind {
    match id {
        LayerId::RestrictedToken => ProbeKind::LiveTokenOrJobQuery,
        LayerId::MandatoryIntegrityLabel => ProbeKind::ConfiguredOnly,
        LayerId::AppContainerProfile => ProbeKind::LiveTokenOrJobQuery,
        LayerId::DaclSessionSidGrant => ProbeKind::ConfiguredOnly,
        LayerId::DaclPackageSidGrant => ProbeKind::ConfiguredOnly,
        LayerId::DaclAncestorTraverse => ProbeKind::ConfiguredOnly,
        LayerId::DaclAncestorReadAttrs => ProbeKind::ConfiguredOnly,
        LayerId::WfpEgressFilters => ProbeKind::ConfirmedByEnforcingComponentReport,
        LayerId::FirewallRulesEgress => ProbeKind::ConfiguredOnly,
        LayerId::MinifilterAbsence => ProbeKind::NotApplicable,
        LayerId::JobObjectContainment => ProbeKind::LiveTokenOrJobQuery,
        LayerId::BrokerAuthenticodeTrustGate => ProbeKind::ConfiguredOnly,
        LayerId::InterpreterCoverageGate => ProbeKind::NotApplicable,
    }
}

/// `e` is the registry row for `id`.
pub open spec fn is_row_for(e: LayerRegistryEntry, id: LayerId) -> bool {
    &&& e.id == id
    &&& e.name@ == entry_name(id)
    &&& e.call_sites@.map_values(|s: &'static str| s@) == entry_call_sites(id)
    &&& e.expectancy@.map_values(|a: ArmExpectancy| cell_view(a)) == entry_cells(id)
    &&& outcome_matches(id, e.outcome)
    &&& e.probe == entry_probe(id)
}

/// Some cell of `cells` expects the layer at the broker entry path.
pub open spec fn expected_at_broker(cells: Seq<CellView>) -> bool {
    exists|k: int| 0 <= k < cells.len() && (#[trigger] cells[k]).0 == EntryPath::Broker && cells[k].2
}


// ---------------------------------------------------------------------------
// The registry
// ---------------------------------------------------------------------------

/// The `Debug` name of a token arm, the form `ArmExpectancy::token_arm` uses.
pub fn token_arm_name(arm: WindowsTokenArm) -> (r: &'static str)
    ensures
        r@ == token_arm_name_spec(arm),
{
    match arm {
        WindowsTokenArm::Null => "Null",
        WindowsTokenArm::WriteRestricted => "WriteRestricted",
        WindowsTokenArm::LowIlPrimary => "LowIlPrimary",
        WindowsTokenArm::BrokerLaunch => "BrokerLaunch",
        WindowsTokenArm::BrokerLaunchNoPty => "BrokerLaunchNoPty",
    }
}

/// The `Debug` name of a layer, the form required-layer lists use.
pub fn layer_name(id: LayerId) -> (r: &'static str)
    ensures
        r@ == layer_name_spec(id),
{
    match id {
        LayerId::RestrictedToken => "RestrictedToken",
        LayerId::MandatoryIntegrityLabel => "MandatoryIntegrityLabel",
        LayerId::AppContainerProfile => "AppContainerProfile",
        LayerId::DaclSessionSidGrant => "DaclSessionSidGrant",
        LayerId::DaclPackageSidGrant => "DaclPackageSidGrant",
        LayerId::DaclAncestorTraverse => "DaclAncestorTraverse",
        LayerId::DaclAncestorReadAttrs => "DaclAncestorReadAttrs",
        LayerId::WfpEgressFilters => "WfpEgressFilters",
        LayerId::FirewallRulesEgress => "FirewallRulesEgress",
        LayerId::MinifilterAbsence => "MinifilterAbsence",
        LayerId::JobObjectContainment => "JobObjectContainment",
        LayerId::BrokerAuthenticodeTrustGate => "BrokerAuthenticodeTrustGate",
        LayerId::InterpreterCoverageGate => "InterpreterCoverageGate",
    }
}

/// Every layer, in declaration order.
pub fn all_layer_ids() -> (v: Vec<LayerId>)
    ensures
        v@ == layer_ids(),
{
    let v = vec![
        LayerId::RestrictedToken,
        LayerId::MandatoryIntegrityLabel,
        LayerId::AppContainerProfile,
        LayerId::DaclSessionSidGrant,
        LayerId::DaclPackageSidGrant,
        LayerId::DaclAncestorTraverse,
        LayerId::DaclAncestorReadAttrs,
        LayerId::WfpEgressFilters,
        LayerId::FirewallRulesEgress,
        LayerId::MinifilterAbsence,
        LayerId::JobObjectContainment,
        LayerId::BrokerAuthenticodeTrustGate,
        LayerId::InterpreterCoverageGate,
    ];
    assert(v@ =~= layer_ids());
    v
}

/// Exhaustive guard over `LayerId`: every variant is one of `layer_ids()`.
/// The match has no wildcard arm, so a new variant fails to compile until
/// it is handled here and listed in `ALL`.
pub fn assert_all_layer_ids_covered(id: &LayerId)
    ensures
        layer_ids().contains(*id),
{
    let ghost k: int = match id {
        LayerId::RestrictedToken => 0,
        LayerId::MandatoryIntegrityLabel => 1,
        LayerId::AppContainerProfile => 2,
        LayerId::DaclSessionSidGrant => 3,
        LayerId::DaclPackageSidGrant => 4,
        LayerId::DaclAncestorTraverse => 5,
        LayerId::DaclAncestorReadAttrs => 6,
        LayerId::WfpEgressFilters => 7,
        LayerId::FirewallRulesEgress => 8,
        LayerId::MinifilterAbsence => 9,
        LayerId::JobObjectContainment => 10,
        LayerId::BrokerAuthenticodeTrustGate => 11,
        LayerId::InterpreterCoverageGate => 12,
    };
    assert(layer_ids()[k] == *id);
}

fn direct_cli(arm: WindowsTokenArm) -> (a: ArmExpectancy)
    ensures
        cell_view(a) == direct_cli_cell(arm),
{
    ArmExpectancy { entry_path: EntryPath::DirectCli, token_arm: Some(token_arm_name(arm)), expected: true }
}

fn unarmed(path: EntryPath) -> (a: ArmExpectancy)
    ensures
        cell_view(a) == unarmed_cell(path),
{
    ArmExpectancy { entry_path: path, token_arm: None, expected: true }
}

/// Expectancy shared by the rows that apply uniformly across all five
/// direct-CLI token arms.
pub fn all_direct_cli_arms_expectancy() -> (v: Vec<ArmExpectancy>)
    ensures
        v@.map_values(|a: ArmExpectancy| cell_view(a)) == all_direct_cli_cells(),
{
    let v = vec![
        direct_cli(WindowsTokenArm::Null),
        direct_cli(WindowsTokenArm::WriteRestricted),
        direct_cli(WindowsTokenArm::LowIlPrimary),
        direct_cli(WindowsTokenArm::BrokerLaunch),
        direct_cli(WindowsTokenArm::BrokerLaunchNoPty),
    ];
    assert(v@.map_values(|a: ArmExpectancy| cell_view(a)) =~= all_direct_cli_cells());
    v
}

fn package_sid_scoped_expectancy() -> (v: Vec<ArmExpectancy>)
    ensures
        v@.map_values(|a: ArmExpectancy| cell_view(a)) == package_sid_cells(),
{
    let v = vec![direct_cli(WindowsTokenArm::BrokerLaunchNoPty), unarmed(EntryPath::Daemon)];
    assert(v@.map_values(|a: ArmExpectancy| cell_view(a)) =~= package_sid_cells());
    v
}

/// The registry row of one layer.
#[verifier::rlimit(30)]
pub fn registry_row(id: LayerId) -> (e: LayerRegistryEntry)
    ensures
        is_row_for(e, id),
{
    let e = match id {
        LayerId::RestrictedToken => {
            LayerRegistryEntry {
                id,
                name: "restricted-token",
                call_sites: vec!["restricted_token.rs:55", "launch.rs:1403"],
                expectancy: vec![direct_cli(WindowsTokenArm::WriteRestricted)],
                outcome: ContractOutcome::Abort,
                probe: ProbeKind::LiveTokenOrJobQuery,
            }
        },
        LayerId::MandatoryIntegrityLabel => {
            let mut cells = all_direct_cli_arms_expectancy();
            cells.push(unarmed(EntryPath::Broker));
            LayerRegistryEntry {
                id,
                name: "mandatory-integrity-label",
                call_sites: vec!["labels_guard.rs:83", "mod.rs:425", "nono-shell-broker/src/main.rs:615-644"],
                expectancy: cells,
                outcome: ContractOutcome::Abort,
                probe: ProbeKind::ConfiguredOnly,
            }
        },
        LayerId::AppContainerProfile => {
            LayerRegistryEntry {
                id,
                name: "app-container-profile",
                call_sites: vec!["nono-shell-broker/src/main.rs:322-336", "nono-shell-broker/src/main.rs:536-556", "agent_daemon/launch.rs:636-650"],
                expectancy: vec![unarmed(EntryPath::Broker), unarmed(EntryPath::Daemon)],
                outcome: ContractOutcome::Abort,
                probe: ProbeKind::LiveTokenOrJobQuery,
            }
        },
        LayerId::DaclSessionSidGrant => {
            LayerRegistryEntry {
                id,
                name: "dacl-session-sid-grant",
                call_sites: vec!["dacl_guard.rs:92", "mod.rs:436-440"],
                expectancy: vec![direct_cli(WindowsTokenArm::WriteRestricted)],
                outcome: ContractOutcome::Abort,
                probe: ProbeKind::ConfiguredOnly,
            }
        },
        LayerId::DaclPackageSidGrant => {
            LayerRegistryEntry {
                id,
                name: "dacl-package-sid-grant",
                call_sites: vec!["dacl_guard.rs:92", "mod.rs:436-440", "agent_daemon/launch.rs:133", "agent_daemon/launch.rs:764"],
                expectancy: package_sid_scoped_expectancy(),
                outcome: ContractOutcome::Abort,
                probe: ProbeKind::ConfiguredOnly,
            }
        },
        LayerId::DaclAncestorTraverse => {
            LayerRegistryEntry {
                id,
                name: "dacl-ancestor-traverse",
                call_sites: vec!["dacl_guard.rs:236", "mod.rs:449-455"],
                expectancy: package_sid_scoped_expectancy(),
                outcome: ContractOutcome::Abort,
                probe: ProbeKind::ConfiguredOnly,
            }
        },
        LayerId::DaclAncestorReadAttrs => {
            LayerRegistryEntry {
                id,
                name: "dacl-ancestor-read-attrs",
                call_sites: vec!["dacl_guard.rs:401", "mod.rs:473-482"],
                expectancy: package_sid_scoped_expectancy(),
                outcome: ContractOutcome::Abort,
                probe: ProbeKind::ConfiguredOnly,
            }
        },
        LayerId::WfpEgressFilters => {
            LayerRegistryEntry {
                id,
                name: "wfp-egress-filters",
                call_sites: vec!["network.rs:1602-1610", "network.rs:1730", "network.rs:1775-1800", "agent_daemon/launch.rs:444"],
                expectancy: package_sid_scoped_expectancy(),
                outcome: ContractOutcome::Abort,
                probe: ProbeKind::ConfirmedByEnforcingComponentReport,
            }
        },
        LayerId::FirewallRulesEgress => {
            LayerRegistryEntry {
                id,
                name: "firewall-rules-egress",
                call_sites: vec!["network.rs:1500-1533", "network.rs:1535-1594"],
                expectancy: all_direct_cli_arms_expectancy(),
                outcome: ContractOutcome::Abort,
                probe: ProbeKind::ConfiguredOnly,
            }
        },
        LayerId::MinifilterAbsence => {
            LayerRegistryEntry {
                id,
                name: "minifilter-absence",
                call_sites: vec![],
                expectancy: vec![unarmed(EntryPath::DirectCli), unarmed(EntryPath::Broker), unarmed(EntryPath::Daemon)],
                outcome: ContractOutcome::FailOpen {
                justification: "ADR-65: no minifilter exists; per-file read policy inside one directory is explicitly not claimed",
            },
                probe: ProbeKind::NotApplicable,
            }
        },
        LayerId::JobObjectContainment => {
            let mut cells = all_direct_cli_arms_expectancy();
            cells.push(unarmed(EntryPath::Daemon));
            LayerRegistryEntry {
                id,
                name: "job-object-containment",
                call_sites: vec!["launch.rs:375", "launch.rs:2134-2137", "agent_daemon/launch.rs:959", "agent_daemon/launch.rs:1049"],
                expectancy: cells,
                outcome: ContractOutcome::Abort,
                probe: ProbeKind::LiveTokenOrJobQuery,
            }
        },
        LayerId::BrokerAuthenticodeTrustGate => {
            LayerRegistryEntry {
                id,
                name: "broker-authenticode-trust-gate",
                call_sites: vec!["launch.rs:1505-1506", "launch.rs:1828-1829", "launch.rs:2190", "launch.rs:2236"],
                expectancy: vec![direct_cli(WindowsTokenArm::BrokerLaunch), direct_cli(WindowsTokenArm::BrokerLaunchNoPty)],
                outcome: ContractOutcome::Abort,
                probe: ProbeKind::ConfiguredOnly,
            }
        },
        LayerId::InterpreterCoverageGate => {
            LayerRegistryEntry {
                id,
                name: "interpreter-coverage-gate",
                call_sites: vec!["crates/nono/src/sandbox/windows.rs:2247", "crates/nono/src/sandbox/mod.rs:925", "mod.rs:357-362"],
                expectancy: all_direct_cli_arms_expectancy(),
                outcome: ContractOutcome::Abort,
                probe: ProbeKind::NotApplicable,
            }
        },
    };
    assert(e.call_sites@.map_values(|s: &'static str| s@) =~= entry_call_sites(id));
    assert(e.expectancy@.map_values(|a: ArmExpectancy| cell_view(a)) =~= entry_cells(id));
    e
}

/// The layer registry: on Windows one row per layer in declaration order;
/// elsewhere it is empty (only the population is platform-specific).
pub fn all_entries(on_windows: bool) -> (r: Vec<LayerRegistryEntry>)
    ensures
        on_windows ==> r.len() == layer_ids().len(),
        !on_windows ==> r.len() == 0,
        forall|i: int| 0 <= i < r.len() ==> is_row_for(#[trigger] r[i], layer_ids()[i]),
{
    if !on_windows {
        return Vec::new();
    }
    let ids = all_layer_ids();
    let mut r: Vec<LayerRegistryEntry> = Vec::new();
    for i in 0..ids.len()
        invariant
            ids@ == layer_ids(),
            r.len() == i,
            forall|j: int| 0 <= j < i ==> is_row_for(#[trigger] r[j], layer_ids()[j]),
    {
        r.push(registry_row(ids[i]));
    }
    r
}


// ---------------------------------------------------------------------------
// Laws of the registry
// ---------------------------------------------------------------------------

/// Every row expected at the broker entry path whose presence can be
/// attested (its probe is not `NotApplicable`) has the `Abort` outcome: a
/// broker-expected row with any other outcome would go unattested on the
/// broker arm.
pub proof fn lemma_broker_expected_rows_are_abort_only(e: LayerRegistryEntry, id: LayerId)
    requires
        is_row_for(e, id),
        e.probe != ProbeKind::NotApplicable,
        expected_at_broker(e.expectancy@.map_values(|a: ArmExpectancy| cell_view(a))),
    ensures
        e.outcome is Abort,
{
    let cells = entry_cells(id);
    let k = choose|k: int| 0 <= k < cells.len() && (#[trigger] cells[k]).0 == EntryPath::Broker && cells[k].2;
    match id {
        LayerId::MinifilterAbsence => {},
        _ => {},
    }
}

/// Every enforcing call site a row cites names a Rust source line
/// (`file.rs:line`).
pub proof fn lemma_call_sites_cite_source_lines(id: LayerId)
    ensures
        forall|j: int| 0 <= j < entry_call_sites(id).len() ==> has_infix(#[trigger] entry_call_sites(id)[j], ".rs:"@),
{
    reveal_strlit(".rs:");
    match id {
        LayerId::RestrictedToken => {
            reveal_strlit("restricted_token.rs:55");
            assert("restricted_token.rs:55"@.subrange(16, 20) =~= ".rs:"@);
            assert(occurs_at("restricted_token.rs:55"@, ".rs:"@, 16));
            reveal_strlit("launch.rs:1403");
            assert("launch.rs:1403"@.subrange(6, 10) =~= ".rs:"@);
            assert(occurs_at("launch.rs:1403"@, ".rs:"@, 6));
        },
        LayerId::MandatoryIntegrityLabel => {
            reveal_strlit("labels_guard.rs:83");
            assert("labels_guard.rs:83"@.subrange(12, 16) =~= ".rs:"@);
            assert(occurs_at("labels_guard.rs:83"@, ".rs:"@, 12));
            reveal_strlit("mod.rs:425");
            assert("mod.rs:425"@.subrange(3, 7) =~= ".rs:"@);
            assert(occurs_at("mod.rs:425"@, ".rs:"@, 3));
            reveal_strlit("nono-shell-broker/src/main.rs:615-644");
            assert("nono-shell-broker/src/main.rs:615-644"@.subrange(26, 30) =~= ".rs:"@);
            assert(occurs_at("nono-shell-broker/src/main.rs:615-644"@, ".rs:"@, 26));
        },
        LayerId::AppContainerProfile => {
            reveal_strlit("nono-shell-broker/src/main.rs:322-336");
            assert("nono-shell-broker/src/main.rs:322-336"@.subrange(26, 30) =~= ".rs:"@);
            assert(occurs_at("nono-shell-broker/src/main.rs:322-336"@, ".rs:"@, 26));
            reveal_strlit("nono-shell-broker/src/main.rs:536-556");
            assert("nono-shell-broker/src/main.rs:536-556"@.subrange(26, 30) =~= ".rs:"@);
            assert(occurs_at("nono-shell-broker/src/main.rs:536-556"@, ".rs:"@, 26));
            reveal_strlit("agent_daemon/launch.rs:636-650");
            assert("agent_daemon/launch.rs:636-650"@.subrange(19, 23) =~= ".rs:"@);
            assert(occurs_at("agent_daemon/launch.rs:636-650"@, ".rs:"@, 19));
        },
        LayerId::DaclSessionSidGrant => {
            reveal_strlit("dacl_guard.rs:92");
            assert("dacl_guard.rs:92"@.subrange(10, 14) =~= ".rs:"@);
            assert(occurs_at("dacl_guard.rs:92"@, ".rs:"@, 10));
            reveal_strlit("mod.rs:436-440");
            assert("mod.rs:436-440"@.subrange(3, 7) =~= ".rs:"@);
            assert(occurs_at("mod.rs:436-440"@, ".rs:"@, 3));
        },
        LayerId::DaclPackageSidGrant => {
            reveal_strlit("dacl_guard.rs:92");
            assert("dacl_guard.rs:92"@.subrange(10, 14) =~= ".rs:"@);
            assert(occurs_at("dacl_guard.rs:92"@, ".rs:"@, 10));
            reveal_strlit("mod.rs:436-440");
            assert("mod.rs:436-440"@.subrange(3, 7) =~= ".rs:"@);
            assert(occurs_at("mod.rs:436-440"@, ".rs:"@, 3));
            reveal_strlit("agent_daemon/launch.rs:133");
            assert("agent_daemon/launch.rs:133"@.subrange(19, 23) =~= ".rs:"@);
            assert(occurs_at("agent_daemon/launch.rs:133"@, ".rs:"@, 19));
            reveal_strlit("agent_daemon/launch.rs:764");
            assert("agent_daemon/launch.rs:764"@.subrange(19, 23) =~= ".rs:"@);
            assert(occurs_at("agent_daemon/launch.rs:764"@, ".rs:"@, 19));
        },
        LayerId::DaclAncestorTraverse => {
            reveal_strlit("dacl_guard.rs:236");
            assert("dacl_guard.rs:236"@.subrange(10, 14) =~= ".rs:"@);
            assert(occurs_at("dacl_guard.rs:236"@, ".rs:"@, 10));
            reveal_strlit("mod.rs:449-455");
            assert("mod.rs:449-455"@.subrange(3, 7) =~= ".rs:"@);
            assert(occurs_at("mod.rs:449-455"@, ".rs:"@, 3));
        },
        LayerId::DaclAncestorReadAttrs => {
            reveal_strlit("dacl_guard.rs:401");
            assert("dacl_guard.rs:401"@.subrange(10, 14) =~= ".rs:"@);
            assert(occurs_at("dacl_guard.rs:401"@, ".rs:"@, 10));
            reveal_strlit("mod.rs:473-482");
            assert("mod.rs:473-482"@.subrange(3, 7) =~= ".rs:"@);
            assert(occurs_at("mod.rs:473-482"@, ".rs:"@, 3));
        },
        LayerId::WfpEgressFilters => {
            reveal_strlit("network.rs:1602-1610");
            assert("network.rs:1602-1610"@.subrange(7, 11) =~= ".rs:"@);
            assert(occurs_at("network.rs:1602-1610"@, ".rs:"@, 7));
            reveal_strlit("network.rs:1730");
            assert("network.rs:1730"@.subrange(7, 11) =~= ".rs:"@);
            assert(occurs_at("network.rs:1730"@, ".rs:"@, 7));
            reveal_strlit("network.rs:1775-1800");
            assert("network.rs:1775-1800"@.subrange(7, 11) =~= ".rs:"@);
            assert(occurs_at("network.rs:1775-1800"@, ".rs:"@, 7));
            reveal_strlit("agent_daemon/launch.rs:444");
            assert("agent_daemon/launch.rs:444"@.subrange(19, 23) =~= ".rs:"@);
            assert(occurs_at("agent_daemon/launch.rs:444"@, ".rs:"@, 19));
        },
        LayerId::FirewallRulesEgress => {
            reveal_strlit("network.rs:1500-1533");
            assert("network.rs:1500-1533"@.subrange(7, 11) =~= ".rs:"@);
            assert(occurs_at("network.rs:1500-1533"@, ".rs:"@, 7));
            reveal_strlit("network.rs:1535-1594");
            assert("network.rs:1535-1594"@.subrange(7, 11) =~= ".rs:"@);
            assert(occurs_at("network.rs:1535-1594"@, ".rs:"@, 7));
        },
        LayerId::MinifilterAbsence => {

        },
        LayerId::JobObjectContainment => {
            reveal_strlit("launch.rs:375");
            assert("launch.rs:375"@.subrange(6, 10) =~= ".rs:"@);
            assert(occurs_at("launch.rs:375"@, ".rs:"@, 6));
            reveal_strlit("launch.rs:2134-2137");
            assert("launch.rs:2134-2137"@.subrange(6, 10) =~= ".rs:"@);
            assert(occurs_at("launch.rs:2134-2137"@, ".rs:"@, 6));
            reveal_strlit("agent_daemon/launch.rs:959");
            assert("agent_daemon/launch.rs:959"@.subrange(19, 23) =~= ".rs:"@);
            assert(occurs_at("agent_daemon/launch.rs:959"@, ".rs:"@, 19));
            reveal_strlit("agent_daemon/launch.rs:1049");
            assert("agent_daemon/launch.rs:1049"@.subrange(19, 23) =~= ".rs:"@);
            assert(occurs_at("agent_daemon/launch.rs:1049"@, ".rs:"@, 19));
        },
        LayerId::BrokerAuthenticodeTrustGate => {
            reveal_strlit("launch.rs:1505-1506");
            assert("launch.rs:1505-1506"@.subrange(6, 10) =~= ".rs:"@);
            assert(occurs_at("launch.rs:1505-1506"@, ".rs:"@, 6));
            reveal_strlit("launch.rs:1828-1829");
            assert("launch.rs:1828-1829"@.subrange(6, 10) =~= ".rs:"@);
            assert(occurs_at("launch.rs:1828-1829"@, ".rs:"@, 6));
            reveal_strlit("launch.rs:2190");
            assert("launch.rs:2190"@.subrange(6, 10) =~= ".rs:"@);
            assert(occurs_at("launch.rs:2190"@, ".rs:"@, 6));
            reveal_strlit("launch.rs:2236");
            assert("launch.rs:2236"@.subrange(6, 10) =~= ".rs:"@);
            assert(occurs_at("launch.rs:2236"@, ".rs:"@, 6));
        },
        LayerId::InterpreterCoverageGate => {
            reveal_strlit("crates/nono/src/sandbox/windows.rs:2247");
            assert("crates/nono/src/sandbox/windows.rs:2247"@.subrange(31, 35) =~= ".rs:"@);
            assert(occurs_at("crates/nono/src/sandbox/windows.rs:2247"@, ".rs:"@, 31));
            reveal_strlit("crates/nono/src/sandbox/mod.rs:925");
            assert("crates/nono/src/sandbox/mod.rs:925"@.subrange(27, 31) =~= ".rs:"@);
            assert(occurs_at("crates/nono/src/sandbox/mod.rs:925"@, ".rs:"@, 27));
            reveal_strlit("mod.rs:357-362");
            assert("mod.rs:357-362"@.subrange(3, 7) =~= ".rs:"@);
            assert(occurs_at("mod.rs:357-362"@, ".rs:"@, 3));
        },
    }
}

/// The registry has at least one row expected at the broker entry path.
pub proof fn lemma_some_row_is_broker_expected()
    ensures
        expected_at_broker(entry_cells(LayerId::AppContainerProfile)),
{
    let cells = entry_cells(LayerId::AppContainerProfile);
    assert(cells[0].0 == EntryPath::Broker && cells[0].2);
}

/// The registry lists every layer exactly once.
pub proof fn lemma_registry_covers_every_layer_once(id: LayerId)
    ensures
        layer_ids().contains(id),
        layer_ids().no_duplicates(),
{
    let ids = layer_ids();
    let k: int = match id {
        LayerId::RestrictedToken => 0,
        LayerId::MandatoryIntegrityLabel => 1,
        LayerId::AppContainerProfile => 2,
        LayerId::DaclSessionSidGrant => 3,
        LayerId::DaclPackageSidGrant => 4,
        LayerId::DaclAncestorTraverse => 5,
        LayerId::DaclAncestorReadAttrs => 6,
        LayerId::WfpEgressFilters => 7,
        LayerId::FirewallRulesEgress => 8,
        LayerId::MinifilterAbsence => 9,
        LayerId::JobObjectContainment => 10,
        LayerId::BrokerAuthenticodeTrustGate => 11,
        LayerId::InterpreterCoverageGate => 12,
    };
    assert(ids[k] == id);
    assert forall|i: int, j: int| 0 <= i < ids.len() && 0 <= j < ids.len() && i != j implies ids[i]
        != ids[j] by {}
}

} // verus!
