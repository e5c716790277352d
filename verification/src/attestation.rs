//! The CLI-side attestation decision: which layers are required on which
//! arm (read from the layer registry), what a missing layer means (each
//! row's contracted outcome), and how the machine-policy / CLI-flag
//! tighten-only union of required layers is applied.
//!
//! The live observations of the suspended child (its restricted SIDs, job
//! membership, AppContainer SID and integrity level) are taken by the caller
//! and handed in as [`LiveProbeResults`]; this module never touches a process.
use crate::error::NonoError;
use crate::layer_registry::{
    all_entries, all_layer_ids, cell_view, entry_cells, entry_name, entry_probe, expected_at_broker,
    is_row_for, layer_ids, layer_name, layer_name_spec, outcome_matches, token_arm_name, token_arm_name_spec, ArmExpectancy,
    CellView, ContractOutcome, EntryPath, LayerId, LayerRegistryEntry, ProbeKind, WindowsTokenArm,
};
use crate::text::{join, str_eq};
use std::collections::HashSet;
use vstd::prelude::*;

verus! {

/// The environment variable that tells the shell broker which layers it must
/// itself confirm before resuming its grandchild.
pub const BROKER_REQUIRED_LAYERS_ENV_VAR: &'static str = "NONO_BROKER_REQUIRED_LAYERS";

/// The attestation state of one layer.
#[derive(Debug, Clone, Copy, PartialEq, Eq, Structural)]
pub enum LayerAttestationStatus {
    /// Independently observed to be active.
    Confirmed,
    /// Observed to be absent, or the observation itself failed.
    Unconfirmed,
    /// Applied by the supervisor's own call; no independent observation exists.
    EstablishedNotIndependentlyObservable,
    /// Not expected for this launch, or nothing to observe.
    NotApplicable,
}

/// The outcome of attesting a launch.
#[derive(Debug, Clone, PartialEq, Eq)]
pub enum AttestationDecision {
    /// Every expected layer is confirmed.
    Proceed,
    /// The session proceeds with a visibly downgraded claim naming these layers.
    ProceedDowngraded { downgraded: Vec<LayerId> },
    /// A required layer could not be confirmed and its contract demands abort.
    Abort { layer: LayerId, status: LayerAttestationStatus },
}

/// The live observations of the suspended child, taken by the caller.
#[derive(Debug)]
pub struct LiveProbeResults {
    /// The restricting SIDs of the child's token.
    pub restricted_sids: Result<Vec<String>, NonoError>,
    /// Whether the child is assigned to a Job Object.
    pub in_job: Result<bool, NonoError>,
    /// The AppContainer SID of the child's token, if it has one.
    pub app_container_sid: Result<Option<String>, NonoError>,
    /// The integrity-level RID of the child's token.
    pub integrity_level: Result<u32, NonoError>,
}

/// Input to [`attest_and_decide`].
#[derive(Debug)]
pub struct AttestationInput<'a> {
    /// The live observations of the real suspended child.
    pub child_process: LiveProbeResults,
    /// Which binary is spawning the process being attested.
    pub entry_path: EntryPath,
    /// The token arm selected for this launch, or `None` where no arm applies.
    pub token_arm: Option<WindowsTokenArm>,
    /// The already-computed WFP pre-spawn readiness result.
    pub wfp_preconfirmed: bool,
    /// CLI-flag-required layer names (`LayerId` `Debug` names).
    pub required_layers_override: &'a [String],
    /// The machine policy's required layer names.
    pub machine_required_layers: &'a [String],
}

// ---------------------------------------------------------------------------
// Probe positivity
// ---------------------------------------------------------------------------

/// Whether a successful probe value is a positive confirmation (`true`,
/// `Some(..)`, a non-empty `Vec`) or an authoritative negative.
pub trait ProbePositivity {
    spec fn positive_spec(&self) -> bool;

    fn is_positive_confirmation(&self) -> (r: bool)
        ensures
            r == self.positive_spec(),
    ;
}

impl ProbePositivity for bool {
    open spec fn positive_spec(&self) -> bool {
        *self
    }

    fn is_positive_confirmation(&self) -> (r: bool) {
        *self
    }
}

impl<T> ProbePositivity for Option<T> {
    open spec fn positive_spec(&self) -> bool {
        self is Some
    }

    fn is_positive_confirmation(&self) -> (r: bool) {
        self.is_some()
    }
}

impl<T> ProbePositivity for Vec<T> {
    open spec fn positive_spec(&self) -> bool {
        self@.len() > 0
    }

    fn is_positive_confirmation(&self) -> (r: bool) {
        self.len() > 0
    }
}

/// Classification of one probe result: a positive `Ok` value is
/// `Confirmed`; a negative `Ok` value and an `Err` are `Unconfirmed`.
pub open spec fn probe_outcome_spec<T: ProbePositivity>(result: Result<T, NonoError>) -> LayerAttestationStatus {
    match result {
        Ok(v) => if v.positive_spec() {
            LayerAttestationStatus::Confirmed
        } else {
            LayerAttestationStatus::Unconfirmed
        },
        Err(_) => LayerAttestationStatus::Unconfirmed,
    }
}

/// Classifies one probe result.
pub fn classify_probe_outcome<T: ProbePositivity>(result: Result<T, NonoError>) -> (r: LayerAttestationStatus)
    ensures
        r == probe_outcome_spec(result),
{
    match result {
        Ok(value) => if value.is_positive_confirmation() {
            LayerAttestationStatus::Confirmed
        } else {
            LayerAttestationStatus::Unconfirmed
        },
        Err(_) => LayerAttestationStatus::Unconfirmed,
    }
}


// ---------------------------------------------------------------------------
// Row classification
// ---------------------------------------------------------------------------

/// Whether the launch's token arm is the one a registry cell names:
/// `None` matches `None`, `Some(arm)` matches the arm's `Debug` name, and a
/// mixed pair never matches.
pub open spec fn token_arm_matches_spec(input_arm: Option<WindowsTokenArm>, row_arm: Option<Seq<char>>) -> bool {
    match (input_arm, row_arm) {
        (None, None) => true,
        (Some(arm), Some(name)) => token_arm_name_spec(arm) == name,
        _ => false,
    }
}

/// Compares a launch's token arm against a registry cell's arm name.
pub fn token_arm_matches(input_arm: Option<WindowsTokenArm>, row_arm: Option<&'static str>) -> (r: bool)
    ensures
        r == token_arm_matches_spec(
            input_arm,
            match row_arm {
                Some(s) => Some(s@),
                None => None,
            },
        ),
{
    match (input_arm, row_arm) {
        (None, None) => true,
        (Some(arm), Some(name)) => str_eq(token_arm_name(arm), name),
        _ => false,
    }
}

/// The status a live probe gives for a layer. Only four layers have a
/// live probe; any other layer classifies `Unconfirmed` (fail-secure).
pub open spec fn live_probe_spec(id: LayerId, probes: &LiveProbeResults) -> LayerAttestationStatus {
    match id {
        LayerId::RestrictedToken => probe_outcome_spec(probes.restricted_sids),
        LayerId::JobObjectContainment => probe_outcome_spec(probes.in_job),
        LayerId::AppContainerProfile => probe_outcome_spec(probes.app_container_sid),
        LayerId::MandatoryIntegrityLabel => match probes.integrity_level {
            Ok(_) => LayerAttestationStatus::Confirmed,
            Err(_) => LayerAttestationStatus::Unconfirmed,
        },
        _ => LayerAttestationStatus::Unconfirmed,
    }
}

/// A live probe confirms a layer only on positive evidence from the child:
/// restricting SIDs on its token (an empty list confirms nothing), its
/// membership in a Job Object, an AppContainer SID on its token, or a read
/// integrity level. A failed probe, a negative answer, and every layer
/// without a live probe are unconfirmed.
pub proof fn lemma_live_probe_confirms_only_positive_evidence(id: LayerId, p: &LiveProbeResults)
    ensures
        live_probe_spec(id, p) == LayerAttestationStatus::Confirmed || live_probe_spec(id, p)
            == LayerAttestationStatus::Unconfirmed,
        id == LayerId::RestrictedToken ==> (live_probe_spec(id, p) == LayerAttestationStatus::Confirmed <==> (
        p.restricted_sids matches Ok(v) && v@.len() > 0)),
        id == LayerId::JobObjectContainment ==> (live_probe_spec(id, p) == LayerAttestationStatus::Confirmed <==> p.in_job
            == Ok::<bool, NonoError>(true)),
        id == LayerId::AppContainerProfile ==> (live_probe_spec(id, p) == LayerAttestationStatus::Confirmed <==> (
        p.app_container_sid matches Ok(Some(_)))),
        id == LayerId::MandatoryIntegrityLabel ==> (live_probe_spec(id, p) == LayerAttestationStatus::Confirmed
            <==> p.integrity_level is Ok),
        !(id == LayerId::RestrictedToken || id == LayerId::JobObjectContainment || id == LayerId::AppContainerProfile
            || id == LayerId::MandatoryIntegrityLabel) ==> live_probe_spec(id, p) == LayerAttestationStatus::Unconfirmed,
{
}

/// Classifies a layer from the live observations of the child.
pub fn classify_live_probe(id: LayerId, process: &LiveProbeResults) -> (r: LayerAttestationStatus)
    ensures
        r == live_probe_spec(id, process),
{
    match id {
        LayerId::RestrictedToken => match &process.restricted_sids {
            Ok(v) => if v.is_positive_confirmation() {
                LayerAttestationStatus::Confirmed
            } else {
                LayerAttestationStatus::Unconfirmed
            },
            Err(_) => LayerAttestationStatus::Unconfirmed,
        },
        LayerId::JobObjectContainment => match &process.in_job {
            Ok(v) => if v.is_positive_confirmation() {
                LayerAttestationStatus::Confirmed
            } else {
                LayerAttestationStatus::Unconfirmed
            },
            Err(_) => LayerAttestationStatus::Unconfirmed,
        },
        LayerId::AppContainerProfile => match &process.app_container_sid {
            Ok(v) => if v.is_positive_confirmation() {
                LayerAttestationStatus::Confirmed
            } else {
                LayerAttestationStatus::Unconfirmed
            },
            Err(_) => LayerAttestationStatus::Unconfirmed,
        },
        LayerId::MandatoryIntegrityLabel => match &process.integrity_level {
            Ok(_) => LayerAttestationStatus::Confirmed,
            Err(_) => LayerAttestationStatus::Unconfirmed,
        },
        LayerId::DaclSessionSidGrant
        | LayerId::DaclPackageSidGrant
        | LayerId::DaclAncestorTraverse
        | LayerId::DaclAncestorReadAttrs
        | LayerId::WfpEgressFilters
        | LayerId::FirewallRulesEgress
        | LayerId::MinifilterAbsence
        | LayerId::BrokerAuthenticodeTrustGate
        | LayerId::InterpreterCoverageGate => LayerAttestationStatus::Unconfirmed,
    }
}

/// The contract outcome with its text fields taken by their characters.
pub enum OutcomeView {
    Abort,
    DegradeWithVisibleClaim,
    SubstituteEquivalentMechanism(Seq<char>),
    FailOpen,
    FailOpenDefect,
}

pub open spec fn outcome_view(o: ContractOutcome) -> OutcomeView {
    match o {
        ContractOutcome::Abort => OutcomeView::Abort,
        ContractOutcome::DegradeWithVisibleClaim => OutcomeView::DegradeWithVisibleClaim,
        ContractOutcome::SubstituteEquivalentMechanism { alternate } => OutcomeView::SubstituteEquivalentMechanism(alternate@),
        ContractOutcome::FailOpen { .. } => OutcomeView::FailOpen,
        ContractOutcome::FailOpenDefect { .. } => OutcomeView::FailOpenDefect,
    }
}

/// What the decision reads of a registry row.
pub struct EntryView {
    pub id: LayerId,
    pub name: Seq<char>,
    pub cells: Seq<CellView>,
    pub outcome: OutcomeView,
    pub probe: ProbeKind,
    pub call_sites: Seq<Seq<char>>,
}

pub open spec fn entry_view(e: LayerRegistryEntry) -> EntryView {
    EntryView {
        id: e.id,
        name: e.name@,
        cells: e.expectancy@.map_values(|a: ArmExpectancy| cell_view(a)),
        outcome: outcome_view(e.outcome),
        probe: e.probe,
        call_sites: e.call_sites@.map_values(|s: &'static str| s@),
    }
}

/// The index of the first cell matching the launch's entry path and token arm.
pub open spec fn first_matching_cell(cells: Seq<CellView>, path: EntryPath, arm: Option<WindowsTokenArm>, from: int) -> Option<int>
    decreases cells.len() - from,
{
    if from < 0 || from >= cells.len() {
        None
    } else if cells[from].0 == path && token_arm_matches_spec(arm, cells[from].1) {
        Some(from)
    } else {
        first_matching_cell(cells, path, arm, from + 1)
    }
}

/// Whether the row is expected for the launch: the first matching cell
/// says so; no matching cell means not expected.
pub open spec fn row_expected(cells: Seq<CellView>, path: EntryPath, arm: Option<WindowsTokenArm>) -> bool {
    match first_matching_cell(cells, path, arm, 0) {
        Some(k) => cells[k].2,
        None => false,
    }
}

/// Classification of one registry row for a launch.
pub open spec fn classify_spec(e: EntryView, input: &AttestationInput) -> LayerAttestationStatus {
    if !row_expected(e.cells, input.entry_path, input.token_arm) {
        LayerAttestationStatus::NotApplicable
    } else {
        match e.probe {
            ProbeKind::LiveTokenOrJobQuery => live_probe_spec(e.id, &input.child_process),
            ProbeKind::ConfirmedByEnforcingComponentReport => if input.wfp_preconfirmed {
                LayerAttestationStatus::Confirmed
            } else {
                LayerAttestationStatus::Unconfirmed
            },
            ProbeKind::ConfiguredOnly => LayerAttestationStatus::EstablishedNotIndependentlyObservable,
            ProbeKind::NotApplicable => LayerAttestationStatus::NotApplicable,
        }
    }
}

/// Classifies one registry row against the launch configuration.
pub fn classify_row(entry: &LayerRegistryEntry, input: &AttestationInput) -> (r: LayerAttestationStatus)
    ensures
        r == classify_spec(entry_view(*entry), input),
{
    let ghost cells = entry.expectancy@.map_values(|a: ArmExpectancy| cell_view(a));
    let mut expected = false;
    let mut i: usize = 0;
    while i < entry.expectancy.len()
        invariant_except_break
            first_matching_cell(cells, input.entry_path, input.token_arm, 0)
                == first_matching_cell(cells, input.entry_path, input.token_arm, i as int),
            !expected,
        invariant
            i <= entry.expectancy.len(),
            cells == entry.expectancy@.map_values(|a: ArmExpectancy| cell_view(a)),
        ensures
            expected == row_expected(cells, input.entry_path, input.token_arm),
        decreases entry.expectancy.len() - i,
    {
        let arm = entry.expectancy[i];
        assert(cells[i as int] == cell_view(arm));
        if arm.entry_path == input.entry_path && token_arm_matches(input.token_arm, arm.token_arm) {
            expected = arm.expected;
            break;
        }
        i = i + 1;
    }
    if !expected {
        return LayerAttestationStatus::NotApplicable;
    }
    match entry.probe {
        ProbeKind::LiveTokenOrJobQuery => classify_live_probe(entry.id, &input.child_process),
        ProbeKind::ConfirmedByEnforcingComponentReport => if input.wfp_preconfirmed {
            LayerAttestationStatus::Confirmed
        } else {
            LayerAttestationStatus::Unconfirmed
        },
        ProbeKind::ConfiguredOnly => LayerAttestationStatus::EstablishedNotIndependentlyObservable,
        ProbeKind::NotApplicable => LayerAttestationStatus::NotApplicable,
    }
}


// ---------------------------------------------------------------------------
// The decision
// ---------------------------------------------------------------------------

/// What one row contributes to the decision.
pub enum RowVerdict {
    /// Nothing: confirmed, not applicable, or a tolerated absence.
    Skip,
    /// The claim is downgraded for this row.
    Downgrade,
    /// The launch aborts on this row with this status.
    Halt(LayerAttestationStatus),
}

/// The decision with its list taken as a sequence.
pub enum DecisionModel {
    Proceed,
    Downgraded(Seq<LayerId>),
    Abort(LayerId, LayerAttestationStatus),
}

pub open spec fn decision_model(d: AttestationDecision) -> DecisionModel {
    match d {
        AttestationDecision::Proceed => DecisionModel::Proceed,
        AttestationDecision::ProceedDowngraded { downgraded } => DecisionModel::Downgraded(downgraded@),
        AttestationDecision::Abort { layer, status } => DecisionModel::Abort(layer, status),
    }
}

/// The required layer names held by a set of strings, by their characters.
pub open spec fn name_set(set: Set<String>) -> Set<Seq<char>> {
    set.map(|x: String| x@)
}

/// The first row of `all` (from index `from`) whose name is `name`.
pub open spec fn find_named(all: Seq<EntryView>, name: Seq<char>, from: int) -> Option<EntryView>
    decreases all.len() - from,
{
    if from < 0 || from >= all.len() {
        None
    } else if all[from].name == name {
        Some(all[from])
    } else {
        find_named(all, name, from + 1)
    }
}

/// A named alternate mechanism is confirmed for this launch.
pub open spec fn alternate_confirmed(all: Seq<EntryView>, alternate: Seq<char>, input: &AttestationInput) -> bool {
    match find_named(all, alternate, 0) {
        Some(a) => classify_spec(a, input) == LayerAttestationStatus::Confirmed,
        None => false,
    }
}

/// The verdict of one row. A row that is not applicable or confirmed
/// contributes nothing. Otherwise a tightened (explicitly required) layer
/// always aborts; untightened, an `Abort` row aborts only when the layer was
/// observed absent and downgrades when it is established but not
/// independently observable; a degrading or defect row downgrades; a
/// fail-open row is tolerated; and a substituted row is tolerated only when
/// its alternate is confirmed.
pub open spec fn row_verdict(e: EntryView, all: Seq<EntryView>, input: &AttestationInput, required: Set<Seq<char>>) -> RowVerdict {
    let status = classify_spec(e, input);
    if status == LayerAttestationStatus::NotApplicable || status == LayerAttestationStatus::Confirmed {
        RowVerdict::Skip
    } else {
        let tightened = required.contains(layer_name_spec(e.id));
        match e.outcome {
            OutcomeView::Abort => if tightened || status == LayerAttestationStatus::Unconfirmed {
                RowVerdict::Halt(status)
            } else {
                RowVerdict::Downgrade
            },
            OutcomeView::DegradeWithVisibleClaim | OutcomeView::FailOpenDefect => if tightened {
                RowVerdict::Halt(status)
            } else {
                RowVerdict::Downgrade
            },
            OutcomeView::FailOpen => if tightened {
                RowVerdict::Halt(status)
            } else {
                RowVerdict::Skip
            },
            OutcomeView::SubstituteEquivalentMechanism(alt) => if alternate_confirmed(all, alt, input) && !tightened {
                RowVerdict::Skip
            } else {
                RowVerdict::Halt(status)
            },
        }
    }
}

/// The first halting row of `rows`, with its status.
pub open spec fn first_halt(rows: Seq<EntryView>, all: Seq<EntryView>, input: &AttestationInput, required: Set<Seq<char>>) -> Option<(LayerId, LayerAttestationStatus)>
    decreases rows.len(),
{
    if rows.len() == 0 {
        None
    } else {
        match first_halt(rows.drop_last(), all, input, required) {
            Some(x) => Some(x),
            None => match row_verdict(rows.last(), all, input, required) {
                RowVerdict::Halt(s) => Some((rows.last().id, s)),
                _ => None,
            },
        }
    }
}

/// The layers of the downgrading rows of `rows`, in order.
pub open spec fn downgraded_ids(rows: Seq<EntryView>, all: Seq<EntryView>, input: &AttestationInput, required: Set<Seq<char>>) -> Seq<LayerId>
    decreases rows.len(),
{
    if rows.len() == 0 {
        seq![]
    } else {
        let prev = downgraded_ids(rows.drop_last(), all, input, required);
        if row_verdict(rows.last(), all, input, required) is Downgrade {
            prev.push(rows.last().id)
        } else {
            prev
        }
    }
}

/// The decision over `rows`: the first halting row aborts; otherwise the
/// claim is downgraded by every downgrading row, or the launch proceeds.
pub open spec fn decide_model(rows: Seq<EntryView>, all: Seq<EntryView>, input: &AttestationInput, required: Set<Seq<char>>) -> DecisionModel {
    match first_halt(rows, all, input, required) {
        Some((layer, status)) => DecisionModel::Abort(layer, status),
        None => {
            let d = downgraded_ids(rows, all, input, required);
            if d.len() == 0 {
                DecisionModel::Proceed
            } else {
                DecisionModel::Downgraded(d)
            }
        },
    }
}

proof fn lemma_first_halt_prefix(rows: Seq<EntryView>, all: Seq<EntryView>, input: &AttestationInput, required: Set<Seq<char>>, j: int)
    requires
        0 <= j <= rows.len(),
        first_halt(rows.take(j), all, input, required) is Some,
    ensures
        first_halt(rows, all, input, required) == first_halt(rows.take(j), all, input, required),
    decreases rows.len(),
{
    if j < rows.len() {
        assert(rows.drop_last().take(j) =~= rows.take(j));
        lemma_first_halt_prefix(rows.drop_last(), all, input, required, j);
    } else {
        assert(rows.take(j) =~= rows);
    }
}

/// `std::collections::HashSet::contains`: true exactly when the set holds a
/// string equal to `name`.
#[verifier::external_body]
fn names_contain(set: &HashSet<String>, name: &str) -> (r: bool)
    ensures
        r == name_set(set@).contains(name@),
{
    set.contains(name)
}

/// `std::collections::HashSet::insert`: afterwards the set holds `name` in
/// addition to what it held before.
#[verifier::external_body]
fn names_insert(set: &mut HashSet<String>, name: String)
    ensures
        name_set(final(set)@) == name_set(old(set)@).insert(name@),
{
    set.insert(name);
}

/// Whether the row named `alternate` (the first such row of `entries`) is
/// confirmed for this launch.
fn alternate_is_confirmed(entries: &[LayerRegistryEntry], alternate: &str, input: &AttestationInput) -> (r: bool)
    ensures
        r == alternate_confirmed(entries@.map_values(|e: LayerRegistryEntry| entry_view(e)), alternate@, input),
{
    let ghost views = entries@.map_values(|e: LayerRegistryEntry| entry_view(e));
    let mut i: usize = 0;
    while i < entries.len()
        invariant
            i <= entries.len(),
            views == entries@.map_values(|e: LayerRegistryEntry| entry_view(e)),
            find_named(views, alternate@, 0) == find_named(views, alternate@, i as int),
        decreases entries.len() - i,
    {
        assert(views[i as int] == entry_view(entries[i as int]));
        if str_eq(entries[i].name, alternate) {
            return classify_row(&entries[i], input) == LayerAttestationStatus::Confirmed;
        }
        i = i + 1;
    }
    false
}

/// Applies each row's contracted outcome, in registry order, to the
/// classification of the launch. `required_names` holds the explicitly
/// required (tightened) layer names.
pub fn decide_from_entries(entries: &[LayerRegistryEntry], input: &AttestationInput, required_names: &HashSet<String>) -> (r: AttestationDecision)
    ensures
        decision_model(r) == decide_model(
            entries@.map_values(|e: LayerRegistryEntry| entry_view(e)),
            entries@.map_values(|e: LayerRegistryEntry| entry_view(e)),
            input,
            name_set(required_names@),
        ),
{
    let ghost views = entries@.map_values(|e: LayerRegistryEntry| entry_view(e));
    let ghost req = name_set(required_names@);
    let mut downgraded: Vec<LayerId> = Vec::new();
    let mut i: usize = 0;
    while i < entries.len()
        invariant
            i <= entries.len(),
            views == entries@.map_values(|e: LayerRegistryEntry| entry_view(e)),
            req == name_set(required_names@),
            first_halt(views.take(i as int), views, input, req) is None,
            downgraded@ == downgraded_ids(views.take(i as int), views, input, req),
        decreases entries.len() - i,
    {
        let entry = &entries[i];
        let ghost ev = entry_view(*entry);
        assert(views[i as int] == ev);
        assert(views.take(i as int + 1).drop_last() =~= views.take(i as int));
        assert(views.take(i as int + 1).last() == ev);
        let status = classify_row(entry, input);
        if status == LayerAttestationStatus::NotApplicable || status == LayerAttestationStatus::Confirmed {
            i = i + 1;
            continue;
        }
        let tightened = names_contain(required_names, layer_name(entry.id));
        let halt: bool = match &entry.outcome {
            ContractOutcome::Abort => {
                if tightened || status == LayerAttestationStatus::Unconfirmed {
                    true
                } else {
                    downgraded.push(entry.id);
                    false
                }
            },
            ContractOutcome::DegradeWithVisibleClaim | ContractOutcome::FailOpenDefect { .. } => {
                if tightened {
                    true
                } else {
                    downgraded.push(entry.id);
                    false
                }
            },
            ContractOutcome::FailOpen { .. } => tightened,
            ContractOutcome::SubstituteEquivalentMechanism { alternate } => {
                let alt_confirmed = alternate_is_confirmed(entries, alternate, input);
                !(alt_confirmed && !tightened)
            },
        };
        if halt {
            proof {
                lemma_first_halt_prefix(views, views, input, req, i as int + 1);
                assert(views.take(views.len() as int) =~= views);
            }
            return AttestationDecision::Abort { layer: entry.id, status };
        }
        i = i + 1;
    }
    assert(views.take(entries.len() as int) =~= views);
    if downgraded.len() == 0 {
        AttestationDecision::Proceed
    } else {
        AttestationDecision::ProceedDowngraded { downgraded }
    }
}


// ---------------------------------------------------------------------------
// Required-layer validation and the decision against the registry
// ---------------------------------------------------------------------------

/// The registry row of `id` as the decision reads it.
pub open spec fn registry_view(id: LayerId) -> EntryView {
    EntryView {
        id,
        name: entry_name(id),
        cells: entry_cells(id),
        outcome: if id == LayerId::MinifilterAbsence {
            OutcomeView::FailOpen
        } else {
            OutcomeView::Abort
        },
        probe: entry_probe(id),
        call_sites: crate::layer_registry::entry_call_sites(id),
    }
}

/// The whole registry as the decision reads it.
pub open spec fn registry_views() -> Seq<EntryView> {
    layer_ids().map_values(|id: LayerId| registry_view(id))
}

/// `name` is the `Debug` name of some layer.
pub open spec fn known_layer_name(name: Seq<char>) -> bool {
    exists|id: LayerId| layer_name_spec(id) == name
}

/// The characters of each string.
pub open spec fn string_views(v: Seq<String>) -> Seq<Seq<char>> {
    v.map_values(|s: String| s@)
}

/// The required names of a launch: the CLI-flag names, then the machine-policy names.
pub open spec fn required_name_seq(input: &AttestationInput) -> Seq<Seq<char>> {
    string_views(input.required_layers_override@) + string_views(input.machine_required_layers@)
}

/// The reason recorded for an unrecognized required-layer name.
pub open spec fn unrecognized_reason() -> Seq<char> {
    "unrecognized required-layer name in machine policy or CLI flag (fail-closed; must match a LayerId Debug-format name)"@
}

proof fn lemma_registry_views(r: Seq<LayerRegistryEntry>)
    requires
        r.len() == layer_ids().len(),
        forall|i: int| 0 <= i < r.len() ==> is_row_for(#[trigger] r[i], layer_ids()[i]),
    ensures
        r.map_values(|e: LayerRegistryEntry| entry_view(e)) == registry_views(),
{
    assert forall|i: int| 0 <= i < r.len() implies entry_view(r[i]) == registry_view(layer_ids()[i]) by {
        assert(is_row_for(r[i], layer_ids()[i]));
        let id = layer_ids()[i];
        assert(outcome_matches(id, r[i].outcome));
    }
    assert(r.map_values(|e: LayerRegistryEntry| entry_view(e)) =~= registry_views());
}

/// Whether `name` is the `Debug` name of some layer.
pub fn is_known_layer_name(name: &str) -> (r: bool)
    ensures
        r == known_layer_name(name@),
{
    let ids = all_layer_ids();
    let mut i: usize = 0;
    while i < ids.len()
        invariant
            i <= ids.len(),
            ids@ == layer_ids(),
            forall|j: int| 0 <= j < i ==> layer_name_spec(#[trigger] layer_ids()[j]) != name@,
        decreases ids.len() - i,
    {
        if str_eq(layer_name(ids[i]), name) {
            return true;
        }
        i = i + 1;
    }
    proof {
        if known_layer_name(name@) {
            let id = choose|id: LayerId| layer_name_spec(id) == name@;
            crate::layer_registry::lemma_registry_covers_every_layer_once(id);
            let k = choose|k: int| 0 <= k < layer_ids().len() && layer_ids()[k] == id;
            assert(layer_name_spec(layer_ids()[k]) != name@);
        }
    }
    false
}

/// Adds each name of `names` to `set` in order, stopping at the first name
/// that is not a layer's `Debug` name and returning its index.
fn collect_required(names: &[String], set: &mut HashSet<String>) -> (r: Option<usize>)
    ensures
        match r {
            Some(k) => k < names.len() && !known_layer_name(names@[k as int]@) && (forall|j: int|
                0 <= j < k ==> known_layer_name(#[trigger] names@[j]@)),
            None => (forall|j: int| 0 <= j < names.len() ==> known_layer_name(#[trigger] names@[j]@))
                && name_set(final(set)@) == name_set(old(set)@).union(string_views(names@).to_set()),
        },
{
    let ghost start = name_set(set@);
    let mut i: usize = 0;
    while i < names.len()
        invariant
            i <= names.len(),
            forall|j: int| 0 <= j < i ==> known_layer_name(#[trigger] names@[j]@),
            name_set(set@) == start.union(string_views(names@.take(i as int)).to_set()),
        decreases names.len() - i,
    {
        if !is_known_layer_name(names[i].as_str()) {
            return Some(i);
        }
        let ghost before = name_set(set@);
        names_insert(set, names[i].clone());
        proof {
            let prefix = string_views(names@.take(i as int));
            let next = string_views(names@.take(i as int + 1));
            assert(next =~= prefix.push(names@[i as int]@));
            assert(next.to_set() =~= prefix.to_set().insert(names@[i as int]@)) by {
                assert forall|x: Seq<char>| next.to_set().contains(x) <==> prefix.to_set().insert(names@[i as int]@).contains(x) by {
                    if next.contains(x) {
                        let k = choose|k: int| 0 <= k < next.len() && next[k] == x;
                        if k < prefix.len() {
                            assert(prefix[k] == x);
                        }
                    }
                    if prefix.contains(x) {
                        let k = choose|k: int| 0 <= k < prefix.len() && prefix[k] == x;
                        assert(next[k] == x);
                    }
                    if x == names@[i as int]@ {
                        assert(next[i as int] == x);
                    }
                }
            }
            assert(name_set(set@) =~= start.union(next.to_set()));
        }
        i = i + 1;
    }
    assert(names@.take(names.len() as int) =~= names@);
    None
}

/// Validates the required-layer names (CLI flag first, then machine
/// policy) and decides the launch against the registry. The first name that
/// is not a layer's `Debug` name is rejected with `LayerAttestationFailed`;
/// an unconfirmed layer is a decision, never an error.
pub fn attest_and_decide(input: AttestationInput) -> (r: Result<AttestationDecision, NonoError>)
    ensures
        match r {
            Err(e) => exists|k: int|
                0 <= k < required_name_seq(&input).len() && !known_layer_name(
                    #[trigger] required_name_seq(&input)[k],
                ) && (forall|j: int| 0 <= j < k ==> known_layer_name(required_name_seq(&input)[j]))
                    && (e matches NonoError::LayerAttestationFailed { layer, reason } && layer@
                    == required_name_seq(&input)[k] && reason@ == unrecognized_reason()),
            Ok(d) => (forall|j: int|
                0 <= j < required_name_seq(&input).len() ==> known_layer_name(
                    #[trigger] required_name_seq(&input)[j],
                )) && decision_model(d) == decide_model(
                registry_views(),
                registry_views(),
                &input,
                required_name_seq(&input).to_set(),
            ),
        },
{
    let ghost names = required_name_seq(&input);
    let ghost o = string_views(input.required_layers_override@);
    let ghost m = string_views(input.machine_required_layers@);
    assert(names =~= o + m);
    let mut required: HashSet<String> = HashSet::new();
    assert(name_set(required@) =~= Set::empty());
    match collect_required(input.required_layers_override, &mut required) {
        Some(k) => {
            let name = input.required_layers_override[k].clone();
            assert(names[k as int] == o[k as int]);
            assert forall|j: int| 0 <= j < k implies known_layer_name(names[j]) by {
                assert(names[j] == o[j]);
            }
            return Err(NonoError::LayerAttestationFailed {
                layer: name,
                reason: String::from_str("unrecognized required-layer name in machine policy or CLI flag (fail-closed; must match a LayerId Debug-format name)"),
            });
        },
        None => {},
    }
    match collect_required(input.machine_required_layers, &mut required) {
        Some(k) => {
            let name = input.machine_required_layers[k].clone();
            assert(names[o.len() + k] == m[k as int]);
            assert forall|j: int| 0 <= j < o.len() + k implies known_layer_name(names[j]) by {
                if j < o.len() {
                    assert(names[j] == o[j]);
                    assert(known_layer_name(input.required_layers_override@[j]@));
                } else {
                    assert(names[j] == m[j - o.len()]);
                    assert(known_layer_name(input.machine_required_layers@[j - o.len()]@));
                }
            }
            return Err(NonoError::LayerAttestationFailed {
                layer: name,
                reason: String::from_str("unrecognized required-layer name in machine policy or CLI flag (fail-closed; must match a LayerId Debug-format name)"),
            });
        },
        None => {},
    }
    proof {
        assert forall|j: int| 0 <= j < names.len() implies known_layer_name(#[trigger] names[j]) by {
            if j < o.len() {
                assert(names[j] == o[j]);
                assert(known_layer_name(input.required_layers_override@[j]@));
            } else {
                assert(names[j] == m[j - o.len()]);
                assert(known_layer_name(input.machine_required_layers@[j - o.len()]@));
            }
        }
        assert(name_set(required@) =~= names.to_set()) by {
            assert forall|x: Seq<char>| name_set(required@).contains(x) <==> names.to_set().contains(x) by {
                if o.to_set().contains(x) {
                    let k = choose|k: int| 0 <= k < o.len() && o[k] == x;
                    assert(names[k] == x);
                }
                if m.to_set().contains(x) {
                    let k = choose|k: int| 0 <= k < m.len() && m[k] == x;
                    assert(names[o.len() + k] == x);
                }
                if names.contains(x) {
                    let k = choose|k: int| 0 <= k < names.len() && names[k] == x;
                    if k < o.len() {
                        assert(o[k] == x);
                    } else {
                        assert(m[k - o.len()] == x);
                    }
                }
            }
        }
    }
    let entries = all_entries(true);
    proof {
        lemma_registry_views(entries@);
    }
    Ok(decide_from_entries(entries.as_slice(), &input, &required))
}

// ---------------------------------------------------------------------------
// The broker wire contract
// ---------------------------------------------------------------------------

/// The `Debug` names of the rows that are expected at the broker entry path
/// and whose outcome is `Abort`, in registry order.
pub open spec fn broker_required(rows: Seq<EntryView>) -> Seq<Seq<char>>
    decreases rows.len(),
{
    if rows.len() == 0 {
        seq![]
    } else {
        let prev = broker_required(rows.drop_last());
        let e = rows.last();
        if e.outcome is Abort && expected_at_broker(e.cells) {
            prev.push(layer_name_spec(e.id))
        } else {
            prev
        }
    }
}

fn is_broker_expected(entry: &LayerRegistryEntry) -> (r: bool)
    ensures
        r == expected_at_broker(entry_view(*entry).cells),
{
    let ghost cells = entry_view(*entry).cells;
    let mut i: usize = 0;
    while i < entry.expectancy.len()
        invariant
            i <= entry.expectancy.len(),
            cells == entry.expectancy@.map_values(|a: ArmExpectancy| cell_view(a)),
            forall|j: int| 0 <= j < i ==> !((#[trigger] cells[j]).0 == EntryPath::Broker && cells[j].2),
        decreases entry.expectancy.len() - i,
    {
        let arm = entry.expectancy[i];
        assert(cells[i as int] == cell_view(arm));
        if arm.entry_path == EntryPath::Broker && arm.expected {
            return true;
        }
        i = i + 1;
    }
    false
}

/// The value of the broker's required-layers environment variable: the
/// comma-joined `Debug` names of the rows expected at the broker entry path
/// with the `Abort` outcome, in registry order.
pub fn required_layers_for_broker(entries: &[LayerRegistryEntry]) -> (r: String)
    ensures
        r@ == join(broker_required(entries@.map_values(|e: LayerRegistryEntry| entry_view(e))), ","@),
{
    let ghost views = entries@.map_values(|e: LayerRegistryEntry| entry_view(e));
    let mut out = String::new();
    let mut any = false;
    let mut i: usize = 0;
    while i < entries.len()
        invariant
            i <= entries.len(),
            views == entries@.map_values(|e: LayerRegistryEntry| entry_view(e)),
            out@ == join(broker_required(views.take(i as int)), ","@),
            any == (broker_required(views.take(i as int)).len() > 0),
        decreases entries.len() - i,
    {
        let entry = &entries[i];
        assert(views[i as int] == entry_view(*entry));
        assert(views.take(i as int + 1).drop_last() =~= views.take(i as int));
        let ghost prev = broker_required(views.take(i as int));
        if matches!(entry.outcome, ContractOutcome::Abort) && is_broker_expected(entry) {
            let name = layer_name(entry.id);
            if any {
                out.append(",");
            }
            out.append(name);
            any = true;
            proof {
                let next = prev.push(layer_name_spec(entry.id));
                assert(next.drop_last() =~= prev);
            }
        }
        i = i + 1;
    }
    assert(views.take(entries.len() as int) =~= views);
    out
}


// ---------------------------------------------------------------------------
// Laws of the decision
// ---------------------------------------------------------------------------

/// How strict a decision is: proceeding, proceeding downgraded, aborting.
pub open spec fn severity(d: DecisionModel) -> int {
    match d {
        DecisionModel::Proceed => 0,
        DecisionModel::Downgraded(_) => 1,
        DecisionModel::Abort(_, _) => 2,
    }
}

proof fn lemma_row_verdict_monotone(e: EntryView, all: Seq<EntryView>, input: &AttestationInput, r1: Set<Seq<char>>, r2: Set<Seq<char>>)
    requires
        r1.subset_of(r2),
    ensures
        row_verdict(e, all, input, r1) is Halt ==> row_verdict(e, all, input, r2) is Halt,
        row_verdict(e, all, input, r1) is Downgrade ==> !(row_verdict(e, all, input, r2) is Skip),
{
}

proof fn lemma_rows_monotone(rows: Seq<EntryView>, all: Seq<EntryView>, input: &AttestationInput, r1: Set<Seq<char>>, r2: Set<Seq<char>>)
    requires
        r1.subset_of(r2),
    ensures
        first_halt(rows, all, input, r1) is Some ==> first_halt(rows, all, input, r2) is Some,
        first_halt(rows, all, input, r1) is None && downgraded_ids(rows, all, input, r1).len() > 0
            ==> first_halt(rows, all, input, r2) is Some || downgraded_ids(rows, all, input, r2).len() > 0,
    decreases rows.len(),
{
    if rows.len() > 0 {
        lemma_rows_monotone(rows.drop_last(), all, input, r1, r2);
        lemma_row_verdict_monotone(rows.last(), all, input, r1, r2);
    }
}

/// Tighten-only: requiring more layers never makes the decision less strict.
/// With a superset of required names the decision is at least as severe
/// (proceed < proceed downgraded < abort).
pub proof fn lemma_tightening_never_relaxes(rows: Seq<EntryView>, all: Seq<EntryView>, input: &AttestationInput, r1: Set<Seq<char>>, r2: Set<Seq<char>>)
    requires
        r1.subset_of(r2),
    ensures
        severity(decide_model(rows, all, input, r1)) <= severity(decide_model(rows, all, input, r2)),
{
    lemma_rows_monotone(rows, all, input, r1, r2);
}

proof fn lemma_rows_agree_without_halt(rows: Seq<EntryView>, all: Seq<EntryView>, input: &AttestationInput, r1: Set<Seq<char>>, r2: Set<Seq<char>>)
    requires
        r1.subset_of(r2),
        first_halt(rows, all, input, r2) is None,
    ensures
        first_halt(rows, all, input, r1) is None,
        downgraded_ids(rows, all, input, r1) == downgraded_ids(rows, all, input, r2),
    decreases rows.len(),
{
    if rows.len() > 0 {
        lemma_rows_agree_without_halt(rows.drop_last(), all, input, r1, r2);
        let e = rows.last();
        assert(!(row_verdict(e, all, input, r2) is Halt));
        if r1.contains(layer_name_spec(e.id)) {
            assert(r2.contains(layer_name_spec(e.id)));
        }
        assert(row_verdict(e, all, input, r1) == row_verdict(e, all, input, r2));
    }
}

/// Tighten-only, the other way: when the stricter requirement does not
/// abort, the looser one gives the very same decision, so tightening only
/// ever turns a launch into an abort.
pub proof fn lemma_tightening_only_adds_aborts(rows: Seq<EntryView>, all: Seq<EntryView>, input: &AttestationInput, r1: Set<Seq<char>>, r2: Set<Seq<char>>)
    requires
        r1.subset_of(r2),
        !(decide_model(rows, all, input, r2) is Abort),
    ensures
        decide_model(rows, all, input, r1) == decide_model(rows, all, input, r2),
{
    lemma_rows_agree_without_halt(rows, all, input, r1, r2);
}

/// A child whose token carries no restricting SIDs is not confined by a
/// restricted token: where that layer is expected, live-probed and its
/// contract is to abort, the row halts the launch as unconfirmed.
pub proof fn lemma_unrestricted_child_token_halts(e: EntryView, all: Seq<EntryView>, input: &AttestationInput, required: Set<Seq<char>>)
    requires
        e.id == LayerId::RestrictedToken,
        e.probe == ProbeKind::LiveTokenOrJobQuery,
        e.outcome == OutcomeView::Abort,
        row_expected(e.cells, input.entry_path, input.token_arm),
        input.child_process.restricted_sids matches Ok(v) && v@.len() == 0,
    ensures
        row_verdict(e, all, input, required) == RowVerdict::Halt(LayerAttestationStatus::Unconfirmed),
{
    lemma_live_probe_confirms_only_positive_evidence(e.id, &input.child_process);
}

/// A row whose layer is confirmed, or not applicable to the launch, never
/// affects the decision: it neither aborts nor downgrades.
pub proof fn lemma_confirmed_rows_are_silent(e: EntryView, all: Seq<EntryView>, input: &AttestationInput, required: Set<Seq<char>>)
    requires
        classify_spec(e, input) == LayerAttestationStatus::Confirmed || classify_spec(e, input)
            == LayerAttestationStatus::NotApplicable,
    ensures
        row_verdict(e, all, input, required) is Skip,
{
}

/// An explicitly required layer that is expected but not confirmed always
/// aborts, whatever the row's own outcome.
pub proof fn lemma_tightened_unconfirmed_row_halts(e: EntryView, all: Seq<EntryView>, input: &AttestationInput, required: Set<Seq<char>>)
    requires
        required.contains(layer_name_spec(e.id)),
        classify_spec(e, input) != LayerAttestationStatus::Confirmed,
        classify_spec(e, input) != LayerAttestationStatus::NotApplicable,
    ensures
        row_verdict(e, all, input, required) == RowVerdict::Halt(classify_spec(e, input)),
{
}

} // verus!
