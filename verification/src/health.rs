//! `nono health`: the states of the install, WFP service, machine policy
//! and scratch/cert/PATH subsystem groups, and the tri-state verdict they
//! aggregate to. The probes' observations (command outputs, environment
//! values, file checks) are taken by the caller; this module decides what
//! they mean.
use crate::error::{error_detail, NonoError};
use crate::text::{
    chars_of, chars_split_second, has_infix, has_prefix, lines, lines_of, split_second,
    str_contains, string_from_chars, to_lowercase, trim, trim_chars, trimmed, unicode_lower,
};
use vstd::prelude::*;

verus! {

/// The aggregated verdict, which the process reports as its exit status.
#[derive(Debug, Clone, Copy, PartialEq, Eq, Structural)]
pub enum HealthVerdict {
    /// All subsystems are OK.
    Healthy,
    /// At least one subsystem is degraded and none is broken.
    Degraded,
    /// At least one subsystem is broken.
    Broken,
}

/// The state of one subsystem or sub-probe.
#[derive(Debug, Clone, PartialEq, Eq)]
pub enum SubsystemState {
    Okay,
    Degraded(String),
    Broken(String),
}

pub open spec fn status_spec(s: SubsystemState) -> Seq<char> {
    match s {
        SubsystemState::Okay => "ok"@,
        SubsystemState::Degraded(_) => "degraded"@,
        SubsystemState::Broken(_) => "broken"@,
    }
}

pub open spec fn detail_spec(s: SubsystemState) -> Option<Seq<char>> {
    match s {
        SubsystemState::Okay => None,
        SubsystemState::Degraded(m) => Some(m@),
        SubsystemState::Broken(m) => Some(m@),
    }
}

impl SubsystemState {
    /// The status word of the state.
    pub fn status_str(&self) -> (r: &'static str)
        ensures
            r@ == status_spec(*self),
    {
        match self {
            SubsystemState::Okay => "ok",
            SubsystemState::Degraded(_) => "degraded",
            SubsystemState::Broken(_) => "broken",
        }
    }

    /// The detail message of a degraded or broken state.
    pub fn detail(&self) -> (r: Option<&str>)
        ensures
            match r {
                Some(d) => detail_spec(*self) == Some(d@),
                None => detail_spec(*self) is None,
            },
    {
        match self {
            SubsystemState::Okay => None,
            SubsystemState::Degraded(msg) => Some(msg.as_str()),
            SubsystemState::Broken(msg) => Some(msg.as_str()),
        }
    }
}

/// Any broken state makes the verdict broken; otherwise any degraded state
/// makes it degraded; otherwise it is healthy.
pub open spec fn aggregate_spec(states: Seq<SubsystemState>) -> HealthVerdict {
    if exists|i: int| 0 <= i < states.len() && states[i] is Broken {
        HealthVerdict::Broken
    } else if exists|i: int| 0 <= i < states.len() && states[i] is Degraded {
        HealthVerdict::Degraded
    } else {
        HealthVerdict::Healthy
    }
}

/// The rank of a verdict, rising from healthy through degraded to broken.
pub open spec fn verdict_rank(v: HealthVerdict) -> int {
    match v {
        HealthVerdict::Healthy => 0,
        HealthVerdict::Degraded => 1,
        HealthVerdict::Broken => 2,
    }
}

/// The rank of one subsystem's state, rising from okay through degraded to broken.
pub open spec fn state_rank(s: SubsystemState) -> int {
    match s {
        SubsystemState::Okay => 0,
        SubsystemState::Degraded(_) => 1,
        SubsystemState::Broken(_) => 2,
    }
}

/// The verdict is the worst state reported, wherever it stands in the
/// list: a broken subsystem anywhere makes the verdict broken; otherwise a
/// degraded one anywhere makes it degraded; only an all-okay list is
/// healthy. So no state is ever ranked above the verdict, and some state
/// (if any) reaches it.
pub proof fn lemma_verdict_is_the_worst_state(states: Seq<SubsystemState>, i: int)
    requires
        0 <= i < states.len(),
    ensures
        state_rank(states[i]) <= verdict_rank(aggregate_spec(states)),
        states[i] is Broken ==> aggregate_spec(states) == HealthVerdict::Broken,
        states[i] is Degraded ==> aggregate_spec(states) != HealthVerdict::Healthy,
        exists|j: int| 0 <= j < states.len() && state_rank(#[trigger] states[j]) == verdict_rank(aggregate_spec(states)),
{
    let v = aggregate_spec(states);
    if states[i] is Broken {
        assert(v == HealthVerdict::Broken);
    }
    if v == HealthVerdict::Broken {
        let j = choose|j: int| 0 <= j < states.len() && states[j] is Broken;
        assert(state_rank(states[j]) == 2);
    } else if v == HealthVerdict::Degraded {
        let j = choose|j: int| 0 <= j < states.len() && states[j] is Degraded;
        assert(state_rank(states[j]) == 1);
    } else {
        assert(state_rank(states[i]) == 0);
    }
}

/// Joining two lists of states gives the worse of their two verdicts: the
/// verdict does not depend on where a state is reported.
pub proof fn lemma_verdict_of_joined_lists(a: Seq<SubsystemState>, b: Seq<SubsystemState>)
    ensures
        verdict_rank(aggregate_spec(a + b)) == if verdict_rank(aggregate_spec(a)) >= verdict_rank(aggregate_spec(b)) {
            verdict_rank(aggregate_spec(a))
        } else {
            verdict_rank(aggregate_spec(b))
        },
{
    let ab = a + b;
    if exists|i: int| 0 <= i < a.len() && a[i] is Broken {
        let i = choose|i: int| 0 <= i < a.len() && a[i] is Broken;
        assert(ab[i] is Broken);
    }
    if exists|i: int| 0 <= i < b.len() && b[i] is Broken {
        let i = choose|i: int| 0 <= i < b.len() && b[i] is Broken;
        assert(ab[a.len() + i] is Broken);
    }
    if exists|i: int| 0 <= i < a.len() && a[i] is Degraded {
        let i = choose|i: int| 0 <= i < a.len() && a[i] is Degraded;
        assert(ab[i] is Degraded);
    }
    if exists|i: int| 0 <= i < b.len() && b[i] is Degraded {
        let i = choose|i: int| 0 <= i < b.len() && b[i] is Degraded;
        assert(ab[a.len() + i] is Degraded);
    }
    if exists|k: int| 0 <= k < ab.len() && ab[k] is Broken {
        let k = choose|k: int| 0 <= k < ab.len() && ab[k] is Broken;
        if k < a.len() {
            assert(a[k] is Broken);
        } else {
            assert(b[k - a.len()] is Broken);
        }
    }
    if exists|k: int| 0 <= k < ab.len() && ab[k] is Degraded {
        let k = choose|k: int| 0 <= k < ab.len() && ab[k] is Degraded;
        if k < a.len() {
            assert(a[k] is Degraded);
        } else {
            assert(b[k - a.len()] is Degraded);
        }
    }
}

/// Aggregates subsystem states into the verdict.
pub fn aggregate(states: &[SubsystemState]) -> (r: HealthVerdict)
    ensures
        r == aggregate_spec(states@),
{
    let mut has_degraded = false;
    let mut i: usize = 0;
    while i < states.len()
        invariant
            i <= states.len(),
            forall|j: int| 0 <= j < i ==> !(states@[j] is Broken),
            has_degraded == exists|j: int| 0 <= j < i && states@[j] is Degraded,
        decreases states.len() - i,
    {
        match &states[i] {
            SubsystemState::Broken(_) => return HealthVerdict::Broken,
            SubsystemState::Degraded(_) => has_degraded = true,
            SubsystemState::Okay => {},
        }
        i = i + 1;
    }
    if has_degraded {
        HealthVerdict::Degraded
    } else {
        HealthVerdict::Healthy
    }
}

/// The verdict word in the JSON report.
pub fn verdict_label(v: HealthVerdict) -> (r: &'static str)
    ensures
        r@ == match v {
            HealthVerdict::Healthy => "healthy"@,
            HealthVerdict::Degraded => "degraded"@,
            HealthVerdict::Broken => "broken"@,
        },
{
    match v {
        HealthVerdict::Healthy => "healthy",
        HealthVerdict::Degraded => "degraded",
        HealthVerdict::Broken => "broken",
    }
}

/// The verdict word in the human summary.
pub fn verdict_banner(v: HealthVerdict) -> (r: &'static str)
    ensures
        r@ == match v {
            HealthVerdict::Healthy => "HEALTHY"@,
            HealthVerdict::Degraded => "DEGRADED"@,
            HealthVerdict::Broken => "BROKEN"@,
        },
{
    match v {
        HealthVerdict::Healthy => "HEALTHY",
        HealthVerdict::Degraded => "DEGRADED",
        HealthVerdict::Broken => "BROKEN",
    }
}

/// The process exit code of a verdict.
pub fn verdict_exit_code(v: HealthVerdict) -> (r: i32)
    ensures
        r == match v {
            HealthVerdict::Healthy => 0i32,
            HealthVerdict::Degraded => 1i32,
            HealthVerdict::Broken => 2i32,
        },
{
    match v {
        HealthVerdict::Healthy => 0,
        HealthVerdict::Degraded => 1,
        HealthVerdict::Broken => 2,
    }
}

/// The first detail among the states, in order.
pub open spec fn first_detail(states: Seq<SubsystemState>) -> Option<Seq<char>>
    decreases states.len(),
{
    if states.len() == 0 {
        None
    } else {
        match detail_spec(states[0]) {
            Some(d) => Some(d),
            None => first_detail(states.drop_first()),
        }
    }
}

/// The detail reported for a group of probes: the first probe's detail, if any.
pub fn group_detail(states: &[SubsystemState]) -> (r: Option<String>)
    ensures
        match r {
            Some(d) => first_detail(states@) == Some(d@),
            None => first_detail(states@) is None,
        },
{
    let mut i: usize = 0;
    assert(states@.skip(0) =~= states@);
    while i < states.len()
        invariant
            i <= states.len(),
            first_detail(states@) == first_detail(states@.skip(i as int)),
        decreases states.len() - i,
    {
        assert(states@.skip(i as int).drop_first() =~= states@.skip(i as int + 1));
        match states[i].detail() {
            Some(d) => {
                let mut r = String::new();
                r.append(d);
                return Some(r);
            },
            None => {},
        }
        i = i + 1;
    }
    None
}

// ---------------------------------------------------------------------------
// Reading the probes' observations
// ---------------------------------------------------------------------------

/// The captured result of a finished command.
#[derive(Debug, Clone)]
pub struct CommandOutput {
    pub success: bool,
    pub stdout: String,
    pub stderr: String,
}

fn degraded(a: &str, b: &str) -> (r: SubsystemState)
    ensures
        r matches SubsystemState::Degraded(m) && m@ == a@ + b@,
{
    let mut m = String::from_str(a);
    m.append(b);
    SubsystemState::Degraded(m)
}

fn degraded_lit(a: &str) -> (r: SubsystemState)
    ensures
        r matches SubsystemState::Degraded(m) && m@ == a@,
{
    SubsystemState::Degraded(String::from_str(a))
}

/// `s` is degraded with the detail `m`.
pub open spec fn is_degraded(s: SubsystemState, m: Seq<char>) -> bool {
    s matches SubsystemState::Degraded(d) && d@ == m
}

/// `s` is broken with the detail `m`.
pub open spec fn is_broken(s: SubsystemState, m: Seq<char>) -> bool {
    s matches SubsystemState::Broken(d) && d@ == m
}

/// The WFP service state from `sc query nono-wfp-service`: when the query
/// succeeded or mentions a state, running is OK and stopped or any other
/// state is degraded; otherwise the service is not installed (degraded).
pub open spec fn wfp_service_spec(on_windows: bool, query: Result<CommandOutput, String>, r: SubsystemState) -> bool {
    if !on_windows {
        is_degraded(r, "nono health: WFP service probe is Windows-only"@)
    } else {
        match query {
            Err(e) => is_degraded(r, "sc query failed to spawn: "@ + e@),
            Ok(out) => {
                let lower = unicode_lower(out.stdout@);
                if out.success || has_infix(lower, "state"@) {
                    if has_infix(lower, "running"@) {
                        r == SubsystemState::Okay
                    } else if has_infix(lower, "stopped"@) {
                        is_degraded(r, "nono-wfp-service is installed but stopped"@)
                    } else {
                        is_degraded(r, "nono-wfp-service is in an intermediate state"@)
                    }
                } else {
                    is_degraded(r, "nono-wfp-service is not installed (WFP network filtering unavailable)"@)
                }
            },
        }
    }
}

/// Reads the WFP service subsystem state from the service query.
pub fn probe_wfp_service(on_windows: bool, query: Result<CommandOutput, String>) -> (r: SubsystemState)
    ensures
        wfp_service_spec(on_windows, query, r),
{
    if !on_windows {
        return degraded_lit("nono health: WFP service probe is Windows-only");
    }
    match query {
        Err(e) => degraded("sc query failed to spawn: ", e.as_str()),
        Ok(out) => {
            let lower = to_lowercase(out.stdout.as_str());
            if out.success || str_contains(lower.as_str(), "state") {
                if str_contains(lower.as_str(), "running") {
                    SubsystemState::Okay
                } else if str_contains(lower.as_str(), "stopped") {
                    degraded_lit("nono-wfp-service is installed but stopped")
                } else {
                    degraded_lit("nono-wfp-service is in an intermediate state")
                }
            } else {
                degraded_lit("nono-wfp-service is not installed (WFP network filtering unavailable)")
            }
        },
    }
}

/// The machine policy state from `reg query HKLM\SOFTWARE\Policies\nono`: a
/// successful query is OK; an access-denied failure means present but
/// unreadable; any other failure means not configured. Both are degraded.
pub open spec fn machine_policy_spec(on_windows: bool, query: Result<CommandOutput, String>, r: SubsystemState) -> bool {
    if !on_windows {
        is_degraded(r, "nono health: machine policy probe is Windows-only"@)
    } else {
        match query {
            Err(e) => is_degraded(r, "reg query failed to spawn: "@ + e@),
            Ok(out) => if out.success {
                r == SubsystemState::Okay
            } else if has_infix(unicode_lower(out.stdout@ + out.stderr@), "access denied"@) {
                is_degraded(r, "HKLM\\SOFTWARE\\Policies\\nono is present but unreadable (access denied)"@)
            } else {
                is_degraded(r, "HKLM\\SOFTWARE\\Policies\\nono is not configured (machine policy not deployed)"@)
            },
        }
    }
}

/// Reads the machine policy subsystem state from the registry query.
pub fn probe_machine_policy(on_windows: bool, query: Result<CommandOutput, String>) -> (r: SubsystemState)
    ensures
        machine_policy_spec(on_windows, query, r),
{
    if !on_windows {
        return degraded_lit("nono health: machine policy probe is Windows-only");
    }
    match query {
        Err(e) => degraded("reg query failed to spawn: ", e.as_str()),
        Ok(out) => {
            if out.success {
                return SubsystemState::Okay;
            }
            let mut combined = out.stdout.clone();
            combined.append(out.stderr.as_str());
            let lower = to_lowercase(combined.as_str());
            if str_contains(lower.as_str(), "access denied") {
                degraded_lit("HKLM\\SOFTWARE\\Policies\\nono is present but unreadable (access denied)")
            } else {
                degraded_lit("HKLM\\SOFTWARE\\Policies\\nono is not configured (machine policy not deployed)")
            }
        },
    }
}

/// SHA-1 thumbprint of the proof-of-concept root certificate.
pub const POC_CERT_SHA1: &'static str = "319e507e950472d490f56f7c4cd94437c013cc06";

/// The machine certificate store state from `certutil -store Root`: the
/// query must succeed and its output mention the thumbprint, a cert hash,
/// or nono.
pub open spec fn cert_machine_spec(query: Result<CommandOutput, String>, r: SubsystemState) -> bool {
    match query {
        Err(e) => is_degraded(r, "certutil -store probe failed: "@ + e@),
        Ok(out) => {
            let lower = unicode_lower(out.stdout@);
            if out.success && (has_infix(lower, POC_CERT_SHA1@) || has_infix(lower, "cert hash"@) || has_infix(
                lower,
                "nono"@,
            )) {
                r == SubsystemState::Okay
            } else {
                is_degraded(r, "POC root cert not found in LocalMachine\\Root (TLS through broker/proxy may fail)"@)
            }
        },
    }
}

/// Reads the machine certificate store state from the store query.
pub fn probe_cert_machine_store_windows(query: Result<CommandOutput, String>) -> (r: SubsystemState)
    ensures
        cert_machine_spec(query, r),
{
    match query {
        Err(e) => degraded("certutil -store probe failed: ", e.as_str()),
        Ok(out) => {
            let lower = to_lowercase(out.stdout.as_str());
            if out.success && (str_contains(lower.as_str(), POC_CERT_SHA1) || str_contains(lower.as_str(), "cert hash")
                || str_contains(lower.as_str(), "nono")) {
                SubsystemState::Okay
            } else {
                degraded_lit("POC root cert not found in LocalMachine\\Root (TLS through broker/proxy may fail)")
            }
        },
    }
}

/// Reads the user certificate store state from the presence check.
pub fn probe_cert_user_store_windows(present: Result<bool, NonoError>) -> (r: SubsystemState)
    ensures
        match present {
            Ok(true) => r == SubsystemState::Okay,
            Ok(false) => is_degraded(r, "POC root cert not found in CurrentUser\\Root (run `nono run` to auto-import)"@),
            Err(e) => is_degraded(r, "cert user store probe failed: "@ + error_detail(e)),
        },
{
    match present {
        Ok(true) => SubsystemState::Okay,
        Ok(false) => degraded_lit("POC root cert not found in CurrentUser\\Root (run `nono run` to auto-import)"),
        Err(e) => {
            let d = e.detail();
            degraded("cert user store probe failed: ", d.as_str())
        },
    }
}

/// The scratch directory state: `%LOCALAPPDATA%` must be set and not blank,
/// the scratch directory must exist, and it must be owned by the user.
pub open spec fn scratch_spec(local_app_data: Option<String>, exists: bool, owned: Result<bool, NonoError>, r: SubsystemState) -> bool {
    match local_app_data {
        None => is_degraded(r, "scratch probe: %LOCALAPPDATA% is not set"@),
        Some(v) => if trim(v@).len() == 0 {
            is_degraded(r, "scratch probe: %LOCALAPPDATA% is not set"@)
        } else if !exists {
            is_degraded(r, "user scratch directory is not provisioned (run `nono run` to auto-provision)"@)
        } else {
            match owned {
                Ok(true) => r == SubsystemState::Okay,
                Ok(false) => is_degraded(
                    r,
                    "scratch dir exists but is not owned by the current user (R-B3 guard will fail)"@,
                ),
                Err(e) => is_degraded(r, "scratch ownership check failed: "@ + error_detail(e)),
            }
        },
    }
}

/// Reads the scratch directory state from the environment value and the
/// directory checks.
pub fn probe_scratch_windows(local_app_data: Option<String>, scratch_exists: bool, owned: Result<bool, NonoError>) -> (r: SubsystemState)
    ensures
        scratch_spec(local_app_data, scratch_exists, owned, r),
{
    match &local_app_data {
        None => return degraded_lit("scratch probe: %LOCALAPPDATA% is not set"),
        Some(v) => {
            let t = trimmed(v.as_str());
            if t.as_str().is_empty() {
                return degraded_lit("scratch probe: %LOCALAPPDATA% is not set");
            }
        },
    }
    if !scratch_exists {
        return degraded_lit("user scratch directory is not provisioned (run `nono run` to auto-provision)");
    }
    match owned {
        Ok(true) => SubsystemState::Okay,
        Ok(false) => degraded_lit("scratch dir exists but is not owned by the current user (R-B3 guard will fail)"),
        Err(e) => {
            let d = e.detail();
            degraded("scratch ownership check failed: ", d.as_str())
        },
    }
}

/// The PATH state: the machine PATH must contain the install folder
/// (compared lower-cased); an unreadable machine PATH is degraded; and a
/// current PATH lacking the install folder adds a warning.
pub open spec fn path_spec(
    install_folder: Option<String>,
    machine_path: Option<String>,
    current_path: Option<String>,
    r: (SubsystemState, Option<String>),
) -> bool {
    match install_folder {
        None => is_broken(r.0, "cannot determine INSTALLFOLDER (current_exe failed)"@) && r.1 is None,
        Some(f) => {
            let install = unicode_lower(f@);
            &&& match machine_path {
                Some(mp) => if has_infix(unicode_lower(mp@), install) {
                    r.0 == SubsystemState::Okay
                } else {
                    is_broken(r.0, "INSTALLFOLDER is not in the machine PATH registry value (DEPLOY-02 not satisfied)"@)
                },
                None => is_degraded(r.0, "cannot read machine PATH from registry; PATH coverage uncertain"@),
            }
            &&& match current_path {
                Some(cp) => if !has_infix(unicode_lower(cp@), install) {
                    r.1 matches Some(w) && w@
                        == "current shell PATH does not include INSTALLFOLDER; re-login or refresh PATH to pick up the install"@
                } else {
                    r.1 is None
                },
                None => r.1 is None,
            }
        },
    }
}

/// Reads the PATH state from the install folder, the machine PATH and the
/// current process PATH.
pub fn probe_path_windows(install_folder: Option<String>, machine_path: Option<String>, current_path: Option<String>) -> (r: (SubsystemState, Option<String>))
    ensures
        path_spec(install_folder, machine_path, current_path, r),
{
    let folder = match &install_folder {
        None => {
            return (
                SubsystemState::Broken(String::from_str("cannot determine INSTALLFOLDER (current_exe failed)")),
                None,
            );
        },
        Some(f) => f,
    };
    let install = to_lowercase(folder.as_str());
    let state = match &machine_path {
        Some(mp) => {
            let l = to_lowercase(mp.as_str());
            let lc = chars_of(l.as_str());
            let ic = chars_of(install.as_str());
            if crate::text::chars_contains(lc.as_slice(), ic.as_slice()) {
                SubsystemState::Okay
            } else {
                SubsystemState::Broken(
                    String::from_str("INSTALLFOLDER is not in the machine PATH registry value (DEPLOY-02 not satisfied)"),
                )
            }
        },
        None => degraded_lit("cannot read machine PATH from registry; PATH coverage uncertain"),
    };
    let warn = match &current_path {
        Some(cp) => {
            let l = to_lowercase(cp.as_str());
            let lc = chars_of(l.as_str());
            let ic = chars_of(install.as_str());
            if !crate::text::chars_contains(lc.as_slice(), ic.as_slice()) {
                Some(
                    String::from_str(
                        "current shell PATH does not include INSTALLFOLDER; re-login or refresh PATH to pick up the install",
                    ),
                )
            } else {
                None
            }
        },
        None => None,
    };
    (state, warn)
}

/// The machine PATH value from `reg query` output: the first line whose
/// trimmed, lower-cased text starts with "path", taking the trimmed text
/// after its `REG_EXPAND_SZ` marker, else after its `REG_SZ` marker; lines
/// with neither are passed over.
pub open spec fn registry_path_from(ls: Seq<Seq<char>>) -> Option<Seq<char>>
    decreases ls.len(),
{
    if ls.len() == 0 {
        None
    } else {
        let t = trim(ls[0]);
        if has_prefix(unicode_lower(t), "path"@) && split_second(t, "REG_EXPAND_SZ"@) is Some {
            Some(trim(split_second(t, "REG_EXPAND_SZ"@)->0))
        } else if has_prefix(unicode_lower(t), "path"@) && split_second(t, "REG_SZ"@) is Some {
            Some(trim(split_second(t, "REG_SZ"@)->0))
        } else {
            registry_path_from(ls.drop_first())
        }
    }
}

/// Reads the machine PATH value from the registry query's output; `None`
/// when the query failed or no PATH line carries a value.
pub fn query_machine_path_registry(success: bool, stdout: &str) -> (r: Option<String>)
    ensures
        match r {
            Some(v) => success && registry_path_from(lines(stdout@)) == Some(v@),
            None => !success || registry_path_from(lines(stdout@)) is None,
        },
{
    if !success {
        return None;
    }
    let ls = lines_of(stdout);
    let ghost lv = ls@.map_values(|l: Vec<char>| l@);
    let expand: Vec<char> = chars_of("REG_EXPAND_SZ");
    let sz: Vec<char> = chars_of("REG_SZ");
    let mut i: usize = 0;
    assert(lv.skip(0) =~= lv);
    while i < ls.len()
        invariant
            i <= ls.len(),
            lv == ls@.map_values(|l: Vec<char>| l@),
            lv == lines(stdout@),
            success,
            expand@ == "REG_EXPAND_SZ"@,
            sz@ == "REG_SZ"@,
            registry_path_from(lv) == registry_path_from(lv.skip(i as int)),
        decreases ls.len() - i,
    {
        assert(lv.skip(i as int).drop_first() =~= lv.skip(i as int + 1));
        assert(lv.skip(i as int)[0] == ls@[i as int]@);
        let t = trim_chars(ls[i].as_slice());
        let ts = string_from_chars(t.as_slice());
        let lower = to_lowercase(ts.as_str());
        let lc = chars_of(lower.as_str());
        let ghost rest = lv.skip(i as int);
        assert(t@ == trim(rest[0]));
        if crate::text::chars_starts_with_str(lc.as_slice(), "path") {
            proof {
                reveal_strlit("REG_EXPAND_SZ");
                reveal_strlit("REG_SZ");
            }
            match chars_split_second(t.as_slice(), expand.as_slice()) {
                Some(v) => {
                    let tv = trim_chars(v.as_slice());
                    assert(registry_path_from(rest) == Some(tv@));
                    return Some(string_from_chars(tv.as_slice()));
                },
                None => {},
            }
            match chars_split_second(t.as_slice(), sz.as_slice()) {
                Some(v) => {
                    let tv = trim_chars(v.as_slice());
                    assert(registry_path_from(rest) == Some(tv@));
                    return Some(string_from_chars(tv.as_slice()));
                },
                None => {},
            }
        }
        i = i + 1;
    }
    None
}

/// The install group state: the executable must be locatable, have a parent
/// folder, and that folder must exist; the version is then reported.
pub enum InstallFolderProbe {
    /// The current executable could not be located; the error text.
    ExeUnavailable(String),
    /// The executable has no parent directory.
    NoParent,
    /// The install folder was found; whether it exists.
    Found(bool),
}

/// Reads the install group state from the install folder probe.
pub fn probe_install_version(on_windows: bool, folder: InstallFolderProbe, version: &str) -> (r: (SubsystemState, Option<String>))
    ensures
        !on_windows ==> is_degraded(r.0, "nono health: install+version probe is Windows-only"@) && r.1 is None,
        on_windows ==> match folder {
            InstallFolderProbe::ExeUnavailable(e) => is_broken(r.0, "current_exe() failed: "@ + e@) && r.1 is None,
            InstallFolderProbe::NoParent => is_broken(r.0, "current_exe() has no parent directory"@) && r.1 is None,
            InstallFolderProbe::Found(false) => is_broken(r.0, "INSTALLFOLDER not found (install may be incomplete)"@)
                && r.1 is None,
            InstallFolderProbe::Found(true) => r.0 == SubsystemState::Okay && (r.1 matches Some(v) && v@ == version@),
        },
{
    if !on_windows {
        return (degraded_lit("nono health: install+version probe is Windows-only"), None);
    }
    match folder {
        InstallFolderProbe::ExeUnavailable(e) => {
            let mut m = String::from_str("current_exe() failed: ");
            m.append(e.as_str());
            (SubsystemState::Broken(m), None)
        },
        InstallFolderProbe::NoParent => (
            SubsystemState::Broken(String::from_str("current_exe() has no parent directory")),
            None,
        ),
        InstallFolderProbe::Found(false) => (
            SubsystemState::Broken(String::from_str("INSTALLFOLDER not found (install may be incomplete)")),
            None,
        ),
        InstallFolderProbe::Found(true) => (SubsystemState::Okay, Some(String::from_str(version))),
    }
}

/// The scratch/cert/PATH group on a platform: on Windows the four probe
/// states and the PATH warning as observed; elsewhere each probe reports
/// that it is Windows-only.
pub fn probe_scratch_cert_path(
    on_windows: bool,
    observed: (SubsystemState, SubsystemState, SubsystemState, SubsystemState, Option<String>),
) -> (r: (SubsystemState, SubsystemState, SubsystemState, SubsystemState, Option<String>))
    ensures
        on_windows ==> r == observed,
        !on_windows ==> is_degraded(r.0, "scratch probe is Windows-only"@) && is_degraded(
            r.1,
            "cert probe is Windows-only"@,
        ) && is_degraded(r.2, "cert probe is Windows-only"@) && is_degraded(r.3, "PATH probe is Windows-only"@)
            && r.4 is None,
{
    if on_windows {
        observed
    } else {
        (
            degraded_lit("scratch probe is Windows-only"),
            degraded_lit("cert probe is Windows-only"),
            degraded_lit("cert probe is Windows-only"),
            degraded_lit("PATH probe is Windows-only"),
            None,
        )
    }
}

} // verus!
