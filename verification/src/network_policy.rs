//! The Windows network policy of a launch, how it is described, which
//! enforcement backend it selects, the runtime requests sent to the WFP
//! service for it, and the fail-closed installation of WFP enforcement
//! through caller-supplied probe, request and service-start runners.
use crate::error::{err_of, error_detail, error_view, result_view, ErrorKind, ErrorView, NonoError};
use crate::network::{
    debug_response, fails_with, format_response, parse_wfp_runtime_probe_status,
    runtime_probe_failure_text, runtime_status_spec, describe_wfp_runtime_probe_failure,
    WfpProbeConfig, WfpProbeStatus, WfpRuntimeActivationProbeStatus, WfpRuntimeProbeOutput,
    WindowsWfpReport,
};
use crate::text::{decimal, decimal_string, hex_bytes, hex_of_bytes, join, join_strings, string_from_chars, views};
use vstd::prelude::*;

verus! {

// ---------------------------------------------------------------------------
// The policy
// ---------------------------------------------------------------------------

/// What the sandboxed program may do on the network.
#[derive(Debug, Clone)]
pub enum WindowsNetworkPolicyMode {
    /// No restriction beyond the port rules.
    AllowAll,
    /// No network access at all.
    Blocked,
    /// Access only through the local proxy on `port`, with `bind_ports`
    /// open for listening.
    ProxyOnly { port: u16, bind_ports: Vec<u16> },
}

/// A kind of network enforcement backend.
#[derive(Debug, Clone, Copy, PartialEq, Eq, Structural)]
pub enum WindowsNetworkBackendKind {
    NoBackend,
    FirewallRules,
    Wfp,
}

/// The network policy of a launch.
#[derive(Debug, Clone)]
pub struct WindowsNetworkPolicy {
    pub mode: WindowsNetworkPolicyMode,
    pub tcp_connect_ports: Vec<u16>,
    pub tcp_bind_ports: Vec<u16>,
    pub localhost_ports: Vec<u16>,
    /// Descriptions of the capabilities that Windows cannot enforce.
    pub unsupported: Vec<String>,
    pub preferred_backend: WindowsNetworkBackendKind,
    pub active_backend: WindowsNetworkBackendKind,
}

/// A policy mode as plain values.
pub enum ModeView {
    AllowAll,
    Blocked,
    ProxyOnly { port: u16, bind_ports: Seq<u16> },
}

/// A policy as plain values.
pub struct PolicyView {
    pub mode: ModeView,
    pub tcp_connect_ports: Seq<u16>,
    pub tcp_bind_ports: Seq<u16>,
    pub localhost_ports: Seq<u16>,
    pub unsupported: Seq<Seq<char>>,
    pub preferred_backend: WindowsNetworkBackendKind,
    pub active_backend: WindowsNetworkBackendKind,
}

impl View for WindowsNetworkPolicyMode {
    type V = ModeView;

    open spec fn view(&self) -> ModeView {
        match self {
            WindowsNetworkPolicyMode::AllowAll => ModeView::AllowAll,
            WindowsNetworkPolicyMode::Blocked => ModeView::Blocked,
            WindowsNetworkPolicyMode::ProxyOnly { port, bind_ports } => ModeView::ProxyOnly {
                port: *port,
                bind_ports: bind_ports@,
            },
        }
    }
}

impl View for WindowsNetworkPolicy {
    type V = PolicyView;

    open spec fn view(&self) -> PolicyView {
        PolicyView {
            mode: self.mode@,
            tcp_connect_ports: self.tcp_connect_ports@,
            tcp_bind_ports: self.tcp_bind_ports@,
            localhost_ports: self.localhost_ports@,
            unsupported: views(self.unsupported@),
            preferred_backend: self.preferred_backend,
            active_backend: self.active_backend,
        }
    }
}

/// The name of a backend kind.
pub open spec fn kind_label(k: WindowsNetworkBackendKind) -> Seq<char> {
    match k {
        WindowsNetworkBackendKind::NoBackend => "none"@,
        WindowsNetworkBackendKind::FirewallRules => "firewall-rules"@,
        WindowsNetworkBackendKind::Wfp => "wfp"@,
    }
}

/// Whether the policy restricts any port.
pub open spec fn has_port_rules(p: PolicyView) -> bool {
    p.tcp_connect_ports.len() > 0 || p.tcp_bind_ports.len() > 0 || p.localhost_ports.len() > 0
}

/// The one-line summary of the policy's backends.
pub open spec fn backend_summary(p: PolicyView) -> Seq<char> {
    "preferred backend: "@ + kind_label(p.preferred_backend) + ", active backend: "@ + kind_label(
        p.active_backend,
    )
}

impl WindowsNetworkBackendKind {
    /// The name of this backend kind.
    pub fn label(&self) -> (r: &'static str)
        ensures
            r@ == kind_label(*self),
    {
        match self {
            WindowsNetworkBackendKind::NoBackend => "none",
            WindowsNetworkBackendKind::FirewallRules => "firewall-rules",
            WindowsNetworkBackendKind::Wfp => "wfp",
        }
    }
}

impl WindowsNetworkPolicyMode {
    /// A copy of this mode.
    pub fn duplicate(&self) -> (r: WindowsNetworkPolicyMode)
        ensures
            r@ == self@,
    {
        match self {
            WindowsNetworkPolicyMode::AllowAll => WindowsNetworkPolicyMode::AllowAll,
            WindowsNetworkPolicyMode::Blocked => WindowsNetworkPolicyMode::Blocked,
            WindowsNetworkPolicyMode::ProxyOnly { port, bind_ports } => {
                let b = bind_ports.clone();
                assert(b@ =~= bind_ports@);
                WindowsNetworkPolicyMode::ProxyOnly { port: *port, bind_ports: b }
            },
        }
    }
}

impl WindowsNetworkPolicy {
    /// Whether the policy restricts any port.
    pub fn has_port_rules(&self) -> (r: bool)
        ensures
            r == has_port_rules(self@),
    {
        !self.tcp_connect_ports.is_empty() || !self.tcp_bind_ports.is_empty()
            || !self.localhost_ports.is_empty()
    }

    /// Whether Windows can enforce every capability of the launch.
    pub fn is_fully_supported(&self) -> (r: bool)
        ensures
            r == (self@.unsupported.len() == 0),
    {
        self.unsupported.is_empty()
    }

    /// The descriptions of the capabilities that cannot be enforced.
    pub fn unsupported_messages(&self) -> (r: Vec<String>)
        ensures
            views(r@) == self@.unsupported,
    {
        let r = self.unsupported.clone();
        assert(views(r@) =~= self@.unsupported);
        r
    }

    /// The one-line summary of the policy's backends.
    pub fn backend_summary(&self) -> (r: String)
        ensures
            r@ == backend_summary(self@),
    {
        let mut r = String::from_str("preferred backend: ");
        r.append(self.preferred_backend.label());
        r.append(", active backend: ");
        r.append(self.active_backend.label());
        r
    }

    /// A copy of this policy.
    pub fn duplicate(&self) -> (r: WindowsNetworkPolicy)
        ensures
            r@ == self@,
    {
        let mode = self.mode.duplicate();
        let c = self.tcp_connect_ports.clone();
        let b = self.tcp_bind_ports.clone();
        let l = self.localhost_ports.clone();
        let u = self.unsupported.clone();
        assert(c@ =~= self.tcp_connect_ports@);
        assert(b@ =~= self.tcp_bind_ports@);
        assert(l@ =~= self.localhost_ports@);
        assert(views(u@) =~= views(self.unsupported@));
        WindowsNetworkPolicy {
            mode,
            tcp_connect_ports: c,
            tcp_bind_ports: b,
            localhost_ports: l,
            unsupported: u,
            preferred_backend: self.preferred_backend,
            active_backend: self.active_backend,
        }
    }
}

// ---------------------------------------------------------------------------
// Describing the runtime target
// ---------------------------------------------------------------------------

/// `Debug` rendering of a port list: `[80, 443]`.
pub open spec fn debug_ports(s: Seq<u16>) -> Seq<char> {
    "["@ + join(s.map_values(|x: u16| decimal(x as nat)), ", "@) + "]"@
}

/// Renders a port list as `Debug` does.
pub fn format_ports(ports: &[u16]) -> (r: String)
    ensures
        r@ == debug_ports(ports@),
{
    let mut parts: Vec<String> = Vec::new();
    let mut i: usize = 0;
    while i < ports.len()
        invariant
            i <= ports.len(),
            views(parts@) =~= ports@.take(i as int).map_values(|x: u16| decimal(x as nat)),
        decreases ports.len() - i,
    {
        let d = decimal_string(ports[i] as u64);
        let ghost before = parts@;
        let ghost dv = d@;
        parts.push(d);
        proof {
            assert(ports@.take(i + 1) =~= ports@.take(i as int).push(ports@[i as int]));
            assert(views(parts@) =~= views(before).push(dv));
            assert(ports@.take(i + 1).map_values(|x: u16| decimal(x as nat)) =~= ports@.take(
                i as int,
            ).map_values(|x: u16| decimal(x as nat)).push(decimal(ports@[i as int] as nat)));
        }
        i = i + 1;
    }
    assert(ports@.take(ports.len() as int) =~= ports@);
    let inner = join_strings(parts.as_slice(), ", ");
    let mut r = String::from_str("[");
    r.append(inner.as_str());
    r.append("]");
    r
}

/// The access the policy grants, before its port restrictions.
pub open spec fn target_base(m: ModeView) -> Seq<char> {
    match m {
        ModeView::AllowAll => "allow-all Windows network access"@,
        ModeView::Blocked => "blocked Windows network access"@,
        ModeView::ProxyOnly { port, bind_ports } => "Windows proxy-only network access via localhost:"@
            + decimal(port as nat) + " with bind ports "@ + debug_ports(bind_ports),
    }
}

/// One restriction clause for a non-empty port list, none for an empty one.
pub open spec fn restriction(label: Seq<char>, ports: Seq<u16>) -> Seq<Seq<char>> {
    if ports.len() > 0 {
        seq![label + debug_ports(ports)]
    } else {
        Seq::empty()
    }
}

/// The port restrictions of the policy, in the order connect, bind, localhost.
pub open spec fn restrictions(p: PolicyView) -> Seq<Seq<char>> {
    restriction("connect ports "@, p.tcp_connect_ports) + restriction("bind ports "@, p.tcp_bind_ports)
        + restriction("localhost ports "@, p.localhost_ports)
}

/// The description of what the policy asks Windows to enforce.
pub open spec fn runtime_target(p: PolicyView) -> Seq<char> {
    if restrictions(p).len() == 0 {
        target_base(p.mode)
    } else {
        target_base(p.mode) + " with "@ + join(restrictions(p), ", "@)
    }
}

fn push_restriction(parts: &mut Vec<String>, label: &str, ports: &[u16])
    ensures
        views(final(parts)@) == views(old(parts)@) + restriction(label@, ports@),
{
    if ports.len() > 0 {
        let mut m = String::from_str(label);
        let d = format_ports(ports);
        m.append(d.as_str());
        parts.push(m);
        assert(views(final(parts)@) =~= views(old(parts)@) + restriction(label@, ports@));
    } else {
        assert(views(final(parts)@) =~= views(old(parts)@) + restriction(label@, ports@));
    }
}

/// Describes what the policy asks Windows to enforce.
pub fn describe_windows_network_runtime_target(policy: &WindowsNetworkPolicy) -> (r: String)
    ensures
        r@ == runtime_target(policy@),
{
    let base = match &policy.mode {
        WindowsNetworkPolicyMode::AllowAll => String::from_str("allow-all Windows network access"),
        WindowsNetworkPolicyMode::Blocked => String::from_str("blocked Windows network access"),
        WindowsNetworkPolicyMode::ProxyOnly { port, bind_ports } => {
            let mut m = String::from_str("Windows proxy-only network access via localhost:");
            let d = decimal_string(*port as u64);
            m.append(d.as_str());
            m.append(" with bind ports ");
            let b = format_ports(bind_ports.as_slice());
            m.append(b.as_str());
            m
        },
    };
    let mut parts: Vec<String> = Vec::new();
    push_restriction(&mut parts, "connect ports ", policy.tcp_connect_ports.as_slice());
    push_restriction(&mut parts, "bind ports ", policy.tcp_bind_ports.as_slice());
    push_restriction(&mut parts, "localhost ports ", policy.localhost_ports.as_slice());
    assert(views(parts@) =~= restrictions(policy@));
    if parts.len() == 0 {
        base
    } else {
        let mut r = base;
        r.append(" with ");
        let j = join_strings(parts.as_slice(), ", ");
        r.append(j.as_str());
        r
    }
}

// ---------------------------------------------------------------------------
// Runtime requests to the WFP service
// ---------------------------------------------------------------------------

/// The version of the runtime request protocol spoken with the WFP service.
pub const WFP_RUNTIME_PROTOCOL_VERSION: u32 = 1;

/// A runtime request to the WFP service.
#[derive(Debug, Clone)]
pub struct WfpRuntimeActivationRequest {
    pub protocol_version: u32,
    pub request_kind: String,
    pub network_mode: String,
    pub preferred_backend: String,
    pub active_backend: String,
    pub runtime_target: String,
    pub tcp_connect_ports: Vec<u16>,
    pub tcp_bind_ports: Vec<u16>,
    pub localhost_ports: Vec<u16>,
    pub target_program_path: Option<String>,
    pub outbound_rule_name: Option<String>,
    pub inbound_rule_name: Option<String>,
    pub session_sid: Option<String>,
}

/// A runtime request as plain values.
pub struct RequestView {
    pub protocol_version: u32,
    pub request_kind: Seq<char>,
    pub network_mode: Seq<char>,
    pub preferred_backend: Seq<char>,
    pub active_backend: Seq<char>,
    pub runtime_target: Seq<char>,
    pub tcp_connect_ports: Seq<u16>,
    pub tcp_bind_ports: Seq<u16>,
    pub localhost_ports: Seq<u16>,
    pub target_program_path: Option<Seq<char>>,
    pub outbound_rule_name: Option<Seq<char>>,
    pub inbound_rule_name: Option<Seq<char>>,
    pub session_sid: Option<Seq<char>>,
}

/// The characters of an optional string.
pub open spec fn opt_view(o: Option<String>) -> Option<Seq<char>> {
    match o {
        Some(s) => Some(s@),
        None => None,
    }
}

impl View for WfpRuntimeActivationRequest {
    type V = RequestView;

    open spec fn view(&self) -> RequestView {
        RequestView {
            protocol_version: self.protocol_version,
            request_kind: self.request_kind@,
            network_mode: self.network_mode@,
            preferred_backend: self.preferred_backend@,
            active_backend: self.active_backend@,
            runtime_target: self.runtime_target@,
            tcp_connect_ports: self.tcp_connect_ports@,
            tcp_bind_ports: self.tcp_bind_ports@,
            localhost_ports: self.localhost_ports@,
            target_program_path: opt_view(self.target_program_path),
            outbound_rule_name: opt_view(self.outbound_rule_name),
            inbound_rule_name: opt_view(self.inbound_rule_name),
            session_sid: opt_view(self.session_sid),
        }
    }
}

/// `s` is in strictly increasing order (so holds no value twice).
pub open spec fn strictly_increasing(s: Seq<u16>) -> bool {
    forall|i: int, j: int| 0 <= i < j < s.len() ==> s[i] < s[j]
}

/// `r` is `s` sorted with duplicates removed: strictly increasing and
/// holding exactly the values of `s`.
pub open spec fn sorted_dedup_of(r: Seq<u16>, s: Seq<u16>) -> bool {
    strictly_increasing(r) && forall|x: u16| r.contains(x) <==> s.contains(x)
}

proof fn lemma_push_contains(s: Seq<u16>, x: u16)
    ensures
        forall|y: u16| #[trigger] s.push(x).contains(y) <==> (s.contains(y) || y == x),
{
    assert forall|y: u16| #[trigger] s.push(x).contains(y) <==> (s.contains(y) || y == x) by {
        if s.push(x).contains(y) {
            let k = choose|k: int| 0 <= k < s.push(x).len() && s.push(x)[k] == y;
            if k < s.len() {
                assert(s[k] == y);
            }
        }
        if s.contains(y) {
            let k = choose|k: int| 0 <= k < s.len() && s[k] == y;
            assert(s.push(x)[k] == y);
        }
        if y == x {
            assert(s.push(x)[s.len() as int] == x);
        }
    }
}

/// Inserts `x` into a strictly increasing list unless it is already there.
fn insert_sorted(v: &mut Vec<u16>, x: u16)
    requires
        strictly_increasing(old(v)@),
    ensures
        strictly_increasing(final(v)@),
        forall|y: u16| final(v)@.contains(y) <==> (old(v)@.contains(y) || y == x),
{
    let mut i: usize = 0;
    while i < v.len() && v[i] < x
        invariant
            i <= v.len(),
            v@ == old(v)@,
            forall|k: int| 0 <= k < i ==> v@[k] < x,
        decreases v.len() - i,
    {
        i = i + 1;
    }
    if i < v.len() && v[i] == x {
        assert(old(v)@.contains(x));
        return;
    }
    let ghost before = v@;
    v.insert(i, x);
    proof {
        assert(v@ == before.insert(i as int, x));
        assert forall|a: int, b: int| 0 <= a < b < v@.len() implies v@[a] < v@[b] by {
            if b < i {
            } else if b == i {
            } else if a < i {
                assert(v@[b] == before[b - 1]);
                assert(before[i as int] > x);
            } else if a == i {
                assert(v@[b] == before[b - 1]);
                assert(before[i as int] > x);
                if b - 1 > i {
                    assert(before[i as int] < before[b - 1]);
                }
            } else {
                assert(v@[a] == before[a - 1]);
                assert(v@[b] == before[b - 1]);
            }
        }
        assert forall|y: u16| v@.contains(y) implies (before.contains(y) || y == x) by {
            let k = choose|k: int| 0 <= k < v@.len() && v@[k] == y;
            if k < i {
                assert(before[k] == y);
            } else if k > i {
                assert(before[k - 1] == y);
            }
        }
        assert forall|y: u16| before.contains(y) implies v@.contains(y) by {
            let k = choose|k: int| 0 <= k < before.len() && before[k] == y;
            if k < i {
                assert(v@[k] == y);
            } else {
                assert(v@[k + 1] == y);
            }
        }
        assert(v@[i as int] == x);
        assert(v@.contains(x));
    }
}

/// The values of `a` and `b`, sorted, without duplicates.
pub fn sorted_union(a: &[u16], b: &[u16]) -> (r: Vec<u16>)
    ensures
        sorted_dedup_of(r@, a@ + b@),
{
    let mut r: Vec<u16> = Vec::new();
    let mut i: usize = 0;
    while i < a.len()
        invariant
            i <= a.len(),
            strictly_increasing(r@),
            forall|y: u16| r@.contains(y) <==> a@.take(i as int).contains(y),
        decreases a.len() - i,
    {
        insert_sorted(&mut r, a[i]);
        proof {
            assert(a@.take(i + 1) =~= a@.take(i as int).push(a@[i as int]));
            lemma_push_contains(a@.take(i as int), a@[i as int]);
        }
        i = i + 1;
    }
    assert(a@.take(a.len() as int) =~= a@);
    let mut j: usize = 0;
    while j < b.len()
        invariant
            j <= b.len(),
            strictly_increasing(r@),
            forall|y: u16| r@.contains(y) <==> (a@ + b@.take(j as int)).contains(y),
        decreases b.len() - j,
    {
        insert_sorted(&mut r, b[j]);
        proof {
            assert(a@ + b@.take(j + 1) =~= (a@ + b@.take(j as int)).push(b@[j as int]));
            lemma_push_contains(a@ + b@.take(j as int), b@[j as int]);
        }
        j = j + 1;
    }
    assert(b@.take(b.len() as int) =~= b@);
    r
}

/// The network mode a request names.
pub open spec fn mode_name(m: ModeView) -> Seq<char> {
    match m {
        ModeView::AllowAll => "allow-all"@,
        ModeView::Blocked => "blocked"@,
        ModeView::ProxyOnly { .. } => "proxy-only"@,
    }
}

/// The request kind that activates a mode.
pub open spec fn activation_kind(m: ModeView) -> Seq<char> {
    match m {
        ModeView::Blocked => "activate_blocked_mode"@,
        ModeView::AllowAll => "activate_allow_all_mode"@,
        ModeView::ProxyOnly { .. } => "activate_proxy_mode"@,
    }
}

/// The bind ports a request carries: for proxy-only mode the policy's bind
/// ports and the proxy's, sorted without duplicates; otherwise the policy's.
pub open spec fn request_bind_ports_ok(r: Seq<u16>, p: PolicyView) -> bool {
    match p.mode {
        ModeView::ProxyOnly { port, bind_ports } => sorted_dedup_of(r, p.tcp_bind_ports + bind_ports),
        _ => r == p.tcp_bind_ports,
    }
}

/// The localhost ports a request carries: for proxy-only mode the policy's
/// and the proxy port, sorted without duplicates; otherwise the policy's.
pub open spec fn request_localhost_ports_ok(r: Seq<u16>, p: PolicyView) -> bool {
    match p.mode {
        ModeView::ProxyOnly { port, bind_ports } => sorted_dedup_of(r, p.localhost_ports.push(port)),
        _ => r == p.localhost_ports,
    }
}

/// `r` is the activation request for the policy `p`, before any target is
/// attached.
pub open spec fn is_activation_request(r: RequestView, p: PolicyView) -> bool {
    &&& r.protocol_version == WFP_RUNTIME_PROTOCOL_VERSION
    &&& r.request_kind == activation_kind(p.mode)
    &&& r.network_mode == mode_name(p.mode)
    &&& r.preferred_backend == kind_label(p.preferred_backend)
    &&& r.active_backend == kind_label(p.active_backend)
    &&& r.runtime_target == runtime_target(p)
    &&& r.tcp_connect_ports == p.tcp_connect_ports
    &&& request_bind_ports_ok(r.tcp_bind_ports, p)
    &&& request_localhost_ports_ok(r.localhost_ports, p)
}

/// Builds the activation request for a policy, with no target attached.
pub fn build_wfp_runtime_activation_request(policy: &WindowsNetworkPolicy) -> (r: WfpRuntimeActivationRequest)
    ensures
        is_activation_request(r@, policy@),
        r@.target_program_path is None,
        r@.outbound_rule_name is None,
        r@.inbound_rule_name is None,
        r@.session_sid is None,
{
    let (network_mode, request_kind) = match &policy.mode {
        WindowsNetworkPolicyMode::AllowAll => ("allow-all", "activate_allow_all_mode"),
        WindowsNetworkPolicyMode::Blocked => ("blocked", "activate_blocked_mode"),
        WindowsNetworkPolicyMode::ProxyOnly { .. } => ("proxy-only", "activate_proxy_mode"),
    };
    let (tcp_bind_ports, localhost_ports) = match &policy.mode {
        WindowsNetworkPolicyMode::ProxyOnly { port, bind_ports } => {
            let b = sorted_union(policy.tcp_bind_ports.as_slice(), bind_ports.as_slice());
            let one: Vec<u16> = vec![*port];
            let l = sorted_union(policy.localhost_ports.as_slice(), one.as_slice());
            assert(policy.localhost_ports@ + one@ =~= policy.localhost_ports@.push(*port));
            (b, l)
        },
        _ => {
            let b = policy.tcp_bind_ports.clone();
            let l = policy.localhost_ports.clone();
            assert(b@ =~= policy.tcp_bind_ports@);
            assert(l@ =~= policy.localhost_ports@);
            (b, l)
        },
    };
    let c = policy.tcp_connect_ports.clone();
    assert(c@ =~= policy.tcp_connect_ports@);
    WfpRuntimeActivationRequest {
        protocol_version: WFP_RUNTIME_PROTOCOL_VERSION,
        request_kind: String::from_str(request_kind),
        network_mode: String::from_str(network_mode),
        preferred_backend: String::from_str(policy.preferred_backend.label()),
        active_backend: String::from_str(policy.active_backend.label()),
        runtime_target: describe_windows_network_runtime_target(policy),
        tcp_connect_ports: c,
        tcp_bind_ports,
        localhost_ports,
        target_program_path: None,
        outbound_rule_name: None,
        inbound_rule_name: None,
        session_sid: None,
    }
}

/// The optional characters of an optional string slice.
pub open spec fn opt_str_view(o: Option<&str>) -> Option<Seq<char>> {
    match o {
        Some(s) => Some(s@),
        None => None,
    }
}

/// `r` is the activation request for `p` attached to `program` through the
/// two named rules, scoped to `sid` where one is given.
pub open spec fn is_target_request(
    r: RequestView,
    p: PolicyView,
    program: Seq<char>,
    outbound: Seq<char>,
    inbound: Seq<char>,
    sid: Option<Seq<char>>,
) -> bool {
    &&& is_activation_request(r, p)
    &&& r.target_program_path == Some(program)
    &&& r.outbound_rule_name == Some(outbound)
    &&& r.inbound_rule_name == Some(inbound)
    &&& r.session_sid == sid
}

/// Builds the activation request attached to the launched program.
pub fn build_wfp_target_activation_request(
    policy: &WindowsNetworkPolicy,
    target_program: &str,
    outbound_rule: &str,
    inbound_rule: &str,
    session_sid: Option<&str>,
) -> (r: WfpRuntimeActivationRequest)
    ensures
        is_target_request(r@, policy@, target_program@, outbound_rule@, inbound_rule@, opt_str_view(session_sid)),
{
    let mut request = build_wfp_runtime_activation_request(policy);
    request.target_program_path = Some(String::from_str(target_program));
    request.outbound_rule_name = Some(String::from_str(outbound_rule));
    request.inbound_rule_name = Some(String::from_str(inbound_rule));
    request.session_sid = match session_sid {
        Some(s) => Some(String::from_str(s)),
        None => None,
    };
    request
}

/// `r` is the request that removes the enforcement attached to `program`.
pub open spec fn is_cleanup_request(
    r: RequestView,
    p: PolicyView,
    program: Seq<char>,
    inbound: Seq<char>,
    outbound: Seq<char>,
) -> bool {
    &&& r.protocol_version == WFP_RUNTIME_PROTOCOL_VERSION
    &&& r.request_kind == "deactivate_policy_mode"@
    &&& r.network_mode == mode_name(p.mode)
    &&& r.preferred_backend == kind_label(p.preferred_backend)
    &&& r.active_backend == kind_label(p.active_backend)
    &&& r.runtime_target == runtime_target(p) + " for "@ + program
    &&& r.tcp_connect_ports == p.tcp_connect_ports
    &&& request_bind_ports_ok(r.tcp_bind_ports, p)
    &&& request_localhost_ports_ok(r.localhost_ports, p)
    &&& r.target_program_path == Some(program)
    &&& r.outbound_rule_name == Some(outbound)
    &&& r.inbound_rule_name == Some(inbound)
    &&& r.session_sid is None
}

/// Builds the request that removes the enforcement attached to a program.
pub fn build_wfp_runtime_cleanup_request(
    policy: &WindowsNetworkPolicy,
    target_program: &str,
    inbound_rule: &str,
    outbound_rule: &str,
) -> (r: WfpRuntimeActivationRequest)
    ensures
        is_cleanup_request(r@, policy@, target_program@, inbound_rule@, outbound_rule@),
{
    let mut request = build_wfp_runtime_activation_request(policy);
    request.request_kind = String::from_str("deactivate_policy_mode");
    request.target_program_path = Some(String::from_str(target_program));
    request.outbound_rule_name = Some(String::from_str(outbound_rule));
    request.inbound_rule_name = Some(String::from_str(inbound_rule));
    let mut t = describe_windows_network_runtime_target(policy);
    t.append(" for ");
    t.append(target_program);
    request.runtime_target = t;
    request
}

// ---------------------------------------------------------------------------
// Why activation cannot proceed
// ---------------------------------------------------------------------------

/// Why a probe state does not allow runtime activation.
pub open spec fn activation_reason(cfg: WfpProbeConfig, st: WfpProbeStatus) -> Seq<char> {
    match st {
        WfpProbeStatus::Ready => "the service `"@ + cfg.backend_service@ + "` and driver `"@
            + cfg.backend_driver@
            + "` are present, but the runtime activation exchange did not install an enforceable network-policy state"@,
        WfpProbeStatus::BackendBinaryMissing => "the WFP service binary `"@ + cfg.backend_binary_path@
            + "` is missing from this build output. Run `cargo build -p nono-cli --bins` first"@,
        WfpProbeStatus::PlatformServiceMissing => "the Windows Base Filtering Engine service `"@
            + cfg.platform_service@ + "` is missing on this machine"@,
        WfpProbeStatus::PlatformServiceStopped => "the Windows Base Filtering Engine service `"@
            + cfg.platform_service@ + "` is not running. Start it before retrying WFP activation"@,
        WfpProbeStatus::BackendServiceMissing => "the WFP service `"@ + cfg.backend_service@
            + "` is not registered. Run `nono setup --install-wfp-service` first"@,
        WfpProbeStatus::BackendServiceStopped => "the WFP service `"@ + cfg.backend_service@
            + "` is registered but not running and could not be started automatically. To start it, run in an elevated (Administrator) terminal: `nono setup --start-wfp-service`"@,
        WfpProbeStatus::BackendDriverBinaryMissing => "the WFP driver binary `"@
            + cfg.backend_driver_binary_path@
            + "` is missing from this build output. Run `cargo build -p nono-cli --bins` first"@,
        WfpProbeStatus::BackendDriverMissing => "the WFP driver `"@ + cfg.backend_driver@
            + "` is not registered. Run `nono setup --install-wfp-driver` first"@,
        WfpProbeStatus::BackendDriverStopped => "the WFP driver `"@ + cfg.backend_driver@
            + "` is registered but not running. Run `nono setup --start-wfp-driver` first"@,
    }
}

/// The refusal of runtime activation in a probe state.
pub open spec fn activation_failure_text(p: PolicyView, cfg: WfpProbeConfig, st: WfpProbeStatus) -> Seq<char> {
    "Windows WFP runtime activation is required for "@ + runtime_target(p) + " but "@
        + activation_reason(cfg, st) + " ("@ + backend_summary(p)
        + "). This request remains fail-closed until WFP activation is implemented."@
}

fn quoted_between(head: &str, name: &str, tail: &str) -> (r: String)
    ensures
        r@ == head@ + name@ + tail@,
{
    let mut r = String::from_str(head);
    r.append(name);
    r.append(tail);
    r
}

/// Describes why runtime activation cannot proceed in a probe state.
pub fn describe_wfp_runtime_activation_failure(
    policy: &WindowsNetworkPolicy,
    config: &WfpProbeConfig,
    status: WfpProbeStatus,
) -> (r: String)
    ensures
        r@ == activation_failure_text(policy@, *config, status),
{
    let reason = match status {
        WfpProbeStatus::Ready => {
            let mut m = String::from_str("the service `");
            m.append(config.backend_service.as_str());
            m.append("` and driver `");
            m.append(config.backend_driver.as_str());
            m.append(
                "` are present, but the runtime activation exchange did not install an enforceable network-policy state",
            );
            m
        },
        WfpProbeStatus::BackendBinaryMissing => quoted_between(
            "the WFP service binary `",
            config.backend_binary_path.as_str(),
            "` is missing from this build output. Run `cargo build -p nono-cli --bins` first",
        ),
        WfpProbeStatus::PlatformServiceMissing => quoted_between(
            "the Windows Base Filtering Engine service `",
            config.platform_service.as_str(),
            "` is missing on this machine",
        ),
        WfpProbeStatus::PlatformServiceStopped => quoted_between(
            "the Windows Base Filtering Engine service `",
            config.platform_service.as_str(),
            "` is not running. Start it before retrying WFP activation",
        ),
        WfpProbeStatus::BackendServiceMissing => quoted_between(
            "the WFP service `",
            config.backend_service.as_str(),
            "` is not registered. Run `nono setup --install-wfp-service` first",
        ),
        WfpProbeStatus::BackendServiceStopped => quoted_between(
            "the WFP service `",
            config.backend_service.as_str(),
            "` is registered but not running and could not be started automatically. To start it, run in an elevated (Administrator) terminal: `nono setup --start-wfp-service`",
        ),
        WfpProbeStatus::BackendDriverBinaryMissing => quoted_between(
            "the WFP driver binary `",
            config.backend_driver_binary_path.as_str(),
            "` is missing from this build output. Run `cargo build -p nono-cli --bins` first",
        ),
        WfpProbeStatus::BackendDriverMissing => quoted_between(
            "the WFP driver `",
            config.backend_driver.as_str(),
            "` is not registered. Run `nono setup --install-wfp-driver` first",
        ),
        WfpProbeStatus::BackendDriverStopped => quoted_between(
            "the WFP driver `",
            config.backend_driver.as_str(),
            "` is registered but not running. Run `nono setup --start-wfp-driver` first",
        ),
    };
    let mut r = String::from_str("Windows WFP runtime activation is required for ");
    let t = describe_windows_network_runtime_target(policy);
    r.append(t.as_str());
    r.append(" but ");
    r.append(reason.as_str());
    r.append(" (");
    let summary = policy.backend_summary();
    r.append(summary.as_str());
    r.append("). This request remains fail-closed until WFP activation is implemented.");
    r
}

// ---------------------------------------------------------------------------
// Choosing the enforcement backend
// ---------------------------------------------------------------------------

/// The enforcement backend chosen for a launch.
#[derive(Debug, Clone, Copy, PartialEq, Eq, Structural)]
pub enum NetworkBackendChoice {
    /// Per-program block rules in Windows Firewall.
    FirewallRules,
    /// Filters installed by the WFP service.
    Wfp,
}

impl NetworkBackendChoice {
    /// The name of the backend, as logged.
    pub fn label(&self) -> (r: &'static str)
        ensures
            r@ == (match *self {
                NetworkBackendChoice::FirewallRules => "windows-firewall-rules"@,
                NetworkBackendChoice::Wfp => "windows-filtering-platform"@,
            }),
    {
        match self {
            NetworkBackendChoice::FirewallRules => "windows-firewall-rules",
            NetworkBackendChoice::Wfp => "windows-filtering-platform",
        }
    }
}

/// The refusal of a policy that no backend applies to.
pub open spec fn no_backend_text(p: PolicyView) -> Seq<char> {
    "Windows network enforcement does not have an applicable active backend for this policy ("@
        + backend_summary(p) + ", active backend: "@ + kind_label(p.active_backend) + ")."@
}

/// The backend a policy selects: WFP for an allow-all policy with port
/// rules; none for an unrestricted allow-all policy with no active backend;
/// for a blocked policy its active firewall-rules or WFP backend, or WFP
/// when none is active and WFP is preferred; WFP for a proxy-only policy
/// that prefers it. Any other policy is refused.
pub open spec fn backend_choice(p: PolicyView) -> Result<Option<NetworkBackendChoice>, ErrorView> {
    if p.mode is AllowAll && has_port_rules(p) {
        Ok(Some(NetworkBackendChoice::Wfp))
    } else {
        match p.mode {
            ModeView::AllowAll => if p.active_backend == WindowsNetworkBackendKind::NoBackend {
                Ok(None)
            } else {
                Err(err_of(ErrorKind::UnsupportedPlatform, no_backend_text(p)))
            },
            ModeView::Blocked => if p.active_backend == WindowsNetworkBackendKind::FirewallRules {
                Ok(Some(NetworkBackendChoice::FirewallRules))
            } else if p.active_backend == WindowsNetworkBackendKind::Wfp {
                Ok(Some(NetworkBackendChoice::Wfp))
            } else if p.preferred_backend == WindowsNetworkBackendKind::Wfp {
                Ok(Some(NetworkBackendChoice::Wfp))
            } else {
                Err(err_of(ErrorKind::UnsupportedPlatform, no_backend_text(p)))
            },
            ModeView::ProxyOnly { .. } => if p.preferred_backend == WindowsNetworkBackendKind::Wfp {
                Ok(Some(NetworkBackendChoice::Wfp))
            } else {
                Err(err_of(ErrorKind::UnsupportedPlatform, no_backend_text(p)))
            },
        }
    }
}

fn no_backend_error(policy: &WindowsNetworkPolicy) -> (e: NonoError)
    ensures
        error_view(e) == err_of(ErrorKind::UnsupportedPlatform, no_backend_text(policy@)),
{
    let mut m = String::from_str(
        "Windows network enforcement does not have an applicable active backend for this policy (",
    );
    let summary = policy.backend_summary();
    m.append(summary.as_str());
    m.append(", active backend: ");
    m.append(policy.active_backend.label());
    m.append(").");
    NonoError::UnsupportedPlatform(m)
}

/// Selects the enforcement backend for a policy.
pub fn select_network_backend(policy: &WindowsNetworkPolicy) -> (r: Result<Option<NetworkBackendChoice>, NonoError>)
    ensures
        result_view(r) == backend_choice(policy@),
{
    let allow_all = match &policy.mode {
        WindowsNetworkPolicyMode::AllowAll => true,
        _ => false,
    };
    if allow_all && policy.has_port_rules() {
        return Ok(Some(NetworkBackendChoice::Wfp));
    }
    match &policy.mode {
        WindowsNetworkPolicyMode::AllowAll => {
            if policy.active_backend == WindowsNetworkBackendKind::NoBackend {
                Ok(None)
            } else {
                Err(no_backend_error(policy))
            }
        },
        WindowsNetworkPolicyMode::Blocked => {
            if policy.active_backend == WindowsNetworkBackendKind::FirewallRules {
                Ok(Some(NetworkBackendChoice::FirewallRules))
            } else if policy.active_backend == WindowsNetworkBackendKind::Wfp {
                Ok(Some(NetworkBackendChoice::Wfp))
            } else if policy.preferred_backend == WindowsNetworkBackendKind::Wfp {
                Ok(Some(NetworkBackendChoice::Wfp))
            } else {
                Err(no_backend_error(policy))
            }
        },
        WindowsNetworkPolicyMode::ProxyOnly { .. } => {
            if policy.preferred_backend == WindowsNetworkBackendKind::Wfp {
                Ok(Some(NetworkBackendChoice::Wfp))
            } else {
                Err(no_backend_error(policy))
            }
        },
    }
}

/// The refusal of a policy with capabilities Windows cannot enforce.
pub open spec fn unsupported_text(p: PolicyView) -> Seq<char> {
    "Windows network enforcement does not support this capability set yet ("@ + join(
        p.unsupported,
        ", "@,
    ) + ", "@ + backend_summary(p) + ")."@
}

/// What preparing enforcement decides: a policy with unenforceable
/// capabilities is refused; otherwise its backend is selected.
pub open spec fn enforcement_choice(p: PolicyView) -> Result<Option<NetworkBackendChoice>, ErrorView> {
    if p.unsupported.len() > 0 {
        Err(err_of(ErrorKind::UnsupportedPlatform, unsupported_text(p)))
    } else {
        backend_choice(p)
    }
}

/// Decides how a launch's network policy is enforced: refuses a policy
/// that Windows cannot fully enforce, and otherwise names the backend to
/// install (or none, for an unrestricted policy).
pub fn prepare_network_enforcement(policy: &WindowsNetworkPolicy) -> (r: Result<Option<NetworkBackendChoice>, NonoError>)
    ensures
        result_view(r) == enforcement_choice(policy@),
{
    if !policy.is_fully_supported() {
        let mut m = String::from_str(
            "Windows network enforcement does not support this capability set yet (",
        );
        let msgs = policy.unsupported_messages();
        let j = join_strings(msgs.as_slice(), ", ");
        m.append(j.as_str());
        m.append(", ");
        let summary = policy.backend_summary();
        m.append(summary.as_str());
        m.append(").");
        return Err(NonoError::UnsupportedPlatform(m));
    }
    select_network_backend(policy)
}

/// Enforcement never silently lapses: a policy that blocks the network or
/// confines it to the proxy is either given a backend or refused, never
/// launched without one.
pub proof fn lemma_restricted_policy_is_enforced_or_refused(p: PolicyView)
    requires
        !(p.mode is AllowAll),
    ensures
        enforcement_choice(p) != Ok::<Option<NetworkBackendChoice>, ErrorView>(None),
{
}

/// Which backend a policy is given follows from what it asks for: a
/// proxy-only policy gets the WFP backend exactly when WFP is its preferred
/// backend and is refused otherwise; the firewall-rules backend is chosen
/// only for a blocking policy whose active backend is firewall rules; and
/// the WFP backend only for a policy with port rules, or one whose active
/// or preferred backend is WFP.
pub proof fn lemma_backend_follows_the_policy(p: PolicyView)
    ensures
        p.mode is ProxyOnly ==> (backend_choice(p) is Ok <==> p.preferred_backend == WindowsNetworkBackendKind::Wfp),
        p.mode is ProxyOnly && p.preferred_backend != WindowsNetworkBackendKind::Wfp ==> enforcement_choice(p) is Err,
        p.mode is ProxyOnly && p.preferred_backend == WindowsNetworkBackendKind::Wfp && p.unsupported.len() == 0
            ==> enforcement_choice(p) == Ok::<Option<NetworkBackendChoice>, ErrorView>(Some(NetworkBackendChoice::Wfp)),
        backend_choice(p) == Ok::<Option<NetworkBackendChoice>, ErrorView>(Some(NetworkBackendChoice::FirewallRules))
            <==> (p.mode is Blocked && p.active_backend == WindowsNetworkBackendKind::FirewallRules),
        backend_choice(p) == Ok::<Option<NetworkBackendChoice>, ErrorView>(Some(NetworkBackendChoice::Wfp)) ==> (
        has_port_rules(p) || p.active_backend == WindowsNetworkBackendKind::Wfp || p.preferred_backend
            == WindowsNetworkBackendKind::Wfp),
        p.mode is Blocked ==> (backend_choice(p) is Ok <==> (p.active_backend != WindowsNetworkBackendKind::NoBackend
            || p.preferred_backend == WindowsNetworkBackendKind::Wfp)),
        enforcement_choice(p) is Ok ==> p.unsupported.len() == 0,
{
}

/// A policy that only allows all traffic is launched without a backend
/// exactly when it has no port rules, no active backend and nothing
/// unenforceable.
pub proof fn lemma_unenforced_launch_is_unrestricted(p: PolicyView)
    ensures
        enforcement_choice(p) == Ok::<Option<NetworkBackendChoice>, ErrorView>(None) <==> (
            p.mode is AllowAll && !has_port_rules(p) && p.active_backend == WindowsNetworkBackendKind::NoBackend
            && p.unsupported.len() == 0),
{
}

// ---------------------------------------------------------------------------
// Rule names
// ---------------------------------------------------------------------------

/// `s` is the lower-case hexadecimal rendering of sixteen bytes.
pub open spec fn is_rule_suffix(s: Seq<char>) -> bool {
    exists|b: Seq<u8>| b.len() == 16 && s == hex_bytes(b, false)
}

/// The rule-name suffix made of drawn bytes: the sixteen bytes in
/// lower-case hexadecimal; a failed draw is passed on.
pub fn rule_suffix_from(drawn: Result<Vec<u8>, String>) -> (r: Result<String, String>)
    requires
        drawn matches Ok(b) ==> b@.len() == 16,
    ensures
        rule_suffix_spec(drawn, r),
{
    match drawn {
        Ok(bytes) => {
            let hex = hex_of_bytes(bytes.as_slice(), false);
            Ok(string_from_chars(hex.as_slice()))
        },
        Err(e) => Err(e),
    }
}

/// What [`rule_suffix_from`] gives for a draw.
pub open spec fn rule_suffix_spec(drawn: Result<Vec<u8>, String>, r: Result<String, String>) -> bool {
    match drawn {
        Ok(b) => r matches Ok(s) && s@ == hex_bytes(b@, false),
        Err(e) => r matches Err(m) && m@ == e@,
    }
}

/// A fresh suffix for the names of the rules of one launch: sixteen bytes
/// drawn from the operating system's generator, as [`rule_suffix_from`]
/// makes it.
pub fn unique_windows_firewall_rule_suffix() -> (r: Result<String, String>)
    ensures
        exists|d: Result<Vec<u8>, String>| (d matches Ok(b) ==> b@.len() == 16) && #[trigger] rule_suffix_spec(d, r),
        r matches Ok(s) ==> is_rule_suffix(s@),
{
    let drawn = crate::random::os_random_bytes(16);
    let ghost d = drawn;
    let r = rule_suffix_from(drawn);
    assert(rule_suffix_spec(d, r));
    proof {
        if d is Ok {
            assert(d->Ok_0@.len() == 16 && r->Ok_0@ == hex_bytes(d->Ok_0@, false));
        }
    }
    r
}

/// The name of the WFP outbound block rule for a suffix.
pub open spec fn wfp_outbound_rule(suffix: Seq<char>) -> Seq<char> {
    "nono-wfp-block-out-"@ + suffix
}

/// The name of the WFP inbound block rule for a suffix.
pub open spec fn wfp_inbound_rule(suffix: Seq<char>) -> Seq<char> {
    "nono-wfp-block-in-"@ + suffix
}

/// The `netsh` arguments that add a block rule for one program in one
/// direction (`in` or `out`).
pub open spec fn firewall_block_rule_args_spec(rule: Seq<char>, dir: Seq<char>, program: Seq<char>) -> Seq<Seq<char>> {
    seq![
        "advfirewall"@,
        "firewall"@,
        "add"@,
        "rule"@,
        "name="@ + rule,
        "dir="@ + dir,
        "action=block"@,
        "program="@ + program,
        "enable=yes"@,
        "profile=any"@,
    ]
}

/// Builds the `netsh` arguments that add a block rule for a program.
pub fn build_firewall_block_rule_args(rule: &str, dir: &str, program: &str) -> (r: Vec<String>)
    ensures
        views(r@) == firewall_block_rule_args_spec(rule@, dir@, program@),
{
    let mut name = String::from_str("name=");
    name.append(rule);
    let mut d = String::from_str("dir=");
    d.append(dir);
    let mut prog = String::from_str("program=");
    prog.append(program);
    let r = vec![
        String::from_str("advfirewall"),
        String::from_str("firewall"),
        String::from_str("add"),
        String::from_str("rule"),
        name,
        d,
        String::from_str("action=block"),
        prog,
        String::from_str("enable=yes"),
        String::from_str("profile=any"),
    ];
    assert(views(r@) =~= firewall_block_rule_args_spec(rule@, dir@, program@));
    r
}

/// Builds the `netsh` arguments that delete a rule by name.
pub fn build_firewall_delete_rule_args(rule: &str) -> (r: Vec<String>)
    ensures
        views(r@) == seq!["advfirewall"@, "firewall"@, "delete"@, "rule"@, "name="@ + rule@],
{
    let mut name = String::from_str("name=");
    name.append(rule);
    let r = vec![
        String::from_str("advfirewall"),
        String::from_str("firewall"),
        String::from_str("delete"),
        String::from_str("rule"),
        name,
    ];
    assert(views(r@) =~= seq!["advfirewall"@, "firewall"@, "delete"@, "rule"@, "name="@ + rule@]);
    r
}

// ---------------------------------------------------------------------------
// Installing WFP enforcement
// ---------------------------------------------------------------------------

/// What stays in force after enforcement is installed, until it is removed.
#[derive(Debug)]
pub enum NetworkEnforcementGuard {
    /// Firewall block rules for a staged copy of the program.
    FirewallRules { staged_program: String, staged_dir: String, inbound_rule: String, outbound_rule: String },
    /// Filters that the WFP service installed for the program.
    WfpServiceManaged {
        policy: WindowsNetworkPolicy,
        probe_config: WfpProbeConfig,
        target_program: String,
        inbound_rule: String,
        outbound_rule: String,
    },
}

/// Two probe configurations name the same components.
pub open spec fn same_config(a: WfpProbeConfig, b: WfpProbeConfig) -> bool {
    &&& a.platform_service@ == b.platform_service@
    &&& a.backend_service@ == b.backend_service@
    &&& a.backend_driver@ == b.backend_driver@
    &&& a.backend_binary_path@ == b.backend_binary_path@
    &&& a.backend_driver_binary_path@ == b.backend_driver_binary_path@
    &&& views(a.backend_service_args@) == views(b.backend_service_args@)
}

fn copy_probe_config(c: &WfpProbeConfig) -> (r: WfpProbeConfig)
    ensures
        same_config(r, *c),
{
    let args = c.backend_service_args.clone();
    assert(views(args@) =~= views(c.backend_service_args@));
    WfpProbeConfig {
        platform_service: c.platform_service.clone(),
        backend_service: c.backend_service.clone(),
        backend_driver: c.backend_driver.clone(),
        backend_binary_path: c.backend_binary_path.clone(),
        backend_driver_binary_path: c.backend_driver_binary_path.clone(),
        backend_service_args: args,
    }
}

/// The probe runner, asked about `cfg`, may answer `o`.
pub open spec fn probe_answers<P: Fn(&WfpProbeConfig) -> Result<WfpProbeStatus, NonoError>>(
    pf: P,
    cfg: WfpProbeConfig,
    o: Result<WfpProbeStatus, NonoError>,
) -> bool {
    exists|c: &WfpProbeConfig| *c == cfg && #[trigger] call_ensures(pf, (c,), o)
}

/// The service starter, asked about `cfg`, may answer `o`.
pub open spec fn start_answers<S: Fn(&WfpProbeConfig) -> Result<WindowsWfpReport, NonoError>>(
    sf: S,
    cfg: WfpProbeConfig,
    o: Result<WindowsWfpReport, NonoError>,
) -> bool {
    exists|c: &WfpProbeConfig| *c == cfg && #[trigger] call_ensures(sf, (c,), o)
}

/// The request runner, given `cfg` and a request whose plain values are
/// `req`, may answer `o`.
pub open spec fn request_answers<R: Fn(&WfpProbeConfig, &WfpRuntimeActivationRequest) -> Result<WfpRuntimeProbeOutput, NonoError>>(
    rf: R,
    cfg: WfpProbeConfig,
    req: RequestView,
    o: Result<WfpRuntimeProbeOutput, NonoError>,
) -> bool {
    exists|c: &WfpProbeConfig, q: &WfpRuntimeActivationRequest| *c == cfg && q@ == req && #[trigger] call_ensures(rf, (c, q), o)
}

/// The refusal when the stopped WFP service cannot be started.
pub open spec fn autostart_failure_text(p: PolicyView, cfg: WfpProbeConfig) -> Seq<char> {
    "Windows WFP runtime activation is required for "@ + runtime_target(p) + " but the WFP service `"@
        + cfg.backend_service@
        + "` is not running and could not be started automatically (elevation is required). To start it, run this command once in an elevated (Administrator) terminal: `nono setup --start-wfp-service` ("@
        + backend_summary(p) + "). This request remains fail-closed."@
}

/// The refusal of a `ready` reply to an activation request.
pub open spec fn ready_reply_text(p: PolicyView) -> Seq<char> {
    "Windows WFP service returned 'ready' in response to an activation request for "@ + runtime_target(p)
        + ", which is an unexpected protocol state that violates the WFP IPC contract ("@ + backend_summary(p)
        + "). This request remains fail-closed."@
}

/// The refusal of a reply that the service does not implement activation.
pub open spec fn not_implemented_text(p: PolicyView, cfg: WfpProbeConfig, out: WfpRuntimeProbeOutput) -> Seq<char> {
    "Windows WFP runtime activation is required for "@ + runtime_target(p) + " but "@
        + runtime_probe_failure_text(cfg, out) + " ("@ + backend_summary(p)
        + "). This request remains fail-closed until WFP activation is implemented."@
}

/// What an activation reply gives: a reply of filters in force (pending
/// cleanup) gives the guard that removes them; every other state, and
/// every refusal, is an error.
pub open spec fn activation_reply_spec(
    p: PolicyView,
    program: Seq<char>,
    cfg: WfpProbeConfig,
    suffix: Seq<char>,
    out: WfpRuntimeProbeOutput,
    res: Result<Option<NetworkEnforcementGuard>, NonoError>,
) -> bool {
    match runtime_status_spec(out) {
        Err(ev) => res matches Err(e) && error_view(e) == ev,
        Ok(WfpRuntimeActivationProbeStatus::Ready) => fails_with(res, ErrorKind::UnsupportedPlatform, ready_reply_text(p)),
        Ok(WfpRuntimeActivationProbeStatus::NotImplemented) => fails_with(
            res,
            ErrorKind::UnsupportedPlatform,
            not_implemented_text(p, cfg, out),
        ),
        Ok(WfpRuntimeActivationProbeStatus::AcceptedButNotEnforced) => fails_with(
            res,
            ErrorKind::UnsupportedPlatform,
            "Windows WFP network-policy activation was accepted by the service host but no filtering primitive was installed yet: "@
                + out.response.details@ + ". This request remains fail-closed."@,
        ),
        Ok(WfpRuntimeActivationProbeStatus::EnforcedPendingCleanup) => res matches Ok(
            Some(NetworkEnforcementGuard::WfpServiceManaged { policy: gp, probe_config: gc, target_program: gt, inbound_rule: gi, outbound_rule: go }),
        ) && gp@ == p && same_config(gc, cfg) && gt@ == program && gi@ == wfp_inbound_rule(suffix) && go@
            == wfp_outbound_rule(suffix),
        Ok(WfpRuntimeActivationProbeStatus::CleanupSucceeded) => fails_with(
            res,
            ErrorKind::SandboxInit,
            "Windows WFP activation returned cleanup success during install; this is an unexpected protocol state."@,
        ),
        Ok(WfpRuntimeActivationProbeStatus::FilteringProbeSucceeded) => fails_with(
            res,
            ErrorKind::UnsupportedPlatform,
            "Windows WFP network-policy activation successfully exercised a service-owned filtering primitive, but it is not attached to the target process yet: "@
                + out.response.details@ + ". This request remains fail-closed."@,
        ),
    }
}

/// What a probe state gives: only a ready backend is asked to activate,
/// with a request attached to the program through freshly named rules
/// (where no fresh name can be drawn, the install is refused before any
/// request); any other state is refused with its reason.
pub open spec fn after_probe_spec<R: Fn(&WfpProbeConfig, &WfpRuntimeActivationRequest) -> Result<WfpRuntimeProbeOutput, NonoError>>(
    p: PolicyView,
    program: Seq<char>,
    sid: Option<Seq<char>>,
    cfg: WfpProbeConfig,
    rf: R,
    st: WfpProbeStatus,
    res: Result<Option<NetworkEnforcementGuard>, NonoError>,
) -> bool {
    if st == WfpProbeStatus::Ready {
        (exists|m: Seq<char>| fails_with(res, ErrorKind::SandboxInit, "Failed to generate WFP rule name suffix: "@ + m))
        || exists|suffix: Seq<char>, req: RequestView, o: Result<WfpRuntimeProbeOutput, NonoError>|
            #![trigger request_answers(rf, cfg, req, o), is_rule_suffix(suffix)]
            is_rule_suffix(suffix) && is_target_request(req, p, program, wfp_outbound_rule(suffix), wfp_inbound_rule(suffix), sid)
            && request_answers(rf, cfg, req, o) && match o {
                Err(e) => res == Err::<Option<NetworkEnforcementGuard>, NonoError>(e),
                Ok(out) => activation_reply_spec(p, program, cfg, suffix, out, res),
            }
    } else {
        fails_with(res, ErrorKind::UnsupportedPlatform, activation_failure_text(p, cfg, st))
    }
}

/// What installing WFP enforcement gives, for every answer of the runners:
/// an unrestricted allow-all policy needs nothing; otherwise the backend is
/// probed, a stopped WFP service is started and probed again (a failed
/// start is refused with the way to start it by hand), and the final state
/// decides as `after_probe_spec` says. A failing probe is refused.
pub open spec fn install_wfp_spec<
    P: Fn(&WfpProbeConfig) -> Result<WfpProbeStatus, NonoError>,
    R: Fn(&WfpProbeConfig, &WfpRuntimeActivationRequest) -> Result<WfpRuntimeProbeOutput, NonoError>,
    S: Fn(&WfpProbeConfig) -> Result<WindowsWfpReport, NonoError>,
>(
    p: PolicyView,
    program: Seq<char>,
    sid: Option<Seq<char>>,
    cfg: WfpProbeConfig,
    pf: P,
    rf: R,
    sf: S,
    res: Result<Option<NetworkEnforcementGuard>, NonoError>,
) -> bool {
    if p.mode is AllowAll && !has_port_rules(p) {
        res matches Ok(None)
    } else {
        exists|o1: Result<WfpProbeStatus, NonoError>| #[trigger] probe_answers(pf, cfg, o1) && match o1 {
            Err(e) => fails_with(
                res,
                ErrorKind::SandboxInit,
                "Failed to probe Windows WFP backend status ("@ + backend_summary(p) + "): "@ + error_detail(e),
            ),
            Ok(st1) => if st1 == WfpProbeStatus::BackendServiceStopped {
                exists|os: Result<WindowsWfpReport, NonoError>| #[trigger] start_answers(sf, cfg, os) && match os {
                    Err(_) => fails_with(res, ErrorKind::UnsupportedPlatform, autostart_failure_text(p, cfg)),
                    Ok(_) => exists|o2: Result<WfpProbeStatus, NonoError>| #[trigger] probe_answers(pf, cfg, o2) && match o2 {
                        Err(e) => fails_with(
                            res,
                            ErrorKind::SandboxInit,
                            "Failed to re-probe Windows WFP backend status after auto-start ("@ + backend_summary(p)
                                + "): "@ + error_detail(e),
                        ),
                        Ok(st2) => after_probe_spec(p, program, sid, cfg, rf, st2, res),
                    },
                }
            } else {
                after_probe_spec(p, program, sid, cfg, rf, st1, res)
            },
        }
    }
}

fn error_with_summary(head: &str, policy: &WindowsNetworkPolicy, e: &NonoError) -> (r: NonoError)
    ensures
        error_view(r) == err_of(ErrorKind::SandboxInit, head@ + backend_summary(policy@) + "): "@ + error_detail(*e)),
{
    let mut m = String::from_str(head);
    let summary = policy.backend_summary();
    m.append(summary.as_str());
    m.append("): ");
    let d = e.detail();
    m.append(d.as_str());
    NonoError::SandboxInit(m)
}

fn activate_ready_backend<R>(
    policy: &WindowsNetworkPolicy,
    resolved_program: &str,
    package_sid: Option<&str>,
    probe_config: &WfpProbeConfig,
    run_probe: &R,
    status: WfpProbeStatus,
) -> (res: Result<Option<NetworkEnforcementGuard>, NonoError>)
    where
        R: Fn(&WfpProbeConfig, &WfpRuntimeActivationRequest) -> Result<WfpRuntimeProbeOutput, NonoError>,
    requires
        forall|c: &WfpProbeConfig, q: &WfpRuntimeActivationRequest| call_requires(*run_probe, (c, q)),
    ensures
        after_probe_spec(policy@, resolved_program@, opt_str_view(package_sid), *probe_config, *run_probe, status, res),
{
    if status != WfpProbeStatus::Ready {
        let m = describe_wfp_runtime_activation_failure(policy, probe_config, status);
        return Err(NonoError::UnsupportedPlatform(m));
    }
    let suffix = match unique_windows_firewall_rule_suffix() {
        Ok(s) => s,
        Err(m) => {
            let mut msg = String::from_str("Failed to generate WFP rule name suffix: ");
            msg.append(m.as_str());
            return Err(NonoError::SandboxInit(msg));
        },
    };
    let mut outbound_rule = String::from_str("nono-wfp-block-out-");
    outbound_rule.append(suffix.as_str());
    let mut inbound_rule = String::from_str("nono-wfp-block-in-");
    inbound_rule.append(suffix.as_str());
    let request = build_wfp_target_activation_request(
        policy,
        resolved_program,
        outbound_rule.as_str(),
        inbound_rule.as_str(),
        package_sid,
    );
    let o = run_probe(probe_config, &request);
    let ghost sfx = suffix@;
    assert(request_answers(*run_probe, *probe_config, request@, o));
    assert(is_rule_suffix(sfx));
    let probe_output = match o {
        Ok(out) => out,
        Err(e) => return Err(e),
    };
    let parsed = parse_wfp_runtime_probe_status(&probe_output);
    let state = match parsed {
        Ok(st) => st,
        Err(e) => return Err(e),
    };
    match state {
        WfpRuntimeActivationProbeStatus::Ready => {
            let mut m = String::from_str(
                "Windows WFP service returned 'ready' in response to an activation request for ",
            );
            let t = describe_windows_network_runtime_target(policy);
            m.append(t.as_str());
            m.append(", which is an unexpected protocol state that violates the WFP IPC contract (");
            let summary = policy.backend_summary();
            m.append(summary.as_str());
            m.append("). This request remains fail-closed.");
            Err(NonoError::UnsupportedPlatform(m))
        },
        WfpRuntimeActivationProbeStatus::NotImplemented => {
            let mut m = String::from_str("Windows WFP runtime activation is required for ");
            let t = describe_windows_network_runtime_target(policy);
            m.append(t.as_str());
            m.append(" but ");
            let f = describe_wfp_runtime_probe_failure(probe_config, &probe_output);
            m.append(f.as_str());
            m.append(" (");
            let summary = policy.backend_summary();
            m.append(summary.as_str());
            m.append("). This request remains fail-closed until WFP activation is implemented.");
            Err(NonoError::UnsupportedPlatform(m))
        },
        WfpRuntimeActivationProbeStatus::AcceptedButNotEnforced => {
            let mut m = String::from_str(
                "Windows WFP network-policy activation was accepted by the service host but no filtering primitive was installed yet: ",
            );
            m.append(probe_output.response.details.as_str());
            m.append(". This request remains fail-closed.");
            Err(NonoError::UnsupportedPlatform(m))
        },
        WfpRuntimeActivationProbeStatus::EnforcedPendingCleanup => {
            Ok(
                Some(
                    NetworkEnforcementGuard::WfpServiceManaged {
                        policy: policy.duplicate(),
                        probe_config: copy_probe_config(probe_config),
                        target_program: String::from_str(resolved_program),
                        inbound_rule,
                        outbound_rule,
                    },
                ),
            )
        },
        WfpRuntimeActivationProbeStatus::CleanupSucceeded => Err(
            NonoError::SandboxInit(
                String::from_str(
                    "Windows WFP activation returned cleanup success during install; this is an unexpected protocol state.",
                ),
            ),
        ),
        WfpRuntimeActivationProbeStatus::FilteringProbeSucceeded => {
            let mut m = String::from_str(
                "Windows WFP network-policy activation successfully exercised a service-owned filtering primitive, but it is not attached to the target process yet: ",
            );
            m.append(probe_output.response.details.as_str());
            m.append(". This request remains fail-closed.");
            Err(NonoError::UnsupportedPlatform(m))
        },
    }
}

/// What the WFP installation has learnt so far, in order.
#[derive(Debug)]
pub enum WfpInstallEvent {
    /// The backend was probed, with this answer.
    Probed(Result<WfpProbeStatus, NonoError>),
    /// Starting the stopped service succeeded (`true`) or failed.
    Started(bool),
}

/// What the WFP installation does next.
#[derive(Debug)]
pub enum WfpInstallAction {
    /// Nothing to enforce: no runner is called.
    NoEnforcement,
    /// Probe the backend.
    Probe,
    /// Start the stopped WFP service.
    StartService,
    /// Refuse the launch with this error.
    Refuse(NonoError),
    /// Ask the service to activate enforcement in this probe state.
    Activate(WfpProbeStatus),
    /// The history does not arise from this installation.
    Invalid,
}

/// An action by its plain values.
pub enum WfpActionView {
    NoEnforcement,
    Probe,
    StartService,
    Refuse(ErrorView),
    Activate(WfpProbeStatus),
    Invalid,
}

pub open spec fn action_view(a: WfpInstallAction) -> WfpActionView {
    match a {
        WfpInstallAction::NoEnforcement => WfpActionView::NoEnforcement,
        WfpInstallAction::Probe => WfpActionView::Probe,
        WfpInstallAction::StartService => WfpActionView::StartService,
        WfpInstallAction::Refuse(e) => WfpActionView::Refuse(error_view(e)),
        WfpInstallAction::Activate(st) => WfpActionView::Activate(st),
        WfpInstallAction::Invalid => WfpActionView::Invalid,
    }
}

/// The next step of installing WFP enforcement, given what happened so far:
/// an unrestricted allow-all policy calls no runner at all; otherwise the
/// backend is probed once; the service is started only when that first
/// probe finds it stopped, and then probed once more; a failed probe or
/// start is refused; the final probe state goes to activation.
pub open spec fn wfp_install_next(p: PolicyView, cfg: WfpProbeConfig, h: Seq<WfpInstallEvent>) -> WfpActionView {
    if p.mode is AllowAll && !has_port_rules(p) {
        WfpActionView::NoEnforcement
    } else if h.len() == 0 {
        WfpActionView::Probe
    } else {
        match h[0] {
            WfpInstallEvent::Probed(Err(e)) => if h.len() == 1 {
                WfpActionView::Refuse(err_of(ErrorKind::SandboxInit,
                    "Failed to probe Windows WFP backend status ("@ + backend_summary(p) + "): "@ + error_detail(e)))
            } else {
                WfpActionView::Invalid
            },
            WfpInstallEvent::Probed(Ok(st1)) => if st1 != WfpProbeStatus::BackendServiceStopped {
                if h.len() == 1 { WfpActionView::Activate(st1) } else { WfpActionView::Invalid }
            } else if h.len() == 1 {
                WfpActionView::StartService
            } else {
                match h[1] {
                    WfpInstallEvent::Started(false) => if h.len() == 2 {
                        WfpActionView::Refuse(err_of(ErrorKind::UnsupportedPlatform, autostart_failure_text(p, cfg)))
                    } else {
                        WfpActionView::Invalid
                    },
                    WfpInstallEvent::Started(true) => if h.len() == 2 {
                        WfpActionView::Probe
                    } else {
                        match h[2] {
                            WfpInstallEvent::Probed(Err(e)) => if h.len() == 3 {
                                WfpActionView::Refuse(err_of(ErrorKind::SandboxInit,
                                    "Failed to re-probe Windows WFP backend status after auto-start ("@ + backend_summary(p)
                                        + "): "@ + error_detail(e)))
                            } else {
                                WfpActionView::Invalid
                            },
                            WfpInstallEvent::Probed(Ok(st2)) => if h.len() == 3 {
                                WfpActionView::Activate(st2)
                            } else {
                                WfpActionView::Invalid
                            },
                            _ => WfpActionView::Invalid,
                        }
                    },
                    _ => WfpActionView::Invalid,
                }
            },
            _ => WfpActionView::Invalid,
        }
    }
}

fn autostart_failure(policy: &WindowsNetworkPolicy, probe_config: &WfpProbeConfig) -> (e: NonoError)
    ensures
        error_view(e) == err_of(ErrorKind::UnsupportedPlatform, autostart_failure_text(policy@, *probe_config)),
{
    let mut m = String::from_str("Windows WFP runtime activation is required for ");
    let t = describe_windows_network_runtime_target(policy);
    m.append(t.as_str());
    m.append(" but the WFP service `");
    m.append(probe_config.backend_service.as_str());
    m.append(
        "` is not running and could not be started automatically (elevation is required). To start it, run this command once in an elevated (Administrator) terminal: `nono setup --start-wfp-service` (",
    );
    let summary = policy.backend_summary();
    m.append(summary.as_str());
    m.append("). This request remains fail-closed.");
    NonoError::UnsupportedPlatform(m)
}

/// Decides the next step of installing WFP enforcement.
pub fn wfp_install_step(policy: &WindowsNetworkPolicy, probe_config: &WfpProbeConfig, history: &[WfpInstallEvent]) -> (r: WfpInstallAction)
    ensures
        action_view(r) == wfp_install_next(policy@, *probe_config, history@),
{
    let allow_all = match &policy.mode {
        WindowsNetworkPolicyMode::AllowAll => true,
        _ => false,
    };
    if allow_all && !policy.has_port_rules() {
        return WfpInstallAction::NoEnforcement;
    }
    let n = history.len();
    if n == 0 {
        return WfpInstallAction::Probe;
    }
    match &history[0] {
        WfpInstallEvent::Probed(Err(e)) => if n == 1 {
            WfpInstallAction::Refuse(error_with_summary("Failed to probe Windows WFP backend status (", policy, e))
        } else {
            WfpInstallAction::Invalid
        },
        WfpInstallEvent::Probed(Ok(st1)) => if *st1 != WfpProbeStatus::BackendServiceStopped {
            if n == 1 {
                WfpInstallAction::Activate(*st1)
            } else {
                WfpInstallAction::Invalid
            }
        } else if n == 1 {
            WfpInstallAction::StartService
        } else {
            match &history[1] {
                WfpInstallEvent::Started(false) => if n == 2 {
                    WfpInstallAction::Refuse(autostart_failure(policy, probe_config))
                } else {
                    WfpInstallAction::Invalid
                },
                WfpInstallEvent::Started(true) => if n == 2 {
                    WfpInstallAction::Probe
                } else {
                    match &history[2] {
                        WfpInstallEvent::Probed(Err(e)) => if n == 3 {
                            WfpInstallAction::Refuse(
                                error_with_summary(
                                    "Failed to re-probe Windows WFP backend status after auto-start (",
                                    policy,
                                    e,
                                ),
                            )
                        } else {
                            WfpInstallAction::Invalid
                        },
                        WfpInstallEvent::Probed(Ok(st2)) => if n == 3 {
                            WfpInstallAction::Activate(*st2)
                        } else {
                            WfpInstallAction::Invalid
                        },
                        _ => WfpInstallAction::Invalid,
                    }
                },
                _ => WfpInstallAction::Invalid,
            }
        },
        _ => WfpInstallAction::Invalid,
    }
}

/// The WFP service is started only when the first probe found it stopped,
/// and at most once: no other history leads to a start.
pub proof fn lemma_start_only_when_stopped(p: PolicyView, cfg: WfpProbeConfig, h: Seq<WfpInstallEvent>)
    requires
        wfp_install_next(p, cfg, h) is StartService,
    ensures
        h.len() == 1,
        h[0] == WfpInstallEvent::Probed(Ok(WfpProbeStatus::BackendServiceStopped)),
{
}

/// An unrestricted allow-all policy calls no runner, whatever the history.
pub proof fn lemma_allow_all_calls_no_runner(p: PolicyView, cfg: WfpProbeConfig, h: Seq<WfpInstallEvent>)
    requires
        p.mode is AllowAll,
        !has_port_rules(p),
    ensures
        wfp_install_next(p, cfg, h) is NoEnforcement,
{
}

/// The event `ev` is one the runners may give to the step `a`.
pub open spec fn wfp_event_fits<
    P: Fn(&WfpProbeConfig) -> Result<WfpProbeStatus, NonoError>,
    S: Fn(&WfpProbeConfig) -> Result<WindowsWfpReport, NonoError>,
>(pf: P, sf: S, cfg: WfpProbeConfig, a: WfpActionView, ev: WfpInstallEvent) -> bool {
    match a {
        WfpActionView::Probe => ev matches WfpInstallEvent::Probed(o) && probe_answers(pf, cfg, o),
        WfpActionView::StartService => ev matches WfpInstallEvent::Started(b) && exists|os: Result<WindowsWfpReport, NonoError>|
            #[trigger] start_answers(sf, cfg, os) && (os is Ok) == b,
        _ => false,
    }
}

/// `h` is a history that [`wfp_install_next`] leads: each event answers
/// the step decided on the events before it.
pub open spec fn wfp_history_fits<
    P: Fn(&WfpProbeConfig) -> Result<WfpProbeStatus, NonoError>,
    S: Fn(&WfpProbeConfig) -> Result<WindowsWfpReport, NonoError>,
>(pf: P, sf: S, p: PolicyView, cfg: WfpProbeConfig, h: Seq<WfpInstallEvent>) -> bool {
    forall|i: int| 0 <= i < h.len() ==> #[trigger] wfp_event_fits(pf, sf, cfg, wfp_install_next(p, cfg, h.take(i)), h[i])
}

proof fn lemma_wfp_history_extends<
    P: Fn(&WfpProbeConfig) -> Result<WfpProbeStatus, NonoError>,
    S: Fn(&WfpProbeConfig) -> Result<WindowsWfpReport, NonoError>,
>(pf: P, sf: S, p: PolicyView, cfg: WfpProbeConfig, h: Seq<WfpInstallEvent>, ev: WfpInstallEvent)
    requires
        wfp_history_fits(pf, sf, p, cfg, h),
        wfp_event_fits(pf, sf, cfg, wfp_install_next(p, cfg, h), ev),
    ensures
        wfp_history_fits(pf, sf, p, cfg, h.push(ev)),
{
    let g = h.push(ev);
    assert forall|i: int| 0 <= i < g.len() implies #[trigger] wfp_event_fits(pf, sf, cfg, wfp_install_next(p, cfg, g.take(i)), g[i]) by {
        if i < h.len() {
            assert(g.take(i) =~= h.take(i));
            assert(wfp_event_fits(pf, sf, cfg, wfp_install_next(p, cfg, h.take(i)), h[i]));
        } else {
            assert(g.take(i) =~= h);
        }
    }
}

/// What a history that [`wfp_install_next`] leads gives: it never reaches
/// an invalid step; it asks for a probe or a start only while short; and
/// the refusal or activation it ends in is what [`install_wfp_spec`] says.
proof fn lemma_wfp_history_outcome<
    P: Fn(&WfpProbeConfig) -> Result<WfpProbeStatus, NonoError>,
    R: Fn(&WfpProbeConfig, &WfpRuntimeActivationRequest) -> Result<WfpRuntimeProbeOutput, NonoError>,
    S: Fn(&WfpProbeConfig) -> Result<WindowsWfpReport, NonoError>,
>(
    p: PolicyView,
    program: Seq<char>,
    sid: Option<Seq<char>>,
    cfg: WfpProbeConfig,
    pf: P,
    rf: R,
    sf: S,
    h: Seq<WfpInstallEvent>,
    res: Result<Option<NetworkEnforcementGuard>, NonoError>,
)
    requires
        wfp_history_fits(pf, sf, p, cfg, h),
    ensures
        !(wfp_install_next(p, cfg, h) is Invalid),
        wfp_install_next(p, cfg, h) is Probe || wfp_install_next(p, cfg, h) is StartService ==> h.len() < 3,
        wfp_install_next(p, cfg, h) matches WfpActionView::Refuse(ev) ==> (res matches Err(e) && error_view(e) == ev
            ==> install_wfp_spec(p, program, sid, cfg, pf, rf, sf, res)),
        wfp_install_next(p, cfg, h) matches WfpActionView::Activate(st) ==> (after_probe_spec(p, program, sid, cfg, rf, st, res)
            ==> install_wfp_spec(p, program, sid, cfg, pf, rf, sf, res)),
{
    if h.len() > 0 {
        assert(h.take(0) =~= Seq::<WfpInstallEvent>::empty());
        assert(wfp_event_fits(pf, sf, cfg, wfp_install_next(p, cfg, h.take(0)), h[0]));
    }
    if h.len() > 1 {
        assert(h.take(1) =~= seq![h[0]]);
        assert(wfp_event_fits(pf, sf, cfg, wfp_install_next(p, cfg, h.take(1)), h[1]));
    }
    if h.len() > 2 {
        assert(h.take(2) =~= seq![h[0], h[1]]);
        assert(wfp_event_fits(pf, sf, cfg, wfp_install_next(p, cfg, h.take(2)), h[2]));
    }
    if h.len() > 3 {
        assert(h.take(3) =~= seq![h[0], h[1], h[2]]);
        assert(wfp_event_fits(pf, sf, cfg, wfp_install_next(p, cfg, h.take(3)), h[3]));
    }
    if h.len() >= 2 {
        match h[1] {
            WfpInstallEvent::Started(b) => {
                if wfp_install_next(p, cfg, h.take(1)) is StartService {
                    let os = choose|os: Result<WindowsWfpReport, NonoError>| #[trigger] start_answers(sf, cfg, os) && (os is Ok) == b;
                    assert(start_answers(sf, cfg, os));
                }
            },
            _ => {},
        }
    }
}

/// Installs WFP enforcement for the launched program through the given
/// probe, request and service-start runners, each called only when
/// [`wfp_install_step`] asks for it. Every path that does not end with
/// filters in force is an error: enforcement never silently lapses.
pub fn install_wfp_network_backend_with_runner<P, R, S>(
    policy: &WindowsNetworkPolicy,
    resolved_program: &str,
    package_sid: Option<&str>,
    probe_config: &WfpProbeConfig,
    probe_fn: P,
    run_probe: R,
    start_service_fn: S,
) -> (res: Result<Option<NetworkEnforcementGuard>, NonoError>)
    where
        P: Fn(&WfpProbeConfig) -> Result<WfpProbeStatus, NonoError>,
        R: Fn(&WfpProbeConfig, &WfpRuntimeActivationRequest) -> Result<WfpRuntimeProbeOutput, NonoError>,
        S: Fn(&WfpProbeConfig) -> Result<WindowsWfpReport, NonoError>,
    requires
        forall|c: &WfpProbeConfig| call_requires(probe_fn, (c,)),
        forall|c: &WfpProbeConfig, q: &WfpRuntimeActivationRequest| call_requires(run_probe, (c, q)),
        forall|c: &WfpProbeConfig| call_requires(start_service_fn, (c,)),
    ensures
        install_wfp_spec(
            policy@,
            resolved_program@,
            opt_str_view(package_sid),
            *probe_config,
            probe_fn,
            run_probe,
            start_service_fn,
            res,
        ),
{
    let ghost p = policy@;
    let ghost cfg = *probe_config;
    let mut history: Vec<WfpInstallEvent> = Vec::new();
    assert(wfp_history_fits(probe_fn, start_service_fn, p, cfg, history@));
    loop
        invariant
            p == policy@,
            cfg == *probe_config,
            forall|c: &WfpProbeConfig| call_requires(probe_fn, (c,)),
            forall|c: &WfpProbeConfig, q: &WfpRuntimeActivationRequest| call_requires(run_probe, (c, q)),
            forall|c: &WfpProbeConfig| call_requires(start_service_fn, (c,)),
            wfp_history_fits(probe_fn, start_service_fn, p, cfg, history@),
            history@.len() <= 3,
        decreases 3 - history@.len(),
    {
        let action = wfp_install_step(policy, probe_config, history.as_slice());
        let ghost h0 = history@;
        match action {
            WfpInstallAction::NoEnforcement => {
                return Ok(None);
            },
            WfpInstallAction::Probe => {
                let o = probe_fn(probe_config);
                assert(probe_answers(probe_fn, cfg, o));
                let ev = WfpInstallEvent::Probed(o);
                proof {
                    lemma_wfp_history_outcome(p, resolved_program@, opt_str_view(package_sid), cfg, probe_fn, run_probe, start_service_fn, h0, Ok(None));
                    lemma_wfp_history_extends(probe_fn, start_service_fn, p, cfg, h0, ev);
                }
                history.push(ev);
            },
            WfpInstallAction::StartService => {
                let os = start_service_fn(probe_config);
                assert(start_answers(start_service_fn, cfg, os));
                let ev = WfpInstallEvent::Started(os.is_ok());
                proof {
                    lemma_wfp_history_outcome(p, resolved_program@, opt_str_view(package_sid), cfg, probe_fn, run_probe, start_service_fn, h0, Ok(None));
                    lemma_wfp_history_extends(probe_fn, start_service_fn, p, cfg, h0, ev);
                }
                history.push(ev);
            },
            WfpInstallAction::Refuse(e) => {
                let res: Result<Option<NetworkEnforcementGuard>, NonoError> = Err(e);
                proof {
                    lemma_wfp_history_outcome(p, resolved_program@, opt_str_view(package_sid), cfg, probe_fn, run_probe, start_service_fn, h0, res);
                }
                return res;
            },
            WfpInstallAction::Activate(st) => {
                let res = activate_ready_backend(policy, resolved_program, package_sid, probe_config, &run_probe, st);
                proof {
                    lemma_wfp_history_outcome(p, resolved_program@, opt_str_view(package_sid), cfg, probe_fn, run_probe, start_service_fn, h0, res);
                }
                return res;
            },
            WfpInstallAction::Invalid => {
                // A history that the step leads always has a next step.
                proof {
                    lemma_wfp_history_outcome(p, resolved_program@, opt_str_view(package_sid), cfg, probe_fn, run_probe, start_service_fn, h0, Ok(None));
                }
                assert(false);
                return Ok(None);
            },
        }
    }
}

/// Enforcement never silently lapses: for a policy that restricts the
/// network, installation gives either a guard of filters in force or an
/// error, whatever the runners answer.
pub proof fn lemma_install_never_lapses<
    P: Fn(&WfpProbeConfig) -> Result<WfpProbeStatus, NonoError>,
    R: Fn(&WfpProbeConfig, &WfpRuntimeActivationRequest) -> Result<WfpRuntimeProbeOutput, NonoError>,
    S: Fn(&WfpProbeConfig) -> Result<WindowsWfpReport, NonoError>,
>(
    p: PolicyView,
    program: Seq<char>,
    sid: Option<Seq<char>>,
    cfg: WfpProbeConfig,
    pf: P,
    rf: R,
    sf: S,
    res: Result<Option<NetworkEnforcementGuard>, NonoError>,
)
    requires
        install_wfp_spec(p, program, sid, cfg, pf, rf, sf, res),
        !(p.mode is AllowAll) || has_port_rules(p),
    ensures
        res is Err || res matches Ok(Some(NetworkEnforcementGuard::WfpServiceManaged { .. })),
{
}

/// A stopped WFP service that cannot be started is refused with the way to
/// start it by hand, and no activation request is sent.
pub proof fn lemma_failed_autostart_is_refused<
    P: Fn(&WfpProbeConfig) -> Result<WfpProbeStatus, NonoError>,
    R: Fn(&WfpProbeConfig, &WfpRuntimeActivationRequest) -> Result<WfpRuntimeProbeOutput, NonoError>,
    S: Fn(&WfpProbeConfig) -> Result<WindowsWfpReport, NonoError>,
>(
    p: PolicyView,
    program: Seq<char>,
    sid: Option<Seq<char>>,
    cfg: WfpProbeConfig,
    pf: P,
    rf: R,
    sf: S,
    res: Result<Option<NetworkEnforcementGuard>, NonoError>,
)
    requires
        install_wfp_spec(p, program, sid, cfg, pf, rf, sf, res),
        !(p.mode is AllowAll) || has_port_rules(p),
        forall|o: Result<WfpProbeStatus, NonoError>| #[trigger] probe_answers(pf, cfg, o) ==> o == Ok::<WfpProbeStatus, NonoError>(WfpProbeStatus::BackendServiceStopped),
        forall|o: Result<WindowsWfpReport, NonoError>| #[trigger] start_answers(sf, cfg, o) ==> o is Err,
    ensures
        fails_with(res, ErrorKind::UnsupportedPlatform, autostart_failure_text(p, cfg)),
{
}

/// What removing WFP enforcement gives: the cleanup request for the
/// program and its rules is sent, and only a cleanup-succeeded reply is
/// success; other accepted states are an error quoting the reply.
pub open spec fn cleanup_spec<R: Fn(&WfpProbeConfig, &WfpRuntimeActivationRequest) -> Result<WfpRuntimeProbeOutput, NonoError>>(
    p: PolicyView,
    cfg: WfpProbeConfig,
    program: Seq<char>,
    inbound: Seq<char>,
    outbound: Seq<char>,
    rf: R,
    res: Result<(), NonoError>,
) -> bool {
    exists|req: RequestView, o: Result<WfpRuntimeProbeOutput, NonoError>|
        #![trigger request_answers(rf, cfg, req, o)]
        is_cleanup_request(req, p, program, inbound, outbound) && request_answers(rf, cfg, req, o) && match o {
            Err(e) => res == Err::<(), NonoError>(e),
            Ok(out) => match runtime_status_spec(out) {
                Err(ev) => res matches Err(e) && error_view(e) == ev,
                Ok(WfpRuntimeActivationProbeStatus::CleanupSucceeded) => res is Ok,
                Ok(_) => fails_with(
                    res,
                    ErrorKind::SandboxInit,
                    "Windows WFP cleanup returned an unexpected network-policy state: "@ + debug_response(out.response),
                ),
            },
        }
}

/// Asks the WFP service to remove the enforcement attached to a program.
pub fn cleanup_wfp_service_managed_enforcement_with_runner<R>(
    policy: &WindowsNetworkPolicy,
    probe_config: &WfpProbeConfig,
    target_program: &str,
    inbound_rule: &str,
    outbound_rule: &str,
    run_probe: R,
) -> (res: Result<(), NonoError>)
    where
        R: Fn(&WfpProbeConfig, &WfpRuntimeActivationRequest) -> Result<WfpRuntimeProbeOutput, NonoError>,
    requires
        forall|c: &WfpProbeConfig, q: &WfpRuntimeActivationRequest| call_requires(run_probe, (c, q)),
    ensures
        cleanup_spec(policy@, *probe_config, target_program@, inbound_rule@, outbound_rule@, run_probe, res),
{
    let request = build_wfp_runtime_cleanup_request(policy, target_program, inbound_rule, outbound_rule);
    let o = run_probe(probe_config, &request);
    assert(request_answers(run_probe, *probe_config, request@, o));
    let output = match o {
        Ok(out) => out,
        Err(e) => return Err(e),
    };
    match parse_wfp_runtime_probe_status(&output) {
        Err(e) => Err(e),
        Ok(WfpRuntimeActivationProbeStatus::CleanupSucceeded) => Ok(()),
        Ok(_) => {
            let mut m = String::from_str("Windows WFP cleanup returned an unexpected network-policy state: ");
            let r = format_response(&output.response);
            m.append(r.as_str());
            Err(NonoError::SandboxInit(m))
        },
    }
}

} // verus!
