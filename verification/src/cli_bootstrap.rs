//! Start-up decisions of the CLI: whether the log file is private from the
//! confined child, which deprecated network flags and variables to warn
//! about, and the log level the verbosity flags select.
use crate::text::{has_prefix, str_eq, views};
use vstd::prelude::*;

verus! {

// ---------------------------------------------------------------------------
// Whether the log target is private
// ---------------------------------------------------------------------------

/// What tracing set-up recorded about the log target of this launch.
#[derive(Debug, Clone)]
pub struct LogTargetState {
    /// The `--log-file` arm was selected (the file opened).
    pub file_arm_selected: bool,
    /// The log path recorded when that arm was selected.
    pub stored_path: Option<String>,
    /// The paths this launch grants the confined child; `None` when no
    /// granted-path check has run (distinct from an empty list).
    pub granted_paths: Option<Vec<String>>,
}

/// Canonicalisation, asked about `p`, may answer `o` (`None` on failure).
pub open spec fn canon_gives<C: Fn(&str) -> Option<String>>(cf: C, p: Seq<char>, o: Option<String>) -> bool {
    exists|s: &str| s@ == p && #[trigger] call_ensures(cf, (s,), o)
}

/// The component-wise prefix test, asked whether `a` starts with `b`, may
/// answer `o`.
pub open spec fn starts_gives<S: Fn(&str, &str) -> bool>(sf: S, a: Seq<char>, b: Seq<char>, o: bool) -> bool {
    exists|s: &str, t: &str| s@ == a && t@ == b && #[trigger] call_ensures(sf, (s, t), o)
}

/// The granted path `g` (canonicalised, or as given when that fails) was
/// found to cover the canonical log path `c` (`covers`) or not.
pub open spec fn grant_checked<C: Fn(&str) -> Option<String>, S: Fn(&str, &str) -> bool>(
    cf: C,
    sf: S,
    c: Seq<char>,
    g: Seq<char>,
    covers: bool,
) -> bool {
    exists|o1: Option<String>| #[trigger] canon_gives(cf, g, o1) && starts_gives(
        sf,
        c,
        match o1 {
            Some(x) => x@,
            None => g,
        },
        covers,
    )
}

/// Decides whether the log target is private from the confined child: only
/// when the file arm was selected, its path was recorded and
/// canonicalises, the granted-path check has run, and no granted path
/// covers the log path. Every unknown case is "not private".
pub fn log_target_is_private<C, S>(state: &LogTargetState, canonicalize: C, path_starts_with: S) -> (r: bool)
    where
        C: Fn(&str) -> Option<String>,
        S: Fn(&str, &str) -> bool,
    requires
        forall|s: &str| call_requires(canonicalize, (s,)),
        forall|s: &str, t: &str| call_requires(path_starts_with, (s, t)),
    ensures
        r ==> state.file_arm_selected && (state.stored_path matches Some(p) && exists|c: String|
            #[trigger] canon_gives(canonicalize, p@, Some(c)) && (state.granted_paths matches Some(gs)
                && forall|i: int| 0 <= i < gs@.len() ==> #[trigger] grant_checked(canonicalize, path_starts_with, c@, gs@[i]@, false))),
        !r ==> !state.file_arm_selected || state.stored_path is None || state.granted_paths is None || (
        state.stored_path matches Some(p) && (canon_gives(canonicalize, p@, None) || exists|c: String, i: int|
            #![trigger canon_gives(canonicalize, p@, Some(c)), state.granted_paths->0@[i]]
            canon_gives(canonicalize, p@, Some(c)) && (state.granted_paths matches Some(gs) && 0 <= i < gs@.len()
                && grant_checked(canonicalize, path_starts_with, c@, gs@[i]@, true)))),
{
    if !state.file_arm_selected {
        return false;
    }
    let stored = match &state.stored_path {
        Some(p) => p,
        None => return false,
    };
    let oc = canonicalize(stored.as_str());
    assert(canon_gives(canonicalize, stored@, oc));
    let canonical = match oc {
        Some(c) => c,
        None => return false,
    };
    let granted = match &state.granted_paths {
        Some(gs) => gs,
        None => return false,
    };
    let mut i: usize = 0;
    while i < granted.len()
        invariant
            i <= granted.len(),
            state.file_arm_selected,
            state.stored_path == Some(*stored),
            canon_gives(canonicalize, stored@, Some(canonical)),
            state.granted_paths == Some(*granted),
            forall|s: &str| call_requires(canonicalize, (s,)),
            forall|s: &str, t: &str| call_requires(path_starts_with, (s, t)),
            forall|k: int| 0 <= k < i ==> #[trigger] grant_checked(canonicalize, path_starts_with, canonical@, granted@[k]@, false),
        decreases granted.len() - i,
    {
        let g = &granted[i];
        let og = canonicalize(g.as_str());
        assert(canon_gives(canonicalize, g@, og));
        let target = match og {
            Some(x) => x,
            None => g.clone(),
        };
        let covered = path_starts_with(canonical.as_str(), target.as_str());
        assert(starts_gives(path_starts_with, canonical@, target@, covered));
        assert(grant_checked(canonicalize, path_starts_with, canonical@, g@, covered));
        if covered {
            assert(state.granted_paths->0@[i as int] == *g);
            return false;
        }
        i = i + 1;
    }
    true
}

// ---------------------------------------------------------------------------
// Deprecated network flags and variables
// ---------------------------------------------------------------------------

/// A deprecated command-line flag: its name, what replaces it, and the
/// version that removes it, if announced.
pub open spec fn legacy_flags() -> Seq<(Seq<char>, Seq<char>, Option<Seq<char>>)> {
    seq![
        ("--allow-net"@, "network is unrestricted by default"@, None),
        ("--net-allow"@, "network is unrestricted by default"@, None),
        ("--allow-proxy"@, "--allow-domain"@, None),
        ("--proxy-allow"@, "--allow-domain"@, None),
        ("--proxy-credential"@, "--credential"@, Some("v1.0.0"@)),
        ("--allow-bind"@, "--listen-port"@, None),
        ("--allow-port"@, "--open-port"@, None),
        ("--external-proxy"@, "--upstream-proxy"@, None),
        ("--external-proxy-bypass"@, "--upstream-bypass"@, None),
        ("--net-block"@, "--block-net"@, None),
    ]
}

/// A deprecated environment variable: its name, its replacement, and the
/// version that removes it, if announced.
pub open spec fn legacy_env_vars() -> Seq<(Seq<char>, Seq<char>, Option<Seq<char>>)> {
    seq![
        ("NONO_NET_BLOCK"@, "NONO_BLOCK_NET"@, None),
        ("NONO_NET_ALLOW"@, "NONO_ALLOW_NET"@, None),
        ("NONO_ALLOW_PROXY"@, "NONO_ALLOW_DOMAIN"@, None),
        ("NONO_PROXY_ALLOW"@, "NONO_ALLOW_DOMAIN"@, None),
        ("NONO_PROXY_CREDENTIAL"@, "NONO_CREDENTIAL"@, Some("v1.0.0"@)),
        ("NONO_EXTERNAL_PROXY"@, "NONO_UPSTREAM_PROXY"@, None),
        ("NONO_EXTERNAL_PROXY_BYPASS"@, "NONO_UPSTREAM_BYPASS"@, None),
    ]
}

/// The warning for a deprecated name.
pub open spec fn deprecation_warning(legacy: Seq<char>, replacement: Seq<char>, remove_by: Option<Seq<char>>) -> Seq<char> {
    "Warning: `"@ + legacy + "` is deprecated; use `"@ + replacement + "` instead."@ + match remove_by {
        Some(v) => " Will be removed in "@ + v + "."@,
        None => Seq::empty(),
    }
}

/// The argument list uses the flag, alone or as `flag=value`.
pub open spec fn flag_used(args: Seq<Seq<char>>, flag: Seq<char>) -> bool {
    exists|i: int| 0 <= i < args.len() && (args[i] == flag || has_prefix(#[trigger] args[i], flag + "="@))
}

/// The warnings for the deprecated entries of `table` that `used` holds of,
/// in the table's order.
pub open spec fn warnings_for(
    table: Seq<(Seq<char>, Seq<char>, Option<Seq<char>>)>,
    used: spec_fn(Seq<char>) -> bool,
) -> Seq<Seq<char>>
    decreases table.len(),
{
    if table.len() == 0 {
        Seq::empty()
    } else {
        let e = table.last();
        let prev = warnings_for(table.drop_last(), used);
        if used(e.0) {
            prev.push(deprecation_warning(e.0, e.1, e.2))
        } else {
            prev
        }
    }
}

fn deprecation_warning_text(legacy: &str, replacement: &str, remove_by: Option<&str>) -> (r: String)
    ensures
        r@ == deprecation_warning(legacy@, replacement@, match remove_by {
            Some(v) => Some(v@),
            None => None,
        }),
{
    let mut m = String::from_str("Warning: `");
    m.append(legacy);
    m.append("` is deprecated; use `");
    m.append(replacement);
    m.append("` instead.");
    match remove_by {
        Some(v) => {
            m.append(" Will be removed in ");
            m.append(v);
            m.append(".");
        },
        None => {},
    }
    m
}

fn flag_is_used(args: &[String], flag: &str) -> (r: bool)
    ensures
        r == flag_used(views(args@), flag@),
{
    let mut with_eq = String::from_str(flag);
    with_eq.append("=");
    let mut i: usize = 0;
    while i < args.len()
        invariant
            i <= args.len(),
            with_eq@ == flag@ + "="@,
            forall|k: int| 0 <= k < i ==> !(views(args@)[k] == flag@ || has_prefix(#[trigger] views(args@)[k], flag@ + "="@)),
        decreases args.len() - i,
    {
        let a = crate::text::chars_of(args[i].as_str());
        let p = crate::text::chars_of(with_eq.as_str());
        if str_eq(args[i].as_str(), flag) || crate::text::chars_starts_with(a.as_slice(), p.as_slice()) {
            assert(views(args@)[i as int] == args@[i as int]@);
            return true;
        }
        assert(views(args@)[i as int] == args@[i as int]@);
        i = i + 1;
    }
    false
}

fn name_present(names: &[String], name: &str) -> (r: bool)
    ensures
        r == views(names@).contains(name@),
{
    let mut i: usize = 0;
    while i < names.len()
        invariant
            i <= names.len(),
            forall|k: int| 0 <= k < i ==> views(names@)[k] != name@,
        decreases names.len() - i,
    {
        if str_eq(names[i].as_str(), name) {
            assert(views(names@)[i as int] == name@);
            return true;
        }
        i = i + 1;
    }
    false
}

/// The deprecation warnings for a launch: one for each deprecated flag in
/// `args` (the arguments after the program name), then one for each
/// deprecated variable among `env_names` (the variables that are set), each
/// in table order.
pub fn legacy_network_warnings(args: &[String], env_names: &[String]) -> (r: Vec<String>)
    ensures
        views(r@) == warnings_for(legacy_flags(), |f: Seq<char>| flag_used(views(args@), f)) + warnings_for(
            legacy_env_vars(),
            |n: Seq<char>| views(env_names@).contains(n),
        ),
{
    let flags: Vec<(&str, &str, Option<&str>)> = vec![
        ("--allow-net", "network is unrestricted by default", None),
        ("--net-allow", "network is unrestricted by default", None),
        ("--allow-proxy", "--allow-domain", None),
        ("--proxy-allow", "--allow-domain", None),
        ("--proxy-credential", "--credential", Some("v1.0.0")),
        ("--allow-bind", "--listen-port", None),
        ("--allow-port", "--open-port", None),
        ("--external-proxy", "--upstream-proxy", None),
        ("--external-proxy-bypass", "--upstream-bypass", None),
        ("--net-block", "--block-net", None),
    ];
    let vars: Vec<(&str, &str, Option<&str>)> = vec![
        ("NONO_NET_BLOCK", "NONO_BLOCK_NET", None),
        ("NONO_NET_ALLOW", "NONO_ALLOW_NET", None),
        ("NONO_ALLOW_PROXY", "NONO_ALLOW_DOMAIN", None),
        ("NONO_PROXY_ALLOW", "NONO_ALLOW_DOMAIN", None),
        ("NONO_PROXY_CREDENTIAL", "NONO_CREDENTIAL", Some("v1.0.0")),
        ("NONO_EXTERNAL_PROXY", "NONO_UPSTREAM_PROXY", None),
        ("NONO_EXTERNAL_PROXY_BYPASS", "NONO_UPSTREAM_BYPASS", None),
    ];
    let ghost ft = flags@.map_values(|e: (&str, &str, Option<&str>)| table_entry(e));
    let ghost vt = vars@.map_values(|e: (&str, &str, Option<&str>)| table_entry(e));
    assert(ft =~= legacy_flags());
    assert(vt =~= legacy_env_vars());
    let ghost fu = |f: Seq<char>| flag_used(views(args@), f);
    let ghost vu = |n: Seq<char>| views(env_names@).contains(n);
    let mut out: Vec<String> = Vec::new();
    let mut i: usize = 0;
    while i < flags.len()
        invariant
            i <= flags.len(),
            ft == flags@.map_values(|e: (&str, &str, Option<&str>)| table_entry(e)),
            fu == (|f: Seq<char>| flag_used(views(args@), f)),
            views(out@) == warnings_for(ft.take(i as int), fu),
        decreases flags.len() - i,
    {
        let (legacy, replacement, remove_by) = flags[i];
        proof {
            assert(ft.take(i + 1).drop_last() =~= ft.take(i as int));
            assert(ft.take(i + 1).last() == table_entry(flags@[i as int]));
        }
        if flag_is_used(args, legacy) {
            let ghost before = views(out@);
            let w = deprecation_warning_text(legacy, replacement, remove_by);
            out.push(w);
            assert(views(out@) =~= before.push(w@));
        }
        i = i + 1;
    }
    assert(ft.take(flags.len() as int) =~= ft);
    let ghost first = views(out@);
    let mut j: usize = 0;
    while j < vars.len()
        invariant
            j <= vars.len(),
            vt == vars@.map_values(|e: (&str, &str, Option<&str>)| table_entry(e)),
            vu == (|n: Seq<char>| views(env_names@).contains(n)),
            views(out@) == first + warnings_for(vt.take(j as int), vu),
        decreases vars.len() - j,
    {
        let (legacy, replacement, remove_by) = vars[j];
        proof {
            assert(vt.take(j + 1).drop_last() =~= vt.take(j as int));
            assert(vt.take(j + 1).last() == table_entry(vars@[j as int]));
        }
        if name_present(env_names, legacy) {
            let ghost before = views(out@);
            let w = deprecation_warning_text(legacy, replacement, remove_by);
            out.push(w);
            assert(views(out@) =~= before.push(w@));
        }
        j = j + 1;
    }
    assert(vt.take(vars.len() as int) =~= vt);
    out
}

/// A table row as plain values.
pub open spec fn table_entry(e: (&str, &str, Option<&str>)) -> (Seq<char>, Seq<char>, Option<Seq<char>>) {
    (e.0@, e.1@, match e.2 {
        Some(v) => Some(v@),
        None => None,
    })
}

// ---------------------------------------------------------------------------
// Log level
// ---------------------------------------------------------------------------

/// The log filter the flags force: `off` when silent; otherwise none for
/// no `-v`, then `info`, `debug`, and `trace` from three on.
pub fn cli_log_override(silent: bool, verbosity: u8) -> (r: Option<&'static str>)
    ensures
        silent ==> (r matches Some(s) && s@ == "off"@),
        !silent && verbosity == 0 ==> r is None,
        !silent && verbosity == 1 ==> (r matches Some(s) && s@ == "info"@),
        !silent && verbosity == 2 ==> (r matches Some(s) && s@ == "debug"@),
        !silent && verbosity >= 3 ==> (r matches Some(s) && s@ == "trace"@),
{
    if silent {
        return Some("off");
    }
    match verbosity {
        0 => None,
        1 => Some("info"),
        2 => Some("debug"),
        _ => Some("trace"),
    }
}

} // verus!
