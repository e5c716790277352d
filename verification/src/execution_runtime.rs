//! Decisions of a sandboxed launch: the checks that refuse an unsafe
//! launch before anything is spawned, the order of the child's
//! environment, and the names and secrets generated for one session.
use crate::env_sanitization::{dangerous_env_var, is_dangerous_env_var};
use crate::error::{err_of, error_view, ErrorKind, NonoError};
use crate::hook_runtime_windows::pair_views;
use crate::text::{hex_bytes, hex_of_bytes, string_from_chars, views};
use vstd::prelude::*;

verus! {

/// The first secret mapping that targets a dangerous variable, if any.
pub open spec fn first_dangerous(keys: Seq<Seq<char>>, on_windows: bool) -> Option<Seq<char>>
    decreases keys.len(),
{
    if keys.len() == 0 {
        None
    } else if dangerous_env_var(keys[0], on_windows) {
        Some(keys[0])
    } else {
        first_dangerous(keys.drop_first(), on_windows)
    }
}

/// Refuses a launch whose secrets would be injected into a variable that
/// can hijack the child (a loader path, `PATH`, and the like), naming the
/// first such variable.
pub fn check_secret_targets(secret_env_vars: &[String], on_windows: bool) -> (r: Result<(), NonoError>)
    ensures
        match first_dangerous(views(secret_env_vars@), on_windows) {
            Some(k) => r matches Err(NonoError::ConfigParse(m)) && m@
                == "secret mapping targets dangerous environment variable: "@ + k,
            None => r is Ok,
        },
{
    let mut i: usize = 0;
    assert(views(secret_env_vars@).skip(0) =~= views(secret_env_vars@));
    while i < secret_env_vars.len()
        invariant
            i <= secret_env_vars.len(),
            first_dangerous(views(secret_env_vars@), on_windows) == first_dangerous(
                views(secret_env_vars@).skip(i as int),
                on_windows,
            ),
        decreases secret_env_vars.len() - i,
    {
        let ghost rest = views(secret_env_vars@).skip(i as int);
        assert(rest[0] == secret_env_vars@[i as int]@);
        assert(rest.drop_first() =~= views(secret_env_vars@).skip(i + 1));
        if is_dangerous_env_var(secret_env_vars[i].as_str(), on_windows) {
            let mut m = String::from_str("secret mapping targets dangerous environment variable: ");
            m.append(secret_env_vars[i].as_str());
            return Err(NonoError::ConfigParse(m));
        }
        i = i + 1;
    }
    Ok(())
}

/// Refuses proxy-only network mode when no proxy runs: the child would have
/// no route out, and the launch fails before any enforcement is installed.
pub fn check_proxy_only_has_proxy(proxy_only: bool, proxy_active: bool) -> (r: Result<(), NonoError>)
    ensures
        proxy_only && !proxy_active ==> (r matches Err(NonoError::SandboxInit(m)) && m@
            == "Cannot use proxy-only mode without a network profile or credential configuration."@),
        !(proxy_only && !proxy_active) ==> r is Ok,
{
    if proxy_only && !proxy_active {
        return Err(
            NonoError::SandboxInit(
                String::from_str("Cannot use proxy-only mode without a network profile or credential configuration."),
            ),
        );
    }
    Ok(())
}

fn append_pairs(out: &mut Vec<(String, String)>, src: &[(String, String)])
    ensures
        pair_views(final(out)@) == pair_views(old(out)@) + pair_views(src@),
{
    let ghost start = pair_views(out@);
    let mut i: usize = 0;
    while i < src.len()
        invariant
            i <= src.len(),
            pair_views(out@) == start + pair_views(src@.take(i as int)),
        decreases src.len() - i,
    {
        let ghost before = pair_views(out@);
        let k = src[i].0.clone();
        let v = src[i].1.clone();
        out.push((k, v));
        proof {
            assert(pair_views(out@) =~= before.push((src@[i as int].0@, src@[i as int].1@)));
            assert(pair_views(src@.take(i + 1)) =~= pair_views(src@.take(i as int)).push(
                (src@[i as int].0@, src@[i as int].1@),
            ));
        }
        i = i + 1;
    }
    assert(src@.take(src.len() as int) =~= src@);
}

/// The variables the supervisor hands the child on Windows.
pub open spec fn supervisor_vars(supervisor: Option<(Seq<char>, Seq<char>)>) -> Seq<(Seq<char>, Seq<char>)> {
    match supervisor {
        Some((token, pipe)) => seq![("NONO_SESSION_TOKEN"@, token), ("NONO_SUPERVISOR_PIPE"@, pipe)],
        None => Seq::empty(),
    }
}

/// The child's environment, lowest priority first: the before-hook's
/// exports, then the secrets, then the proxy variables, then (on Windows)
/// the session token and the supervisor pipe.
pub fn assemble_child_env(
    hook_vars: &[(String, String)],
    secrets: &[(String, String)],
    proxy_vars: &[(String, String)],
    supervisor: Option<(&str, &str)>,
) -> (r: Vec<(String, String)>)
    ensures
        pair_views(r@) == pair_views(hook_vars@) + pair_views(secrets@) + pair_views(proxy_vars@) + supervisor_vars(
            match supervisor {
                Some((t, p)) => Some((t@, p@)),
                None => None,
            },
        ),
{
    let mut r: Vec<(String, String)> = Vec::new();
    assert(pair_views(r@) =~= Seq::<(Seq<char>, Seq<char>)>::empty());
    append_pairs(&mut r, hook_vars);
    append_pairs(&mut r, secrets);
    append_pairs(&mut r, proxy_vars);
    match supervisor {
        Some((token, pipe)) => {
            let ghost before = pair_views(r@);
            r.push((String::from_str("NONO_SESSION_TOKEN"), String::from_str(token)));
            r.push((String::from_str("NONO_SUPERVISOR_PIPE"), String::from_str(pipe)));
            assert(pair_views(r@) =~= before + seq![("NONO_SESSION_TOKEN"@, token@), ("NONO_SUPERVISOR_PIPE"@, pipe@)]);
        },
        None => {
            assert(pair_views(r@) =~= pair_views(r@) + Seq::<(Seq<char>, Seq<char>)>::empty());
        },
    }
    r
}

/// The session token made of drawn bytes: the 32 bytes in lower-case
/// hexadecimal; a failed draw fails the launch with its reason.
pub fn session_token_from(drawn: Result<Vec<u8>, String>) -> (r: Result<String, NonoError>)
    requires
        drawn matches Ok(b) ==> b@.len() == 32,
    ensures
        token_from_spec(drawn, r),
{
    match drawn {
        Ok(bytes) => {
            let hex = hex_of_bytes(bytes.as_slice(), false);
            Ok(string_from_chars(hex.as_slice()))
        },
        Err(e) => {
            let mut m = String::from_str("Failed to generate session token: ");
            m.append(e.as_str());
            Err(NonoError::SandboxInit(m))
        },
    }
}

/// The session token the child must echo to the supervisor: 32 bytes drawn
/// from the operating system's generator, as [`session_token_from`] makes
/// it.
pub fn generate_session_token() -> (r: Result<String, NonoError>)
    ensures
        exists|d: Result<Vec<u8>, String>| (d matches Ok(b) ==> b@.len() == 32) && #[trigger] token_from_spec(d, r),
{
    let drawn = crate::random::os_random_bytes(32);
    let ghost d = drawn;
    let r = session_token_from(drawn);
    assert(token_from_spec(d, r));
    r
}

/// What [`session_token_from`] gives for a draw.
pub open spec fn token_from_spec(drawn: Result<Vec<u8>, String>, r: Result<String, NonoError>) -> bool {
    match drawn {
        Ok(b) => r matches Ok(t) && t@ == hex_bytes(b@, false),
        Err(e) => r matches Err(x) && error_view(x) == err_of(ErrorKind::SandboxInit, "Failed to generate session token: "@ + e@),
    }
}

/// The capability state file name made of drawn bytes: `.nono-`, the eight
/// bytes in lower-case hexadecimal, `.json`; a failed draw is passed on.
pub fn capability_state_file_name_from(drawn: Result<Vec<u8>, String>) -> (r: Result<String, String>)
    requires
        drawn matches Ok(b) ==> b@.len() == 8,
    ensures
        state_file_name_spec(drawn, r),
{
    match drawn {
        Ok(bytes) => {
            let hex = hex_of_bytes(bytes.as_slice(), false);
            let h = string_from_chars(hex.as_slice());
            let mut r = String::from_str(".nono-");
            r.append(h.as_str());
            r.append(".json");
            Ok(r)
        },
        Err(e) => Err(e),
    }
}

/// What [`capability_state_file_name_from`] gives for a draw.
pub open spec fn state_file_name_spec(drawn: Result<Vec<u8>, String>, r: Result<String, String>) -> bool {
    match drawn {
        Ok(b) => r matches Ok(n) && n@ == ".nono-"@ + hex_bytes(b@, false) + ".json"@,
        Err(e) => r matches Err(m) && m@ == e@,
    }
}

/// The file name of a fresh capability state file: eight bytes drawn from
/// the operating system's generator, named as
/// [`capability_state_file_name_from`] says.
pub fn next_capability_state_file_name() -> (r: Result<String, String>)
    ensures
        exists|d: Result<Vec<u8>, String>| (d matches Ok(b) ==> b@.len() == 8) && #[trigger] state_file_name_spec(d, r),
{
    let drawn = crate::random::os_random_bytes(8);
    let ghost d = drawn;
    let r = capability_state_file_name_from(drawn);
    assert(state_file_name_spec(d, r));
    r
}

/// The file name of the supervisor's capability pipe rendezvous for a session.
pub fn capability_pipe_file_name(session_id: &str) -> (r: String)
    ensures
        r@ == "nono-cap-"@ + session_id@ + ".pipe"@,
{
    let mut r = String::from_str("nono-cap-");
    r.append(session_id);
    r.append(".pipe");
    r
}

/// A start-up timeout applies only when it is set and positive.
pub fn effective_startup_timeout(secs: Option<u64>) -> (r: Option<u64>)
    ensures
        r == (match secs {
            Some(s) => if s > 0 { Some(s) } else { None },
            None => None,
        }),
{
    match secs {
        Some(s) => if s > 0 {
            Some(s)
        } else {
            None
        },
        None => None,
    }
}

} // verus!
