//! The working-directory guard of the Windows tool jail: the rewritten
//! `Bash` tool runs with write access to its working directory, so it must
//! not run where that directory covers the agent's own hook settings or
//! state (under the home directory, or in the project), or the jail could
//! disable its own hooks.
//!
//! Paths are compared component by component, as `Path::starts_with` does.
//! Canonicalising a path and asking whether it exists are the caller's; the
//! name of the agent's state directory is the caller's too.
use crate::claude_code_hook::{self_disable_reason, self_disable_reason_no_home};
use crate::text::{push_char, str_eq, views};
use vstd::prelude::*;

verus! {

/// A path separator on Windows.
pub open spec fn is_sep(c: char) -> bool {
    c == '\\' || c == '/'
}

/// Scans a path left to right: the components closed so far, and the piece
/// being read.
pub open spec fn scan_components(s: Seq<char>) -> (Seq<Seq<char>>, Seq<char>)
    decreases s.len(),
{
    if s.len() == 0 {
        (Seq::empty(), Seq::empty())
    } else {
        let (done, cur) = scan_components(s.drop_last());
        if is_sep(s.last()) {
            (if cur.len() > 0 { done.push(cur) } else { done }, Seq::empty())
        } else {
            (done, cur.push(s.last()))
        }
    }
}

/// The components of a path: the non-empty pieces between separators.
pub open spec fn path_components(s: Seq<char>) -> Seq<Seq<char>> {
    let (done, cur) = scan_components(s);
    if cur.len() > 0 {
        done.push(cur)
    } else {
        done
    }
}

/// `parent` covers `child`: its components are the first components of
/// `child`.
pub open spec fn covers(parent: Seq<char>, child: Seq<char>) -> bool {
    let pc = path_components(parent);
    let cc = path_components(child);
    pc.len() <= cc.len() && cc.subrange(0, pc.len() as int) == pc
}

/// `base` joined with the relative name `name`: a separator goes between
/// them unless `base` is empty or already ends with one.
pub open spec fn join_path(base: Seq<char>, name: Seq<char>) -> Seq<char> {
    if base.len() == 0 || is_sep(base.last()) {
        base + name
    } else {
        base + "\\"@ + name
    }
}

/// `base` joined with each of `names` in turn.
pub open spec fn join_all(base: Seq<char>, names: Seq<Seq<char>>) -> Seq<char>
    decreases names.len(),
{
    if names.len() == 0 {
        base
    } else {
        join_path(join_all(base, names.drop_last()), names.last())
    }
}

/// The last `n` components of `path`, joined onto `base`.
pub open spec fn with_tail(base: Seq<char>, path: Seq<char>, n: nat) -> Seq<char> {
    let cs = path_components(path);
    join_all(base, cs.subrange(cs.len() - n, cs.len() as int))
}

/// The components of a path, in order.
pub fn components_of(path: &str) -> (r: Vec<String>)
    ensures
        views(r@) == path_components(path@),
{
    let ghost s = path@;
    let mut done: Vec<String> = Vec::new();
    let mut cur = String::new();
    for c in it: path.chars()
        invariant
            it.seq() == s,
            (views(done@), cur@) == scan_components(s.take(it.index() as int)),
    {
        let ghost k = it.index() as int;
        proof {
            assert(s.take(k + 1).drop_last() =~= s.take(k));
            assert(s.take(k + 1).last() == c);
        }
        if c == '\\' || c == '/' {
            if cur.as_str().unicode_len() > 0 {
                let ghost dv = views(done@);
                done.push(cur);
                proof {
                    assert(views(done@) =~= dv.push(scan_components(s.take(k)).1));
                }
            }
            cur = String::new();
        } else {
            push_char(&mut cur, c);
        }
    }
    proof {
        assert(s.take(s.len() as int) =~= s);
    }
    if cur.as_str().unicode_len() > 0 {
        let ghost dv = views(done@);
        done.push(cur);
        proof {
            assert(views(done@) =~= dv.push(scan_components(s).1));
        }
    }
    done
}

/// Whether `parent` covers `child`, component by component.
pub fn path_covers(parent: &str, child: &str) -> (r: bool)
    ensures
        r == covers(parent@, child@),
{
    let pc = components_of(parent);
    let cc = components_of(child);
    let ghost pv = views(pc@);
    let ghost cv = views(cc@);
    assert(pv.len() == pc.len() && cv.len() == cc.len());
    if pc.len() > cc.len() {
        return false;
    }
    let mut i: usize = 0;
    while i < pc.len()
        invariant
            pc.len() <= cc.len(),
            i <= pc.len(),
            pv == views(pc@),
            cv == views(cc@),
            pv == path_components(parent@),
            cv == path_components(child@),
            forall|j: int| 0 <= j < i ==> cv[j] == pv[j],
        decreases pc.len() - i,
    {
        proof {
            assert(pv[i as int] == pc@[i as int]@);
            assert(cv[i as int] == cc@[i as int]@);
        }
        if !str_eq(pc[i].as_str(), cc[i].as_str()) {
            assert(cv.subrange(0, pv.len() as int)[i as int] != pv[i as int]);
            assert(cv.subrange(0, pv.len() as int) != pv);
            return false;
        }
        i = i + 1;
    }
    assert(cv.subrange(0, pv.len() as int) =~= pv);
    true
}

/// `base` joined with the relative name `name`.
pub fn join_name(base: &str, name: &str) -> (r: String)
    ensures
        r@ == join_path(base@, name@),
{
    let mut r = String::from_str(base);
    let n = base.unicode_len();
    let needs_sep = if n == 0 {
        false
    } else {
        let last = base.get_char(n - 1);
        !(last == '\\' || last == '/')
    };
    if needs_sep {
        r.append("\\");
    }
    r.append(name);
    r
}

/// The last `tail_count` components of `path`, joined onto `base`: what
/// remains to append after the longest existing ancestor of `path` was
/// canonicalised into `base`.
pub fn join_tail(base: &str, path: &str, tail_count: usize) -> (r: String)
    requires
        tail_count <= path_components(path@).len(),
    ensures
        r@ == with_tail(base@, path@, tail_count as nat),
{
    let cs = components_of(path);
    let ghost cv = views(cs@);
    let start = cs.len() - tail_count;
    let ghost tail = cv.subrange(start as int, cv.len() as int);
    let mut r = String::from_str(base);
    let mut i: usize = start;
    while i < cs.len()
        invariant
            start <= i <= cs.len(),
            cv == views(cs@),
            tail == cv.subrange(start as int, cv.len() as int),
            r@ == join_all(base@, tail.take(i - start)),
        decreases cs.len() - i,
    {
        let next = join_name(r.as_str(), cs[i].as_str());
        proof {
            assert(tail.take(i + 1 - start).drop_last() =~= tail.take(i - start));
            assert(tail.take(i + 1 - start).last() == cv[i as int]);
        }
        r = next;
        i = i + 1;
    }
    proof {
        assert(tail.take(tail.len() as int) =~= tail);
    }
    r
}

/// The paths under the home directory that hold the agent's hook settings
/// and state: its state directory, and the state file and its lock beside
/// it, named after the directory.
pub open spec fn state_targets(home: Seq<char>, state_dir: Seq<char>) -> Seq<Seq<char>> {
    seq![
        join_path(home, state_dir),
        join_path(home, state_dir + ".json"@),
        join_path(home, state_dir + ".json.lock"@),
    ]
}

/// The paths under `home` that hold the agent's hook settings and state.
pub fn agent_state_targets(home: &str, state_dir: &str) -> (r: Vec<String>)
    ensures
        views(r@) == state_targets(home@, state_dir@),
{
    let dir = join_name(home, state_dir);
    let mut file = String::from_str(state_dir);
    file.append(".json");
    let mut lock = String::from_str(state_dir);
    lock.append(".json.lock");
    let f = join_name(home, file.as_str());
    let l = join_name(home, lock.as_str());
    let r = vec![dir, f, l];
    assert(views(r@) =~= state_targets(home@, state_dir@));
    r
}

/// Why the tool jail must not run in `cwd`, if it must not: without a home
/// directory nothing can be checked; otherwise the jail is refused when
/// `cwd` covers one of the canonicalised state targets, lies inside the
/// home state directory, or holds a project state directory.
pub open spec fn cwd_risk_spec(
    cwd: Seq<char>,
    home: Option<Seq<char>>,
    state_dir: Seq<char>,
    canonical_targets: Seq<Seq<char>>,
    project_state_exists: bool,
) -> Option<Seq<char>> {
    match home {
        None => Some(
            "refusing to wrap Bash: home directory cannot be resolved; cannot verify CWD does not cover agent hook state"@,
        ),
        Some(h) => if (exists|i: int| 0 <= i < canonical_targets.len() && #[trigger] covers(cwd, canonical_targets[i]))
            || covers(join_path(h, state_dir), cwd) || project_state_exists {
            Some(
                "refusing to wrap Bash: CWD '"@ + cwd
                    + "' covers agent hook settings or agent state; would allow the tool jail to disable its own hooks"@,
            )
        } else {
            None
        },
    }
}

/// Decides whether the tool jail may run in the canonical working
/// directory `cwd`. `home` is the canonical home directory, if it could be
/// resolved; `canonical_targets` are the [`agent_state_targets`] of `home`,
/// each canonicalised as far as it exists; `project_state_exists` tells
/// whether `cwd` holds a state directory of the agent.
pub fn cwd_self_disable_risk(
    cwd: &str,
    home: Option<&str>,
    state_dir: &str,
    canonical_targets: &[String],
    project_state_exists: bool,
) -> (r: Option<String>)
    ensures
        r matches Some(s) ==> cwd_risk_spec(cwd@, crate::network_policy::opt_str_view(home), state_dir@, views(canonical_targets@), project_state_exists) == Some(s@),
        r is None ==> cwd_risk_spec(cwd@, crate::network_policy::opt_str_view(home), state_dir@, views(canonical_targets@), project_state_exists) is None,
{
    let h = match home {
        None => return Some(self_disable_reason_no_home()),
        Some(h) => h,
    };
    let ghost tv = views(canonical_targets@);
    let mut covered = false;
    let mut i: usize = 0;
    while i < canonical_targets.len()
        invariant
            i <= canonical_targets.len(),
            tv == views(canonical_targets@),
            covered == exists|j: int| 0 <= j < i && #[trigger] covers(cwd@, tv[j]),
        decreases canonical_targets.len() - i,
    {
        let c = path_covers(cwd, canonical_targets[i].as_str());
        proof {
            assert(tv[i as int] == canonical_targets@[i as int]@);
        }
        if c {
            covered = true;
        }
        i = i + 1;
    }
    let home_state = join_name(h, state_dir);
    if covered || path_covers(home_state.as_str(), cwd) || project_state_exists {
        return Some(self_disable_reason(cwd));
    }
    None
}

} // verus!
