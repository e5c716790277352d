//! Session hooks on Windows: how a hook script is dispatched to its
//! interpreter, the environment it runs with, the fail-closed reading of its
//! outcome, the variables a before-hook may export, and the decision that a
//! script or its directory is writable by Everyone.
//!
//! Spawning, waiting and reading security descriptors are the caller's;
//! what they return is decided here.
use crate::env_sanitization::{dangerous_env_var, is_dangerous_env_var};
use crate::error::NonoError;
use crate::text::{
    chars_find, chars_of, decimal_string, find_from, hex_digit, hex_digit_char, i32_string, int_decimal,
    lines, lines_of, lower_seq, slice_range, string_from_chars, to_lower, trim, trim_chars, decimal,
};
use vstd::prelude::*;

verus! {

// ---------------------------------------------------------------------------
// World-writable ACLs
// ---------------------------------------------------------------------------

/// The write-class rights that let a principal place or replace a file:
/// GENERIC_WRITE, WRITE_DAC, WRITE_OWNER, DELETE, FILE_WRITE_DATA,
/// FILE_WRITE_EA and FILE_WRITE_ATTRIBUTES.
pub const WRITE_CLASS_MASK: u32 = 0x400D_0112;

/// One access-control entry of a DACL, as read from the security descriptor.
#[derive(Debug, Clone, Copy, PartialEq, Eq, Structural)]
pub struct AceEntry {
    /// The ACE type; 0 is ACCESS_ALLOWED_ACE_TYPE.
    pub ace_type: u8,
    /// The access mask.
    pub mask: u32,
    /// Whether the ACE's SID is Everyone (S-1-1-0).
    pub is_everyone: bool,
}

/// The ACE grants Everyone a write-class right.
pub open spec fn grants_everyone_write(a: AceEntry) -> bool {
    a.ace_type == 0 && a.mask & WRITE_CLASS_MASK != 0 && a.is_everyone
}

/// The mask of the first readable ACE, at or after `i`, that grants Everyone
/// a write-class right; unreadable entries are skipped.
pub open spec fn first_everyone_write(aces: Seq<Option<AceEntry>>, i: int) -> Option<u32>
    decreases aces.len() - i,
{
    if i < 0 || i >= aces.len() {
        None
    } else {
        match aces[i] {
            Some(a) => if grants_everyone_write(a) {
                Some(a.mask)
            } else {
                first_everyone_write(aces, i + 1)
            },
            None => first_everyone_write(aces, i + 1),
        }
    }
}

/// `n` in `w` upper-case hexadecimal digits (`{:0wX}` for `n < 16^w`).
pub open spec fn hex_width(n: nat, w: nat) -> Seq<char>
    decreases w,
{
    if w == 0 {
        Seq::empty()
    } else {
        hex_width(n / 16, (w - 1) as nat).push(hex_digit(n % 16, true))
    }
}

fn format_hex_width(n: u32, w: u32) -> (r: Vec<char>)
    ensures
        r@ == hex_width(n as nat, w as nat),
    decreases w,
{
    if w == 0 {
        Vec::new()
    } else {
        let mut r = format_hex_width(n / 16, w - 1);
        r.push(hex_digit_char((n % 16) as u8, true));
        r
    }
}

/// The verdict on a DACL read: a failed read is refused with its reason; a
/// null DACL allows everything; an ACE granting Everyone write access is
/// refused with its mask; otherwise the path is not world-writable.
pub open spec fn acl_verdict(read: Result<Option<Seq<Option<AceEntry>>>, Seq<char>>) -> Result<(), Seq<char>> {
    match read {
        Err(m) => Err(m),
        Ok(None) => Err("Path has a null DACL (all access allowed to everyone)"@),
        Ok(Some(aces)) => match first_everyone_write(aces, 0) {
            Some(mask) => Err("Everyone (S-1-1-0) has write access (mask=0x"@ + hex_width(mask as nat, 8) + ")"@),
            None => Ok(()),
        },
    }
}

/// A DACL read as plain values.
pub open spec fn dacl_view(read: Result<Option<Vec<Option<AceEntry>>>, String>) -> Result<
    Option<Seq<Option<AceEntry>>>,
    Seq<char>,
> {
    match read {
        Ok(Some(v)) => Ok(Some(v@)),
        Ok(None) => Ok(None),
        Err(m) => Err(m@),
    }
}

/// Decides whether a path whose DACL was read as `dacl_read` is writable by
/// Everyone. There is no path that skips the check: a failed read fails.
pub fn check_no_world_writable_acl(dacl_read: Result<Option<Vec<Option<AceEntry>>>, String>) -> (r: Result<(), String>)
    ensures
        match r {
            Ok(()) => acl_verdict(dacl_view(dacl_read)) == Ok::<(), Seq<char>>(()),
            Err(m) => acl_verdict(dacl_view(dacl_read)) == Err::<(), Seq<char>>(m@),
        },
{
    let aces = match dacl_read {
        Err(m) => return Err(m),
        Ok(None) => return Err(String::from_str("Path has a null DACL (all access allowed to everyone)")),
        Ok(Some(v)) => v,
    };
    let mut i: usize = 0;
    let mut found: Option<u32> = None;
    while i < aces.len()
        invariant_except_break
            i <= aces.len(),
            found is None,
            first_everyone_write(aces@, 0) == first_everyone_write(aces@, i as int),
        ensures
            found == first_everyone_write(aces@, 0),
        decreases aces.len() - i,
    {
        match aces[i] {
            Some(a) => {
                if a.ace_type == 0 && a.mask & WRITE_CLASS_MASK != 0 && a.is_everyone {
                    assert(aces@[i as int] == Some(a));
                    found = Some(a.mask);
                    break;
                }
            },
            None => {},
        }
        i = i + 1;
    }
    match found {
        Some(mask) => {
            let mut m = String::from_str("Everyone (S-1-1-0) has write access (mask=0x");
            let h = format_hex_width(mask, 8);
            let hs = string_from_chars(h.as_slice());
            m.append(hs.as_str());
            m.append(")");
            Err(m)
        },
        None => Ok(()),
    }
}

/// A DACL is refused whenever any readable entry grants Everyone write
/// access, wherever it stands and whatever entries come before it.
pub proof fn lemma_everyone_write_anywhere_is_refused(aces: Seq<Option<AceEntry>>, k: int)
    requires
        0 <= k < aces.len(),
        aces[k] matches Some(a) && grants_everyone_write(a),
    ensures
        acl_verdict(Ok(Some(aces))) is Err,
{
    lemma_first_write_found(aces, 0, k);
}

proof fn lemma_first_write_found(aces: Seq<Option<AceEntry>>, i: int, k: int)
    requires
        0 <= i <= k < aces.len(),
        aces[k] matches Some(a) && grants_everyone_write(a),
    ensures
        first_everyone_write(aces, i) is Some,
    decreases k - i,
{
    if i < k {
        match aces[i] {
            Some(a) => if !grants_everyone_write(a) {
                lemma_first_write_found(aces, i + 1, k);
            },
            None => lemma_first_write_found(aces, i + 1, k),
        }
    }
}

// ---------------------------------------------------------------------------
// Interpreter dispatch
// ---------------------------------------------------------------------------

/// The program and arguments that run a hook script.
#[derive(Debug, Clone, PartialEq, Eq)]
pub struct HookCommand {
    pub program: String,
    pub args: Vec<String>,
}

/// The position just after the last path separator (`\` or `/`) in `s`, or 0.
pub open spec fn name_start(s: Seq<char>) -> int
    decreases s.len(),
{
    if s.len() == 0 {
        0
    } else if s.last() == '\\' || s.last() == '/' {
        s.len() as int
    } else {
        name_start(s.drop_last())
    }
}

/// The position of the last `.` in `s`, if any.
pub open spec fn last_dot(s: Seq<char>) -> Option<int>
    decreases s.len(),
{
    if s.len() == 0 {
        None
    } else if s.last() == '.' {
        Some(s.len() - 1)
    } else {
        last_dot(s.drop_last())
    }
}

/// The extension of the script's file name: what follows its last `.`,
/// where that dot is not the name's first character; empty otherwise.
pub open spec fn script_extension(path: Seq<char>) -> Seq<char> {
    let name = path.subrange(name_start(path), path.len() as int);
    match last_dot(name) {
        Some(j) => if j > 0 { name.subrange(j + 1, name.len() as int) } else { Seq::empty() },
        None => Seq::empty(),
    }
}

/// Which interpreter runs a script, by its extension in any case:
/// PowerShell without profile or prompts for `.ps1`, `cmd.exe` with AutoRun
/// disabled for `.cmd` and `.bat`, the file itself otherwise. The script is
/// always an argument, never inline code.
pub open spec fn hook_command_spec(path: Seq<char>) -> (Seq<char>, Seq<Seq<char>>) {
    let ext = lower_seq(script_extension(path));
    if ext == "ps1"@ {
        ("powershell.exe"@, seq!["-NoProfile"@, "-NonInteractive"@, "-File"@, path])
    } else if ext == "cmd"@ || ext == "bat"@ {
        ("cmd.exe"@, seq!["/D"@, "/C"@, path])
    } else {
        (path, Seq::empty())
    }
}

fn find_name_start(s: &[char]) -> (r: usize)
    ensures
        r == name_start(s@),
        r <= s@.len(),
{
    let mut k: usize = s.len();
    assert(s@.take(s.len() as int) =~= s@);
    while k > 0
        invariant
            k <= s.len(),
            name_start(s@) == name_start(s@.take(k as int)),
        decreases k,
    {
        if s[k - 1] == '\\' || s[k - 1] == '/' {
            assert(s@.take(k as int).last() == s@[k - 1]);
            return k;
        }
        assert(s@.take(k as int).drop_last() =~= s@.take(k - 1));
        k = k - 1;
    }
    assert(s@.take(0) =~= Seq::<char>::empty());
    0
}

fn find_last_dot(s: &[char]) -> (r: Option<usize>)
    ensures
        match r {
            Some(j) => last_dot(s@) == Some(j as int) && j < s@.len(),
            None => last_dot(s@) is None,
        },
{
    let mut k: usize = s.len();
    assert(s@.take(s.len() as int) =~= s@);
    while k > 0
        invariant
            k <= s.len(),
            last_dot(s@) == last_dot(s@.take(k as int)),
        decreases k,
    {
        if s[k - 1] == '.' {
            assert(s@.take(k as int).last() == s@[k - 1]);
            return Some(k - 1);
        }
        assert(s@.take(k as int).drop_last() =~= s@.take(k - 1));
        k = k - 1;
    }
    None
}

/// Builds the command that runs a hook script.
pub fn build_windows_hook_command(script: &str) -> (r: HookCommand)
    ensures
        r.program@ == hook_command_spec(script@).0,
        crate::text::views(r.args@) == hook_command_spec(script@).1,
{
    let cs = chars_of(script);
    let start = find_name_start(cs.as_slice());
    proof {
        assert(cs@.take(cs.len() as int) =~= cs@);
    }
    let name = slice_range(cs.as_slice(), start, cs.len());
    let ext: Vec<char> = match find_last_dot(name.as_slice()) {
        Some(j) => if j > 0 {
            slice_range(name.as_slice(), j + 1, name.len())
        } else {
            Vec::new()
        },
        None => Vec::new(),
    };
    assert(ext@ == script_extension(script@));
    let lower = to_lower(ext.as_slice());
    let ext_s = string_from_chars(lower.as_slice());
    if crate::text::str_eq(ext_s.as_str(), "ps1") {
        let args = vec![
            String::from_str("-NoProfile"),
            String::from_str("-NonInteractive"),
            String::from_str("-File"),
            String::from_str(script),
        ];
        assert(crate::text::views(args@) =~= hook_command_spec(script@).1);
        HookCommand { program: String::from_str("powershell.exe"), args }
    } else if crate::text::str_eq(ext_s.as_str(), "cmd") || crate::text::str_eq(ext_s.as_str(), "bat") {
        let args = vec![String::from_str("/D"), String::from_str("/C"), String::from_str(script)];
        assert(crate::text::views(args@) =~= hook_command_spec(script@).1);
        HookCommand { program: String::from_str("cmd.exe"), args }
    } else {
        let args: Vec<String> = Vec::new();
        assert(crate::text::views(args@) =~= hook_command_spec(script@).1);
        HookCommand { program: String::from_str(script), args }
    }
}

// ---------------------------------------------------------------------------
// The environment file a before-hook writes
// ---------------------------------------------------------------------------

/// The entry a line of the environment file gives: the trimmed line, unless
/// it is empty or a `#` comment, split at its first `=`, with key and value
/// trimmed; a line without `=` or with an empty key gives none.
pub open spec fn env_line_entry(line: Seq<char>) -> Option<(Seq<char>, Seq<char>)> {
    let t = trim(line);
    if t.len() == 0 || t[0] == '#' {
        None
    } else {
        match find_from(t, "="@, 0) {
            None => None,
            Some(i) => {
                let k = trim(t.subrange(0, i));
                let v = trim(t.subrange(i + 1, t.len() as int));
                if k.len() == 0 {
                    None
                } else {
                    Some((k, v))
                }
            },
        }
    }
}

/// The entries of the lines, in order.
pub open spec fn env_entries(ls: Seq<Seq<char>>) -> Seq<(Seq<char>, Seq<char>)>
    decreases ls.len(),
{
    if ls.len() == 0 {
        Seq::empty()
    } else {
        match env_line_entry(ls.last()) {
            Some(e) => env_entries(ls.drop_last()).push(e),
            None => env_entries(ls.drop_last()),
        }
    }
}

/// The plain values of a list of string pairs.
pub open spec fn pair_views(v: Seq<(String, String)>) -> Seq<(Seq<char>, Seq<char>)> {
    v.map_values(|p: (String, String)| (p.0@, p.1@))
}

fn env_line_entry_of(line: &[char]) -> (r: Option<(String, String)>)
    ensures
        match r {
            Some((k, v)) => env_line_entry(line@) == Some((k@, v@)),
            None => env_line_entry(line@) is None,
        },
{
    let t = trim_chars(line);
    if t.len() == 0 || t[0] == '#' {
        return None;
    }
    let eq: Vec<char> = vec!['='];
    assert(eq@ =~= "="@) by {
        reveal_strlit("=");
    }
    match chars_find(t.as_slice(), eq.as_slice(), 0) {
        None => None,
        Some(i) => {
            proof {
                crate::text::lemma_find_from_found(t@, eq@, 0);
                assert(eq@.len() == 1);
            }
            let n: usize = t.len();
            let start: usize = i + 1;
            let kr = slice_range(t.as_slice(), 0, i);
            let vr = slice_range(t.as_slice(), start, n);
            let k = trim_chars(kr.as_slice());
            let v = trim_chars(vr.as_slice());
            if k.len() == 0 {
                None
            } else {
                Some((string_from_chars(k.as_slice()), string_from_chars(v.as_slice())))
            }
        },
    }
}

/// Reads the `KEY=VALUE` entries of a hook's environment file, in order.
pub fn parse_env_file(content: &str) -> (r: Vec<(String, String)>)
    ensures
        pair_views(r@) == env_entries(lines(content@)),
{
    let ls = lines_of(content);
    let ghost lv = ls@.map_values(|l: Vec<char>| l@);
    let mut out: Vec<(String, String)> = Vec::new();
    let mut i: usize = 0;
    while i < ls.len()
        invariant
            i <= ls.len(),
            lv == ls@.map_values(|l: Vec<char>| l@),
            pair_views(out@) == env_entries(lv.take(i as int)),
        decreases ls.len() - i,
    {
        let e = env_line_entry_of(ls[i].as_slice());
        proof {
            assert(lv.take(i + 1).drop_last() =~= lv.take(i as int));
            assert(lv.take(i + 1).last() == ls@[i as int]@);
        }
        match e {
            Some(p) => {
                let ghost before = out@;
                out.push(p);
                assert(pair_views(out@) =~= pair_views(before).push((p.0@, p.1@)));
            },
            None => {},
        }
        i = i + 1;
    }
    assert(lv.take(ls.len() as int) =~= lv);
    out
}

/// The entries that survive the export filter: those whose key is not a
/// dangerous variable on Windows, in order.
pub open spec fn exported(es: Seq<(Seq<char>, Seq<char>)>) -> Seq<(Seq<char>, Seq<char>)>
    decreases es.len(),
{
    if es.len() == 0 {
        Seq::empty()
    } else if dangerous_env_var(es.last().0, true) {
        exported(es.drop_last())
    } else {
        exported(es.drop_last()).push(es.last())
    }
}

/// The variables a before-hook exports: the entries of its environment
/// file, without those that could hijack the launch on Windows.
pub fn before_hook_exports(content: &str) -> (r: Vec<(String, String)>)
    ensures
        pair_views(r@) == exported(env_entries(lines(content@))),
{
    let raw = parse_env_file(content);
    let ghost rv = pair_views(raw@);
    let mut out: Vec<(String, String)> = Vec::new();
    let mut i: usize = 0;
    while i < raw.len()
        invariant
            i <= raw.len(),
            rv == pair_views(raw@),
            pair_views(out@) == exported(rv.take(i as int)),
        decreases raw.len() - i,
    {
        proof {
            assert(rv.take(i + 1).drop_last() =~= rv.take(i as int));
            assert(rv.take(i + 1).last() == (raw@[i as int].0@, raw@[i as int].1@));
        }
        if !is_dangerous_env_var(raw[i].0.as_str(), true) {
            let ghost before = out@;
            let k = raw[i].0.clone();
            let v = raw[i].1.clone();
            out.push((k, v));
            assert(pair_views(out@) =~= pair_views(before).push((raw@[i as int].0@, raw@[i as int].1@)));
        }
        i = i + 1;
    }
    assert(rv.take(raw.len() as int) =~= rv);
    out
}

/// No exported variable is dangerous on Windows, and every exported entry
/// was written by the hook.
pub proof fn lemma_exports_are_safe(es: Seq<(Seq<char>, Seq<char>)>)
    ensures
        forall|j: int| 0 <= j < exported(es).len() ==> !dangerous_env_var(#[trigger] exported(es)[j].0, true),
        forall|j: int| 0 <= j < exported(es).len() ==> es.contains(#[trigger] exported(es)[j]),
    decreases es.len(),
{
    if es.len() > 0 {
        lemma_exports_are_safe(es.drop_last());
        let prev = exported(es.drop_last());
        assert forall|j: int| 0 <= j < exported(es).len() implies es.contains(#[trigger] exported(es)[j]) by {
            if j < prev.len() {
                assert(es.drop_last().contains(prev[j]));
                let k = choose|k: int| 0 <= k < es.drop_last().len() && es.drop_last()[k] == prev[j];
                assert(es[k] == prev[j]);
            } else {
                assert(es[es.len() - 1] == es.last());
            }
        }
    }
}

// ---------------------------------------------------------------------------
// Running a hook and reading its outcome
// ---------------------------------------------------------------------------

/// How a hook process ended.
#[derive(Debug, Clone, Copy, PartialEq, Eq, Structural)]
pub struct HookOutput {
    pub exit_code: i32,
    pub timed_out: bool,
}

/// What waiting for a hook gives: its exit code (-1 when it has none), the
/// wait's failure, a timeout when a time limit was set and the wait ended
/// without a result, and otherwise a closed channel.
pub fn hook_output_from_wait(received: Option<Result<Option<i32>, String>>, has_timeout: bool) -> (r: Result<HookOutput, NonoError>)
    ensures
        match received {
            Some(Ok(code)) => r == Ok::<HookOutput, NonoError>(HookOutput {
                exit_code: match code { Some(c) => c, None => -1i32 },
                timed_out: false,
            }),
            Some(Err(e)) => r matches Err(NonoError::CommandExecution(m)) && m@ == e@,
            None => if has_timeout {
                r == Ok::<HookOutput, NonoError>(HookOutput { exit_code: -1i32, timed_out: true })
            } else {
                r matches Err(NonoError::CommandExecution(m)) && m@ == "Hook channel closed unexpectedly"@
            },
        },
{
    match received {
        Some(Ok(code)) => Ok(HookOutput {
            exit_code: match code {
                Some(c) => c,
                None => -1,
            },
            timed_out: false,
        }),
        Some(Err(e)) => Err(NonoError::CommandExecution(e)),
        None => if has_timeout {
            Ok(HookOutput { exit_code: -1, timed_out: true })
        } else {
            Err(NonoError::CommandExecution(String::from_str("Hook channel closed unexpectedly")))
        },
    }
}

/// The verdict on a hook's outcome: a timeout or a non-zero exit fails
/// the session (fail-closed), naming the hook kind and the script.
pub open spec fn hook_outcome_spec(kind: Seq<char>, out: HookOutput, timeout_secs: Option<u64>, script: Seq<char>) -> Option<Seq<char>> {
    if out.timed_out {
        Some(kind + "-hook timed out after "@ + decimal(match timeout_secs { Some(t) => t as nat, None => 0 })
            + "s (fail-closed): "@ + script)
    } else if out.exit_code != 0 {
        Some(kind + "-hook exited with code "@ + int_decimal(out.exit_code as int) + " (fail-closed): "@ + script)
    } else {
        None
    }
}

fn check_hook_outcome(kind: &str, out: HookOutput, timeout_secs: Option<u64>, script: &str) -> (r: Result<(), NonoError>)
    ensures
        match hook_outcome_spec(kind@, out, timeout_secs, script@) {
            Some(m) => r matches Err(NonoError::ConfigParse(e)) && e@ == m,
            None => r is Ok,
        },
{
    if out.timed_out {
        let mut m = String::from_str(kind);
        m.append("-hook timed out after ");
        let t = match timeout_secs {
            Some(t) => t,
            None => 0,
        };
        let d = decimal_string(t);
        m.append(d.as_str());
        m.append("s (fail-closed): ");
        m.append(script);
        return Err(NonoError::ConfigParse(m));
    }
    if out.exit_code != 0 {
        let mut m = String::from_str(kind);
        m.append("-hook exited with code ");
        let c = i32_string(out.exit_code);
        m.append(c.as_str());
        m.append(" (fail-closed): ");
        m.append(script);
        return Err(NonoError::ConfigParse(m));
    }
    Ok(())
}

/// The verdict on a before-hook's outcome; an error aborts the session.
pub fn check_before_hook_outcome(out: HookOutput, timeout_secs: Option<u64>, script: &str) -> (r: Result<(), NonoError>)
    ensures
        match hook_outcome_spec("Before"@, out, timeout_secs, script@) {
            Some(m) => r matches Err(NonoError::ConfigParse(e)) && e@ == m,
            None => r is Ok,
        },
{
    check_hook_outcome("Before", out, timeout_secs, script)
}

/// The verdict on an after-hook's outcome; an error makes the run fail.
pub fn check_after_hook_outcome(out: HookOutput, timeout_secs: Option<u64>, script: &str) -> (r: Result<(), NonoError>)
    ensures
        match hook_outcome_spec("After"@, out, timeout_secs, script@) {
            Some(m) => r matches Err(NonoError::ConfigParse(e)) && e@ == m,
            None => r is Ok,
        },
{
    check_hook_outcome("After", out, timeout_secs, script)
}

/// A hook succeeds only by exiting 0 within its time limit.
pub proof fn lemma_hook_fails_closed(kind: Seq<char>, out: HookOutput, timeout_secs: Option<u64>, script: Seq<char>)
    ensures
        hook_outcome_spec(kind, out, timeout_secs, script) is None <==> (!out.timed_out && out.exit_code == 0),
{
}

/// The environment a hook runs with (its inherited environment is cleared):
/// the session, the working directory, the hook kind, and for a
/// before-hook the file it may write its exports to.
pub fn before_hook_env(session_id: &str, workdir: &str, env_file: &str) -> (r: Vec<(String, String)>)
    ensures
        pair_views(r@) == seq![
            ("NONO_SESSION_ID"@, session_id@),
            ("NONO_WORKDIR"@, workdir@),
            ("NONO_HOOK_TYPE"@, "before"@),
            ("NONO_ENV_FILE"@, env_file@),
        ],
{
    let r = vec![
        (String::from_str("NONO_SESSION_ID"), String::from_str(session_id)),
        (String::from_str("NONO_WORKDIR"), String::from_str(workdir)),
        (String::from_str("NONO_HOOK_TYPE"), String::from_str("before")),
        (String::from_str("NONO_ENV_FILE"), String::from_str(env_file)),
    ];
    assert(pair_views(r@) =~= seq![
        ("NONO_SESSION_ID"@, session_id@),
        ("NONO_WORKDIR"@, workdir@),
        ("NONO_HOOK_TYPE"@, "before"@),
        ("NONO_ENV_FILE"@, env_file@),
    ]);
    r
}

/// The environment an after-hook runs with: the session, the working
/// directory, the hook kind and the sandboxed child's exit code.
pub fn after_hook_env(session_id: &str, workdir: &str, child_exit_code: i32) -> (r: Vec<(String, String)>)
    ensures
        pair_views(r@) == seq![
            ("NONO_SESSION_ID"@, session_id@),
            ("NONO_WORKDIR"@, workdir@),
            ("NONO_HOOK_TYPE"@, "after"@),
            ("NONO_EXIT_CODE"@, int_decimal(child_exit_code as int)),
        ],
{
    let r = vec![
        (String::from_str("NONO_SESSION_ID"), String::from_str(session_id)),
        (String::from_str("NONO_WORKDIR"), String::from_str(workdir)),
        (String::from_str("NONO_HOOK_TYPE"), String::from_str("after")),
        (String::from_str("NONO_EXIT_CODE"), i32_string(child_exit_code)),
    ];
    assert(pair_views(r@) =~= seq![
        ("NONO_SESSION_ID"@, session_id@),
        ("NONO_WORKDIR"@, workdir@),
        ("NONO_HOOK_TYPE"@, "after"@),
        ("NONO_EXIT_CODE"@, int_decimal(child_exit_code as int)),
    ]);
    r
}

// ---------------------------------------------------------------------------
// Validating a hook script
// ---------------------------------------------------------------------------

/// The query `f`, asked about the path `x`, may answer `o`.
pub open spec fn path_query_gives<T, F: Fn(&str) -> T>(f: F, x: Seq<char>, o: T) -> bool {
    exists|s: &str| s@ == x && #[trigger] call_ensures(f, (s,), o)
}

/// `res` is the configuration error with the text `m`.
pub open spec fn config_error<T>(res: Result<T, NonoError>, m: Seq<char>) -> bool {
    res matches Err(NonoError::ConfigParse(e)) && e@ == m
}

/// What validating a hook script gives, for every answer of the queries:
/// the path must be absolute; it is canonicalised; the result must be a
/// regular file owned by the current user; neither it nor its parent
/// directory may be writable by Everyone. Each failure is refused with the
/// path and the reason; success is the canonical path. No check is skipped
/// and none runs after a failed one.
pub open spec fn validate_spec<
    C: Fn(&str) -> Result<String, String>,
    M: Fn(&str) -> Result<bool, String>,
    O: Fn(&str) -> Result<bool, NonoError>,
    A: Fn(&str) -> Result<(), String>,
    P: Fn(&str) -> Option<String>,
>(path: Seq<char>, is_absolute: bool, cf: C, mf: M, of: O, af: A, pf: P, res: Result<String, NonoError>) -> bool {
    if !is_absolute {
        config_error(res, "Hook script path must be absolute: "@ + path)
    } else {
        exists|o1: Result<String, String>| #[trigger] path_query_gives(cf, path, o1) && match o1 {
            Err(e) => config_error(res, "Hook script not found: "@ + path + ": "@ + e@),
            Ok(c) => exists|o2: Result<bool, String>| #[trigger] path_query_gives(mf, c@, o2) && match o2 {
                Err(e) => config_error(res, "Cannot read hook script metadata: "@ + c@ + ": "@ + e@),
                Ok(false) => config_error(res, "Hook script is not a regular file: "@ + c@),
                Ok(true) => exists|o3: Result<bool, NonoError>| #[trigger] path_query_gives(of, c@, o3) && match o3 {
                    Err(e) => res == Err::<String, NonoError>(e),
                    Ok(false) => config_error(res, "Hook script not owned by current user: "@ + c@),
                    Ok(true) => exists|o4: Result<(), String>| #[trigger] path_query_gives(af, c@, o4) && match o4 {
                        Err(e) => config_error(
                            res,
                            "Hook script file has world-writable ACL (D-10 security check): "@ + c@ + ": "@ + e@,
                        ),
                        Ok(()) => exists|o5: Option<String>| #[trigger] path_query_gives(pf, c@, o5) && match o5 {
                            None => res matches Ok(r) && r@ == c@,
                            Some(pd) => exists|o6: Result<(), String>| #[trigger] path_query_gives(af, pd@, o6) && match o6 {
                                Err(e) => config_error(
                                    res,
                                    "Hook script parent directory has world-writable ACL (D-10 security check): "@ + pd@
                                        + ": "@ + e@,
                                ),
                                Ok(()) => res matches Ok(r) && r@ == c@,
                            },
                        },
                    },
                },
            },
        }
    }
}

fn config_error_with(head: &str, p: &str, e: &str) -> (r: NonoError)
    ensures
        r matches NonoError::ConfigParse(m) && m@ == head@ + p@ + ": "@ + e@,
{
    let mut m = String::from_str(head);
    m.append(p);
    m.append(": ");
    m.append(e);
    NonoError::ConfigParse(m)
}

/// Validates a hook script before every run. The file-system queries are
/// the caller's: `canonicalize`, `is_regular_file`, `owned_by_current_user`,
/// `check_acl` (which reads a DACL and decides it with
/// [`check_no_world_writable_acl`]) and `parent_of`.
pub fn validate_hook_script_windows<C, M, O, A, P>(
    path: &str,
    is_absolute: bool,
    canonicalize: C,
    is_regular_file: M,
    owned_by_current_user: O,
    check_acl: A,
    parent_of: P,
) -> (res: Result<String, NonoError>)
    where
        C: Fn(&str) -> Result<String, String>,
        M: Fn(&str) -> Result<bool, String>,
        O: Fn(&str) -> Result<bool, NonoError>,
        A: Fn(&str) -> Result<(), String>,
        P: Fn(&str) -> Option<String>,
    requires
        forall|s: &str| call_requires(canonicalize, (s,)),
        forall|s: &str| call_requires(is_regular_file, (s,)),
        forall|s: &str| call_requires(owned_by_current_user, (s,)),
        forall|s: &str| call_requires(check_acl, (s,)),
        forall|s: &str| call_requires(parent_of, (s,)),
    ensures
        validate_spec(path@, is_absolute, canonicalize, is_regular_file, owned_by_current_user, check_acl, parent_of, res),
{
    if !is_absolute {
        let mut m = String::from_str("Hook script path must be absolute: ");
        m.append(path);
        return Err(NonoError::ConfigParse(m));
    }
    let o1 = canonicalize(path);
    assert(path_query_gives(canonicalize, path@, o1));
    let canonical = match o1 {
        Ok(c) => c,
        Err(e) => return Err(config_error_with("Hook script not found: ", path, e.as_str())),
    };
    let o2 = is_regular_file(canonical.as_str());
    assert(path_query_gives(is_regular_file, canonical@, o2));
    match o2 {
        Err(e) => return Err(config_error_with("Cannot read hook script metadata: ", canonical.as_str(), e.as_str())),
        Ok(false) => {
            let mut m = String::from_str("Hook script is not a regular file: ");
            m.append(canonical.as_str());
            return Err(NonoError::ConfigParse(m));
        },
        Ok(true) => {},
    }
    let o3 = owned_by_current_user(canonical.as_str());
    assert(path_query_gives(owned_by_current_user, canonical@, o3));
    match o3 {
        Err(e) => return Err(e),
        Ok(false) => {
            let mut m = String::from_str("Hook script not owned by current user: ");
            m.append(canonical.as_str());
            return Err(NonoError::ConfigParse(m));
        },
        Ok(true) => {},
    }
    let o4 = check_acl(canonical.as_str());
    assert(path_query_gives(check_acl, canonical@, o4));
    match o4 {
        Err(e) => return Err(
            config_error_with(
                "Hook script file has world-writable ACL (D-10 security check): ",
                canonical.as_str(),
                e.as_str(),
            ),
        ),
        Ok(()) => {},
    }
    let o5 = parent_of(canonical.as_str());
    assert(path_query_gives(parent_of, canonical@, o5));
    match o5 {
        None => {},
        Some(parent) => {
            let o6 = check_acl(parent.as_str());
            assert(path_query_gives(check_acl, parent@, o6));
            match o6 {
                Err(e) => return Err(
                    config_error_with(
                        "Hook script parent directory has world-writable ACL (D-10 security check): ",
                        parent.as_str(),
                        e.as_str(),
                    ),
                ),
                Ok(()) => {},
            }
        },
    }
    Ok(canonical)
}

/// A script is never accepted when the ACL check refuses every path: there
/// is no way through validation that skips it.
pub proof fn lemma_acl_check_cannot_be_skipped<
    C: Fn(&str) -> Result<String, String>,
    M: Fn(&str) -> Result<bool, String>,
    O: Fn(&str) -> Result<bool, NonoError>,
    A: Fn(&str) -> Result<(), String>,
    P: Fn(&str) -> Option<String>,
>(path: Seq<char>, is_absolute: bool, cf: C, mf: M, of: O, af: A, pf: P, res: Result<String, NonoError>)
    requires
        validate_spec(path, is_absolute, cf, mf, of, af, pf, res),
        forall|x: Seq<char>, o: Result<(), String>| #[trigger] path_query_gives(af, x, o) ==> o is Err,
    ensures
        res is Err,
{
}

} // verus!
