//! Environment sanitization boundary for sandboxed execution.
//!
//! Untrusted parent environments may inject execution behaviour through
//! linker, shell or interpreter variables. Every execution strategy shares
//! this one allow/deny implementation.
//!
//! The target platform is an explicit argument (`on_windows`): on Windows
//! variable names compare case-insensitively and a further set of variables
//! (executable search path, system directories, PowerShell module paths) is
//! treated as dangerous.
use crate::text::{
    chars_eq, chars_eq_ignore_case, chars_eq_ignore_case_str, chars_eq_str, chars_has, chars_of,
    chars_starts_with, chars_starts_with_str, eq_ignore_case, has_char, has_prefix, owned,
    slice_range,
};
use std::collections::HashMap;
use vstd::prelude::*;

verus! {

// ---------------------------------------------------------------------------
// Specifications
// ---------------------------------------------------------------------------

/// Names that are dangerous on every platform.
pub open spec fn dangerous_everywhere(k: Seq<char>) -> bool {
    has_prefix(k, "LD_"@) || has_prefix(k, "DYLD_"@) || has_prefix(k, "AWS_"@) || k
        == "BASH_ENV"@ || k == "ENV"@ || k == "CDPATH"@ || k == "GLOBIGNORE"@ || has_prefix(
        k,
        "BASH_FUNC_"@,
    ) || k == "PROMPT_COMMAND"@ || k == "IFS"@ || k == "PYTHONSTARTUP"@ || k == "PYTHONPATH"@
        || k == "NODE_OPTIONS"@ || k == "NODE_PATH"@ || k == "PERL5OPT"@ || k == "PERL5LIB"@ || k
        == "RUBYOPT"@ || k == "RUBYLIB"@ || k == "GEM_PATH"@ || k == "GEM_HOME"@ || k
        == "JAVA_TOOL_OPTIONS"@ || k == "_JAVA_OPTIONS"@ || k == "DOTNET_STARTUP_HOOKS"@ || k
        == "GOFLAGS"@ || k == "OP_SERVICE_ACCOUNT_TOKEN"@ || k == "OP_CONNECT_TOKEN"@ || k
        == "OP_CONNECT_HOST"@ || has_prefix(k, "OP_SESSION_"@)
}

/// Names that are dangerous on Windows only, compared case-insensitively.
pub open spec fn dangerous_on_windows(k: Seq<char>) -> bool {
    eq_ignore_case(k, "PATH"@) || eq_ignore_case(k, "PATHEXT"@) || eq_ignore_case(k, "COMSPEC"@)
        || eq_ignore_case(k, "PSModulePath"@) || eq_ignore_case(k, "PSModuleAnalysisCachePath"@)
        || eq_ignore_case(k, "__PSLockdownPolicy"@) || eq_ignore_case(k, "SystemRoot"@)
        || eq_ignore_case(k, "windir"@) || eq_ignore_case(k, "TEMP"@) || eq_ignore_case(
        k,
        "TMP"@,
    )
}

/// A variable that must never be inherited by a sandboxed child.
pub open spec fn dangerous_env_var(k: Seq<char>, on_windows: bool) -> bool {
    dangerous_everywhere(k) || (on_windows && dangerous_on_windows(k))
}

/// Equality of variable names as the platform compares them.
pub open spec fn env_keys_equal(left: Seq<char>, right: Seq<char>, on_windows: bool) -> bool {
    if on_windows {
        eq_ignore_case(left, right)
    } else {
        left == right
    }
}

/// The inherited variable `key` is dropped: it is set explicitly by the
/// configuration, explicitly blocked, or dangerous.
pub open spec fn skip_env_var(
    key: Seq<char>,
    config_keys: Seq<Seq<char>>,
    blocked: Seq<Seq<char>>,
    on_windows: bool,
) -> bool {
    (exists|i: int| 0 <= i < config_keys.len() && env_keys_equal(config_keys[i], key, on_windows))
        || (exists|i: int| 0 <= i < blocked.len() && env_keys_equal(blocked[i], key, on_windows))
        || dangerous_env_var(key, on_windows)
}

/// One pattern matches `key`: a trailing `*` makes it a prefix pattern; a `*`
/// anywhere else makes the pattern match nothing.
pub open spec fn pattern_matches(key: Seq<char>, pattern: Seq<char>) -> bool {
    if pattern.len() > 0 && pattern.last() == '*' {
        !has_char(pattern.drop_last(), '*') && has_prefix(key, pattern.drop_last())
    } else {
        !has_char(pattern, '*') && key == pattern
    }
}

/// Some pattern of `patterns` matches `key`.
pub open spec fn any_pattern_matches(key: Seq<char>, patterns: Seq<Seq<char>>) -> bool {
    exists|i: int| 0 <= i < patterns.len() && pattern_matches(key, patterns[i])
}

/// The error message for a pattern that uses `*` other than as a trailing suffix.
pub open spec fn mid_star_message(field: Seq<char>, pattern: Seq<char>) -> Seq<char> {
    "Invalid "@ + field + " pattern '"@ + pattern + "': '*' is only valid as a trailing suffix"@
}

/// The error message for a pattern that starts with `*` and has more after it.
pub open spec fn leading_star_message(field: Seq<char>, pattern: Seq<char>) -> Seq<char> {
    "Invalid "@ + field + " pattern '"@ + pattern
        + "': use a bare '*' to match all variables, or a specific prefix like 'AWS_*'"@
}

/// What is wrong with one pattern, if anything: a `*` that is not the last
/// character (reported as such unless the pattern starts with `*` and ends
/// with `*`), or a leading `*` with more after it.
pub open spec fn pattern_error(pattern: Seq<char>, field: Seq<char>) -> Option<Seq<char>> {
    if (has_char(pattern, '*') && !(pattern.len() > 0 && pattern.last() == '*')) || (pattern.len() > 1
        && pattern[0] != '*' && has_char(pattern.drop_last(), '*')) {
        Some(mid_star_message(field, pattern))
    } else if pattern.len() > 1 && pattern[0] == '*' {
        Some(leading_star_message(field, pattern))
    } else {
        None
    }
}

/// The error of the first invalid pattern in `patterns`, if any.
pub open spec fn first_pattern_error(patterns: Seq<Seq<char>>, field: Seq<char>) -> Option<
    Seq<char>,
>
    decreases patterns.len(),
{
    if patterns.len() == 0 {
        None
    } else {
        match pattern_error(patterns[0], field) {
            Some(m) => Some(m),
            None => first_pattern_error(patterns.drop_first(), field),
        }
    }
}

/// ASCII letter.
pub open spec fn is_ascii_alpha(c: char) -> bool {
    ('a' <= c && c <= 'z') || ('A' <= c && c <= 'Z')
}

/// ASCII letter or digit.
pub open spec fn is_ascii_alnum(c: char) -> bool {
    is_ascii_alpha(c) || ('0' <= c && c <= '9')
}

/// A POSIX environment variable name: `[A-Za-z_][A-Za-z0-9_]*`.
pub open spec fn valid_env_var_name(name: Seq<char>) -> bool {
    name.len() > 0 && (is_ascii_alpha(name[0]) || name[0] == '_') && forall|i: int|
        1 <= i < name.len() ==> (is_ascii_alnum(#[trigger] name[i]) || name[i] == '_')
}

/// The message for a `set_vars` key that is reserved under the `NONO_` prefix.
pub open spec fn nono_prefix_message(key: Seq<char>) -> Seq<char> {
    "Invalid set_vars key '"@ + key + "': the NONO_* prefix is reserved"@
}

/// The message for a `set_vars` key that is not a valid variable name.
pub open spec fn invalid_name_message(key: Seq<char>) -> Seq<char> {
    "Invalid set_vars key '"@ + key
        + "': environment variable names must match [A-Za-z_][A-Za-z0-9_]*"@
}

/// The message for `PATH` as a `set_vars` key.
pub open spec fn path_key_message() -> Seq<char> {
    "Invalid set_vars key 'PATH': PATH is reserved; use allow_vars/deny_vars to control it"@
}

/// What is wrong with one `set_vars` key, if anything. Dangerous names are
/// deliberately accepted: `set_vars` is explicit operator intent.
pub open spec fn set_var_key_error(key: Seq<char>) -> Option<Seq<char>> {
    if key == "PATH"@ {
        Some(path_key_message())
    } else if has_prefix(key, "NONO_"@) {
        Some(nono_prefix_message(key))
    } else if !valid_env_var_name(key) {
        Some(invalid_name_message(key))
    } else {
        None
    }
}

/// The error of the first unacceptable key of `keys`, if any.
pub open spec fn first_set_var_error(keys: Seq<Seq<char>>) -> Option<Seq<char>>
    decreases keys.len(),
{
    if keys.len() == 0 {
        None
    } else {
        match set_var_key_error(keys[0]) {
            Some(m) => Some(m),
            None => first_set_var_error(keys.drop_first()),
        }
    }
}

// ---------------------------------------------------------------------------
// Lemmas about the spec functions
// ---------------------------------------------------------------------------

proof fn lemma_first_pattern_error_step(patterns: Seq<Seq<char>>, field: Seq<char>, i: int)
    requires
        0 <= i < patterns.len(),
        first_pattern_error(patterns.subrange(0, i), field) is None,
    ensures
        first_pattern_error(patterns.subrange(0, i + 1), field) == (match pattern_error(
            patterns[i],
            field,
        ) {
            Some(m) => Some(m),
            None => None,
        }),
    decreases i,
{
    let s = patterns.subrange(0, i + 1);
    if i == 0 {
        assert(s.drop_first().len() == 0);
        assert(first_pattern_error(s.drop_first(), field) is None);
        assert(s[0] == patterns[0]);
    } else {
        assert(patterns.subrange(0, i)[0] == patterns[0]);
        assert(s[0] == patterns[0]);
        assert(patterns.subrange(0, i).drop_first() == patterns.drop_first().subrange(0, i - 1));
        assert(s.drop_first() == patterns.drop_first().subrange(0, i));
        assert(pattern_error(patterns[0], field) is None);
        lemma_first_pattern_error_step(patterns.drop_first(), field, i - 1);
        assert(patterns.drop_first()[i - 1] == patterns[i]);
        assert(first_pattern_error(s, field) == first_pattern_error(s.drop_first(), field));
    }
}

proof fn lemma_first_set_var_error_step(keys: Seq<Seq<char>>, i: int)
    requires
        0 <= i < keys.len(),
        first_set_var_error(keys.subrange(0, i)) is None,
    ensures
        first_set_var_error(keys.subrange(0, i + 1)) == set_var_key_error(keys[i]),
    decreases i,
{
    let s = keys.subrange(0, i + 1);
    if i == 0 {
        assert(s.drop_first().len() == 0);
        assert(first_set_var_error(s.drop_first()) is None);
        assert(s[0] == keys[0]);
    } else {
        assert(keys.subrange(0, i)[0] == keys[0]);
        assert(s[0] == keys[0]);
        assert(keys.subrange(0, i).drop_first() == keys.drop_first().subrange(0, i - 1));
        assert(s.drop_first() == keys.drop_first().subrange(0, i));
        lemma_first_set_var_error_step(keys.drop_first(), i - 1);
        assert(keys.drop_first()[i - 1] == keys[i]);
        assert(set_var_key_error(s[0]) is None);
        assert(first_set_var_error(s) == first_set_var_error(s.drop_first()));
    }
}

/// A dangerous variable never reaches a sandboxed child, whatever the
/// configuration sets or blocks; and what is dangerous elsewhere is
/// dangerous on Windows too.
pub proof fn lemma_dangerous_vars_always_skipped(
    key: Seq<char>,
    config_keys: Seq<Seq<char>>,
    blocked: Seq<Seq<char>>,
    on_windows: bool,
)
    ensures
        dangerous_env_var(key, on_windows) ==> skip_env_var(key, config_keys, blocked, on_windows),
        dangerous_env_var(key, false) ==> dangerous_env_var(key, true),
{
}

/// Every listed injection variable is dangerous on every platform: the
/// linker, AWS, shell-function and 1Password session families by prefix,
/// and each named shell, interpreter, JVM, .NET, Go and 1Password variable
/// exactly.
pub proof fn lemma_listed_injection_vars_are_dangerous(k: Seq<char>, on_windows: bool)
    ensures
        has_prefix(k, "LD_"@) || has_prefix(k, "DYLD_"@) || has_prefix(k, "AWS_"@) || has_prefix(k, "BASH_FUNC_"@)
            || has_prefix(k, "OP_SESSION_"@) ==> dangerous_env_var(k, on_windows),
        dangerous_env_var("BASH_ENV"@, on_windows),
        dangerous_env_var("ENV"@, on_windows),
        dangerous_env_var("CDPATH"@, on_windows),
        dangerous_env_var("GLOBIGNORE"@, on_windows),
        dangerous_env_var("PROMPT_COMMAND"@, on_windows),
        dangerous_env_var("IFS"@, on_windows),
        dangerous_env_var("PYTHONSTARTUP"@, on_windows),
        dangerous_env_var("PYTHONPATH"@, on_windows),
        dangerous_env_var("NODE_OPTIONS"@, on_windows),
        dangerous_env_var("NODE_PATH"@, on_windows),
        dangerous_env_var("PERL5OPT"@, on_windows),
        dangerous_env_var("PERL5LIB"@, on_windows),
        dangerous_env_var("RUBYOPT"@, on_windows),
        dangerous_env_var("RUBYLIB"@, on_windows),
        dangerous_env_var("GEM_PATH"@, on_windows),
        dangerous_env_var("GEM_HOME"@, on_windows),
        dangerous_env_var("JAVA_TOOL_OPTIONS"@, on_windows),
        dangerous_env_var("_JAVA_OPTIONS"@, on_windows),
        dangerous_env_var("DOTNET_STARTUP_HOOKS"@, on_windows),
        dangerous_env_var("GOFLAGS"@, on_windows),
        dangerous_env_var("OP_SERVICE_ACCOUNT_TOKEN"@, on_windows),
        dangerous_env_var("OP_CONNECT_TOKEN"@, on_windows),
        dangerous_env_var("OP_CONNECT_HOST"@, on_windows),
{
}

/// On Windows the variables that steer executable resolution, system
/// directories, PowerShell modules and temporary files are dangerous in
/// any capitalisation.
pub proof fn lemma_windows_resolution_vars_are_dangerous(k: Seq<char>)
    ensures
        eq_ignore_case(k, "PATH"@) || eq_ignore_case(k, "PATHEXT"@) || eq_ignore_case(k, "COMSPEC"@)
            || eq_ignore_case(k, "PSModulePath"@) || eq_ignore_case(k, "PSModuleAnalysisCachePath"@)
            || eq_ignore_case(k, "__PSLockdownPolicy"@) || eq_ignore_case(k, "SystemRoot"@)
            || eq_ignore_case(k, "windir"@) || eq_ignore_case(k, "TEMP"@) || eq_ignore_case(k, "TMP"@)
            ==> dangerous_env_var(k, true),
{
}

/// If no key has an error, the whole sequence has none; an error of the
/// first-error search is the error of some key.
pub proof fn lemma_first_set_var_error_members(keys: Seq<Seq<char>>)
    ensures
        first_set_var_error(keys) is None <==> forall|i: int|
            0 <= i < keys.len() ==> set_var_key_error(#[trigger] keys[i]) is None,
        first_set_var_error(keys) matches Some(m) ==> exists|i: int|
            0 <= i < keys.len() && set_var_key_error(#[trigger] keys[i]) == Some(m),
    decreases keys.len(),
{
    if keys.len() > 0 {
        lemma_first_set_var_error_members(keys.drop_first());
        if set_var_key_error(keys[0]) is None {
            assert forall|i: int|
                0 <= i < keys.len() && set_var_key_error(#[trigger] keys[i]) is Some implies i
                > 0 by {}
            if first_set_var_error(keys.drop_first()) is None {
                assert forall|i: int| 0 <= i < keys.len() implies set_var_key_error(
                    #[trigger] keys[i],
                ) is None by {
                    if i > 0 {
                        assert(keys[i] == keys.drop_first()[i - 1]);
                    }
                }
            } else {
                let j = choose|j: int|
                    0 <= j < keys.drop_first().len() && set_var_key_error(
                        #[trigger] keys.drop_first()[j],
                    ) == first_set_var_error(keys.drop_first());
                assert(keys[j + 1] == keys.drop_first()[j]);
            }
        }
    }
}

// ---------------------------------------------------------------------------
// Executable functions
// ---------------------------------------------------------------------------

/// Returns true if an environment variable is unsafe to inherit into a
/// sandboxed child: linker injection, shell startup injection, interpreter
/// code/module injection, AWS credentials, 1Password tokens, and (on Windows)
/// executable-resolution and system-directory variables.
pub fn is_dangerous_env_var(key: &str, on_windows: bool) -> (r: bool)
    ensures
        r == dangerous_env_var(key@, on_windows),
{
    let k = chars_of(key);
    let k = k.as_slice();
    let everywhere = chars_starts_with_str(k, "LD_") || chars_starts_with_str(k, "DYLD_")
        || chars_starts_with_str(k, "AWS_") || chars_eq_str(k, "BASH_ENV") || chars_eq_str(
        k,
        "ENV",
    ) || chars_eq_str(k, "CDPATH") || chars_eq_str(k, "GLOBIGNORE") || chars_starts_with_str(
        k,
        "BASH_FUNC_",
    ) || chars_eq_str(k, "PROMPT_COMMAND") || chars_eq_str(k, "IFS") || chars_eq_str(
        k,
        "PYTHONSTARTUP",
    ) || chars_eq_str(k, "PYTHONPATH") || chars_eq_str(k, "NODE_OPTIONS") || chars_eq_str(
        k,
        "NODE_PATH",
    ) || chars_eq_str(k, "PERL5OPT") || chars_eq_str(k, "PERL5LIB") || chars_eq_str(k, "RUBYOPT")
        || chars_eq_str(k, "RUBYLIB") || chars_eq_str(k, "GEM_PATH") || chars_eq_str(k, "GEM_HOME")
        || chars_eq_str(k, "JAVA_TOOL_OPTIONS") || chars_eq_str(k, "_JAVA_OPTIONS")
        || chars_eq_str(k, "DOTNET_STARTUP_HOOKS") || chars_eq_str(k, "GOFLAGS") || chars_eq_str(
        k,
        "OP_SERVICE_ACCOUNT_TOKEN",
    ) || chars_eq_str(k, "OP_CONNECT_TOKEN") || chars_eq_str(k, "OP_CONNECT_HOST")
        || chars_starts_with_str(k, "OP_SESSION_");
    if everywhere {
        return true;
    }
    on_windows && (chars_eq_ignore_case_str(k, "PATH") || chars_eq_ignore_case_str(k, "PATHEXT")
        || chars_eq_ignore_case_str(k, "COMSPEC") || chars_eq_ignore_case_str(k, "PSModulePath")
        || chars_eq_ignore_case_str(k, "PSModuleAnalysisCachePath") || chars_eq_ignore_case_str(
        k,
        "__PSLockdownPolicy",
    ) || chars_eq_ignore_case_str(k, "SystemRoot") || chars_eq_ignore_case_str(k, "windir")
        || chars_eq_ignore_case_str(k, "TEMP") || chars_eq_ignore_case_str(k, "TMP"))
}

/// Compares two variable names as the platform does: case-insensitively on
/// Windows, exactly elsewhere.
pub fn env_key_matches(left: &str, right: &str, on_windows: bool) -> (r: bool)
    ensures
        r == env_keys_equal(left@, right@, on_windows),
{
    let l = chars_of(left);
    let r = chars_of(right);
    if on_windows {
        chars_eq_ignore_case(l.as_slice(), r.as_slice())
    } else {
        chars_eq(l.as_slice(), r.as_slice())
    }
}

/// Decides whether an inherited variable is dropped for sandbox execution: it
/// is set by the configuration (`config_env_vars`), blocked explicitly
/// (`blocked_extra`), or dangerous.
pub fn should_skip_env_var(
    key: &str,
    config_env_vars: &[(&str, &str)],
    blocked_extra: &[&str],
    on_windows: bool,
) -> (r: bool)
    ensures
        r == skip_env_var(
            key@,
            config_env_vars@.map_values(|p: (&str, &str)| p.0@),
            blocked_extra@.map_values(|b: &str| b@),
            on_windows,
        ),
{
    let ghost cks = config_env_vars@.map_values(|p: (&str, &str)| p.0@);
    let ghost bks = blocked_extra@.map_values(|b: &str| b@);
    let mut i: usize = 0;
    while i < config_env_vars.len()
        invariant
            i <= config_env_vars.len(),
            cks == config_env_vars@.map_values(|p: (&str, &str)| p.0@),
            forall|j: int| 0 <= j < i ==> !env_keys_equal(cks[j], key@, on_windows),
        decreases config_env_vars.len() - i,
    {
        if env_key_matches(config_env_vars[i].0, key, on_windows) {
            assert(cks[i as int] == config_env_vars@[i as int].0@);
            return true;
        }
        i = i + 1;
    }
    let mut j: usize = 0;
    while j < blocked_extra.len()
        invariant
            j <= blocked_extra.len(),
            bks == blocked_extra@.map_values(|b: &str| b@),
            forall|m: int| 0 <= m < j ==> !env_keys_equal(bks[m], key@, on_windows),
        decreases blocked_extra.len() - j,
    {
        if env_key_matches(blocked_extra[j], key, on_windows) {
            assert(bks[j as int] == blocked_extra@[j as int]@);
            return true;
        }
        j = j + 1;
    }
    is_dangerous_env_var(key, on_windows)
}

/// One pattern against one key.
fn pattern_matches_key(key: &[char], pattern: &str) -> (r: bool)
    ensures
        r == pattern_matches(key@, pattern@),
{
    let p = chars_of(pattern);
    let n = p.len();
    if n > 0 && p[n - 1] == '*' {
        let prefix = slice_range(p.as_slice(), 0, n - 1);
        assert(prefix@ == p@.drop_last());
        if chars_has(prefix.as_slice(), '*') {
            return false;
        }
        chars_starts_with(key, prefix.as_slice())
    } else {
        !chars_has(p.as_slice(), '*') && chars_eq(key, p.as_slice())
    }
}

/// Returns true if `key` matches any pattern in `patterns`. Patterns are
/// exact names (`"PATH"`) or prefix patterns ending with `*` (`"AWS_*"`); a
/// bare `"*"` matches everything; a `*` anywhere but the end makes the
/// pattern match nothing.
pub fn matches_env_var_patterns(key: &str, patterns: &[String]) -> (r: bool)
    ensures
        r == any_pattern_matches(key@, patterns@.map_values(|p: String| p@)),
{
    let k = chars_of(key);
    let ghost ps = patterns@.map_values(|p: String| p@);
    let mut i: usize = 0;
    while i < patterns.len()
        invariant
            i <= patterns.len(),
            k@ == key@,
            ps == patterns@.map_values(|p: String| p@),
            forall|j: int| 0 <= j < i ==> !pattern_matches(key@, #[trigger] ps[j]),
        decreases patterns.len() - i,
    {
        if pattern_matches_key(k.as_slice(), patterns[i].as_str()) {
            assert(ps[i as int] == patterns@[i as int]@);
            return true;
        }
        i = i + 1;
    }
    false
}

/// Returns true if an environment variable matches the allow-list.
pub fn is_env_var_allowed(key: &str, allowed_env_vars: &[String]) -> (r: bool)
    ensures
        r == any_pattern_matches(key@, allowed_env_vars@.map_values(|p: String| p@)),
{
    matches_env_var_patterns(key, allowed_env_vars)
}

/// Returns true if an environment variable matches the deny-list (same pattern
/// syntax as the allow-list).
pub fn is_env_var_denied(key: &str, denied_env_vars: &[String]) -> (r: bool)
    ensures
        r == any_pattern_matches(key@, denied_env_vars@.map_values(|p: String| p@)),
{
    matches_env_var_patterns(key, denied_env_vars)
}

/// Validates that every pattern uses `*` only as a trailing suffix (or is a
/// bare `*`). Returns the message for the first invalid pattern, naming
/// `field_name` (e.g. `"allow_vars"`), or `None` when all are valid.
pub fn validate_env_var_patterns(patterns: &[String], field_name: &str) -> (r: Option<String>)
    ensures
        r matches Some(m) ==> first_pattern_error(patterns@.map_values(|p: String| p@), field_name@)
            == Some(m@),
        r is None ==> first_pattern_error(patterns@.map_values(|p: String| p@), field_name@)
            is None,
{
    let ghost ps = patterns@.map_values(|p: String| p@);
    let mut i: usize = 0;
    while i < patterns.len()
        invariant
            i <= patterns.len(),
            ps == patterns@.map_values(|p: String| p@),
            first_pattern_error(ps.subrange(0, i as int), field_name@) is None,
        decreases patterns.len() - i,
    {
        let pattern = patterns[i].as_str();
        let p = chars_of(pattern);
        let n = p.len();
        proof {
            assert(ps[i as int] == pattern@);
            lemma_first_pattern_error_step(ps, field_name@, i as int);
        }
        let head = if n > 0 {
            crate::text::slice_range(p.as_slice(), 0, n - 1)
        } else {
            Vec::new()
        };
        assert(n > 0 ==> head@ =~= pattern@.drop_last());
        if (chars_has(p.as_slice(), '*') && !(n > 0 && p[n - 1] == '*')) || (n > 1 && p[0] != '*'
            && chars_has(head.as_slice(), '*')) {
            let mut m = String::new();
            m.append("Invalid ");
            m.append(field_name);
            m.append(" pattern '");
            m.append(pattern);
            m.append("': '*' is only valid as a trailing suffix");
            proof {
                lemma_prefix_whole(ps, i as int, field_name@);
            }
            return Some(m);
        }
        if n > 1 && p[0] == '*' {
            let mut m = String::new();
            m.append("Invalid ");
            m.append(field_name);
            m.append(" pattern '");
            m.append(pattern);
            m.append(
                "': use a bare '*' to match all variables, or a specific prefix like 'AWS_*'",
            );
            proof {
                lemma_prefix_whole(ps, i as int, field_name@);
            }
            return Some(m);
        }
        i = i + 1;
    }
    assert(ps.subrange(0, patterns.len() as int) == ps);
    None
}

/// Once a prefix of `patterns` has an error, the whole sequence has the same one.
proof fn lemma_prefix_whole(patterns: Seq<Seq<char>>, i: int, field: Seq<char>)
    requires
        0 <= i < patterns.len(),
        first_pattern_error(patterns.subrange(0, i), field) is None,
        pattern_error(patterns[i], field) is Some,
    ensures
        first_pattern_error(patterns, field) == pattern_error(patterns[i], field),
    decreases i,
{
    if i > 0 {
        assert(patterns.subrange(0, i)[0] == patterns[0]);
        assert(patterns.subrange(0, i).drop_first() == patterns.drop_first().subrange(0, i - 1));
        lemma_prefix_whole(patterns.drop_first(), i - 1, field);
    }
}

/// Returns true if `name` is a valid POSIX environment variable name:
/// non-empty `[A-Za-z_][A-Za-z0-9_]*`.
pub fn is_valid_env_var_name(name: &str) -> (r: bool)
    ensures
        r == valid_env_var_name(name@),
{
    let cs = chars_of(name);
    if cs.len() == 0 {
        return false;
    }
    let c0 = cs[0];
    if !(('a' <= c0 && c0 <= 'z') || ('A' <= c0 && c0 <= 'Z') || c0 == '_') {
        return false;
    }
    let mut i: usize = 1;
    while i < cs.len()
        invariant
            1 <= i <= cs.len(),
            cs@ == name@,
            forall|j: int| 1 <= j < i ==> (is_ascii_alnum(#[trigger] cs@[j]) || cs@[j] == '_'),
        decreases cs.len() - i,
    {
        let c = cs[i];
        if !(('a' <= c && c <= 'z') || ('A' <= c && c <= 'Z') || ('0' <= c && c <= '9') || c
            == '_') {
            return false;
        }
        i = i + 1;
    }
    true
}

/// The error for one `set_vars` key, if any.
pub fn set_var_key_problem(key: &str) -> (r: Option<String>)
    ensures
        r matches Some(m) ==> set_var_key_error(key@) == Some(m@),
        r is None ==> set_var_key_error(key@) is None,
{
    let k = chars_of(key);
    if chars_eq_str(k.as_slice(), "PATH") {
        return Some(
            owned(
                "Invalid set_vars key 'PATH': PATH is reserved; use allow_vars/deny_vars to control it",
            ),
        );
    }
    if chars_starts_with_str(k.as_slice(), "NONO_") {
        let mut m = String::new();
        m.append("Invalid set_vars key '");
        m.append(key);
        m.append("': the NONO_* prefix is reserved");
        return Some(m);
    }
    if !is_valid_env_var_name(key) {
        let mut m = String::new();
        m.append("Invalid set_vars key '");
        m.append(key);
        m.append("': environment variable names must match [A-Za-z_][A-Za-z0-9_]*");
        return Some(m);
    }
    None
}

/// Validates `set_vars` keys given in order: the message for the first
/// unacceptable key, or `None`. Rejected: `PATH`, any `NONO_*` key, and names
/// that are not `[A-Za-z_][A-Za-z0-9_]*`. Dangerous names are accepted.
pub fn validate_set_var_keys(keys: &[String]) -> (r: Option<String>)
    ensures
        r matches Some(m) ==> first_set_var_error(keys@.map_values(|k: String| k@)) == Some(m@),
        r is None ==> first_set_var_error(keys@.map_values(|k: String| k@)) is None,
{
    let ghost ks = keys@.map_values(|k: String| k@);
    let mut i: usize = 0;
    while i < keys.len()
        invariant
            i <= keys.len(),
            ks == keys@.map_values(|k: String| k@),
            first_set_var_error(ks.subrange(0, i as int)) is None,
        decreases keys.len() - i,
    {
        let r = set_var_key_problem(keys[i].as_str());
        proof {
            assert(ks[i as int] == keys@[i as int]@);
            lemma_first_set_var_error_step(ks, i as int);
        }
        if r.is_some() {
            proof {
                lemma_set_var_prefix_whole(ks, i as int);
            }
            return r;
        }
        i = i + 1;
    }
    assert(ks.subrange(0, keys.len() as int) == ks);
    None
}

proof fn lemma_set_var_prefix_whole(keys: Seq<Seq<char>>, i: int)
    requires
        0 <= i < keys.len(),
        first_set_var_error(keys.subrange(0, i)) is None,
        set_var_key_error(keys[i]) is Some,
    ensures
        first_set_var_error(keys) == set_var_key_error(keys[i]),
    decreases i,
{
    if i > 0 {
        assert(keys.subrange(0, i)[0] == keys[0]);
        assert(keys.subrange(0, i).drop_first() == keys.drop_first().subrange(0, i - 1));
        lemma_set_var_prefix_whole(keys.drop_first(), i - 1);
    }
}

/// `HashMap::keys`, collected: std documents it as "An iterator visiting all
/// keys in arbitrary order", so every key of the map appears exactly once.
/// The order is not stated.
#[verifier::external_body]
fn map_keys(m: &HashMap<String, String>) -> (keys: Vec<String>)
    ensures
        keys@.to_set() == m@.dom(),
        keys@.no_duplicates(),
{
    m.keys().cloned().collect()
}

/// Validates the keys of `environment.set_vars` before they are injected into
/// the sandboxed child. The keys are visited in the map's own iteration
/// order, so when several keys are unacceptable which one is reported is not
/// fixed; the result is `None` exactly when every key is acceptable, and a
/// reported message is the message of one of the map's keys.
pub fn validate_set_vars(set_vars: &HashMap<String, String>) -> (r: Option<String>)
    ensures
        r is None <==> forall|k: String|
            #[trigger] set_vars@.contains_key(k) ==> set_var_key_error(k@) is None,
        r matches Some(m) ==> exists|k: String|
            #[trigger] set_vars@.contains_key(k) && set_var_key_error(k@) == Some(m@),
{
    let keys = map_keys(set_vars);
    let r = validate_set_var_keys(keys.as_slice());
    let ghost ks = keys@.map_values(|k: String| k@);
    proof {
        lemma_first_set_var_error_members(ks);
        assert forall|k: String| #[trigger] set_vars@.contains_key(k) implies keys@.contains(k) by {
            assert(keys@.to_set().contains(k));
        }
        if r is None {
            assert forall|k: String| #[trigger] set_vars@.contains_key(k) implies set_var_key_error(
                k@,
            ) is None by {
                let j = choose|j: int| 0 <= j < keys@.len() && keys@[j] == k;
                assert(ks[j] == k@);
            }
        } else {
            let j = choose|j: int|
                0 <= j < ks.len() && set_var_key_error(#[trigger] ks[j]) == first_set_var_error(ks);
            assert(keys@.to_set().contains(keys@[j]));
            assert(set_vars@.contains_key(keys@[j]));
            assert(set_var_key_error(keys@[j]@) is Some);
        }
    }
    r
}

} // verus!
