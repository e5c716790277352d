//! Choosing what `nono run` and `nono wrap` execute: a user profile's
//! `binary` wins over the trailing command, other profiles may not name the
//! binary, and an empty command is refused.
use crate::error::NonoError;
use crate::text::{chars_of, find_from, string_from_chars, views};
use vstd::prelude::*;

verus! {

/// The binary a profile makes the launch run: its `binary` field, honoured
/// only for user-authored profiles (user overrides or file-path
/// references); pack, registry and built-in profiles may not name it.
pub open spec fn profile_binary_spec(binary: Option<Seq<char>>, is_user_profile: bool) -> Option<Seq<char>> {
    match binary {
        Some(b) => if is_user_profile { Some(b) } else { None },
        None => None,
    }
}

/// Decides whether a profile's `binary` field is honoured.
pub fn resolve_profile_binary(binary: Option<&str>, is_user_profile: bool) -> (r: Option<String>)
    ensures
        match r {
            Some(s) => profile_binary_spec(match binary { Some(b) => Some(b@), None => None }, is_user_profile)
                == Some(s@),
            None => profile_binary_spec(match binary { Some(b) => Some(b@), None => None }, is_user_profile) is None,
        },
{
    match binary {
        Some(b) => if is_user_profile {
            Some(String::from_str(b))
        } else {
            None
        },
        None => None,
    }
}

/// What runs: the profile's binary with no arguments when there is one,
/// else the first word of the command with the rest as arguments; with
/// neither, there is no command.
pub open spec fn program_spec(cli_command: Seq<Seq<char>>, profile_binary: Option<Seq<char>>) -> Option<
    (Seq<char>, Seq<Seq<char>>),
> {
    match profile_binary {
        Some(b) => Some((b, Seq::empty())),
        None => if cli_command.len() > 0 {
            Some((cli_command[0], cli_command.drop_first()))
        } else {
            None
        },
    }
}

/// Resolves the program to execute and its arguments.
pub fn resolve_program_from_profile_or_cli(cli_command: &[String], profile_binary: Option<String>) -> (r: Result<
    (String, Vec<String>),
    NonoError,
>)
    ensures
        match program_spec(views(cli_command@), match profile_binary { Some(b) => Some(b@), None => None }) {
            Some((p, a)) => r matches Ok((rp, ra)) && rp@ == p && views(ra@) == a,
            None => r == Err::<(String, Vec<String>), NonoError>(NonoError::NoCommand),
        },
{
    match profile_binary {
        Some(b) => Ok((b, Vec::new())),
        None => {
            if cli_command.len() == 0 {
                return Err(NonoError::NoCommand);
            }
            let program = cli_command[0].clone();
            let mut args: Vec<String> = Vec::new();
            let mut i: usize = 1;
            while i < cli_command.len()
                invariant
                    1 <= i <= cli_command.len(),
                    views(args@) =~= views(cli_command@).subrange(1, i as int),
                decreases cli_command.len() - i,
            {
                let ghost before = args@;
                args.push(cli_command[i].clone());
                proof {
                    assert(views(args@) =~= views(before).push(cli_command@[i as int]@));
                }
                i = i + 1;
            }
            assert(views(cli_command@).drop_first() =~= views(cli_command@).subrange(1, cli_command.len() as int));
            Ok((program, args))
        },
    }
}

/// The warning that the profile's binary overrides a trailing command.
pub open spec fn ignored_command_warning_spec(binary: Seq<char>, cli_command: Seq<Seq<char>>) -> Seq<char> {
    "Profile specifies binary '"@ + binary + "'; ignoring trailing command '"@ + crate::text::join(
        cli_command,
        " "@,
    ) + "'"@
}

/// The warning shown when a profile's binary overrides a trailing command;
/// none when the command is empty or no binary is honoured.
pub fn ignored_command_warning(profile_binary: Option<&str>, cli_command: &[String]) -> (r: Option<String>)
    ensures
        match profile_binary {
            Some(b) => if cli_command@.len() > 0 {
                r matches Some(w) && w@ == ignored_command_warning_spec(b@, views(cli_command@))
            } else {
                r is None
            },
            None => r is None,
        },
{
    match profile_binary {
        Some(b) => {
            if cli_command.len() == 0 {
                return None;
            }
            let mut w = String::from_str("Profile specifies binary '");
            w.append(b);
            w.append("'; ignoring trailing command '");
            let joined = crate::text::join_strings(cli_command, " ");
            w.append(joined.as_str());
            w.append("'");
            Some(w)
        },
        None => None,
    }
}

/// A pack reference `namespace/name` split at its first `/`; a reference
/// without `/` names no installable pack.
pub open spec fn pack_ref_parts(r: Seq<char>) -> Option<(Seq<char>, Seq<char>)> {
    match find_from(r, "/"@, 0) {
        Some(i) => Some((r.subrange(0, i), r.subrange(i + 1, r.len() as int))),
        None => None,
    }
}

/// Splits a pack reference into namespace and name.
pub fn split_pack_ref(pack_ref: &str) -> (r: Option<(String, String)>)
    ensures
        match pack_ref_parts(pack_ref@) {
            Some((ns, name)) => r matches Some((a, b)) && a@ == ns && b@ == name,
            None => r is None,
        },
{
    let cs = chars_of(pack_ref);
    let slash: Vec<char> = vec!['/'];
    assert(slash@ =~= "/"@) by {
        reveal_strlit("/");
    }
    match crate::text::chars_find(cs.as_slice(), slash.as_slice(), 0) {
        Some(i) => {
            proof {
                crate::text::lemma_find_from_found(cs@, slash@, 0);
                assert(slash@.len() == 1);
            }
            let n: usize = cs.len();
            assert(i < n);
            let start: usize = i + 1;
            let ns = crate::text::slice_range(cs.as_slice(), 0, i);
            let name = crate::text::slice_range(cs.as_slice(), start, n);
            Some((string_from_chars(ns.as_slice()), string_from_chars(name.as_slice())))
        },
        None => None,
    }
}

/// `nono wrap` executes directly, without a supervisor, so it refuses a
/// launch that needs the proxy.
pub fn check_wrap_network_mode(has_upstream_proxy: bool, proxy_only: bool) -> (r: Result<(), NonoError>)
    ensures
        (has_upstream_proxy || proxy_only) ==> (r matches Err(NonoError::ConfigParse(m)) && m@
            == "nono wrap does not support proxy mode (activated by profile network settings). Use `nono run` instead."@),
        !(has_upstream_proxy || proxy_only) ==> r is Ok,
{
    if has_upstream_proxy || proxy_only {
        return Err(
            NonoError::ConfigParse(
                String::from_str(
                    "nono wrap does not support proxy mode (activated by profile network settings). Use `nono run` instead.",
                ),
            ),
        );
    }
    Ok(())
}

/// `base` joined with the Windows path `rest` (`\` is added unless `base`
/// already ends with a separator).
pub open spec fn windows_join(base: Seq<char>, rest: Seq<char>) -> Seq<char> {
    if base.len() > 0 && (base.last() == '\\' || base.last() == '/') {
        base + rest
    } else {
        base + "\\"@ + rest
    }
}

fn join_windows(base: &str, rest: &str) -> (r: String)
    ensures
        r@ == windows_join(base@, rest@),
{
    let cs = chars_of(base);
    let mut r = String::from_str(base);
    if cs.len() > 0 && (cs[cs.len() - 1] == '\\' || cs[cs.len() - 1] == '/') {
        assert(base@.last() == cs@[cs.len() - 1]);
        r.append(rest);
    } else {
        r.append("\\");
        r.append(rest);
    }
    r
}

/// The shell `nono shell` starts: the one asked for; on Windows otherwise
/// Windows PowerShell under the system root when it exists, else `cmd.exe`
/// there (the system root defaulting to `C:\Windows`); elsewhere `$SHELL`
/// when set and not empty, else `/bin/sh`.
pub open spec fn default_shell_spec(
    on_windows: bool,
    explicit: Option<Seq<char>>,
    system_root: Option<Seq<char>>,
    shell_env: Option<Seq<char>>,
    powershell_exists: bool,
) -> Seq<char> {
    match explicit {
        Some(s) => s,
        None => if on_windows {
            let root = match system_root {
                Some(r) => r,
                None => "C:\\Windows"@,
            };
            if powershell_exists {
                windows_join(root, "System32\\WindowsPowerShell\\v1.0\\powershell.exe"@)
            } else {
                windows_join(root, "System32\\cmd.exe"@)
            }
        } else {
            match shell_env {
                Some(sh) => if sh.len() > 0 { sh } else { "/bin/sh"@ },
                None => "/bin/sh"@,
            }
        },
    }
}

/// The PowerShell path `nono shell` prefers on Windows.
pub fn windows_powershell_path(system_root: Option<&str>) -> (r: String)
    ensures
        r@ == windows_join(
            match system_root {
                Some(s) => s@,
                None => "C:\\Windows"@,
            },
            "System32\\WindowsPowerShell\\v1.0\\powershell.exe"@,
        ),
{
    let root = match system_root {
        Some(s) => s,
        None => "C:\\Windows",
    };
    join_windows(root, "System32\\WindowsPowerShell\\v1.0\\powershell.exe")
}

/// Chooses the shell `nono shell` starts; `powershell_exists` tells whether
/// [`windows_powershell_path`] exists.
pub fn default_shell(
    on_windows: bool,
    explicit: Option<&str>,
    system_root: Option<&str>,
    shell_env: Option<&str>,
    powershell_exists: bool,
) -> (r: String)
    ensures
        r@ == default_shell_spec(
            on_windows,
            match explicit { Some(s) => Some(s@), None => None },
            match system_root { Some(s) => Some(s@), None => None },
            match shell_env { Some(s) => Some(s@), None => None },
            powershell_exists,
        ),
{
    if let Some(s) = explicit {
        return String::from_str(s);
    }
    if on_windows {
        let root = match system_root {
            Some(s) => s,
            None => "C:\\Windows",
        };
        if powershell_exists {
            join_windows(root, "System32\\WindowsPowerShell\\v1.0\\powershell.exe")
        } else {
            join_windows(root, "System32\\cmd.exe")
        }
    } else {
        match shell_env {
            Some(sh) => {
                let cs = chars_of(sh);
                if cs.len() > 0 {
                    String::from_str(sh)
                } else {
                    String::from_str("/bin/sh")
                }
            },
            None => String::from_str("/bin/sh"),
        }
    }
}

} // verus!
