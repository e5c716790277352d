//! Coding-agent hook decisions for tool-level sandboxing: the `Bash` tool is
//! rewritten into a `nono run` invocation, read-only tools are allowed, and
//! everything else is confined or denied. On Windows the rewritten `Bash`
//! tool runs native PowerShell, and `Write`, `Edit` and `MultiEdit` are
//! denied with a PowerShell command for the agent to retry through `Bash`.
//!
//! The hook's JSON event is read by the caller into [`HookEvent`]; the
//! decision comes back as a [`HookResponse`].
use crate::error::{err_of, error_view, ErrorKind, NonoError, ErrorView};
use crate::text::{
    decimal, decimal_string, has_char, has_infix, has_prefix, join, str_contains, str_eq,
    str_views,
};
use vstd::prelude::*;
use vstd::utf8::encode_utf8;

verus! {

/// The profile the rewritten `Bash` tool runs under.
pub const DEFAULT_TOOL_RUNNER_PROFILE: &'static str = "agent-tools-windows-runner";

// ---------------------------------------------------------------------------
// Tool classification
// ---------------------------------------------------------------------------

/// The tools that only read.
pub open spec fn read_only_tool(name: Seq<char>) -> bool {
    name == "Read"@ || name == "Glob"@ || name == "Grep"@
}

/// Whether a tool only reads: `Read`, `Glob` and `Grep`.
pub fn is_read_only_tool(tool_name: &str) -> (r: bool)
    ensures
        r == read_only_tool(tool_name@),
{
    str_eq(tool_name, "Read") || str_eq(tool_name, "Glob") || str_eq(tool_name, "Grep")
}

/// A command already runs through `nono run`.
pub open spec fn has_nono_wrapper(command: Seq<char>) -> bool {
    has_infix(command, " nono run "@) || has_prefix(command, "nono run "@)
}

/// Whether a command already runs through `nono run` (so it is not wrapped again).
pub fn command_contains_nono_wrapper(command: &str) -> (r: bool)
    ensures
        r == has_nono_wrapper(command@),
{
    str_contains(command, " nono run ") || crate::text::chars_starts_with_str(
        crate::text::chars_of(command).as_slice(),
        "nono run ",
    )
}

// ---------------------------------------------------------------------------
// PowerShell quoting and encoding
// ---------------------------------------------------------------------------

/// `s` with every single quote doubled.
pub open spec fn double_quotes(s: Seq<char>) -> Seq<char>
    decreases s.len(),
{
    if s.len() == 0 {
        seq![]
    } else {
        let rest = double_quotes(s.drop_last());
        if s.last() == '\'' {
            rest + seq!['\'', '\'']
        } else {
            rest.push(s.last())
        }
    }
}

/// A PowerShell single-quoted string literal of `value`.
pub fn powershell_single_quoted(value: &str) -> (r: String)
    ensures
        r@ == "'"@ + double_quotes(value@) + "'"@,
{
    let cs = crate::text::chars_of(value);
    let mut r = String::from_str("'");
    let ghost start = r@;
    let mut i: usize = 0;
    while i < cs.len()
        invariant
            i <= cs.len(),
            cs@ == value@,
            start == "'"@,
            r@ == start + double_quotes(cs@.take(i as int)),
        decreases cs.len() - i,
    {
        assert(cs@.take(i as int + 1).drop_last() =~= cs@.take(i as int));
        let c = cs[i];
        if c == '\'' {
            crate::text::push_char(&mut r, '\'');
            crate::text::push_char(&mut r, '\'');
        } else {
            crate::text::push_char(&mut r, c);
        }
        i = i + 1;
    }
    assert(cs@.take(cs.len() as int) =~= cs@);
    r.append("'");
    r
}

/// The UTF-16 little-endian bytes of one character.
pub open spec fn char_utf16le(c: char) -> Seq<u8> {
    let v = (c as u32) as int;
    if v < 0x10000 {
        seq![(v % 256) as u8, (v / 256) as u8]
    } else {
        let hi = 0xD800 + (v - 0x10000) / 1024;
        let lo = 0xDC00 + (v - 0x10000) % 1024;
        seq![(hi % 256) as u8, (hi / 256) as u8, (lo % 256) as u8, (lo / 256) as u8]
    }
}

/// The UTF-16 little-endian bytes of a string.
pub open spec fn utf16le(s: Seq<char>) -> Seq<u8>
    decreases s.len(),
{
    if s.len() == 0 {
        seq![]
    } else {
        utf16le(s.drop_last()) + char_utf16le(s.last())
    }
}

/// The standard base64 alphabet.
pub open spec fn b64_char(v: int) -> char {
    if v < 26 {
        (65 + v) as char
    } else if v < 52 {
        (97 + v - 26) as char
    } else if v < 62 {
        (48 + v - 52) as char
    } else if v == 62 {
        '+'
    } else {
        '/'
    }
}

/// Standard base64 with `=` padding.
pub open spec fn base64(b: Seq<u8>) -> Seq<char>
    decreases b.len(),
{
    if b.len() == 0 {
        seq![]
    } else if b.len() == 1 {
        let x0 = b[0] as int;
        seq![b64_char(x0 / 4), b64_char((x0 % 4) * 16), '=', '=']
    } else if b.len() == 2 {
        let x0 = b[0] as int;
        let x1 = b[1] as int;
        seq![b64_char(x0 / 4), b64_char((x0 % 4) * 16 + x1 / 16), b64_char((x1 % 16) * 4), '=']
    } else {
        let x0 = b[0] as int;
        let x1 = b[1] as int;
        let x2 = b[2] as int;
        seq![
            b64_char(x0 / 4),
            b64_char((x0 % 4) * 16 + x1 / 16),
            b64_char((x1 % 16) * 4 + x2 / 64),
            b64_char(x2 % 64),
        ] + base64(b.skip(3))
    }
}

fn b64_digit(v: u32) -> (c: char)
    requires
        v < 64,
    ensures
        c == b64_char(v as int),
{
    if v < 26 {
        crate::text::char_from_ascii(65 + v)
    } else if v < 52 {
        crate::text::char_from_ascii(97 + v - 26)
    } else if v < 62 {
        crate::text::char_from_ascii(48 + v - 52)
    } else if v == 62 {
        '+'
    } else {
        '/'
    }
}

/// Standard base64 encoding with `=` padding.
pub fn base64_encode(bytes: &[u8]) -> (r: String)
    ensures
        r@ == base64(bytes@),
{
    let mut r = String::new();
    let mut i: usize = 0;
    assert(bytes@.skip(0) =~= bytes@);
    while i < bytes.len()
        invariant
            i <= bytes.len(),
            base64(bytes@) == r@ + base64(bytes@.skip(i as int)),
        decreases bytes.len() - i,
    {
        let ghost rest = bytes@.skip(i as int);
        let n = bytes.len() - i;
        let b0 = bytes[i] as u32;
        if n == 1 {
            crate::text::push_char(&mut r, b64_digit(b0 / 4));
            crate::text::push_char(&mut r, b64_digit((b0 % 4) * 16));
            crate::text::push_char(&mut r, '=');
            crate::text::push_char(&mut r, '=');
            i = i + 1;
            assert(bytes@.skip(i as int) =~= Seq::<u8>::empty());
        } else if n == 2 {
            let b1 = bytes[i + 1] as u32;
            crate::text::push_char(&mut r, b64_digit(b0 / 4));
            crate::text::push_char(&mut r, b64_digit((b0 % 4) * 16 + b1 / 16));
            crate::text::push_char(&mut r, b64_digit((b1 % 16) * 4));
            crate::text::push_char(&mut r, '=');
            i = i + 2;
            assert(bytes@.skip(i as int) =~= Seq::<u8>::empty());
        } else {
            let b1 = bytes[i + 1] as u32;
            let b2 = bytes[i + 2] as u32;
            crate::text::push_char(&mut r, b64_digit(b0 / 4));
            crate::text::push_char(&mut r, b64_digit((b0 % 4) * 16 + b1 / 16));
            crate::text::push_char(&mut r, b64_digit((b1 % 16) * 4 + b2 / 64));
            crate::text::push_char(&mut r, b64_digit(b2 % 64));
            assert(rest.skip(3) =~= bytes@.skip(i as int + 3));
            i = i + 3;
        }
    }
    assert(bytes@.skip(i as int) =~= Seq::<u8>::empty());
    r
}

/// The UTF-16 little-endian bytes of a string.
pub fn utf16le_bytes(s: &str) -> (r: Vec<u8>)
    ensures
        r@ == utf16le(s@),
{
    let cs = crate::text::chars_of(s);
    let mut r: Vec<u8> = Vec::new();
    let mut i: usize = 0;
    while i < cs.len()
        invariant
            i <= cs.len(),
            cs@ == s@,
            r@ == utf16le(cs@.take(i as int)),
        decreases cs.len() - i,
    {
        assert(cs@.take(i as int + 1).drop_last() =~= cs@.take(i as int));
        let c = cs[i];
        let v = c as u32;
        let ghost before = r@;
        if v < 0x10000 {
            r.push((v % 256) as u8);
            r.push((v / 256) as u8);
        } else {
            let hi = 0xD800 + (v - 0x10000) / 1024;
            let lo = 0xDC00 + (v - 0x10000) % 1024;
            r.push((hi % 256) as u8);
            r.push((hi / 256) as u8);
            r.push((lo % 256) as u8);
            r.push((lo / 256) as u8);
            assert(hi as int == 0xD800 + (v as int - 0x10000) / 1024);
            assert(lo as int == 0xDC00 + (v as int - 0x10000) % 1024);
        }
        assert(r@ =~= before + char_utf16le(c));
        i = i + 1;
    }
    assert(cs@.take(cs.len() as int) =~= cs@);
    r
}

/// The `-EncodedCommand` form of a PowerShell command: base64 of its
/// UTF-16 little-endian bytes.
pub fn powershell_encoded_command(command: &str) -> (r: String)
    ensures
        r@ == base64(utf16le(command@)),
{
    let bytes = utf16le_bytes(command);
    base64_encode(bytes.as_slice())
}

/// The decimal renderings of the bytes.
pub open spec fn byte_decimals(b: Seq<u8>) -> Seq<Seq<char>> {
    b.map_values(|x: u8| decimal(x as nat))
}

/// A PowerShell `[byte[]]` array literal of the bytes.
pub open spec fn byte_array_literal(b: Seq<u8>) -> Seq<char> {
    "[byte[]]@("@ + join(byte_decimals(b), ","@) + ")"@
}

/// Renders bytes as a PowerShell `[byte[]]` array literal, e.g.
/// `[byte[]]@(104,101)`; no bytes render `[byte[]]@()`.
pub fn powershell_byte_array_literal(bytes: &[u8]) -> (r: String)
    ensures
        r@ == byte_array_literal(bytes@),
{
    let mut body = String::new();
    let mut i: usize = 0;
    while i < bytes.len()
        invariant
            i <= bytes.len(),
            body@ == join(byte_decimals(bytes@.take(i as int)), ","@),
        decreases bytes.len() - i,
    {
        let ghost prev = byte_decimals(bytes@.take(i as int));
        assert(byte_decimals(bytes@.take(i as int + 1)) =~= prev.push(decimal(bytes@[i as int] as nat)));
        assert(prev.push(decimal(bytes@[i as int] as nat)).drop_last() =~= prev);
        if i > 0 {
            body.append(",");
        }
        let d = decimal_string(bytes[i] as u64);
        body.append(d.as_str());
        i = i + 1;
    }
    assert(bytes@.take(bytes.len() as int) =~= bytes@);
    let mut r = String::from_str("[byte[]]@(");
    r.append(body.as_str());
    r.append(")");
    r
}


/// The byte-sequence find-and-replace statement over `$src`, with loop
/// variables suffixed by `idx` (its decimal rendering).
#[verifier::opaque]
pub open spec fn replace_statement(idx: Seq<char>, old: Seq<u8>, new: Seq<u8>) -> Seq<char> {
    "$old"@
        + idx
        + " = "@
        + byte_array_literal(old)
        + "; $new"@
        + idx
        + " = "@
        + byte_array_literal(new)
        + "; $out"@
        + idx
        + " = [byte[]]@(); $i"@
        + idx
        + " = 0; $n"@
        + idx
        + " = $src.Length; $m"@
        + idx
        + " = $old"@
        + idx
        + ".Length; while ($i"@
        + idx
        + " -lt $n"@
        + idx
        + ") { $match"@
        + idx
        + " = $false; if ($m"@
        + idx
        + " -gt 0 -and ($i"@
        + idx
        + " + $m"@
        + idx
        + ") -le $n"@
        + idx
        + ") { $match"@
        + idx
        + " = $true; $k"@
        + idx
        + " = 0; while ($k"@
        + idx
        + " -lt $m"@
        + idx
        + ") { if ($src[$i"@
        + idx
        + " + $k"@
        + idx
        + "] -ne $old"@
        + idx
        + "[$k"@
        + idx
        + "]) { $match"@
        + idx
        + " = $false; break } $k"@
        + idx
        + " = $k"@
        + idx
        + " + 1 } } if ($match"@
        + idx
        + ") { if ($new"@
        + idx
        + ".Length -gt 0) { $out"@
        + idx
        + " += $new"@
        + idx
        + " } $i"@
        + idx
        + " = $i"@
        + idx
        + " + $m"@
        + idx
        + " } else { $out"@
        + idx
        + " += $src[$i"@
        + idx
        + "]; $i"@
        + idx
        + " = $i"@
        + idx
        + " + 1 } } $src = [byte[]]$out"@
        + idx
        + "; "@
}

/// Emits one Constrained-Language-Mode-safe PowerShell statement that
/// replaces, left to right and without overlap, the byte sequence `old` with
/// `new` in the `[byte[]]` held by `$src`, leaving the result in `$src`.
/// Only `[byte[]]` literals, loops, comparisons, indexing, `.Length` and
/// `+=` are used; no .NET method is called. `idx` keeps the loop variables
/// of chained statements apart.
pub fn byte_replace_statement(idx: usize, old: &[u8], new: &[u8]) -> (r: String)
    ensures
        r@ == replace_statement(decimal(idx as nat), old@, new@),
{
    proof {
        reveal(replace_statement);
    }
    let idx_s = decimal_string(idx as u64);
    let old_literal = powershell_byte_array_literal(old);
    let new_literal = powershell_byte_array_literal(new);
    let mut r = String::new();
    r.append("$old");
    r.append(idx_s.as_str());
    r.append(" = ");
    r.append(old_literal.as_str());
    r.append("; $new");
    r.append(idx_s.as_str());
    r.append(" = ");
    r.append(new_literal.as_str());
    r.append("; $out");
    r.append(idx_s.as_str());
    r.append(" = [byte[]]@(); $i");
    r.append(idx_s.as_str());
    r.append(" = 0; $n");
    r.append(idx_s.as_str());
    r.append(" = $src.Length; $m");
    r.append(idx_s.as_str());
    r.append(" = $old");
    r.append(idx_s.as_str());
    r.append(".Length; while ($i");
    r.append(idx_s.as_str());
    r.append(" -lt $n");
    r.append(idx_s.as_str());
    r.append(") { $match");
    r.append(idx_s.as_str());
    r.append(" = $false; if ($m");
    r.append(idx_s.as_str());
    r.append(" -gt 0 -and ($i");
    r.append(idx_s.as_str());
    r.append(" + $m");
    r.append(idx_s.as_str());
    r.append(") -le $n");
    r.append(idx_s.as_str());
    r.append(") { $match");
    r.append(idx_s.as_str());
    r.append(" = $true; $k");
    r.append(idx_s.as_str());
    r.append(" = 0; while ($k");
    r.append(idx_s.as_str());
    r.append(" -lt $m");
    r.append(idx_s.as_str());
    r.append(") { if ($src[$i");
    r.append(idx_s.as_str());
    r.append(" + $k");
    r.append(idx_s.as_str());
    r.append("] -ne $old");
    r.append(idx_s.as_str());
    r.append("[$k");
    r.append(idx_s.as_str());
    r.append("]) { $match");
    r.append(idx_s.as_str());
    r.append(" = $false; break } $k");
    r.append(idx_s.as_str());
    r.append(" = $k");
    r.append(idx_s.as_str());
    r.append(" + 1 } } if ($match");
    r.append(idx_s.as_str());
    r.append(") { if ($new");
    r.append(idx_s.as_str());
    r.append(".Length -gt 0) { $out");
    r.append(idx_s.as_str());
    r.append(" += $new");
    r.append(idx_s.as_str());
    r.append(" } $i");
    r.append(idx_s.as_str());
    r.append(" = $i");
    r.append(idx_s.as_str());
    r.append(" + $m");
    r.append(idx_s.as_str());
    r.append(" } else { $out");
    r.append(idx_s.as_str());
    r.append(" += $src[$i");
    r.append(idx_s.as_str());
    r.append("]; $i");
    r.append(idx_s.as_str());
    r.append(" = $i");
    r.append(idx_s.as_str());
    r.append(" + 1 } } $src = [byte[]]$out");
    r.append(idx_s.as_str());
    r.append("; ");
    r
}

// ---------------------------------------------------------------------------
// Confined file operations
// ---------------------------------------------------------------------------

/// The PowerShell command writing `content`'s bytes to `path`.
pub open spec fn write_cmd(path: Seq<char>, content_bytes: Seq<u8>) -> Seq<char> {
    "$bytes = "@ + byte_array_literal(content_bytes) + "; Set-Content -LiteralPath "@ + "'"@ + double_quotes(path)
        + "'"@ + " -Value $bytes -Encoding Byte"@
}

/// Builds the inner PowerShell command that writes `content` to `file_path`
/// byte-faithfully: the UTF-8 bytes as a `[byte[]]` literal written with
/// `Set-Content -Encoding Byte`.
pub fn build_confined_write_cmd(file_path: &str, content: &str) -> (r: Result<String, NonoError>)
    ensures
        r matches Ok(c) && c@ == write_cmd(file_path@, encode_utf8(content@)),
{
    let bytes_literal = powershell_byte_array_literal(content.as_bytes());
    let path_quoted = powershell_single_quoted(file_path);
    let mut c = String::from_str("$bytes = ");
    c.append(bytes_literal.as_str());
    c.append("; Set-Content -LiteralPath ");
    c.append(path_quoted.as_str());
    c.append(" -Value $bytes -Encoding Byte");
    Ok(c)
}

/// Reading the target file as bytes into `$src`.
pub open spec fn read_src(quoted: Seq<char>) -> Seq<char> {
    "$src = [byte[]](Get-Content -LiteralPath "@ + quoted + " -Encoding Byte -Raw); "@
}

/// Writing `$src` back to the target file as bytes.
pub open spec fn write_src(quoted: Seq<char>) -> Seq<char> {
    "Set-Content -LiteralPath "@ + quoted + " -Value $src -Encoding Byte"@
}

/// The PowerShell command replacing `old` by `new` in the file at `path`.
pub open spec fn edit_cmd(path: Seq<char>, old: Seq<u8>, new: Seq<u8>) -> Seq<char> {
    let q = "'"@ + double_quotes(path) + "'"@;
    read_src(q) + replace_statement("0"@, old, new) + write_src(q)
}

/// Builds the inner PowerShell command that edits `file_path`, replacing
/// the literal `old_string` by `new_string`: the file is read as bytes, the
/// byte-sequence replacement is applied, and the bytes are written back.
pub fn build_confined_edit_cmd(file_path: &str, old_string: &str, new_string: &str) -> (r: Result<String, NonoError>)
    ensures
        r matches Ok(c) && c@ == edit_cmd(file_path@, encode_utf8(old_string@), encode_utf8(new_string@)),
{
    let path_quoted = powershell_single_quoted(file_path);
    let stmt = byte_replace_statement(0, old_string.as_bytes(), new_string.as_bytes());
    proof {
        reveal_strlit("0");
        assert(decimal(0) =~= "0"@);
    }
    let mut c = String::from_str("$src = [byte[]](Get-Content -LiteralPath ");
    c.append(path_quoted.as_str());
    c.append(" -Encoding Byte -Raw); ");
    c.append(stmt.as_str());
    c.append("Set-Content -LiteralPath ");
    c.append(path_quoted.as_str());
    c.append(" -Value $src -Encoding Byte");
    Ok(c)
}

/// One entry of a `MultiEdit` edits array, as the hook reads it.
#[derive(Debug, Clone)]
pub struct EditEntry {
    /// The entry's `old_string`, when it is a string.
    pub old_string: Option<String>,
    /// The entry's `new_string`, when it is a string.
    pub new_string: Option<String>,
}

/// The `edits` value of a `MultiEdit` tool input.
#[derive(Debug, Clone)]
pub enum EditsValue {
    /// The value is not a JSON array.
    NotArray,
    /// The array's entries.
    Array(Vec<EditEntry>),
}

/// The replacement statements of the entries, in order.
pub open spec fn replace_statements(entries: Seq<EditEntry>) -> Seq<char>
    decreases entries.len(),
{
    if entries.len() == 0 {
        seq![]
    } else {
        let k = entries.len() - 1;
        let e = entries.last();
        replace_statements(entries.drop_last()) + replace_statement(
            decimal(k as nat),
            encode_utf8(e.old_string->0@),
            encode_utf8(e.new_string->0@),
        )
    }
}


/// The first entry lacking a string `old_string` or `new_string`, with the
/// message naming it.
pub open spec fn first_bad_edit(entries: Seq<EditEntry>) -> Option<Seq<char>>
    decreases entries.len(),
{
    if entries.len() == 0 {
        None
    } else {
        match first_bad_edit(entries.drop_last()) {
            Some(m) => Some(m),
            None => {
                let k = entries.len() - 1;
                let e = entries.last();
                if e.old_string is None {
                    Some("MultiEdit edits["@ + decimal(k as nat) + "] missing string old_string"@)
                } else if e.new_string is None {
                    Some("MultiEdit edits["@ + decimal(k as nat) + "] missing string new_string"@)
                } else {
                    None
                }
            },
        }
    }
}

/// What building the `MultiEdit` command gives: a non-array is refused; the
/// first entry lacking a string field is refused by index; otherwise the
/// file is read once, every replacement is applied in order, and the file
/// is written once.
pub open spec fn multiedit_spec(path: Seq<char>, edits: EditsValue, r: Result<String, NonoError>) -> bool {
    match edits {
        EditsValue::NotArray => r matches Err(e) && error_view(e) == err_of(
            ErrorKind::HookInstall,
            "MultiEdit tool_input.edits must be an array"@,
        ),
        EditsValue::Array(v) => match first_bad_edit(v@) {
            Some(m) => r matches Err(e) && error_view(e) == err_of(ErrorKind::HookInstall, m),
            None => {
                let q = "'"@ + double_quotes(path) + "'"@;
                r matches Ok(c) && c@ == read_src(q) + replace_statements(v@) + write_src(q)
            },
        },
    }
}

/// Builds the inner PowerShell command applying all `edits` to `file_path`
/// in memory: one read, the replacements in order, one write.
pub fn build_confined_multiedit_cmd(file_path: &str, edits: &EditsValue) -> (r: Result<String, NonoError>)
    ensures
        multiedit_spec(file_path@, *edits, r),
{
    let entries = match edits {
        EditsValue::NotArray => {
            return Err(NonoError::HookInstall(String::from_str("MultiEdit tool_input.edits must be an array")));
        },
        EditsValue::Array(v) => v,
    };
    let path_quoted = powershell_single_quoted(file_path);
    let mut c = String::from_str("$src = [byte[]](Get-Content -LiteralPath ");
    c.append(path_quoted.as_str());
    c.append(" -Encoding Byte -Raw); ");
    let ghost head = c@;
    assert(head == read_src(path_quoted@));
    assert(entries@.take(0) =~= Seq::<EditEntry>::empty());
    let mut i: usize = 0;
    while i < entries.len()
        invariant
            i <= entries.len(),
            *edits == EditsValue::Array(*entries),
            head == read_src(path_quoted@),
            path_quoted@ == "'"@ + double_quotes(file_path@) + "'"@,
            first_bad_edit(entries@.take(i as int)) is None,
            c@ == head + replace_statements(entries@.take(i as int)),
        decreases entries.len() - i,
    {
        let ghost prefix = entries@.take(i as int + 1);
        assert(prefix.drop_last() =~= entries@.take(i as int));
        assert(prefix.last() == entries@[i as int]);
        let e = &entries[i];
        let old = match &e.old_string {
            Some(o) => o,
            None => {
                let mut m = String::from_str("MultiEdit edits[");
                let k = decimal_string(i as u64);
                m.append(k.as_str());
                m.append("] missing string old_string");
                proof {
                    assert(first_bad_edit(prefix) == Some(m@));
                    lemma_first_bad_prefix(entries@, i as int + 1);
                }
                return Err(NonoError::HookInstall(m));
            },
        };
        let new = match &e.new_string {
            Some(n) => n,
            None => {
                let mut m = String::from_str("MultiEdit edits[");
                let k = decimal_string(i as u64);
                m.append(k.as_str());
                m.append("] missing string new_string");
                proof {
                    assert(first_bad_edit(prefix) == Some(m@));
                    lemma_first_bad_prefix(entries@, i as int + 1);
                }
                return Err(NonoError::HookInstall(m));
            },
        };
        let stmt = byte_replace_statement(i, old.as_str().as_bytes(), new.as_str().as_bytes());
        c.append(stmt.as_str());
        assert(first_bad_edit(prefix) is None);
        assert(replace_statements(prefix) == replace_statements(entries@.take(i as int)) + stmt@);
        i = i + 1;
    }
    assert(entries@.take(entries.len() as int) =~= entries@);
    c.append("Set-Content -LiteralPath ");
    c.append(path_quoted.as_str());
    c.append(" -Value $src -Encoding Byte");
    assert(c@ =~= read_src(path_quoted@) + replace_statements(entries@) + write_src(path_quoted@));
    Ok(c)
}

proof fn lemma_first_bad_prefix(entries: Seq<EditEntry>, j: int)
    requires
        0 <= j <= entries.len(),
        first_bad_edit(entries.take(j)) is Some,
    ensures
        first_bad_edit(entries) == first_bad_edit(entries.take(j)),
    decreases entries.len(),
{
    if j < entries.len() {
        assert(entries.drop_last().take(j) =~= entries.take(j));
        lemma_first_bad_prefix(entries.drop_last(), j);
    } else {
        assert(entries.take(j) =~= entries);
    }
}

// ---------------------------------------------------------------------------
// Wrapping the Bash tool
// ---------------------------------------------------------------------------

/// The outer PowerShell script that runs `command` under `nono run` with
/// the tool-runner profile, as an encoded native PowerShell child.
pub open spec fn wrapper_script(nono_exe: Seq<char>, command: Seq<char>) -> Seq<char> {
    "& "@ + ("'"@ + double_quotes(nono_exe) + "'"@) + " run --profile "@ + ("'"@ + double_quotes(
        DEFAULT_TOOL_RUNNER_PROFILE@,
    ) + "'"@) + " --allow-cwd -- powershell.exe -NoProfile -NonInteractive -EncodedCommand "@ + base64(
        utf16le(command),
    )
}

/// Builds the outer PowerShell script for the Windows `Bash` tool runner.
pub fn windows_bash_wrapper_script(nono_exe: &str, command: &str) -> (r: String)
    ensures
        r@ == wrapper_script(nono_exe@, command@),
{
    let exe = powershell_single_quoted(nono_exe);
    let profile = powershell_single_quoted(DEFAULT_TOOL_RUNNER_PROFILE);
    let encoded = powershell_encoded_command(command);
    let mut r = String::from_str("& ");
    r.append(exe.as_str());
    r.append(" run --profile ");
    r.append(profile.as_str());
    r.append(" --allow-cwd -- powershell.exe -NoProfile -NonInteractive -EncodedCommand ");
    r.append(encoded.as_str());
    r
}

/// The shell quoting `shlex::try_quote` gives a string without nul
/// characters. Its rules take pages to state, so the result is named.
pub uninterp spec fn shlex_quoted(s: Seq<char>) -> Seq<char>;

/// `shlex::try_quote`: fails exactly when the string holds a nul character,
/// with the crate's error text; otherwise the named quoting, which is `''`
/// for the empty string and never drops a character of the input (each
/// chunk is copied whole, at most with quotes and escapes added), so it is
/// at least as long as the input.
#[verifier::external_body]
fn shell_quote(s: &str) -> (r: Result<String, String>)
    ensures
        match r {
            Ok(q) => !has_char(s@, '\0') && q@ == shlex_quoted(s@) && (s@.len() == 0 ==> q@ == "''"@)
                && s@.len() <= q@.len(),
            Err(m) => has_char(s@, '\0') && m@ == "cannot shell-quote string containing nul byte"@,
        },
{
    match shlex::try_quote(s) {
        Ok(q) => Ok(q.into_owned()),
        Err(e) => Err(e.to_string()),
    }
}

/// What wrapping a `Bash` command gives. On Windows the outer script is
/// encoded for `powershell.exe`; elsewhere the executable and the command
/// are shell-quoted for `sh -lc`. An unresolvable executable or an
/// unquotable string is refused.
pub open spec fn wrapped_spec(on_windows: bool, nono_exe: Result<String, String>, command: Seq<char>, r: Result<String, NonoError>) -> bool {
    match nono_exe {
        Err(e) => r matches Err(x) && error_view(x) == err_of(
            ErrorKind::HookInstall,
            "failed to resolve current nono executable: "@ + e@,
        ),
        Ok(exe) => if on_windows {
            r matches Ok(c) && c@ == "powershell.exe -NoProfile -NonInteractive -ExecutionPolicy Bypass -EncodedCommand "@
                + base64(utf16le(wrapper_script(exe@, command)))
        } else if has_char(exe@, '\0') {
            r matches Err(x) && error_view(x) == err_of(
                ErrorKind::HookInstall,
                "failed to quote nono executable: "@ + "cannot shell-quote string containing nul byte"@,
            )
        } else if has_char(command, '\0') {
            r matches Err(x) && error_view(x) == err_of(
                ErrorKind::HookInstall,
                "failed to quote shell command: "@ + "cannot shell-quote string containing nul byte"@,
            )
        } else {
            r matches Ok(c) && c@ == shlex_quoted(exe@) + " run --profile "@ + DEFAULT_TOOL_RUNNER_PROFILE@
                + " --allow-cwd -- sh -lc "@ + shlex_quoted(command)
        },
    }
}

/// Wraps a `Bash` tool command so it runs through `nono run`. `nono_exe` is
/// the current executable's display path, or why it could not be resolved.
pub fn wrapped_bash_command(on_windows: bool, nono_exe: &Result<String, String>, command: &str) -> (r: Result<String, NonoError>)
    ensures
        wrapped_spec(on_windows, *nono_exe, command@, r),
        !on_windows ==> (r matches Ok(c) ==> c@.len() > command@.len()),
{
    let exe = match nono_exe {
        Err(e) => {
            let mut m = String::from_str("failed to resolve current nono executable: ");
            m.append(e.as_str());
            return Err(NonoError::HookInstall(m));
        },
        Ok(x) => x,
    };
    if on_windows {
        let outer = windows_bash_wrapper_script(exe.as_str(), command);
        let encoded = powershell_encoded_command(outer.as_str());
        let mut c = String::from_str("powershell.exe -NoProfile -NonInteractive -ExecutionPolicy Bypass -EncodedCommand ");
        c.append(encoded.as_str());
        return Ok(c);
    }
    let quoted_exe = match shell_quote(exe.as_str()) {
        Ok(q) => q,
        Err(e) => {
            let mut m = String::from_str("failed to quote nono executable: ");
            m.append(e.as_str());
            return Err(NonoError::HookInstall(m));
        },
    };
    let quoted_command = match shell_quote(command) {
        Ok(q) => q,
        Err(e) => {
            let mut m = String::from_str("failed to quote shell command: ");
            m.append(e.as_str());
            return Err(NonoError::HookInstall(m));
        },
    };
    let mut c = quoted_exe;
    c.append(" run --profile ");
    c.append(DEFAULT_TOOL_RUNNER_PROFILE);
    c.append(" --allow-cwd -- sh -lc ");
    c.append(quoted_command.as_str());
    proof {
        reveal_strlit(" --allow-cwd -- sh -lc ");
        assert(c@.len() >= " --allow-cwd -- sh -lc "@.len() + quoted_command@.len());
    }
    Ok(c)
}

/// The refusal when the working directory covers the agent's own state.
pub fn self_disable_reason(cwd: &str) -> (r: String)
    ensures
        r@ == "refusing to wrap Bash: CWD '"@ + cwd@
            + "' covers agent hook settings or agent state; would allow the tool jail to disable its own hooks"@,
{
    let mut r = String::from_str("refusing to wrap Bash: CWD '");
    r.append(cwd);
    r.append("' covers agent hook settings or agent state; would allow the tool jail to disable its own hooks");
    r
}

/// The refusal when the home directory cannot be resolved.
pub fn self_disable_reason_no_home() -> (r: String)
    ensures
        r@ == "refusing to wrap Bash: home directory cannot be resolved; cannot verify CWD does not cover agent hook state"@,
{
    String::from_str(
        "refusing to wrap Bash: home directory cannot be resolved; cannot verify CWD does not cover agent hook state",
    )
}


// ---------------------------------------------------------------------------
// The PreToolUse decision
// ---------------------------------------------------------------------------

/// A value of a tool input's field: a JSON string by its text, or any
/// other JSON value by its serialised form.
#[derive(Debug, Clone)]
pub enum ToolValue {
    Text(String),
    Other(String),
}

/// One field of a tool's input.
#[derive(Debug, Clone)]
pub struct ToolInputEntry {
    pub key: String,
    pub value: ToolValue,
}

/// A field value by its plain values: whether it is a string, and its text.
pub open spec fn value_view(v: ToolValue) -> (bool, Seq<char>) {
    match v {
        ToolValue::Text(t) => (true, t@),
        ToolValue::Other(t) => (false, t@),
    }
}

/// The fields of a tool's input that the hook reads; a field is `None` when
/// it is missing or not a string.
#[derive(Debug, Clone)]
pub struct ToolInput {
    /// Whether the input is a JSON object.
    pub is_object: bool,
    /// All the fields of the input object, in order.
    pub entries: Vec<ToolInputEntry>,
    pub file_path: Option<String>,
    pub content: Option<String>,
    pub old_string: Option<String>,
    pub new_string: Option<String>,
    pub command: Option<String>,
    /// The `edits` value; `None` when missing.
    pub edits: Option<EditsValue>,
}

/// The fields of a hook event that the hook reads.
#[derive(Debug, Clone)]
pub struct HookEvent {
    /// `hook_event_name`, when it is a string.
    pub hook_event_name: Option<String>,
    /// `tool_name`, when it is a string.
    pub tool_name: Option<String>,
    /// `tool_input`; `None` when missing.
    pub tool_input: Option<ToolInput>,
}

/// The hook's permission decision.
#[derive(Debug, Clone, Copy, PartialEq, Eq, Structural)]
pub enum PermissionDecision {
    Allow,
    Deny,
}

/// The hook's answer to the agent.
#[derive(Debug, Clone)]
pub struct HookResponse {
    pub decision: PermissionDecision,
    pub reason: String,
    /// A command for the agent to retry through the `Bash` tool.
    pub additional_context: Option<String>,
    /// The rewritten `command` of the `Bash` tool input.
    pub updated_command: Option<String>,
    /// The `Bash` tool input to run instead: the input's fields with the
    /// rewritten `command`.
    pub updated_input: Option<Vec<ToolInputEntry>>,
}

/// A field by its plain values: its key, and its value.
pub open spec fn entry_pair(e: ToolInputEntry) -> (Seq<char>, (bool, Seq<char>)) {
    (e.key@, value_view(e.value))
}

/// A field with its value set to the string `c` when it is `command`.
pub open spec fn entry_with_command(e: ToolInputEntry, c: Seq<char>) -> (Seq<char>, (bool, Seq<char>)) {
    if e.key@ == "command"@ {
        (e.key@, (true, c))
    } else {
        entry_pair(e)
    }
}

/// `out` is `es` with its `command` field set to the string `c`: every
/// other field is kept, in place; a missing `command` is added last.
pub open spec fn with_command(es: Seq<ToolInputEntry>, c: Seq<char>, out: Seq<ToolInputEntry>) -> bool {
    let present = exists|i: int| 0 <= i < es.len() && #[trigger] es[i].key@ == "command"@;
    &&& out.len() == es.len() + (if present { 0int } else { 1int })
    &&& forall|i: int| 0 <= i < es.len() ==> #[trigger] entry_pair(out[i]) == entry_with_command(es[i], c)
    &&& !present ==> entry_pair(out[es.len() as int]) == ("command"@, (true, c))
}

/// The `Bash` rewrite keeps every field of the tool input but `command`,
/// with its key, value and place, and sets `command` to the new string.
pub proof fn lemma_rewrite_keeps_other_fields(es: Seq<ToolInputEntry>, c: Seq<char>, out: Seq<ToolInputEntry>)
    requires
        with_command(es, c, out),
    ensures
        forall|i: int| 0 <= i < es.len() ==> #[trigger] out[i].key@ == es[i].key@,
        forall|i: int| 0 <= i < es.len() && es[i].key@ != "command"@ ==> value_view(#[trigger] out[i].value) == value_view(es[i].value),
        exists|i: int| 0 <= i < out.len() && out[i].key@ == "command"@ && value_view(out[i].value) == (true, c),
{
    assert forall|i: int| 0 <= i < es.len() implies #[trigger] out[i].key@ == es[i].key@ by {
        assert(entry_pair(out[i]) == entry_with_command(es[i], c));
    }
    assert forall|i: int| 0 <= i < es.len() && es[i].key@ != "command"@ implies value_view(#[trigger] out[i].value) == value_view(es[i].value) by {
        assert(entry_pair(out[i]) == entry_with_command(es[i], c));
    }
    if exists|i: int| 0 <= i < es.len() && #[trigger] es[i].key@ == "command"@ {
        let i = choose|i: int| 0 <= i < es.len() && #[trigger] es[i].key@ == "command"@;
        assert(entry_pair(out[i]) == entry_with_command(es[i], c));
    } else {
        assert(entry_pair(out[es.len() as int]) == ("command"@, (true, c)));
    }
}

fn copy_value(v: &ToolValue) -> (r: ToolValue)
    ensures
        value_view(r) == value_view(*v),
{
    match v {
        ToolValue::Text(t) => ToolValue::Text(t.clone()),
        ToolValue::Other(t) => ToolValue::Other(t.clone()),
    }
}

/// The fields of a tool input with its `command` set to `command`.
pub fn set_command(entries: &[ToolInputEntry], command: &str) -> (r: Vec<ToolInputEntry>)
    ensures
        with_command(entries@, command@, r@),
{
    let mut out: Vec<ToolInputEntry> = Vec::new();
    let mut found = false;
    let mut i: usize = 0;
    while i < entries.len()
        invariant
            i <= entries.len(),
            out.len() == i,
            found == exists|j: int| 0 <= j < i && #[trigger] entries@[j].key@ == "command"@,
            forall|j: int| 0 <= j < i ==> #[trigger] entry_pair(out@[j]) == entry_with_command(entries@[j], command@),
        decreases entries.len() - i,
    {
        let e = &entries[i];
        let is_command = str_eq(e.key.as_str(), "command");
        let value = if is_command {
            found = true;
            ToolValue::Text(String::from_str(command))
        } else {
            copy_value(&e.value)
        };
        let ghost before = out@;
        out.push(ToolInputEntry { key: e.key.clone(), value });
        proof {
            assert(entry_pair(out@[i as int]) == entry_with_command(entries@[i as int], command@));
            assert forall|j: int| 0 <= j < i + 1 implies #[trigger] entry_pair(out@[j]) == entry_with_command(entries@[j], command@) by {
                if j < i {
                    assert(out@[j] == before[j]);
                }
            }
        }
        i = i + 1;
    }
    if !found {
        let ghost before = out@;
        out.push(ToolInputEntry { key: String::from_str("command"), value: ToolValue::Text(String::from_str(command)) });
        proof {
            assert forall|j: int| 0 <= j < entries.len() implies #[trigger] entry_pair(out@[j]) == entry_with_command(entries@[j], command@) by {
                assert(out@[j] == before[j]);
            }
        }
    }
    out
}

/// What the hook needs to know of its host.
#[derive(Debug)]
pub struct HookHost {
    pub on_windows: bool,
    /// Why the working directory must not run the tool jail, if it must not,
    /// or why that could not be determined.
    pub cwd_risk: Result<Option<String>, NonoError>,
    /// The current executable's display path, or why it could not be resolved.
    pub nono_exe: Result<String, String>,
}

/// An allowing response.
pub fn allow_response(reason: String) -> (r: HookResponse)
    ensures
        r.decision == PermissionDecision::Allow && r.reason@ == reason@ && r.additional_context is None
            && r.updated_command is None && r.updated_input is None,
{
    HookResponse {
        decision: PermissionDecision::Allow,
        reason,
        additional_context: None,
        updated_command: None,
        updated_input: None,
    }
}

/// A denying response.
pub fn deny_response(reason: String) -> (r: HookResponse)
    ensures
        r.decision == PermissionDecision::Deny && r.reason@ == reason@ && r.additional_context is None
            && r.updated_command is None && r.updated_input is None,
{
    HookResponse {
        decision: PermissionDecision::Deny,
        reason,
        additional_context: None,
        updated_command: None,
        updated_input: None,
    }
}

pub open spec fn gives_deny(r: Result<Option<HookResponse>, NonoError>, reason: Seq<char>) -> bool {
    r matches Ok(Some(h)) && h.decision == PermissionDecision::Deny && h.reason@ == reason
        && h.additional_context is None && h.updated_command is None && h.updated_input is None
}

pub open spec fn gives_allow(r: Result<Option<HookResponse>, NonoError>, reason: Seq<char>) -> bool {
    r matches Ok(Some(h)) && h.decision == PermissionDecision::Allow && h.reason@ == reason
        && h.additional_context is None && h.updated_command is None && h.updated_input is None
}

/// A deny that hands the agent a confined PowerShell command to retry via `Bash`.
pub open spec fn gives_retry(r: Result<Option<HookResponse>, NonoError>, tool: Seq<char>, ps: Seq<char>) -> bool {
    r matches Ok(Some(h)) && h.decision == PermissionDecision::Deny && h.reason@ == tool
        + " is an in-process tool that cannot be confined directly; use the Bash tool with the PowerShell command in additionalContext to perform the confined file operation"@
        && (h.additional_context matches Some(c) && c@ == "Use the Bash tool with this PowerShell command: "@ + ps)
        && h.updated_command is None && h.updated_input is None
}

pub open spec fn gives_error(r: Result<Option<HookResponse>, NonoError>, m: Seq<char>) -> bool {
    r matches Err(e) && error_view(e) == err_of(ErrorKind::HookInstall, m)
}

/// The working-directory guard on Windows: a failure to decide is the
/// result, and a risk denies with its reason. It passes when `Some(x)` is
/// `None`-free, that is, when no risk was found.
pub open spec fn guard_blocks(host: &HookHost, r: Result<Option<HookResponse>, NonoError>) -> Option<bool> {
    if !host.on_windows {
        None
    } else {
        match host.cwd_risk {
            Err(e) => Some(r == Err::<Option<HookResponse>, NonoError>(e)),
            Ok(Some(reason)) => Some(gives_deny(r, reason@)),
            Ok(None) => None,
        }
    }
}

/// The decision for `Write`.
pub open spec fn write_spec(input: Option<ToolInput>, host: &HookHost, r: Result<Option<HookResponse>, NonoError>) -> bool {
    match guard_blocks(host, r) {
        Some(b) => b,
        None => match input {
            None => gives_error(r, "Write tool_input missing"@),
            Some(ti) => match ti.file_path {
                None => gives_error(r, "Write tool_input missing string file_path"@),
                Some(fp) => {
                    let content = match ti.content {
                        Some(c) => c@,
                        None => Seq::<char>::empty(),
                    };
                    if host.on_windows {
                        gives_retry(r, "Write"@, write_cmd(fp@, encode_utf8(content)))
                    } else {
                        gives_deny(r, "Write confinement via Bash retry is Windows-only"@)
                    }
                },
            },
        },
    }
}

/// The decision for `Edit`.
pub open spec fn edit_spec(input: Option<ToolInput>, host: &HookHost, r: Result<Option<HookResponse>, NonoError>) -> bool {
    match guard_blocks(host, r) {
        Some(b) => b,
        None => match input {
            None => gives_error(r, "Edit tool_input missing"@),
            Some(ti) => if ti.file_path is None {
                gives_error(r, "Edit tool_input missing string file_path"@)
            } else if ti.old_string is None {
                gives_error(r, "Edit tool_input missing string old_string"@)
            } else if ti.new_string is None {
                gives_error(r, "Edit tool_input missing string new_string"@)
            } else if host.on_windows {
                gives_retry(
                    r,
                    "Edit"@,
                    edit_cmd(ti.file_path->0@, encode_utf8(ti.old_string->0@), encode_utf8(ti.new_string->0@)),
                )
            } else {
                gives_deny(r, "Edit confinement via Bash retry is Windows-only"@)
            },
        },
    }
}

/// The decision for `MultiEdit`.
pub open spec fn multiedit_decision(input: Option<ToolInput>, host: &HookHost, r: Result<Option<HookResponse>, NonoError>) -> bool {
    match guard_blocks(host, r) {
        Some(b) => b,
        None => match input {
            None => gives_error(r, "MultiEdit tool_input missing"@),
            Some(ti) => if ti.file_path is None {
                gives_error(r, "MultiEdit tool_input missing string file_path"@)
            } else if ti.edits is None {
                gives_error(r, "MultiEdit tool_input missing edits array"@)
            } else if host.on_windows {
                exists|b: Result<String, NonoError>| #[trigger] multiedit_spec(ti.file_path->0@, ti.edits->0, b)
                    && match b {
                    Err(e) => r == Err::<Option<HookResponse>, NonoError>(e),
                    Ok(ps) => gives_retry(r, "MultiEdit"@, ps@),
                }
            } else {
                gives_deny(r, "MultiEdit confinement via Bash retry is Windows-only"@)
            },
        },
    }
}

/// The decision for `Bash`: the command is rewritten through `nono run`
/// unless it already runs there.
pub open spec fn bash_spec(input: Option<ToolInput>, host: &HookHost, r: Result<Option<HookResponse>, NonoError>) -> bool {
    match guard_blocks(host, r) {
        Some(b) => b,
        None => match input {
            None => gives_error(r, "PreToolUse input missing tool_input"@),
            Some(ti) => if !ti.is_object {
                gives_error(r, "PreToolUse tool_input must be a JSON object"@)
            } else {
                match ti.command {
                    None => gives_error(r, "Bash tool_input missing string command"@),
                    Some(cmd) => if has_nono_wrapper(cmd@) {
                        r == Ok::<Option<HookResponse>, NonoError>(None)
                    } else {
                        exists|w: Result<String, NonoError>| #[trigger] wrapped_spec(host.on_windows, host.nono_exe, cmd@, w)
                            && match w {
                            Err(e) => r == Err::<Option<HookResponse>, NonoError>(e),
                            Ok(c) => (!host.on_windows ==> c@.len() > cmd@.len()) && (r matches Ok(Some(h))
                                && h.decision == PermissionDecision::Allow && h.reason@
                                == "Bash command rewritten through nono tool sandbox"@ && h.additional_context is None
                                && (h.updated_command matches Some(u) && u@ == c@)
                                && (h.updated_input matches Some(ui) && with_command(ti.entries@, c@, ui@))),
                        }
                    },
                }
            },
        },
    }
}

/// The decision for a PreToolUse event. Other events are passed over
/// silently; a missing tool name is denied; read-only tools are allowed;
/// `Write`, `Edit` and `MultiEdit` are confined through a `Bash` retry on
/// Windows and denied elsewhere; `NotebookEdit` and unknown tools are denied;
/// `Bash` is rewritten through `nono run`.
pub open spec fn hook_spec(ev: HookEvent, host: &HookHost, r: Result<Option<HookResponse>, NonoError>) -> bool {
    if !(ev.hook_event_name matches Some(n) && n@ == "PreToolUse"@) {
        r == Ok::<Option<HookResponse>, NonoError>(None)
    } else {
        match ev.tool_name {
            None => gives_deny(r, "nono tool sandbox prototype requires an agent tool name"@),
            Some(t) => {
                let name = t@;
                if read_only_tool(name) {
                    gives_allow(r, "read-only agent tool allowed by nono tool sandbox prototype"@)
                } else if name == "Write"@ {
                    write_spec(ev.tool_input, host, r)
                } else if name == "Edit"@ {
                    edit_spec(ev.tool_input, host, r)
                } else if name == "MultiEdit"@ {
                    multiedit_decision(ev.tool_input, host, r)
                } else if name == "NotebookEdit"@ {
                    gives_deny(
                        r,
                        "NotebookEdit is not yet supported in the Windows POC sandbox; use the Bash tool with PowerShell to read and write the notebook JSON directly"@,
                    )
                } else if name == "Bash"@ {
                    bash_spec(ev.tool_input, host, r)
                } else {
                    gives_deny(
                        r,
                        "nono tool sandbox prototype denies "@ + name
                            + "; only Bash rewriting and read-only tools are allowed"@,
                    )
                }
            },
        }
    }
}


/// The hook lets nothing through unconfined: a tool is allowed only when it
/// is read-only, or when it is `Bash` and its command has been rewritten to
/// run inside the sandbox. `Write`, `Edit` and `MultiEdit` are never allowed.
pub proof fn lemma_only_read_only_or_rewritten_bash_is_allowed(
    ev: HookEvent,
    host: &HookHost,
    r: Result<Option<HookResponse>, NonoError>,
)
    requires
        hook_spec(ev, host, r),
        r matches Ok(Some(h)) && h.decision == PermissionDecision::Allow,
    ensures
        ev.tool_name matches Some(t) && ((read_only_tool(t@) && r->Ok_0->0.updated_command is None) || (t@ == "Bash"@
            && r->Ok_0->0.updated_command is Some)),
{
}

fn cwd_guard(host: &HookHost) -> (r: Option<Result<Option<HookResponse>, NonoError>>)
    ensures
        match r {
            Some(x) => guard_blocks(host, x) == Some(true),
            None => host.on_windows ==> host.cwd_risk == Ok::<Option<String>, NonoError>(None),
        },
{
    if !host.on_windows {
        return None;
    }
    match &host.cwd_risk {
        Err(e) => Some(Err(e.duplicate())),
        Ok(Some(reason)) => Some(Ok(Some(deny_response(reason.clone())))),
        Ok(None) => None,
    }
}

fn hook_error(m: &str) -> (r: Result<Option<HookResponse>, NonoError>)
    ensures
        gives_error(r, m@),
{
    Err(NonoError::HookInstall(String::from_str(m)))
}

fn retry(tool: &str, ps: String) -> (r: Result<Option<HookResponse>, NonoError>)
    ensures
        gives_retry(r, tool@, ps@),
{
    let mut reason = String::from_str(tool);
    reason.append(
        " is an in-process tool that cannot be confined directly; use the Bash tool with the PowerShell command in additionalContext to perform the confined file operation",
    );
    let mut context = String::from_str("Use the Bash tool with this PowerShell command: ");
    context.append(ps.as_str());
    Ok(Some(HookResponse {
        decision: PermissionDecision::Deny,
        reason,
        additional_context: Some(context),
        updated_command: None,
        updated_input: None,
    }))
}

fn deny_lit(m: &str) -> (r: Result<Option<HookResponse>, NonoError>)
    ensures
        gives_deny(r, m@),
{
    Ok(Some(deny_response(String::from_str(m))))
}

/// Decides a coding-agent hook event.
pub fn pre_tool_use_response(event: &HookEvent, host: &HookHost) -> (r: Result<Option<HookResponse>, NonoError>)
    ensures
        hook_spec(*event, host, r),
{
    let is_pre = match &event.hook_event_name {
        Some(n) => str_eq(n.as_str(), "PreToolUse"),
        None => false,
    };
    if !is_pre {
        return Ok(None);
    }
    let tool_name = match &event.tool_name {
        None => return deny_lit("nono tool sandbox prototype requires an agent tool name"),
        Some(t) => t.as_str(),
    };
    if is_read_only_tool(tool_name) {
        return Ok(
            Some(allow_response(String::from_str("read-only agent tool allowed by nono tool sandbox prototype"))),
        );
    }
    if str_eq(tool_name, "Write") {
        match cwd_guard(host) {
            Some(x) => return x,
            None => {},
        }
        let ti = match &event.tool_input {
            None => return hook_error("Write tool_input missing"),
            Some(ti) => ti,
        };
        let fp = match &ti.file_path {
            None => return hook_error("Write tool_input missing string file_path"),
            Some(f) => f,
        };
        if host.on_windows {
            let content: &str = match &ti.content {
                Some(c) => c.as_str(),
                None => "",
            };
            proof {
                reveal_strlit("");
            }
            let ps = match build_confined_write_cmd(fp.as_str(), content) {
                Ok(p) => p,
                Err(e) => return Err(e),
            };
            return retry("Write", ps);
        }
        return deny_lit("Write confinement via Bash retry is Windows-only");
    }
    if str_eq(tool_name, "Edit") {
        match cwd_guard(host) {
            Some(x) => return x,
            None => {},
        }
        let ti = match &event.tool_input {
            None => return hook_error("Edit tool_input missing"),
            Some(ti) => ti,
        };
        let fp = match &ti.file_path {
            None => return hook_error("Edit tool_input missing string file_path"),
            Some(f) => f,
        };
        let old = match &ti.old_string {
            None => return hook_error("Edit tool_input missing string old_string"),
            Some(o) => o,
        };
        let new = match &ti.new_string {
            None => return hook_error("Edit tool_input missing string new_string"),
            Some(n) => n,
        };
        if host.on_windows {
            let ps = match build_confined_edit_cmd(fp.as_str(), old.as_str(), new.as_str()) {
                Ok(p) => p,
                Err(e) => return Err(e),
            };
            return retry("Edit", ps);
        }
        return deny_lit("Edit confinement via Bash retry is Windows-only");
    }
    if str_eq(tool_name, "MultiEdit") {
        match cwd_guard(host) {
            Some(x) => return x,
            None => {},
        }
        let ti = match &event.tool_input {
            None => return hook_error("MultiEdit tool_input missing"),
            Some(ti) => ti,
        };
        let fp = match &ti.file_path {
            None => return hook_error("MultiEdit tool_input missing string file_path"),
            Some(f) => f,
        };
        let edits = match &ti.edits {
            None => return hook_error("MultiEdit tool_input missing edits array"),
            Some(e) => e,
        };
        if host.on_windows {
            let b = build_confined_multiedit_cmd(fp.as_str(), edits);
            assert(multiedit_spec(fp@, *edits, b));
            return match b {
                Ok(ps) => retry("MultiEdit", ps),
                Err(e) => Err(e),
            };
        }
        return deny_lit("MultiEdit confinement via Bash retry is Windows-only");
    }
    if str_eq(tool_name, "NotebookEdit") {
        return deny_lit(
            "NotebookEdit is not yet supported in the Windows POC sandbox; use the Bash tool with PowerShell to read and write the notebook JSON directly",
        );
    }
    if !str_eq(tool_name, "Bash") {
        let mut m = String::from_str("nono tool sandbox prototype denies ");
        m.append(tool_name);
        m.append("; only Bash rewriting and read-only tools are allowed");
        return Ok(Some(deny_response(m)));
    }
    match cwd_guard(host) {
        Some(x) => return x,
        None => {},
    }
    let ti = match &event.tool_input {
        None => return hook_error("PreToolUse input missing tool_input"),
        Some(ti) => ti,
    };
    if !ti.is_object {
        return hook_error("PreToolUse tool_input must be a JSON object");
    }
    let command = match &ti.command {
        None => return hook_error("Bash tool_input missing string command"),
        Some(c) => c,
    };
    if command_contains_nono_wrapper(command.as_str()) {
        return Ok(None);
    }
    let w = wrapped_bash_command(host.on_windows, &host.nono_exe, command.as_str());
    assert(wrapped_spec(host.on_windows, host.nono_exe, command@, w));
    match w {
        Err(e) => Err(e),
        Ok(c) => {
            let updated = set_command(ti.entries.as_slice(), c.as_str());
            Ok(
                Some(
                    HookResponse {
                        decision: PermissionDecision::Allow,
                        reason: String::from_str("Bash command rewritten through nono tool sandbox"),
                        additional_context: None,
                        updated_command: Some(c),
                        updated_input: Some(updated),
                    },
                ),
            )
        },
    }
}

} // verus!
