//! Authenticode exec-identity recording: what a `WinVerifyTrust` result
//! means, how the signer subject and thumbprint extracted from the leaf
//! certificate are checked and rendered, and how attacker-controlled
//! subject text is made safe for a terminal. The Windows API calls
//! themselves are made by the caller.
use crate::error::{err_of, error_view, ErrorKind, NonoError};
use crate::text::{decimal, decimal_string, hex_bytes, hex_of_bytes, i32_string, int_decimal, push_char};
use vstd::prelude::*;

verus! {

/// Authenticode status for an executable.
#[derive(Debug, Clone, PartialEq, Eq)]
pub enum AuthenticodeStatus {
    /// Signature valid; chain validated to a trusted root. Both fields are
    /// populated: the sanitized leaf-certificate subject and the SHA-1
    /// thumbprint as upper-case hex.
    Valid { signer_subject: String, thumbprint: String },
    /// File present but unsigned (`TRUST_E_NOSIGNATURE`).
    Unsigned,
    /// File signed but the signature is invalid or the chain rejected; the
    /// raw `WinVerifyTrust` result.
    InvalidSignature { hresult: i32 },
    /// The signature query itself failed.
    QueryFailed { reason: String },
}

/// `TRUST_E_NOSIGNATURE`: the file is not signed.
pub const TRUST_E_NOSIGNATURE: u32 = 0x800B0100;

// ---------------------------------------------------------------------------
// Terminal sanitization
// ---------------------------------------------------------------------------

/// `char::is_control`: the Unicode `Cc` category.
pub open spec fn is_control(c: char) -> bool {
    c <= '\u{1f}' || ('\u{7f}' <= c && c <= '\u{9f}')
}

/// Characters that end a CSI sequence.
pub open spec fn csi_final(c: char) -> bool {
    '\u{40}' <= c && c <= '\u{7e}'
}

/// Characters that open a string-type escape sequence after ESC.
pub open spec fn string_introducer(c: char) -> bool {
    c == ']' || c == 'P' || c == '_' || c == '^' || c == 'X'
}

/// How many characters a CSI sequence body takes: through its final
/// character, or everything when it is unterminated.
pub open spec fn csi_len(s: Seq<char>) -> nat
    decreases s.len(),
{
    if s.len() == 0 {
        0
    } else if csi_final(s[0]) {
        1
    } else {
        1 + csi_len(s.drop_first())
    }
}

/// How many characters a string-type sequence body takes: through BEL or
/// through the `\` of an ESC `\` terminator, or everything when it is
/// unterminated. `prev` is the character before `s`.
pub open spec fn st_len(s: Seq<char>, prev: char) -> nat
    decreases s.len(),
{
    if s.len() == 0 {
        0
    } else if s[0] == '\u{7}' || (prev == '\u{1b}' && s[0] == '\\') {
        1
    } else {
        1 + st_len(s.drop_first(), s[0])
    }
}

pub proof fn lemma_csi_len_bound(s: Seq<char>)
    ensures
        csi_len(s) <= s.len(),
    decreases s.len(),
{
    if s.len() > 0 && !csi_final(s[0]) {
        lemma_csi_len_bound(s.drop_first());
    }
}

pub proof fn lemma_st_len_bound(s: Seq<char>, prev: char)
    ensures
        st_len(s, prev) <= s.len(),
    decreases s.len(),
{
    if s.len() > 0 && !(s[0] == '\u{7}' || (prev == '\u{1b}' && s[0] == '\\')) {
        lemma_st_len_bound(s.drop_first(), s[0]);
    }
}

/// `s` with terminal escape sequences and control characters other than
/// tab removed: an ESC `[` sequence is dropped through its final byte; an
/// ESC `]`, `P`, `_`, `^` or `X` sequence through BEL or ESC `\`; ESC with
/// any other character drops the ESC alone and goes on with that character;
/// a trailing ESC is dropped.
pub open spec fn sanitize(s: Seq<char>) -> Seq<char>
    decreases s.len(),
{
    if s.len() == 0 {
        seq![]
    } else {
        let c = s[0];
        if c == '\u{1b}' {
            if s.len() == 1 {
                seq![]
            } else if s[1] == '[' {
                proof {
                    lemma_csi_len_bound(s.skip(2));
                }
                sanitize(s.skip(2 + csi_len(s.skip(2)) as int))
            } else if string_introducer(s[1]) {
                proof {
                    lemma_st_len_bound(s.skip(2), '\0');
                }
                sanitize(s.skip(2 + st_len(s.skip(2), '\0') as int))
            } else {
                sanitize(s.skip(1))
            }
        } else if is_control(c) && c != '\t' {
            sanitize(s.skip(1))
        } else {
            seq![c] + sanitize(s.skip(1))
        }
    }
}

/// Sanitized text can no longer drive a terminal: it holds no control
/// character other than tab, and in particular no ESC.
pub proof fn lemma_sanitized_has_no_controls(s: Seq<char>)
    ensures
        forall|i: int| 0 <= i < sanitize(s).len() ==> !is_control(#[trigger] sanitize(s)[i]) || sanitize(s)[i] == '\t',
    decreases s.len(),
{
    if s.len() > 0 {
        let c = s[0];
        if c == '\u{1b}' {
            if s.len() == 1 {
            } else if s[1] == '[' {
                lemma_csi_len_bound(s.skip(2));
                lemma_sanitized_has_no_controls(s.skip(2 + csi_len(s.skip(2)) as int));
                assert(sanitize(s) == sanitize(s.skip(2 + csi_len(s.skip(2)) as int)));
            } else if string_introducer(s[1]) {
                lemma_st_len_bound(s.skip(2), '\0');
                lemma_sanitized_has_no_controls(s.skip(2 + st_len(s.skip(2), '\0') as int));
                assert(sanitize(s) == sanitize(s.skip(2 + st_len(s.skip(2), '\0') as int)));
            } else {
                lemma_sanitized_has_no_controls(s.skip(1));
                assert(sanitize(s) == sanitize(s.skip(1)));
            }
        } else if is_control(c) && c != '\t' {
            lemma_sanitized_has_no_controls(s.skip(1));
            assert(sanitize(s) == sanitize(s.skip(1)));
        } else {
            lemma_sanitized_has_no_controls(s.skip(1));
            let rest = sanitize(s.skip(1));
            assert(sanitize(s) == seq![c] + rest);
            assert forall|i: int| 0 <= i < sanitize(s).len() implies !is_control(#[trigger] sanitize(s)[i])
                || sanitize(s)[i] == '\t' by {
                if i > 0 {
                    assert(sanitize(s)[i] == rest[i - 1]);
                }
            }
        }
    }
}

proof fn lemma_csi_len_step(s: Seq<char>, j: int)
    requires
        0 <= j < s.len(),
        forall|k: int| 0 <= k < j ==> !csi_final(#[trigger] s[k]),
    ensures
        csi_len(s) == j + csi_len(s.skip(j)),
    decreases j,
{
    if j > 0 {
        assert(s.skip(1).skip(j - 1) =~= s.skip(j));
        assert forall|k: int| 0 <= k < j - 1 implies !csi_final(#[trigger] s.skip(1)[k]) by {
            assert(s.skip(1)[k] == s[k + 1]);
        }
        lemma_csi_len_step(s.skip(1), j - 1);
        assert(s.drop_first() =~= s.skip(1));
        assert(!csi_final(s[0]));
    } else {
        assert(s.skip(0) =~= s);
    }
}

proof fn lemma_st_len_step(s: Seq<char>, prev: char, j: int)
    requires
        0 <= j < s.len(),
        forall|k: int| 0 <= k < j ==> !(#[trigger] s[k] == '\u{7}' || ((if k == 0 { prev } else { s[k - 1] }) == '\u{1b}' && s[k] == '\\')),
    ensures
        st_len(s, prev) == j + st_len(s.skip(j), if j == 0 { prev } else { s[j - 1] }),
    decreases j,
{
    if j > 0 {
        assert(s.skip(1).skip(j - 1) =~= s.skip(j));
        assert forall|k: int| 0 <= k < j - 1 implies !(#[trigger] s.skip(1)[k] == '\u{7}' || ((if k == 0 { s[0] } else { s.skip(1)[k - 1] }) == '\u{1b}' && s.skip(1)[k] == '\\')) by {
            assert(s.skip(1)[k] == s[k + 1]);
            if k > 0 {
                assert(s.skip(1)[k - 1] == s[k]);
            }
        }
        lemma_st_len_step(s.skip(1), s[0], j - 1);
        assert(s.drop_first() =~= s.skip(1));
        assert(!(s[0] == '\u{7}' || (prev == '\u{1b}' && s[0] == '\\')));
        if j - 1 > 0 {
            assert(s.skip(1)[j - 2] == s[j - 1]);
        }
    } else {
        assert(s.skip(0) =~= s);
    }
}



proof fn lemma_csi_len_all(t: Seq<char>)
    requires
        forall|k: int| 0 <= k < t.len() ==> !csi_final(#[trigger] t[k]),
    ensures
        csi_len(t) == t.len(),
    decreases t.len(),
{
    if t.len() > 0 {
        assert(!csi_final(t[0]));
        assert forall|k: int| 0 <= k < t.len() - 1 implies !csi_final(#[trigger] t.drop_first()[k]) by {
            assert(t.drop_first()[k] == t[k + 1]);
        }
        lemma_csi_len_all(t.drop_first());
    }
}

proof fn lemma_st_len_all(t: Seq<char>, prev: char)
    requires
        forall|k: int| 0 <= k < t.len() ==> !(#[trigger] t[k] == '\u{7}' || ((if k == 0 { prev } else { t[k - 1] }) == '\u{1b}' && t[k] == '\\')),
    ensures
        st_len(t, prev) == t.len(),
    decreases t.len(),
{
    if t.len() > 0 {
        assert(!(t[0] == '\u{7}' || (prev == '\u{1b}' && t[0] == '\\')));
        assert forall|k: int| 0 <= k < t.len() - 1 implies !(#[trigger] t.drop_first()[k] == '\u{7}' || ((if k == 0 { t[0] } else { t.drop_first()[k - 1] }) == '\u{1b}' && t.drop_first()[k] == '\\')) by {
            assert(t.drop_first()[k] == t[k + 1]);
            if k > 0 {
                assert(t.drop_first()[k - 1] == t[k]);
            }
        }
        lemma_st_len_all(t.drop_first(), t[0]);
    }
}

/// The index just past a CSI sequence body starting at `start`.
fn skip_csi(cs: &Vec<char>, start: usize) -> (j: usize)
    requires
        start <= cs.len(),
    ensures
        j == start + csi_len(cs@.skip(start as int)),
        j <= cs.len(),
{
    let n = cs.len();
    let ghost t = cs@.skip(start as int);
    let mut j: usize = start;
    while j < n && !('\u{40}' <= cs[j] && cs[j] <= '\u{7e}')
        invariant
            start <= j <= n,
            n == cs.len(),
            t == cs@.skip(start as int),
            forall|k: int| 0 <= k < j - start ==> !csi_final(#[trigger] t[k]),
        decreases n - j,
    {
        assert(t[j - start] == cs@[j as int]);
        j = j + 1;
    }
    if j < n {
        assert(t[j - start] == cs@[j as int]);
        proof {
            lemma_csi_len_step(t, j - start);
            assert(t.skip(j - start)[0] == t[j - start]);
        }
        j + 1
    } else {
        proof {
            lemma_csi_len_all(t);
        }
        n
    }
}

/// The index just past a string-type sequence body starting at `start`.
fn skip_st(cs: &Vec<char>, start: usize) -> (j: usize)
    requires
        start <= cs.len(),
    ensures
        j == start + st_len(cs@.skip(start as int), '\0'),
        j <= cs.len(),
{
    let n = cs.len();
    let ghost t = cs@.skip(start as int);
    let mut j: usize = start;
    let mut prev: char = '\0';
    while j < n && !(cs[j] == '\u{7}' || (prev == '\u{1b}' && cs[j] == '\\'))
        invariant
            start <= j <= n,
            n == cs.len(),
            t == cs@.skip(start as int),
            prev == (if j == start { '\0' } else { t[j - start - 1] }),
            forall|k: int| 0 <= k < j - start ==> !(#[trigger] t[k] == '\u{7}' || ((if k == 0 { '\0' } else { t[k - 1] }) == '\u{1b}' && t[k] == '\\')),
        decreases n - j,
    {
        assert(t[j - start] == cs@[j as int]);
        prev = cs[j];
        j = j + 1;
    }
    if j < n {
        assert(t[j - start] == cs@[j as int]);
        proof {
            lemma_st_len_step(t, '\0', j - start);
            assert(t.skip(j - start)[0] == t[j - start]);
        }
        j + 1
    } else {
        proof {
            lemma_st_len_all(t, '\0');
        }
        n
    }
}

/// Removes terminal escape sequences and control characters other than tab.
pub fn sanitize_for_terminal(input: &str) -> (r: String)
    ensures
        r@ == sanitize(input@),
{
    let cs = crate::text::chars_of(input);
    let n = cs.len();
    let mut out = String::new();
    let mut i: usize = 0;
    assert(cs@.skip(0) =~= cs@);
    while i < n
        invariant
            i <= n,
            n == cs.len(),
            cs@ == input@,
            sanitize(input@) == out@ + sanitize(cs@.skip(i as int)),
        decreases n - i,
    {
        let ghost rest = cs@.skip(i as int);
        assert(rest[0] == cs@[i as int]);
        let c = cs[i];
        if c == '\u{1b}' {
            if i + 1 >= n {
                assert(rest.len() == 1);
                assert(cs@.skip(n as int) =~= Seq::<char>::empty());
                i = n;
            } else {
                assert(rest[1] == cs@[i + 1]);
                assert(rest.skip(2) =~= cs@.skip(i as int + 2));
                let next = cs[i + 1];
                let j = if next == '[' {
                    skip_csi(&cs, i + 2)
                } else if next == ']' || next == 'P' || next == '_' || next == '^' || next == 'X' {
                    skip_st(&cs, i + 2)
                } else {
                    i + 1
                };
                assert(rest.skip(j - i) =~= cs@.skip(j as int));
                i = j;
            }
        } else if (c <= '\u{1f}' || ('\u{7f}' <= c && c <= '\u{9f}')) && c != '\t' {
            assert(rest.skip(1) =~= cs@.skip(i as int + 1));
            i = i + 1;
        } else {
            crate::text::push_char(&mut out, c);
            assert(rest.skip(1) =~= cs@.skip(i as int + 1));
            i = i + 1;
        }
    }
    assert(cs@.skip(n as int) =~= Seq::<char>::empty());
    out
}


// ---------------------------------------------------------------------------
// Verification results and the leaf certificate
// ---------------------------------------------------------------------------

/// The error for a failed chain walk on a valid signature.
pub open spec fn chain_walk_error(hint: Seq<char>) -> crate::error::ErrorView {
    err_of(ErrorKind::SandboxInit, "authenticode chain-walk failed (REQ-AUDC-03 fail-closed): "@ + hint)
}

/// The error for a failed chain walk on a valid signature.
pub fn authenticode_chain_walk_error(hint: String) -> (e: NonoError)
    ensures
        error_view(e) == chain_walk_error(hint@),
{
    let mut m = String::from_str("authenticode chain-walk failed (REQ-AUDC-03 fail-closed): ");
    m.append(hint.as_str());
    NonoError::SandboxInit(m)
}

/// What a verification result means: 0 is a valid signature, whose signer
/// subject and thumbprint must then both be extracted (either failure is the
/// result); `TRUST_E_NOSIGNATURE` is unsigned; anything else is an invalid
/// signature carrying the result.
pub open spec fn status_spec<S: FnOnce() -> Result<String, NonoError>, T: FnOnce() -> Result<String, NonoError>>(
    verify_result: i32,
    signer: S,
    thumb: T,
    r: Result<AuthenticodeStatus, NonoError>,
) -> bool {
    if verify_result == 0 {
        exists|so: Result<String, NonoError>| #[trigger] call_ensures(signer, (), so) && match so {
            Err(e) => r == Err::<AuthenticodeStatus, NonoError>(e),
            Ok(subject) => exists|to: Result<String, NonoError>| #[trigger] call_ensures(thumb, (), to) && match to {
                Err(e) => r == Err::<AuthenticodeStatus, NonoError>(e),
                Ok(tp) => r == Ok::<AuthenticodeStatus, NonoError>(
                    AuthenticodeStatus::Valid { signer_subject: subject, thumbprint: tp },
                ),
            },
        }
    } else if verify_result as u32 == TRUST_E_NOSIGNATURE {
        r == Ok::<AuthenticodeStatus, NonoError>(AuthenticodeStatus::Unsigned)
    } else {
        r == Ok::<AuthenticodeStatus, NonoError>(AuthenticodeStatus::InvalidSignature { hresult: verify_result })
    }
}

/// Turns a `WinVerifyTrust` result into an Authenticode status; on a valid
/// signature the signer subject and then the thumbprint are extracted by
/// the given functions.
pub fn authenticode_status_from<S, T>(verify_result: i32, parse_signer_subject: S, parse_thumbprint: T) -> (r: Result<AuthenticodeStatus, NonoError>)
    where
        S: FnOnce() -> Result<String, NonoError>,
        T: FnOnce() -> Result<String, NonoError>,
    requires
        call_requires(parse_signer_subject, ()),
        call_requires(parse_thumbprint, ()),
    ensures
        status_spec(verify_result, parse_signer_subject, parse_thumbprint, r),
{
    if verify_result == 0 {
        let so = parse_signer_subject();
        let signer_subject = match so {
            Ok(s) => s,
            Err(e) => return Err(e),
        };
        let to = parse_thumbprint();
        let thumbprint = match to {
            Ok(t) => t,
            Err(e) => return Err(e),
        };
        Ok(AuthenticodeStatus::Valid { signer_subject, thumbprint })
    } else if verify_result as u32 == TRUST_E_NOSIGNATURE {
        Ok(AuthenticodeStatus::Unsigned)
    } else {
        Ok(AuthenticodeStatus::InvalidSignature { hresult: verify_result })
    }
}

/// Checks the size the subject-name sizing call reported: more than the
/// terminating nul is required.
pub fn check_subject_sizing(cch_required: u32) -> (r: Result<(), NonoError>)
    ensures
        cch_required > 1 <==> r is Ok,
        r matches Err(e) ==> error_view(e) == chain_walk_error(
            "CertGetNameStringW(RDN_TYPE) sizing call returned "@ + decimal(cch_required as nat)
                + " (no subject available)"@,
        ),
{
    if cch_required <= 1 {
        let mut hint = String::from_str("CertGetNameStringW(RDN_TYPE) sizing call returned ");
        let d = decimal_string(cch_required as u64);
        hint.append(d.as_str());
        hint.append(" (no subject available)");
        return Err(authenticode_chain_walk_error(hint));
    }
    Ok(())
}

/// A leading (high) surrogate code unit.
pub open spec fn is_high_surrogate(u: u16) -> bool {
    0xD800 <= u < 0xDC00
}

/// A trailing (low) surrogate code unit.
pub open spec fn is_low_surrogate(u: u16) -> bool {
    0xDC00 <= u < 0xE000
}

/// Lossy UTF-16 decoding, as `String::from_utf16_lossy` documents it: a
/// leading surrogate followed by a trailing one is one character; any other
/// surrogate unit becomes U+FFFD on its own; every other unit is the
/// character of that value.
pub open spec fn utf16_lossy(units: Seq<u16>) -> Seq<char>
    decreases units.len(),
{
    if units.len() == 0 {
        Seq::empty()
    } else if units.len() >= 2 && is_high_surrogate(units[0]) && is_low_surrogate(units[1]) {
        seq![(0x10000 + (units[0] - 0xD800) * 0x400 + (units[1] - 0xDC00)) as char] + utf16_lossy(
            units.subrange(2, units.len() as int),
        )
    } else if is_high_surrogate(units[0]) || is_low_surrogate(units[0]) {
        seq!['\u{FFFD}'] + utf16_lossy(units.subrange(1, units.len() as int))
    } else {
        seq![units[0] as char] + utf16_lossy(units.subrange(1, units.len() as int))
    }
}

/// `char::from_u32`: the character with the value `v` when `v` is a
/// Unicode scalar value (at most 0x10FFFF and not a surrogate), else none.
#[verifier::external_body]
fn char_from_u32(v: u32) -> (r: Option<char>)
    ensures
        r is Some <==> (v < 0xD800 || (0xE000 <= v && v <= 0x10FFFF)),
        r matches Some(c) ==> c == v as char,
{
    char::from_u32(v)
}

fn scalar_char(v: u32) -> (c: char)
    requires
        v < 0xD800 || (0xE000 <= v && v <= 0x10FFFF),
    ensures
        c == v as char,
{
    match char_from_u32(v) {
        Some(c) => c,
        None => '\u{FFFD}',
    }
}

/// Decodes UTF-16 code units, replacing each unpaired surrogate with
/// U+FFFD.
pub fn decode_utf16_lossy(units: &[u16]) -> (r: String)
    ensures
        r@ == utf16_lossy(units@),
{
    let n = units.len();
    let mut r = String::new();
    let mut i: usize = 0;
    proof {
        assert(units@.subrange(0, n as int) =~= units@);
        assert(r@ + utf16_lossy(units@) =~= utf16_lossy(units@));
    }
    while i < n
        invariant
            i <= n,
            n == units@.len(),
            utf16_lossy(units@) == r@ + utf16_lossy(units@.subrange(i as int, n as int)),
        decreases n - i,
    {
        let ghost rest = units@.subrange(i as int, n as int);
        let u = units[i];
        let step: usize;
        let c: char;
        if i + 1 < n && 0xD800 <= u && u < 0xDC00 && 0xDC00 <= units[i + 1] && units[i + 1] < 0xE000 {
            let lo = units[i + 1];
            let v: u32 = 0x10000 + ((u as u32) - 0xD800) * 0x400 + ((lo as u32) - 0xDC00);
            c = scalar_char(v);
            step = 2;
        } else if 0xD800 <= u && u < 0xE000 {
            c = '\u{FFFD}';
            step = 1;
        } else {
            c = scalar_char(u as u32);
            step = 1;
        }
        proof {
            assert(rest[0] == u);
            if step == 2 {
                assert(rest[1] == units@[i + 1]);
            }
            assert(rest.subrange(step as int, rest.len() as int) =~= units@.subrange(i + step, n as int));
            assert(utf16_lossy(rest) == seq![c] + utf16_lossy(rest.subrange(step as int, rest.len() as int)));
        }
        let ghost before = r@;
        push_char(&mut r, c);
        proof {
            assert(r@ == before.push(c));
            assert(before + (seq![c] + utf16_lossy(units@.subrange(i + step, n as int))) =~= r@ + utf16_lossy(
                units@.subrange(i + step, n as int),
            ));
        }
        i = i + step;
    }
    proof {
        assert(units@.subrange(n as int, n as int) =~= Seq::<u16>::empty());
        assert(r@ + Seq::<char>::empty() =~= r@);
    }
    r
}

/// The signer subject from the read call: `written` counts the terminating
/// nul, so more than one unit must have been written; the units before the
/// nul are decoded and sanitized for the terminal.
pub fn signer_subject_from_buffer(written: u32, buf: &[u16]) -> (r: Result<String, NonoError>)
    requires
        written as int <= buf.len() + 1,
    ensures
        written > 1 ==> (r matches Ok(s) && s@ == sanitize(utf16_lossy(buf@.take(written - 1)))),
        written <= 1 ==> (r matches Err(e) && error_view(e) == chain_walk_error(
            "CertGetNameStringW(RDN_TYPE) read call returned empty subject"@,
        )),
{
    if written <= 1 {
        return Err(
            authenticode_chain_walk_error(String::from_str("CertGetNameStringW(RDN_TYPE) read call returned empty subject")),
        );
    }
    let truncated_len = (written - 1) as usize;
    let mut units: Vec<u16> = Vec::new();
    let mut i: usize = 0;
    while i < truncated_len
        invariant
            i <= truncated_len,
            truncated_len <= buf.len(),
            units@ == buf@.take(i as int),
        decreases truncated_len - i,
    {
        units.push(buf[i]);
        i = i + 1;
        assert(units@ =~= buf@.take(i as int));
    }
    let raw = decode_utf16_lossy(units.as_slice());
    Ok(sanitize_for_terminal(raw.as_str()))
}

/// Checks the size the thumbprint sizing call reported: the call succeeded
/// and the hash takes between 1 and 64 bytes.
pub fn check_hash_sizing(ok: i32, cb_required: u32) -> (r: Result<(), NonoError>)
    ensures
        (ok != 0 && cb_required != 0 && cb_required <= 64) <==> r is Ok,
        r matches Err(e) ==> error_view(e) == chain_walk_error(
            "CertGetCertificateContextProperty(CERT_HASH_PROP_ID) sizing call failed (ok="@ + int_decimal(ok as int)
                + ", cb_required="@ + decimal(cb_required as nat) + ")"@,
        ),
{
    if ok == 0 || cb_required == 0 || cb_required > 64 {
        let mut hint = String::from_str("CertGetCertificateContextProperty(CERT_HASH_PROP_ID) sizing call failed (ok=");
        let o = i32_string(ok);
        hint.append(o.as_str());
        hint.append(", cb_required=");
        let c = decimal_string(cb_required as u64);
        hint.append(c.as_str());
        hint.append(")");
        return Err(authenticode_chain_walk_error(hint));
    }
    Ok(())
}

/// The thumbprint from the read call: upper-case hex of the first
/// `cb_required` bytes of the hash buffer.
pub fn thumbprint_from_buffer(ok: i32, buf: &[u8], cb_required: u32) -> (r: Result<String, NonoError>)
    ensures
        ok == 0 ==> (r matches Err(e) && error_view(e) == chain_walk_error(
            "CertGetCertificateContextProperty(CERT_HASH_PROP_ID) read call failed"@,
        )),
        ok != 0 ==> (r matches Ok(s) && s@ == hex_bytes(buf@.take(if cb_required as int <= buf.len() { cb_required as int } else { buf.len() as int }), true)),
{
    if ok == 0 {
        return Err(
            authenticode_chain_walk_error(
                String::from_str("CertGetCertificateContextProperty(CERT_HASH_PROP_ID) read call failed"),
            ),
        );
    }
    let take = if (cb_required as usize) <= buf.len() {
        cb_required as usize
    } else {
        buf.len()
    };
    let mut bytes: Vec<u8> = Vec::new();
    let mut i: usize = 0;
    while i < take
        invariant
            i <= take,
            take <= buf.len(),
            bytes@ == buf@.take(i as int),
        decreases take - i,
    {
        bytes.push(buf[i]);
        i = i + 1;
        assert(bytes@ =~= buf@.take(i as int));
    }
    let hex = hex_of_bytes(bytes.as_slice(), true);
    Ok(crate::text::string_from_chars(hex.as_slice()))
}

} // verus!
