//! Character-sequence primitives shared by the policy modules.
//!
//! Every function here works on the `Seq<char>` view of a string, so the
//! contracts of the policy code can be written over plain sequences.
use vstd::prelude::*;

verus! {

// ---------------------------------------------------------------------------
// Specifications
// ---------------------------------------------------------------------------

/// `p` is a prefix of `s`.
pub open spec fn has_prefix(s: Seq<char>, p: Seq<char>) -> bool {
    p.len() <= s.len() && s.subrange(0, p.len() as int) == p
}

/// `p` is a suffix of `s`.
pub open spec fn has_suffix(s: Seq<char>, p: Seq<char>) -> bool {
    p.len() <= s.len() && s.subrange(s.len() - p.len(), s.len() as int) == p
}

/// `p` occurs in `s` starting at index `i`.
pub open spec fn occurs_at(s: Seq<char>, p: Seq<char>, i: int) -> bool {
    0 <= i && i + p.len() <= s.len() && s.subrange(i, i + p.len()) == p
}

/// `p` occurs somewhere in `s` (the empty sequence occurs in every sequence).
pub open spec fn has_infix(s: Seq<char>, p: Seq<char>) -> bool {
    exists|i: int| occurs_at(s, p, i)
}

/// `c` occurs in `s`.
pub open spec fn has_char(s: Seq<char>, c: char) -> bool {
    exists|i: int| 0 <= i < s.len() && s[i] == c
}

/// ASCII lower-casing of a single character; other characters are unchanged.
pub open spec fn lower_char(c: char) -> char {
    if 'A' <= c && c <= 'Z' {
        ((c as u32) + 32) as char
    } else {
        c
    }
}

/// ASCII upper-casing of a single character; other characters are unchanged.
pub open spec fn upper_char(c: char) -> char {
    if 'a' <= c && c <= 'z' {
        ((c as u32) - 32) as char
    } else {
        c
    }
}

/// ASCII upper-casing of a sequence (`str::to_ascii_uppercase`).
pub open spec fn upper_seq(s: Seq<char>) -> Seq<char> {
    Seq::new(s.len(), |i: int| upper_char(s[i]))
}

/// ASCII lower-casing of a sequence (`str::to_ascii_lowercase`).
pub open spec fn lower_seq(s: Seq<char>) -> Seq<char> {
    Seq::new(s.len(), |i: int| lower_char(s[i]))
}

/// Case-insensitive ASCII equality (`str::eq_ignore_ascii_case`).
pub open spec fn eq_ignore_case(a: Seq<char>, b: Seq<char>) -> bool {
    a.len() == b.len() && forall|i: int| 0 <= i < a.len() ==> lower_char(a[i]) == lower_char(b[i])
}

/// The character of a decimal digit `d < 10`.
pub open spec fn digit_char(d: nat) -> char {
    (('0' as u32) + d) as char
}

/// The decimal rendering of `n`, without leading zeros (`0` renders as "0").
pub open spec fn decimal(n: nat) -> Seq<char>
    decreases n,
{
    if n < 10 {
        seq![digit_char(n)]
    } else {
        decimal(n / 10).push(digit_char(n % 10))
    }
}

/// The hexadecimal digit for a nibble `d < 16`, in lower or upper case.
pub open spec fn hex_digit(d: nat, upper: bool) -> char {
    if d < 10 {
        digit_char(d)
    } else if upper {
        (('A' as u32) + (d - 10)) as char
    } else {
        (('a' as u32) + (d - 10)) as char
    }
}

/// Two hexadecimal digits for a byte (`{:02x}` / `{:02X}`).
pub open spec fn hex_byte(b: u8, upper: bool) -> Seq<char> {
    seq![hex_digit((b / 16) as nat, upper), hex_digit((b % 16) as nat, upper)]
}

/// Hexadecimal rendering of a byte sequence, two digits per byte.
pub open spec fn hex_bytes(bytes: Seq<u8>, upper: bool) -> Seq<char>
    decreases bytes.len(),
{
    if bytes.len() == 0 {
        Seq::empty()
    } else {
        hex_bytes(bytes.drop_last(), upper) + hex_byte(bytes.last(), upper)
    }
}

/// The Unicode `White_Space` property (what `char::is_whitespace` tests).
pub open spec fn is_space(c: char) -> bool {
    ('\u{9}' <= c && c <= '\u{d}') || c == ' ' || c == '\u{85}' || c == '\u{a0}' || c
        == '\u{1680}' || ('\u{2000}' <= c && c <= '\u{200a}') || c == '\u{2028}' || c
        == '\u{2029}' || c == '\u{202f}' || c == '\u{205f}' || c == '\u{3000}'
}

/// Number of leading white-space characters of `s`.
pub open spec fn lead_space(s: Seq<char>) -> nat
    decreases s.len(),
{
    if s.len() > 0 && is_space(s[0]) {
        1 + lead_space(s.drop_first())
    } else {
        0
    }
}

/// Number of trailing white-space characters of `s`.
pub open spec fn trail_space(s: Seq<char>) -> nat
    decreases s.len(),
{
    if s.len() > 0 && is_space(s.last()) {
        1 + trail_space(s.drop_last())
    } else {
        0
    }
}

/// `s` without leading and trailing white space (`str::trim`).
pub open spec fn trim(s: Seq<char>) -> Seq<char> {
    let a = lead_space(s);
    let t = s.subrange(a as int, s.len() as int);
    t.subrange(0, t.len() - trail_space(t))
}

/// Joins `parts` with `sep` between consecutive elements.
pub open spec fn join(parts: Seq<Seq<char>>, sep: Seq<char>) -> Seq<char>
    decreases parts.len(),
{
    if parts.len() == 0 {
        Seq::empty()
    } else if parts.len() == 1 {
        parts[0]
    } else {
        join(parts.drop_last(), sep) + sep + parts.last()
    }
}

// ---------------------------------------------------------------------------
// Lemmas
// ---------------------------------------------------------------------------

proof fn lemma_lead_space_bound(s: Seq<char>)
    ensures
        lead_space(s) <= s.len(),
        forall|i: int| 0 <= i < lead_space(s) ==> is_space(#[trigger] s[i]),
        lead_space(s) < s.len() ==> !is_space(s[lead_space(s) as int]),
    decreases s.len(),
{
    if s.len() > 0 && is_space(s[0]) {
        lemma_lead_space_bound(s.drop_first());
        assert forall|i: int| 0 <= i < lead_space(s) implies is_space(#[trigger] s[i]) by {
            if i > 0 {
                assert(s[i] == s.drop_first()[i - 1]);
            }
        }
    }
}

proof fn lemma_trail_space_bound(s: Seq<char>)
    ensures
        trail_space(s) <= s.len(),
        forall|i: int| s.len() - trail_space(s) <= i < s.len() ==> is_space(#[trigger] s[i]),
        trail_space(s) < s.len() ==> !is_space(s[s.len() - trail_space(s) - 1]),
    decreases s.len(),
{
    if s.len() > 0 && is_space(s.last()) {
        lemma_trail_space_bound(s.drop_last());
        assert forall|i: int| s.len() - trail_space(s) <= i < s.len() implies is_space(
            #[trigger] s[i],
        ) by {
            if i < s.len() - 1 {
                assert(s[i] == s.drop_last()[i]);
            }
        }
    }
}

/// The leading white-space count is the first index of a non-space character.
proof fn lemma_lead_space_is_first_non_space(s: Seq<char>, k: int)
    requires
        0 <= k <= s.len(),
        forall|i: int| 0 <= i < k ==> is_space(#[trigger] s[i]),
        k < s.len() ==> !is_space(s[k]),
    ensures
        lead_space(s) == k,
    decreases s.len(),
{
    if s.len() > 0 && is_space(s[0]) {
        assert(k > 0);
        assert forall|i: int| 0 <= i < k - 1 implies is_space(#[trigger] s.drop_first()[i]) by {
            assert(s.drop_first()[i] == s[i + 1]);
        }
        if k - 1 < s.drop_first().len() {
            assert(s.drop_first()[k - 1] == s[k]);
        }
        lemma_lead_space_is_first_non_space(s.drop_first(), k - 1);
    } else {
        if k > 0 {
            assert(is_space(s[0]));
        }
    }
}

/// The trailing white-space count is determined by the last non-space character.
proof fn lemma_trail_space_is_last_non_space(s: Seq<char>, k: int)
    requires
        0 <= k <= s.len(),
        forall|i: int| s.len() - k <= i < s.len() ==> is_space(#[trigger] s[i]),
        k < s.len() ==> !is_space(s[s.len() - k - 1]),
    ensures
        trail_space(s) == k,
    decreases s.len(),
{
    if s.len() > 0 && is_space(s.last()) {
        assert(k > 0);
        let d = s.drop_last();
        assert forall|i: int| d.len() - (k - 1) <= i < d.len() implies is_space(#[trigger] d[i]) by {
            assert(d[i] == s[i]);
        }
        if k - 1 < d.len() {
            assert(d[d.len() - (k - 1) - 1] == s[s.len() - k - 1]);
        }
        lemma_trail_space_is_last_non_space(d, k - 1);
    } else {
        if k > 0 {
            assert(is_space(s[s.len() - 1]));
        }
    }
}

// ---------------------------------------------------------------------------
// Trusted std items
// ---------------------------------------------------------------------------

/// `String::push` appends one character; std documents it as "Appends the
/// given char to the end of this String". The contract states exactly that.
#[verifier::external_body]
pub(crate) fn push_char(s: &mut String, c: char)
    ensures
        final(s)@ == old(s)@.push(c),
{
    s.push(c);
}

// ---------------------------------------------------------------------------
// Executable helpers
// ---------------------------------------------------------------------------

/// Copies the characters of `s` into a vector.
pub fn chars_of(s: &str) -> (v: Vec<char>)
    ensures
        v@ == s@,
{
    let mut v: Vec<char> = Vec::new();
    for c in it: s.chars()
        invariant
            v@ == it.seq().take(it.index() as int),
    {
        v.push(c);
    }
    v
}

/// Builds a string from a character slice.
pub fn string_from_chars(cs: &[char]) -> (r: String)
    ensures
        r@ == cs@,
{
    let mut r = String::new();
    let mut i: usize = 0;
    while i < cs.len()
        invariant
            i <= cs.len(),
            r@ == cs@.subrange(0, i as int),
        decreases cs.len() - i,
    {
        push_char(&mut r, cs[i]);
        i = i + 1;
        assert(r@ == cs@.subrange(0, i as int));
    }
    assert(cs@.subrange(0, cs.len() as int) == cs@);
    r
}

/// Owned copy of a string slice.
pub fn owned(s: &str) -> (r: String)
    ensures
        r@ == s@,
{
    let mut r = String::new();
    r.append(s);
    r
}

/// Element-wise equality of two character slices.
pub fn chars_eq(a: &[char], b: &[char]) -> (r: bool)
    ensures
        r == (a@ == b@),
{
    if a.len() != b.len() {
        return false;
    }
    let mut i: usize = 0;
    while i < a.len()
        invariant
            a.len() == b.len(),
            i <= a.len(),
            forall|j: int| 0 <= j < i ==> a@[j] == b@[j],
        decreases a.len() - i,
    {
        if a[i] != b[i] {
            return false;
        }
        i = i + 1;
    }
    assert(a@ == b@);
    true
}

/// Equality of two strings by their characters.
pub fn str_eq(a: &str, b: &str) -> (r: bool)
    ensures
        r == (a@ == b@),
{
    let av = chars_of(a);
    let bv = chars_of(b);
    chars_eq(av.as_slice(), bv.as_slice())
}

/// `p` occurs in `s` at position `i`.
pub fn chars_occur_at(s: &[char], p: &[char], i: usize) -> (r: bool)
    ensures
        r == occurs_at(s@, p@, i as int),
{
    if i > s.len() || p.len() > s.len() - i {
        return false;
    }
    let mut k: usize = 0;
    while k < p.len()
        invariant
            i + p.len() <= s.len(),
            k <= p.len(),
            forall|j: int| 0 <= j < k ==> s@[i + j] == p@[j],
        decreases p.len() - k,
    {
        if s[i + k] != p[k] {
            assert(s@.subrange(i as int, i + p.len())[k as int] != p@[k as int]);
            return false;
        }
        k = k + 1;
    }
    assert(s@.subrange(i as int, i + p.len()) == p@);
    true
}

/// `p` is a prefix of `s`.
pub fn chars_starts_with(s: &[char], p: &[char]) -> (r: bool)
    ensures
        r == has_prefix(s@, p@),
{
    chars_occur_at(s, p, 0)
}

/// `p` is a suffix of `s`.
pub fn chars_ends_with(s: &[char], p: &[char]) -> (r: bool)
    ensures
        r == has_suffix(s@, p@),
{
    if p.len() > s.len() {
        return false;
    }
    chars_occur_at(s, p, s.len() - p.len())
}

/// `p` occurs somewhere in `s`.
pub fn chars_contains(s: &[char], p: &[char]) -> (r: bool)
    ensures
        r == has_infix(s@, p@),
{
    if p.len() > s.len() {
        assert forall|i: int| !occurs_at(s@, p@, i) by {}
        return false;
    }
    let last = s.len() - p.len();
    let mut i: usize = 0;
    loop
        invariant
            p.len() <= s.len(),
            last == s.len() - p.len(),
            i <= last,
            forall|j: int| 0 <= j < i ==> !occurs_at(s@, p@, j),
        ensures
            forall|j: int| 0 <= j <= last ==> !occurs_at(s@, p@, j),
        decreases last - i,
    {
        if chars_occur_at(s, p, i) {
            return true;
        }
        if i == last {
            break;
        }
        i = i + 1;
    }
    assert forall|j: int| !occurs_at(s@, p@, j) by {
        if 0 <= j && j <= last {
        }
    }
    false
}

/// `c` occurs in `s`.
pub fn chars_has(s: &[char], c: char) -> (r: bool)
    ensures
        r == has_char(s@, c),
{
    let mut i: usize = 0;
    while i < s.len()
        invariant
            i <= s.len(),
            forall|j: int| 0 <= j < i ==> s@[j] != c,
        decreases s.len() - i,
    {
        if s[i] == c {
            return true;
        }
        i = i + 1;
    }
    false
}

/// The characters of `s` equal those of the string `lit`.
pub fn chars_eq_str(s: &[char], lit: &str) -> (r: bool)
    ensures
        r == (s@ == lit@),
{
    let l = chars_of(lit);
    chars_eq(s, l.as_slice())
}

/// The string `lit` is a prefix of `s`.
pub fn chars_starts_with_str(s: &[char], lit: &str) -> (r: bool)
    ensures
        r == has_prefix(s@, lit@),
{
    let l = chars_of(lit);
    chars_starts_with(s, l.as_slice())
}

/// The string `lit` occurs in `s`.
pub fn chars_contains_str(s: &[char], lit: &str) -> (r: bool)
    ensures
        r == has_infix(s@, lit@),
{
    let l = chars_of(lit);
    chars_contains(s, l.as_slice())
}

/// ASCII lower-casing of one character.
pub fn lower(c: char) -> (r: char)
    ensures
        r == lower_char(c),
{
    if 'A' <= c && c <= 'Z' {
        let u: u32 = (c as u32) + 32;
        assert(0x61 <= u <= 0x7a);
        char_from_ascii(u)
    } else {
        c
    }
}

/// ASCII upper-casing of one character.
pub fn upper(c: char) -> (r: char)
    ensures
        r == upper_char(c),
{
    if 'a' <= c && c <= 'z' {
        let u: u32 = (c as u32) - 32;
        char_from_ascii(u)
    } else {
        c
    }
}

/// The character with ASCII code `u`.
pub fn char_from_ascii(u: u32) -> (c: char)
    requires
        u < 128,
    ensures
        c == u as char,
        c as u32 == u,
{
    let b: u8 = u as u8;
    b as char
}

/// Case-insensitive ASCII equality.
pub fn chars_eq_ignore_case(a: &[char], b: &[char]) -> (r: bool)
    ensures
        r == eq_ignore_case(a@, b@),
{
    if a.len() != b.len() {
        return false;
    }
    let mut i: usize = 0;
    while i < a.len()
        invariant
            a.len() == b.len(),
            i <= a.len(),
            forall|j: int| 0 <= j < i ==> lower_char(a@[j]) == lower_char(b@[j]),
        decreases a.len() - i,
    {
        if lower(a[i]) != lower(b[i]) {
            return false;
        }
        i = i + 1;
    }
    true
}

/// Case-insensitive ASCII equality against the string `lit`.
pub fn chars_eq_ignore_case_str(a: &[char], lit: &str) -> (r: bool)
    ensures
        r == eq_ignore_case(a@, lit@),
{
    let l = chars_of(lit);
    chars_eq_ignore_case(a, l.as_slice())
}

/// ASCII upper-casing of a character slice.
pub fn to_upper(s: &[char]) -> (r: Vec<char>)
    ensures
        r@ == upper_seq(s@),
{
    let mut r: Vec<char> = Vec::new();
    let mut i: usize = 0;
    while i < s.len()
        invariant
            i <= s.len(),
            r@ == upper_seq(s@).subrange(0, i as int),
        decreases s.len() - i,
    {
        r.push(upper(s[i]));
        i = i + 1;
        assert(r@ == upper_seq(s@).subrange(0, i as int));
    }
    assert(upper_seq(s@).subrange(0, s.len() as int) == upper_seq(s@));
    r
}

/// ASCII lower-casing of a character slice.
pub fn to_lower(s: &[char]) -> (r: Vec<char>)
    ensures
        r@ == lower_seq(s@),
{
    let mut r: Vec<char> = Vec::new();
    let mut i: usize = 0;
    while i < s.len()
        invariant
            i <= s.len(),
            r@ == lower_seq(s@).subrange(0, i as int),
        decreases s.len() - i,
    {
        r.push(lower(s[i]));
        i = i + 1;
        assert(r@ == lower_seq(s@).subrange(0, i as int));
    }
    assert(lower_seq(s@).subrange(0, s.len() as int) == lower_seq(s@));
    r
}

/// Appends the characters of `src` to `dst`.
pub fn push_all(dst: &mut Vec<char>, src: &[char])
    ensures
        final(dst)@ == old(dst)@ + src@,
{
    let ghost start = dst@;
    let mut i: usize = 0;
    while i < src.len()
        invariant
            i <= src.len(),
            dst@ == start + src@.subrange(0, i as int),
        decreases src.len() - i,
    {
        dst.push(src[i]);
        i = i + 1;
        assert(dst@ == start + src@.subrange(0, i as int));
    }
    assert(src@.subrange(0, src.len() as int) == src@);
}

/// Appends the characters of the string `s` to `dst`.
pub fn push_str(dst: &mut Vec<char>, s: &str)
    ensures
        final(dst)@ == old(dst)@ + s@,
{
    let v = chars_of(s);
    push_all(dst, v.as_slice());
}

/// One decimal digit.
pub fn digit(d: u64) -> (c: char)
    requires
        d < 10,
    ensures
        c == digit_char(d as nat),
{
    char_from_ascii(48 + d as u32)
}

/// Decimal rendering of `n` (`n.to_string()`).
pub fn decimal_chars(n: u64) -> (r: Vec<char>)
    ensures
        r@ == decimal(n as nat),
    decreases n,
{
    if n < 10 {
        let mut r: Vec<char> = Vec::new();
        r.push(digit(n));
        r
    } else {
        let mut r = decimal_chars(n / 10);
        r.push(digit(n % 10));
        r
    }
}

/// One hexadecimal digit.
pub fn hex_digit_char(d: u8, upper: bool) -> (c: char)
    requires
        d < 16,
    ensures
        c == hex_digit(d as nat, upper),
{
    if d < 10 {
        char_from_ascii(48 + d as u32)
    } else if upper {
        char_from_ascii(65 + (d - 10) as u32)
    } else {
        char_from_ascii(97 + (d - 10) as u32)
    }
}

/// Hexadecimal rendering of a byte slice, two digits per byte.
pub fn hex_of_bytes(bytes: &[u8], upper: bool) -> (r: Vec<char>)
    ensures
        r@ == hex_bytes(bytes@, upper),
{
    let mut r: Vec<char> = Vec::new();
    let mut i: usize = 0;
    while i < bytes.len()
        invariant
            i <= bytes.len(),
            r@ == hex_bytes(bytes@.subrange(0, i as int), upper),
        decreases bytes.len() - i,
    {
        let b = bytes[i];
        r.push(hex_digit_char(b / 16, upper));
        r.push(hex_digit_char(b % 16, upper));
        proof {
            let s = bytes@.subrange(0, i + 1);
            assert(s.drop_last() == bytes@.subrange(0, i as int));
            assert(s.last() == b);
        }
        i = i + 1;
    }
    assert(bytes@.subrange(0, bytes.len() as int) == bytes@);
    r
}

/// `char::is_whitespace`.
pub fn is_space_char(c: char) -> (r: bool)
    ensures
        r == is_space(c),
{
    ('\u{9}' <= c && c <= '\u{d}') || c == ' ' || c == '\u{85}' || c == '\u{a0}' || c
        == '\u{1680}' || ('\u{2000}' <= c && c <= '\u{200a}') || c == '\u{2028}' || c
        == '\u{2029}' || c == '\u{202f}' || c == '\u{205f}' || c == '\u{3000}'
}

/// `s` without leading and trailing white space (`str::trim`).
pub fn trim_chars(s: &[char]) -> (r: Vec<char>)
    ensures
        r@ == trim(s@),
{
    let mut a: usize = 0;
    while a < s.len() && is_space_char(s[a])
        invariant
            a <= s.len(),
            forall|i: int| 0 <= i < a ==> is_space(#[trigger] s@[i]),
        decreases s.len() - a,
    {
        a = a + 1;
    }
    proof {
        lemma_lead_space_is_first_non_space(s@, a as int);
    }
    let mut b: usize = s.len();
    while b > a && is_space_char(s[b - 1])
        invariant
            a <= b <= s.len(),
            forall|i: int| b <= i < s.len() ==> is_space(#[trigger] s@[i]),
        decreases b,
    {
        b = b - 1;
    }
    let ghost t = s@.subrange(a as int, s.len() as int);
    proof {
        let k = (s.len() - b) as int;
        assert forall|i: int| t.len() - k <= i < t.len() implies is_space(#[trigger] t[i]) by {
            assert(t[i] == s@[a + i]);
        }
        if k < t.len() {
            assert(t[t.len() - k - 1] == s@[b - 1]);
        }
        lemma_trail_space_is_last_non_space(t, k);
    }
    let r = slice_range(s, a, b);
    assert(r@ == t.subrange(0, t.len() - trail_space(t)));
    r
}

/// The characters `s[from..to]`.
pub fn slice_range(s: &[char], from: usize, to: usize) -> (r: Vec<char>)
    requires
        from <= to <= s.len(),
    ensures
        r@ == s@.subrange(from as int, to as int),
{
    let mut r: Vec<char> = Vec::new();
    let mut i: usize = from;
    while i < to
        invariant
            from <= i <= to,
            to <= s.len(),
            r@ == s@.subrange(from as int, i as int),
        decreases to - i,
    {
        r.push(s[i]);
        i = i + 1;
        assert(r@ == s@.subrange(from as int, i as int));
    }
    r
}


// ---------------------------------------------------------------------------
// String-level helpers
// ---------------------------------------------------------------------------

/// The characters of each string.
pub open spec fn views(v: Seq<String>) -> Seq<Seq<char>> {
    v.map_values(|s: String| s@)
}

/// Joins `parts` with `sep` (`[String]::join`).
pub fn join_strings(parts: &[String], sep: &str) -> (r: String)
    ensures
        r@ == join(views(parts@), sep@),
{
    let mut r = String::new();
    let mut i: usize = 0;
    while i < parts.len()
        invariant
            i <= parts.len(),
            r@ == join(views(parts@.take(i as int)), sep@),
        decreases parts.len() - i,
    {
        let ghost prev = views(parts@.take(i as int));
        assert(views(parts@.take(i as int + 1)) =~= prev.push(parts@[i as int]@));
        assert(prev.push(parts@[i as int]@).drop_last() =~= prev);
        if i > 0 {
            r.append(sep);
        }
        r.append(parts[i].as_str());
        i = i + 1;
    }
    assert(parts@.take(parts.len() as int) =~= parts@);
    r
}

/// Whether the ASCII upper-cased `s` contains `lit`.
pub fn upper_contains(s: &str, lit: &str) -> (r: bool)
    ensures
        r == has_infix(upper_seq(s@), lit@),
{
    let u = to_upper(chars_of(s).as_slice());
    chars_contains_str(u.as_slice(), lit)
}

/// Whether `s` contains `lit`.
pub fn str_contains(s: &str, lit: &str) -> (r: bool)
    ensures
        r == has_infix(s@, lit@),
{
    let v = chars_of(s);
    chars_contains_str(v.as_slice(), lit)
}

/// `s` without leading and trailing white space, as an owned string.
pub fn trimmed(s: &str) -> (r: String)
    ensures
        r@ == trim(s@),
{
    let v = chars_of(s);
    let t = trim_chars(v.as_slice());
    string_from_chars(t.as_slice())
}

/// The decimal rendering of `n`.
pub fn decimal_string(n: u64) -> (r: String)
    ensures
        r@ == decimal(n as nat),
{
    let v = decimal_chars(n);
    string_from_chars(v.as_slice())
}

/// The text `std::fmt::Debug` produces for a string: the string in double
/// quotes with std's escaping. Std's escaping rules take pages to state, so
/// the result is named rather than described.
pub uninterp spec fn debug_str(s: Seq<char>) -> Seq<char>;

/// `format!("{:?}", s)`: std's `Debug` rendering of a string slice. The
/// contract claims only that the result is the named function of the
/// string's characters.
#[verifier::external_body]
pub(crate) fn debug_string(s: &str) -> (r: String)
    ensures
        r@ == debug_str(s@),
{
    format!("{:?}", s)
}


/// The characters of each string slice.
pub open spec fn str_views(v: Seq<&str>) -> Seq<Seq<char>> {
    v.map_values(|s: &str| s@)
}

/// Joins string slices with `sep` (`[&str]::join`).
pub fn join_strs(parts: &[&str], sep: &str) -> (r: String)
    ensures
        r@ == join(str_views(parts@), sep@),
{
    let mut r = String::new();
    let mut i: usize = 0;
    while i < parts.len()
        invariant
            i <= parts.len(),
            r@ == join(str_views(parts@.take(i as int)), sep@),
        decreases parts.len() - i,
    {
        let ghost prev = str_views(parts@.take(i as int));
        assert(str_views(parts@.take(i as int + 1)) =~= prev.push(parts@[i as int]@));
        assert(prev.push(parts@[i as int]@).drop_last() =~= prev);
        if i > 0 {
            r.append(sep);
        }
        r.append(parts[i]);
        i = i + 1;
    }
    assert(parts@.take(parts.len() as int) =~= parts@);
    r
}

/// Decimal rendering of a signed integer.
pub open spec fn int_decimal(n: int) -> Seq<char> {
    if n < 0 {
        "-"@ + decimal((-n) as nat)
    } else {
        decimal(n as nat)
    }
}

/// Decimal rendering of an `i32` (`to_string`).
pub fn i32_string(n: i32) -> (r: String)
    ensures
        r@ == int_decimal(n as int),
{
    if n < 0 {
        let m: i64 = -(n as i64);
        let mut r = String::from_str("-");
        let d = decimal_string(m as u64);
        r.append(d.as_str());
        r
    } else {
        decimal_string(n as u64)
    }
}


// ---------------------------------------------------------------------------
// Searching, splitting and lines
// ---------------------------------------------------------------------------

/// The first index at or after `from` where `p` occurs in `s`.
pub open spec fn find_from(s: Seq<char>, p: Seq<char>, from: int) -> Option<int>
    decreases s.len() + 1 - from,
{
    if from < 0 || from + p.len() > s.len() {
        None
    } else if occurs_at(s, p, from) {
        Some(from)
    } else {
        find_from(s, p, from + 1)
    }
}

pub proof fn lemma_find_from_found(s: Seq<char>, p: Seq<char>, from: int)
    requires
        find_from(s, p, from) is Some,
    ensures
        from <= find_from(s, p, from)->0,
        occurs_at(s, p, find_from(s, p, from)->0),
    decreases s.len() + 1 - from,
{
    if !(from < 0 || from + p.len() > s.len()) && !occurs_at(s, p, from) {
        lemma_find_from_found(s, p, from + 1);
    }
}

proof fn lemma_find_from_shift(s: Seq<char>, p: Seq<char>, pos: int, k: int)
    requires
        0 <= pos <= s.len(),
        0 <= k,
    ensures
        find_from(s, p, pos + k) == match find_from(s.skip(pos), p, k) {
            Some(j) => Some(j + pos),
            None => None::<int>,
        },
    decreases s.len() + 1 - (pos + k),
{
    let t = s.skip(pos);
    if pos + k + p.len() > s.len() {
    } else {
        assert(occurs_at(s, p, pos + k) == occurs_at(t, p, k)) by {
            assert(s.subrange(pos + k, pos + k + p.len()) =~= t.subrange(k, k + p.len()));
        }
        if !occurs_at(s, p, pos + k) {
            lemma_find_from_shift(s, p, pos, k + 1);
        }
    }
}

/// Finds `p` in `s` at or after `from`.
pub fn chars_find(s: &[char], p: &[char], from: usize) -> (r: Option<usize>)
    ensures
        match r {
            Some(i) => find_from(s@, p@, from as int) == Some(i as int),
            None => find_from(s@, p@, from as int) is None,
        },
{
    if p.len() == 0 {
        if from <= s.len() {
            assert(s@.subrange(from as int, from as int) =~= p@);
            return Some(from);
        }
        return None;
    }
    let mut i: usize = from;
    while i <= s.len() && p.len() <= s.len() - i
        invariant
            from <= i,
            p.len() > 0,
            find_from(s@, p@, from as int) == find_from(s@, p@, i as int),
        decreases s.len() + 1 - i,
    {
        if chars_occur_at(s, p, i) {
            return Some(i);
        }
        i = i + 1;
    }
    None
}

/// The second piece of `s` split at `p` (`s.split(p).nth(1)`), for a
/// non-empty `p`: the text between the first and the second occurrence, or
/// after the first when there is no second.
pub open spec fn split_second(s: Seq<char>, p: Seq<char>) -> Option<Seq<char>> {
    match find_from(s, p, 0) {
        None => None,
        Some(i) => {
            let start = i + p.len();
            match find_from(s, p, start) {
                None => Some(s.subrange(start, s.len() as int)),
                Some(j) => Some(s.subrange(start, j)),
            }
        },
    }
}

/// `s.split(p).nth(1)` for a non-empty pattern.
pub fn chars_split_second(s: &[char], p: &[char]) -> (r: Option<Vec<char>>)
    requires
        p.len() > 0,
    ensures
        match r {
            Some(v) => split_second(s@, p@) == Some(v@),
            None => split_second(s@, p@) is None,
        },
{
    match chars_find(s, p, 0) {
        None => None,
        Some(i) => {
            proof {
                lemma_find_from_found(s@, p@, 0);
                assert(occurs_at(s@, p@, i as int));
            }
            let n = s.len();
            let m = p.len();
            assert(i + m <= n);
            let start = i + m;
            match chars_find(s, p, start) {
                None => Some(slice_range(s, start, s.len())),
                Some(j) => {
                    proof {
                        lemma_find_from_found(s@, p@, start as int);
                    }
                    Some(slice_range(s, start, j))
                },
            }
        },
    }
}

/// A line without its `\n`, with a trailing `\r` removed.
pub open spec fn strip_cr(seg: Seq<char>) -> Seq<char> {
    if seg.len() > 0 && seg.last() == '\r' {
        seg.drop_last()
    } else {
        seg
    }
}

/// The lines of `s` (`str::lines`): split at `\n`, each line losing a `\r`
/// that preceded the `\n`; a final line without `\n` is kept as it is, and
/// a trailing `\n` does not start an empty line.
pub open spec fn lines(s: Seq<char>) -> Seq<Seq<char>>
    decreases s.len(),
{
    if s.len() == 0 {
        seq![]
    } else {
        match find_from(s, seq!['\n'], 0) {
            None => seq![s],
            Some(i) => {
                if 0 <= i < s.len() {
                    seq![strip_cr(s.take(i))] + lines(s.skip(i + 1))
                } else {
                    seq![]
                }
            },
        }
    }
}

/// The lines of `s`.
pub fn lines_of(s: &str) -> (r: Vec<Vec<char>>)
    ensures
        r@.map_values(|l: Vec<char>| l@) == lines(s@),
{
    let cs = chars_of(s);
    let nl: Vec<char> = vec!['\n'];
    assert(nl@ =~= seq!['\n']);
    let mut out: Vec<Vec<char>> = Vec::new();
    let mut pos: usize = 0;
    assert(s@.skip(0) =~= s@);
    assert(out@.map_values(|l: Vec<char>| l@) + lines(s@) =~= lines(s@));
    while pos < cs.len()
        invariant
            cs@ == s@,
            nl@ == seq!['\n'],
            pos <= cs.len(),
            lines(s@) == out@.map_values(|l: Vec<char>| l@) + lines(s@.skip(pos as int)),
        decreases cs.len() - pos,
    {
        let ghost rest = s@.skip(pos as int);
        proof {
            lemma_find_from_shift(s@, seq!['\n'], pos as int, 0);
        }
        match chars_find(cs.as_slice(), nl.as_slice(), pos) {
            None => {
                let line = slice_range(cs.as_slice(), pos, cs.len());
                assert(line@ =~= rest);
                let ghost before = out@.map_values(|l: Vec<char>| l@);
                out.push(line);
                assert(out@.map_values(|l: Vec<char>| l@) =~= before.push(rest));
                assert(lines(rest) == seq![rest]);
                assert(s@.skip(cs.len() as int) =~= Seq::<char>::empty());
                pos = cs.len();
            },
            Some(i) => {
                proof {
                    lemma_find_from_found(cs@, nl@, pos as int);
                }
                let j = i - pos;
                let mut line = slice_range(cs.as_slice(), pos, i);
                assert(line@ =~= rest.take(j as int));
                if line.len() > 0 && line[line.len() - 1] == '\r' {
                    line.pop();
                }
                assert(line@ == strip_cr(rest.take(j as int)));
                let ghost before = out@.map_values(|l: Vec<char>| l@);
                out.push(line);
                assert(out@.map_values(|l: Vec<char>| l@) =~= before.push(strip_cr(rest.take(j as int))));
                assert(rest.skip(j as int + 1) =~= s@.skip(i as int + 1));
                assert(lines(rest) == seq![strip_cr(rest.take(j as int))] + lines(rest.skip(j as int + 1)));
                assert(before + lines(rest) =~= before.push(strip_cr(rest.take(j as int))) + lines(s@.skip(i as int + 1)));
                pos = i + 1;
            },
        }
    }
    assert(s@.skip(pos as int) =~= Seq::<char>::empty());
    assert(out@.map_values(|l: Vec<char>| l@) + lines(Seq::<char>::empty()) =~= out@.map_values(|l: Vec<char>| l@));
    out
}

/// Unicode lower-casing (`str::to_lowercase`). Std's case mapping takes
/// pages to state, so the result is named rather than described.
pub uninterp spec fn unicode_lower(s: Seq<char>) -> Seq<char>;

/// `str::to_lowercase`: the contract claims only that the result is the
/// named function of the string's characters.
#[verifier::external_body]
pub(crate) fn to_lowercase(s: &str) -> (r: String)
    ensures
        r@ == unicode_lower(s@),
{
    s.to_lowercase()
}

} // verus!
