//! Text helpers: UTF-16 for Win32 strings, ASCII case folding, trimming,
//! splitting and decimal parsing.

use vstd::prelude::*;

verus! {

// ── UTF-16 ──────────────────────────────────────────────────────────────

/// UTF-16 code units of one scalar value (one unit, or a surrogate pair).
pub open spec fn utf16_char(c: char) -> Seq<u16> {
    let v = c as u32;
    if v < 0x10000 {
        seq![v as u16]
    } else {
        seq![(0xD800 + (v - 0x10000) / 0x400) as u16, (0xDC00 + (v - 0x10000) % 0x400) as u16]
    }
}

/// UTF-16 encoding of a character sequence.
pub open spec fn utf16_of(s: Seq<char>) -> Seq<u16>
    decreases s.len(),
{
    if s.len() == 0 {
        Seq::empty()
    } else {
        utf16_of(s.drop_last()) + utf16_char(s.last())
    }
}

/// A code unit of `utf16_char(c)` is zero only for the NUL character.
pub proof fn lemma_utf16_char_nonzero(c: char)
    requires
        c != '\0',
    ensures
        forall|i: int| 0 <= i < utf16_char(c).len() ==> utf16_char(c)[i] != 0u16,
{
    vstd::utf8::char_is_scalar(c);
    vstd::utf8::char_u32_cast(c, c as u32);
}

/// A text without NUL characters encodes to code units that are all non-zero.
pub proof fn lemma_utf16_nonzero(s: Seq<char>)
    requires
        !s.contains('\0'),
    ensures
        forall|i: int| 0 <= i < utf16_of(s).len() ==> utf16_of(s)[i] != 0u16,
    decreases s.len(),
{
    if s.len() > 0 {
        assert(!s.drop_last().contains('\0')) by {
            if s.drop_last().contains('\0') {
                let k = choose|k: int| 0 <= k < s.drop_last().len() && s.drop_last()[k] == '\0';
                assert(s[k] == '\0');
            }
        }
        assert(s[s.len() - 1] != '\0');
        lemma_utf16_nonzero(s.drop_last());
        lemma_utf16_char_nonzero(s.last());
        let a = utf16_of(s.drop_last());
        let b = utf16_char(s.last());
        assert forall|i: int| 0 <= i < utf16_of(s).len() implies utf16_of(s)[i] != 0u16 by {
            if i < a.len() {
                assert(utf16_of(s)[i] == a[i]);
            } else {
                assert(utf16_of(s)[i] == b[i - a.len()]);
            }
        }
    }
}

/// NUL-terminated UTF-16 form of `s`, as Win32 `W` functions take it.
pub fn to_wide(s: &str) -> (r: Vec<u16>)
    ensures
        r@ == utf16_of(s@).push(0u16),
{
    broadcast use vstd::string::group_string_axioms;

    let mut out: Vec<u16> = Vec::new();
    for c in it: s.chars()
        invariant
            it.seq() == s@,
            out@ == utf16_of(s@.take(it.index() as int)),
    {
        let v: u32 = c as u32;
        let ghost i = it.index();
        assert(c == s@[i as int]);
        assert(s@.take(i + 1).drop_last() == s@.take(i as int));
        assert(s@.take(i + 1).last() == c);
        proof {
            vstd::utf8::char_is_scalar(c);
        }
        if v < 0x10000 {
            out.push(v as u16);
        } else {
            let w: u32 = v - 0x10000;
            out.push((0xD800 + w / 0x400) as u16);
            out.push((0xDC00 + w % 0x400) as u16);
        }
    }
    assert(s@.take(s@.len() as int) == s@);
    out.push(0u16);
    out
}

pub open spec fn is_surrogate(u: u16) -> bool {
    0xD800 <= u <= 0xDFFF
}

/// What `String::from_utf16_lossy` returns: the text the units encode, each
/// unpaired surrogate replaced by U+FFFD (a high surrogate pairs with a low
/// one right after it).
pub open spec fn utf16_lossy_of(units: Seq<u16>) -> Seq<char>
    decreases units.len(),
{
    if units.len() == 0 {
        Seq::empty()
    } else if !is_surrogate(units[0]) {
        seq![(units[0] as u32) as char] + utf16_lossy_of(units.drop_first())
    } else if units[0] <= 0xDBFF && units.len() >= 2 && 0xDC00 <= units[1] <= 0xDFFF {
        let v = 0x10000 + (units[0] - 0xD800) * 0x400 + (units[1] - 0xDC00);
        seq![(v as u32) as char] + utf16_lossy_of(units.subrange(2, units.len() as int))
    } else {
        seq!['\u{FFFD}'] + utf16_lossy_of(units.drop_first())
    }
}

/// Calls `String::from_utf16_lossy`. Claimed, as its documentation says: the
/// decoded text, with U+FFFD for each unpaired surrogate.
#[verifier::external_body]
pub(crate) fn decode_utf16_lossy(units: &[u16]) -> (r: String)
    ensures
        r@ == utf16_lossy_of(units@),
{
    String::from_utf16_lossy(units)
}

proof fn lemma_utf16_of_front(cs: Seq<char>)
    requires
        cs.len() > 0,
    ensures
        utf16_of(cs) == utf16_char(cs[0]) + utf16_of(cs.drop_first()),
    decreases cs.len(),
{
    if cs.len() == 1 {
        assert(cs.drop_last() =~= Seq::<char>::empty());
        assert(cs.drop_first() =~= Seq::<char>::empty());
        assert(utf16_of(cs) =~= utf16_char(cs[0]) + utf16_of(cs.drop_first()));
    } else {
        let init = cs.drop_last();
        lemma_utf16_of_front(init);
        assert(init[0] == cs[0]);
        assert(init.drop_first() =~= cs.drop_first().drop_last());
        assert(cs.drop_first().last() == cs.last());
        assert(utf16_of(cs) =~= utf16_char(cs[0]) + utf16_of(cs.drop_first()));
    }
}

proof fn lemma_lossy_char(c: char, rest: Seq<u16>)
    ensures
        utf16_lossy_of(utf16_char(c) + rest) == seq![c] + utf16_lossy_of(rest),
{
    let v = c as u32;
    vstd::utf8::char_is_scalar(c);
    vstd::utf8::char_u32_cast(c, v);
    let u = utf16_char(c) + rest;
    if v < 0x10000 {
        assert(u[0] == v as u16);
        assert(u.drop_first() =~= rest);
        assert((u[0] as u32) == v);
    } else {
        let w = v - 0x10000;
        assert(u[0] == (0xD800 + w / 0x400) as u16);
        assert(u[1] == (0xDC00 + w % 0x400) as u16);
        assert(u.subrange(2, u.len() as int) =~= rest);
        assert(0x10000 + (u[0] - 0xD800) * 0x400 + (u[1] - 0xDC00) == v);
    }
}

/// Lossy decoding gives back exactly the text a well-formed sequence encodes.
pub proof fn lemma_lossy_decodes(cs: Seq<char>)
    ensures
        utf16_lossy_of(utf16_of(cs)) == cs,
    decreases cs.len(),
{
    if cs.len() == 0 {
        assert(utf16_lossy_of(utf16_of(cs)) =~= cs);
    } else {
        lemma_utf16_of_front(cs);
        lemma_lossy_char(cs[0], utf16_of(cs.drop_first()));
        lemma_lossy_decodes(cs.drop_first());
        assert(seq![cs[0]] + cs.drop_first() =~= cs);
    }
}

// ── Building strings ────────────────────────────────────────────────────

/// Calls `String::push`: appends one character.
#[verifier::external_body]
pub(crate) fn push_char(s: &mut String, c: char)
    ensures
        final(s)@ == old(s)@.push(c),
{
    s.push(c);
}

/// Appends every character of `t` to `s`.
pub fn push_str(s: &mut String, t: &str)
    ensures
        final(s)@ == old(s)@ + t@,
{
    broadcast use vstd::string::group_string_axioms;

    let ghost start = s@;
    for c in it: t.chars()
        invariant
            it.seq() == t@,
            s@ == start + t@.take(it.index() as int),
    {
        let ghost i = it.index();
        assert(c == t@[i as int]);
        push_char(s, c);
        assert(t@.take(i + 1) == t@.take(i as int).push(c));
    }
    assert(t@.take(t@.len() as int) == t@);
}

/// A fresh `String` holding `t`.
pub fn string_of(t: &str) -> (r: String)
    ensures
        r@ == t@,
{
    let mut s = String::new();
    push_str(&mut s, t);
    s
}

// ── ASCII case ──────────────────────────────────────────────────────────

pub open spec fn ascii_lower(c: char) -> char {
    if 'A' <= c && c <= 'Z' {
        ((c as u32) + 32) as char
    } else {
        c
    }
}

pub open spec fn ascii_upper(c: char) -> char {
    if 'a' <= c && c <= 'z' {
        ((c as u32) - 32) as char
    } else {
        c
    }
}

pub open spec fn lower_seq(s: Seq<char>) -> Seq<char> {
    s.map_values(|c: char| ascii_lower(c))
}

pub open spec fn upper_seq(s: Seq<char>) -> Seq<char> {
    s.map_values(|c: char| ascii_upper(c))
}

/// `char::to_ascii_lowercase`.
pub fn lower_char(c: char) -> (r: char)
    ensures
        r == ascii_lower(c),
{
    if 'A' <= c && c <= 'Z' {
        let b: u8 = (c as u32 + 32) as u8;
        proof {
            vstd::utf8::char_u32_cast(b as char, b as u32);
        }
        b as char
    } else {
        c
    }
}

/// `char::to_ascii_uppercase`.
pub fn upper_char(c: char) -> (r: char)
    ensures
        r == ascii_upper(c),
{
    if 'a' <= c && c <= 'z' {
        let b: u8 = (c as u32 - 32) as u8;
        proof {
            vstd::utf8::char_u32_cast(b as char, b as u32);
        }
        b as char
    } else {
        c
    }
}

/// `str::to_ascii_lowercase`: ASCII letters folded, everything else kept.
pub fn to_ascii_lowercase(s: &str) -> (r: String)
    ensures
        r@ == lower_seq(s@),
{
    broadcast use vstd::string::group_string_axioms;

    let mut out = String::new();
    for c in it: s.chars()
        invariant
            it.seq() == s@,
            out@ == lower_seq(s@.take(it.index() as int)),
    {
        let ghost i = it.index();
        assert(c == s@[i as int]);
        let l = lower_char(c);
        push_char(&mut out, l);
        assert(lower_seq(s@.take(i + 1)) == lower_seq(s@.take(i as int)).push(l));
    }
    assert(s@.take(s@.len() as int) == s@);
    out
}

/// `str::to_ascii_uppercase`.
pub fn to_ascii_uppercase(s: &str) -> (r: String)
    ensures
        r@ == upper_seq(s@),
{
    broadcast use vstd::string::group_string_axioms;

    let mut out = String::new();
    for c in it: s.chars()
        invariant
            it.seq() == s@,
            out@ == upper_seq(s@.take(it.index() as int)),
    {
        let ghost i = it.index();
        assert(c == s@[i as int]);
        let u = upper_char(c);
        push_char(&mut out, u);
        assert(upper_seq(s@.take(i + 1)) == upper_seq(s@.take(i as int)).push(u));
    }
    assert(s@.take(s@.len() as int) == s@);
    out
}

/// `str::eq_ignore_ascii_case`: equal after folding ASCII letters.
pub fn eq_ignore_ascii_case(a: &str, b: &str) -> (r: bool)
    ensures
        r == (lower_seq(a@) == lower_seq(b@)),
{
    let la = to_ascii_lowercase(a);
    let lb = to_ascii_lowercase(b);
    la == lb
}

/// The characters of `s`, in order.
pub fn chars_of(s: &str) -> (r: Vec<char>)
    ensures
        r@ == s@,
{
    broadcast use vstd::string::group_string_axioms;

    let mut out: Vec<char> = Vec::new();
    for c in it: s.chars()
        invariant
            it.seq() == s@,
            out@ == s@.take(it.index() as int),
    {
        let ghost i = it.index();
        assert(c == s@[i as int]);
        out.push(c);
        assert(s@.take(i + 1) == s@.take(i as int).push(c));
    }
    assert(s@.take(s@.len() as int) == s@);
    out
}

/// `a` and `b` hold the same characters.
pub fn str_eq(a: &str, b: &str) -> (r: bool)
    ensures
        r == (a@ == b@),
{
    let x = chars_of(a);
    let y = chars_of(b);
    if x.len() != y.len() {
        return false;
    }
    let mut i: usize = 0;
    while i < x.len()
        invariant
            x@ == a@,
            y@ == b@,
            x.len() == y.len(),
            0 <= i <= x.len(),
            forall|k: int| 0 <= k < i ==> x@[k] == y@[k],
        decreases x.len() - i,
    {
        if x[i] != y[i] {
            return false;
        }
        i += 1;
    }
    assert(x@ =~= y@);
    true
}

/// `s` begins with `p`.
pub open spec fn has_prefix(s: Seq<char>, p: Seq<char>) -> bool {
    p.len() <= s.len() && s.subrange(0, p.len() as int) == p
}

/// `str::starts_with` for a string pattern.
pub fn starts_with(s: &str, p: &str) -> (r: bool)
    ensures
        r == has_prefix(s@, p@),
{
    let sc = chars_of(s);
    let pc = chars_of(p);
    if pc.len() > sc.len() {
        return false;
    }
    let mut i: usize = 0;
    while i < pc.len()
        invariant
            sc@ == s@,
            pc@ == p@,
            pc.len() <= sc.len(),
            0 <= i <= pc.len(),
            forall|k: int| 0 <= k < i ==> sc@[k] == pc@[k],
        decreases pc.len() - i,
    {
        if sc[i] != pc[i] {
            assert(s@.subrange(0, p@.len() as int)[i as int] != p@[i as int]);
            return false;
        }
        i += 1;
    }
    assert(s@.subrange(0, p@.len() as int) =~= p@);
    true
}

// ── Trimming ────────────────────────────────────────────────────────────

/// Unicode `White_Space`, the characters `str::trim` removes: U+0009 to
/// U+000D, U+0020, U+0085, U+00A0, U+1680, U+2000 to U+200A, U+2028, U+2029,
/// U+202F, U+205F and U+3000.
pub open spec fn is_white_space(c: char) -> bool {
    let u = c as u32;
    ||| 0x09 <= u <= 0x0D
    ||| u == 0x20
    ||| u == 0x85
    ||| u == 0xA0
    ||| u == 0x1680
    ||| 0x2000 <= u <= 0x200A
    ||| u == 0x2028
    ||| u == 0x2029
    ||| u == 0x202F
    ||| u == 0x205F
    ||| u == 0x3000
}

/// `s` without its leading white space.
pub open spec fn trim_start_seq(s: Seq<char>) -> Seq<char>
    decreases s.len(),
{
    if s.len() > 0 && is_white_space(s[0]) {
        trim_start_seq(s.drop_first())
    } else {
        s
    }
}

/// `s` without its trailing white space.
pub open spec fn trim_end_seq(s: Seq<char>) -> Seq<char>
    decreases s.len(),
{
    if s.len() > 0 && is_white_space(s.last()) {
        trim_end_seq(s.drop_last())
    } else {
        s
    }
}

/// What `str::trim` returns: the text without leading and trailing white space.
pub open spec fn trimmed(s: Seq<char>) -> Seq<char> {
    trim_end_seq(trim_start_seq(s))
}

/// Calls `str::trim`. Claimed, as its documentation says: the text without
/// its leading and trailing Unicode `White_Space`.
#[verifier::external_body]
pub(crate) fn trim(s: &str) -> (r: &str)
    ensures
        r@ == trimmed(s@),
{
    s.trim()
}

proof fn lemma_trim_start_front(s: Seq<char>)
    ensures
        trim_start_seq(s).len() == 0 || !is_white_space(trim_start_seq(s)[0]),
    decreases s.len(),
{
    if s.len() > 0 && is_white_space(s[0]) {
        lemma_trim_start_front(s.drop_first());
    }
}

proof fn lemma_trim_end_back(s: Seq<char>)
    ensures
        trim_end_seq(s).len() == 0 || !is_white_space(trim_end_seq(s).last()),
    decreases s.len(),
{
    if s.len() > 0 && is_white_space(s.last()) {
        lemma_trim_end_back(s.drop_last());
    }
}

/// Trimming the end keeps a first character that is not white space.
proof fn lemma_trim_end_keeps_front(s: Seq<char>)
    requires
        s.len() > 0,
        !is_white_space(s[0]),
    ensures
        trim_end_seq(s).len() > 0,
        trim_end_seq(s)[0] == s[0],
    decreases s.len(),
{
    if is_white_space(s.last()) {
        assert(s.len() > 1);
        assert(s.drop_last()[0] == s[0]);
        lemma_trim_end_keeps_front(s.drop_last());
    }
}

/// Trimming is idempotent: a trimmed text trims to itself.
pub proof fn lemma_trimmed_idempotent(s: Seq<char>)
    ensures
        trimmed(trimmed(s)) == trimmed(s),
        trimmed(s).len() <= s.len(),
{
    let t = trim_start_seq(s);
    let u = trimmed(s);
    lemma_trim_start_front(s);
    lemma_trim_end_back(t);
    lemma_trim_len(s);
    if t.len() > 0 {
        lemma_trim_end_keeps_front(t);
    }
    assert(trim_start_seq(u) == u);
    assert(trim_end_seq(u) == u);
}

proof fn lemma_trim_len(s: Seq<char>)
    ensures
        trim_start_seq(s).len() <= s.len(),
        trimmed(s).len() <= s.len(),
    decreases s.len(),
{
    if s.len() > 0 && is_white_space(s[0]) {
        lemma_trim_len(s.drop_first());
    }
    lemma_trim_end_len(trim_start_seq(s));
}

proof fn lemma_trim_end_len(s: Seq<char>)
    ensures
        trim_end_seq(s).len() <= s.len(),
    decreases s.len(),
{
    if s.len() > 0 && is_white_space(s.last()) {
        lemma_trim_end_len(s.drop_last());
    }
}

/// A trimmed copy of `s`.
pub fn trim_owned(s: &str) -> (r: String)
    ensures
        r@ == trimmed(s@),
{
    string_of(trim(s))
}

// ── Splitting ───────────────────────────────────────────────────────────

/// The pieces of `s` between occurrences of `sep` (`str::split` with a char).
pub open spec fn split_seq(s: Seq<char>, sep: char) -> Seq<Seq<char>>
    decreases s.len(),
{
    if s.len() == 0 {
        seq![Seq::<char>::empty()]
    } else {
        let rest = split_seq(s.drop_last(), sep);
        if s.last() == sep {
            rest.push(Seq::<char>::empty())
        } else {
            rest.update(rest.len() - 1, rest.last().push(s.last()))
        }
    }
}

/// There is always at least one piece.
pub proof fn lemma_split_nonempty(s: Seq<char>, sep: char)
    ensures
        split_seq(s, sep).len() >= 1,
    decreases s.len(),
{
    if s.len() > 0 {
        lemma_split_nonempty(s.drop_last(), sep);
    }
}

pub open spec fn views_of(v: Seq<String>) -> Seq<Seq<char>> {
    v.map_values(|p: String| p@)
}

/// `str::split(sep)` collected into owned pieces.
pub fn split_on(s: &str, sep: char) -> (r: Vec<String>)
    ensures
        views_of(r@) == split_seq(s@, sep),
{
    broadcast use vstd::string::group_string_axioms;

    let mut parts: Vec<String> = Vec::new();
    let mut cur = String::new();
    for c in it: s.chars()
        invariant
            it.seq() == s@,
            views_of(parts@).push(cur@) == split_seq(s@.take(it.index() as int), sep),
    {
        let ghost i = it.index();
        let ghost pre = s@.take(i as int);
        assert(c == s@[i as int]);
        assert(s@.take(i + 1).drop_last() == pre);
        assert(s@.take(i + 1).last() == c);
        proof {
            lemma_split_nonempty(pre, sep);
        }
        if c == sep {
            let done = cur;
            parts.push(done);
            cur = String::new();
            assert(views_of(parts@) == views_of(parts@.drop_last()).push(done@));
            assert(views_of(parts@).push(cur@) == split_seq(s@.take(i + 1), sep));
        } else {
            let ghost before = cur@;
            push_char(&mut cur, c);
            assert(views_of(parts@).push(cur@) =~= split_seq(s@.take(i + 1), sep));
        }
    }
    assert(s@.take(s@.len() as int) == s@);
    let ghost before = parts@;
    parts.push(cur);
    assert(views_of(parts@) =~= views_of(before).push(cur@));
    parts
}

// ── Decimal numbers ─────────────────────────────────────────────────────

pub open spec fn is_digit(c: char) -> bool {
    '0' <= c && c <= '9'
}

pub open spec fn digit_value(c: char) -> int {
    (c as int) - ('0' as int)
}

pub open spec fn all_digits(s: Seq<char>) -> bool {
    forall|i: int| 0 <= i < s.len() ==> is_digit(#[trigger] s[i])
}

/// Value of a run of decimal digits.
pub open spec fn decimal_value(s: Seq<char>) -> int
    decreases s.len(),
{
    if s.len() == 0 {
        0
    } else {
        decimal_value(s.drop_last()) * 10 + digit_value(s.last())
    }
}

/// The digits after an optional leading `+`.
pub open spec fn unsigned_digits(s: Seq<char>) -> Seq<char> {
    if s.len() > 0 && s[0] == '+' {
        s.drop_first()
    } else {
        s
    }
}

/// What `str::parse` accepts for an unsigned integer type whose largest
/// value is `max`: an optional `+`, then one or more decimal digits whose
/// value is at most `max`.
pub open spec fn parse_unsigned_spec(s: Seq<char>, max: int) -> Option<int> {
    let ds = unsigned_digits(s);
    if ds.len() > 0 && all_digits(ds) && decimal_value(ds) <= max {
        Some(decimal_value(ds))
    } else {
        None
    }
}

pub open spec fn parse_u32_spec(s: Seq<char>) -> Option<u32> {
    match parse_unsigned_spec(s, u32::MAX as int) {
        Some(v) => Some(v as u32),
        None => None,
    }
}

pub open spec fn parse_usize_spec(s: Seq<char>) -> Option<usize> {
    match parse_unsigned_spec(s, usize::MAX as int) {
        Some(v) => Some(v as usize),
        None => None,
    }
}

/// Calls `str::parse::<u32>` and keeps the value when it parses.
#[verifier::external_body]
pub(crate) fn parse_u32(s: &str) -> (r: Option<u32>)
    ensures
        r == parse_u32_spec(s@),
{
    s.parse::<u32>().ok()
}

/// Calls `str::parse::<usize>` and keeps the value when it parses.
#[verifier::external_body]
pub(crate) fn parse_usize(s: &str) -> (r: Option<usize>)
    ensures
        r == parse_usize_spec(s@),
{
    s.parse::<usize>().ok()
}

} // verus!
