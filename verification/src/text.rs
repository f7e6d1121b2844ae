//! Character-level helpers on strings: conversion between strings and
//! character vectors, literal search and replacement, trimming and decimal
//! formatting. Every function is specified over `Seq<char>`.

use vstd::prelude::*;

verus! {

/// `String::push` of the standard library: the character is appended at the
/// end and nothing else changes.
pub assume_specification[ String::push ](s: &mut String, ch: char)
    ensures
        final(s)@ == old(s)@.push(ch),
;

// ---------------------------------------------------------------------------
// Conversions
// ---------------------------------------------------------------------------
/// The characters of `s`, in order.
pub fn chars_of(s: &str) -> (out: Vec<char>)
    ensures
        out@ == s@,
{
    let mut out: Vec<char> = Vec::new();
    for c in it: s.chars()
        invariant
            out@ == it.seq().take(it.index() as int),
            it.seq() == s@,
    {
        out.push(c);
    }
    out
}

/// Appends the characters `src[from..to]` to `out`.
pub(crate) fn push_range(out: &mut String, src: &Vec<char>, from: usize, to: usize)
    requires
        from <= to <= src.len(),
    ensures
        final(out)@ == old(out)@ + src@.subrange(from as int, to as int),
{
    let mut i: usize = from;
    while i < to
        invariant
            from <= i <= to <= src.len(),
            out@ == old(out)@ + src@.subrange(from as int, i as int),
        decreases to - i,
    {
        out.push(src[i]);
        i += 1;
    }
}

/// The string made of the characters of `chars`, in order.
pub fn string_of(chars: &Vec<char>) -> (out: String)
    ensures
        out@ == chars@,
{
    let mut out = String::new();
    push_range(&mut out, chars, 0, chars.len());
    assert(chars@.subrange(0, chars.len() as int) == chars@);
    out
}

/// Appends all of `src` to `out`.
pub fn extend_chars(out: &mut Vec<char>, src: &Vec<char>)
    ensures
        final(out)@ == old(out)@ + src@,
{
    let mut i: usize = 0;
    while i < src.len()
        invariant
            i <= src.len(),
            out@ == old(out)@ + src@.take(i as int),
        decreases src.len() - i,
    {
        out.push(src[i]);
        i += 1;
    }
}

// ---------------------------------------------------------------------------
// Literal search and replacement
// ---------------------------------------------------------------------------
/// `pat` stands in `s` at position `i`.
pub open spec fn matches_at(s: Seq<char>, pat: Seq<char>, i: int) -> bool {
    0 <= i && i + pat.len() <= s.len() && s.subrange(i, i + pat.len()) == pat
}

/// `pat` stands somewhere in `s`.
pub open spec fn occurs_in(pat: Seq<char>, s: Seq<char>) -> bool {
    exists|i: int| matches_at(s, pat, i)
}

/// `s` with every occurrence of `pat` replaced by `to`. Occurrences are found
/// from the left and do not overlap; what was put in is not searched again.
/// An empty pattern replaces nothing.
pub open spec fn replace_all(s: Seq<char>, pat: Seq<char>, to: Seq<char>) -> Seq<char>
    decreases s.len(),
{
    if pat.len() == 0 || s.len() < pat.len() {
        s
    } else if matches_at(s, pat, 0) {
        to + replace_all(s.skip(pat.len() as int), pat, to)
    } else {
        seq![s[0]] + replace_all(s.skip(1), pat, to)
    }
}

/// Whether `pat` stands in `s` at position `i`.
pub(crate) fn matches_here(s: &Vec<char>, pat: &Vec<char>, i: usize) -> (r: bool)
    requires
        i <= s.len(),
    ensures
        r == matches_at(s@, pat@, i as int),
{
    if pat.len() > s.len() - i {
        return false;
    }
    let mut j: usize = 0;
    while j < pat.len()
        invariant
            j <= pat.len(),
            i + pat.len() <= s.len(),
            forall|k: int| 0 <= k < j ==> s@[i + k] == pat@[k],
        decreases pat.len() - j,
    {
        if s[i + j] != pat[j] {
            assert(s@.subrange(i as int, i + pat.len())[j as int] == s@[i + j]);
            return false;
        }
        j += 1;
    }
    assert(s@.subrange(i as int, i + pat.len()) =~= pat@);
    true
}

/// A match at `i` in `s` is a match at the start of `s.skip(i)`.
proof fn lemma_match_skip(s: Seq<char>, pat: Seq<char>, i: int)
    requires
        0 <= i <= s.len(),
    ensures
        matches_at(s, pat, i) == matches_at(s.skip(i), pat, 0),
{
    if i + pat.len() <= s.len() {
        assert(s.skip(i).subrange(0, pat.len() as int) =~= s.subrange(i, i + pat.len()));
    }
}

/// One step of `replace_all` from position `i` of `s`.
proof fn lemma_replace_step(s: Seq<char>, pat: Seq<char>, to: Seq<char>, i: int)
    requires
        0 <= i < s.len(),
        pat.len() > 0,
    ensures
        matches_at(s, pat, i) ==> replace_all(s.skip(i), pat, to) == to + replace_all(
            s.skip(i + pat.len()),
            pat,
            to,
        ),
        !matches_at(s, pat, i) ==> replace_all(s.skip(i), pat, to) == seq![s[i]] + replace_all(
            s.skip(i + 1),
            pat,
            to,
        ),
{
    let rest = s.skip(i);
    lemma_match_skip(s, pat, i);
    if matches_at(s, pat, i) {
        assert(rest.skip(pat.len() as int) =~= s.skip(i + pat.len()));
    } else {
        assert(rest.skip(1) =~= s.skip(i + 1));
        assert(rest[0] == s[i]);
        if rest.len() < pat.len() {
            assert(replace_all(rest.skip(1), pat, to) == rest.skip(1));
            assert(seq![rest[0]] + rest.skip(1) =~= rest);
        }
    }
}

/// `s` with every occurrence of `pat` replaced by `to`.
pub fn replace_chars(s: &Vec<char>, pat: &Vec<char>, to: &Vec<char>) -> (out: Vec<char>)
    ensures
        out@ == replace_all(s@, pat@, to@),
{
    let mut out: Vec<char> = Vec::new();
    if pat.len() == 0 {
        extend_chars(&mut out, s);
        return out;
    }
    let mut i: usize = 0;
    assert(s@.skip(0) =~= s@);
    while i < s.len()
        invariant
            i <= s.len(),
            pat.len() > 0,
            out@ + replace_all(s@.skip(i as int), pat@, to@) == replace_all(s@, pat@, to@),
        decreases s.len() - i,
    {
        proof {
            lemma_replace_step(s@, pat@, to@, i as int);
        }
        let ghost before = out@;
        if matches_here(s, pat, i) {
            extend_chars(&mut out, to);
            i += pat.len();
            assert(out@ + replace_all(s@.skip(i as int), pat@, to@) =~= before + (to@
                + replace_all(s@.skip(i as int), pat@, to@)));
        } else {
            out.push(s[i]);
            i += 1;
            assert(out@ + replace_all(s@.skip(i as int), pat@, to@) =~= before + (seq![
                s@[i - 1],
            ] + replace_all(s@.skip(i as int), pat@, to@)));
        }
    }
    assert(s@.skip(i as int).len() == 0);
    assert(out@ + s@.skip(i as int) =~= out@);
    out
}

/// Where `pat` does not occur, nothing is replaced.
pub proof fn lemma_replace_absent(s: Seq<char>, pat: Seq<char>, to: Seq<char>)
    requires
        !occurs_in(pat, s),
    ensures
        replace_all(s, pat, to) == s,
    decreases s.len(),
{
    if pat.len() == 0 || s.len() < pat.len() {
    } else {
        assert(!matches_at(s, pat, 0));
        let rest = s.skip(1);
        assert forall|i: int| !matches_at(rest, pat, i) by {
            if matches_at(rest, pat, i) {
                assert(rest.subrange(i, i + pat.len()) =~= s.subrange(i + 1, i + 1 + pat.len()));
                assert(matches_at(s, pat, i + 1));
            }
        }
        lemma_replace_absent(rest, pat, to);
        assert(seq![s[0]] + rest =~= s);
    }
}

// ---------------------------------------------------------------------------
// Suffixes
// ---------------------------------------------------------------------------
/// `s` ends with `suffix`.
pub open spec fn ends_with(s: Seq<char>, suffix: Seq<char>) -> bool {
    suffix.len() <= s.len() && s.subrange(s.len() - suffix.len(), s.len() as int) == suffix
}

/// `s` without its trailing repetitions of `suffix`: the suffix is taken off
/// for as long as what is left still ends with it. An empty suffix takes
/// nothing off.
pub open spec fn strip_trailing(s: Seq<char>, suffix: Seq<char>) -> Seq<char>
    decreases s.len(),
{
    if suffix.len() > 0 && ends_with(s, suffix) {
        strip_trailing(s.take(s.len() - suffix.len()), suffix)
    } else {
        s
    }
}

/// Whether the first `len` characters of `s` end with `suffix`.
pub(crate) fn prefix_ends_with(s: &Vec<char>, len: usize, suffix: &Vec<char>) -> (r: bool)
    requires
        len <= s.len(),
    ensures
        r == ends_with(s@.take(len as int), suffix@),
{
    if suffix.len() > len {
        return false;
    }
    let start: usize = len - suffix.len();
    let r = matches_here(s, suffix, start);
    proof {
        let head = s@.take(len as int);
        assert(head.subrange(head.len() - suffix.len(), head.len() as int) =~= s@.subrange(
            start as int,
            start + suffix.len(),
        ));
    }
    r
}

/// The length of what `strip_trailing` leaves of `s`.
pub fn stripped_len(s: &Vec<char>, suffix: &Vec<char>) -> (len: usize)
    ensures
        len <= s.len(),
        s@.take(len as int) == strip_trailing(s@, suffix@),
{
    let mut len: usize = s.len();
    assert(s@.take(len as int) =~= s@);
    if suffix.len() == 0 {
        return len;
    }
    while prefix_ends_with(s, len, suffix)
        invariant
            len <= s.len(),
            suffix.len() > 0,
            strip_trailing(s@.take(len as int), suffix@) == strip_trailing(s@, suffix@),
        decreases len,
    {
        proof {
            let head = s@.take(len as int);
            assert(head.take(head.len() - suffix.len()) =~= s@.take(len - suffix.len()));
        }
        len -= suffix.len();
    }
    len
}

// ---------------------------------------------------------------------------
// Trimming
// ---------------------------------------------------------------------------
/// The characters that count as white space: U+0009 to U+000D, U+0020,
/// U+0085, U+00A0, U+1680, U+2000 to U+200A, U+2028, U+2029, U+202F, U+205F
/// and U+3000.
pub open spec fn is_whitespace(c: char) -> bool {
    let n = c as u32;
    (0x09 <= n <= 0x0D) || n == 0x20 || n == 0x85 || n == 0xA0 || n == 0x1680 || (0x2000 <= n
        <= 0x200A) || n == 0x2028 || n == 0x2029 || n == 0x202F || n == 0x205F || n == 0x3000
}

/// Whether `c` counts as white space.
pub fn is_whitespace_char(c: char) -> (r: bool)
    ensures
        r == is_whitespace(c),
{
    let n: u32 = c as u32;
    (0x09 <= n && n <= 0x0D) || n == 0x20 || n == 0x85 || n == 0xA0 || n == 0x1680 || (0x2000 <= n
        && n <= 0x200A) || n == 0x2028 || n == 0x2029 || n == 0x202F || n == 0x205F || n == 0x3000
}

/// `s` without its leading white space.
pub open spec fn trim_start(s: Seq<char>) -> Seq<char>
    decreases s.len(),
{
    if s.len() > 0 && is_whitespace(s[0]) {
        trim_start(s.skip(1))
    } else {
        s
    }
}

/// `s` without its trailing white space.
pub open spec fn trim_end(s: Seq<char>) -> Seq<char>
    decreases s.len(),
{
    if s.len() > 0 && is_whitespace(s.last()) {
        trim_end(s.drop_last())
    } else {
        s
    }
}

/// `s` without its leading and trailing white space.
pub open spec fn trim(s: Seq<char>) -> Seq<char> {
    trim_end(trim_start(s))
}

/// `s` without its leading and trailing white space.
pub fn trimmed(s: &str) -> (out: String)
    ensures
        out@ == trim(s@),
{
    let chars = chars_of(s);
    let mut from: usize = 0;
    assert(chars@.skip(0) =~= chars@);
    while from < chars.len() && is_whitespace_char(chars[from])
        invariant
            from <= chars.len(),
            trim_start(chars@.skip(from as int)) == trim_start(chars@),
        decreases chars.len() - from,
    {
        assert(chars@.skip(from as int).skip(1) =~= chars@.skip(from + 1));
        from += 1;
    }
    assert(trim_start(chars@) == chars@.skip(from as int));
    let mut to: usize = chars.len();
    assert(chars@.subrange(from as int, to as int) =~= chars@.skip(from as int));
    while to > from && is_whitespace_char(chars[to - 1])
        invariant
            from <= to <= chars.len(),
            trim_end(chars@.subrange(from as int, to as int)) == trim(chars@),
        decreases to,
    {
        assert(chars@.subrange(from as int, to as int).drop_last() =~= chars@.subrange(
            from as int,
            to - 1,
        ));
        to -= 1;
    }
    let mut out = String::new();
    push_range(&mut out, &chars, from, to);
    out
}

// ---------------------------------------------------------------------------
// Decimal numbers
// ---------------------------------------------------------------------------
/// The character of the decimal digit `d`.
pub open spec fn digit(d: int) -> char {
    if d == 0 {
        '0'
    } else if d == 1 {
        '1'
    } else if d == 2 {
        '2'
    } else if d == 3 {
        '3'
    } else if d == 4 {
        '4'
    } else if d == 5 {
        '5'
    } else if d == 6 {
        '6'
    } else if d == 7 {
        '7'
    } else if d == 8 {
        '8'
    } else {
        '9'
    }
}

/// The decimal digits of `n`, most significant first, without leading zeros.
pub open spec fn decimal_digits(n: nat) -> Seq<char>
    decreases n,
{
    if n < 10 {
        seq![digit(n as int)]
    } else {
        decimal_digits(n / 10).push(digit((n % 10) as int))
    }
}

/// `i` in decimal, with a leading `-` where it is negative.
pub open spec fn decimal(i: int) -> Seq<char> {
    if i < 0 {
        seq!['-'] + decimal_digits((-i) as nat)
    } else {
        decimal_digits(i as nat)
    }
}

/// The character of the decimal digit `d`.
pub(crate) fn digit_char(d: u128) -> (c: char)
    requires
        d < 10,
    ensures
        c == digit(d as int),
{
    if d == 0 {
        '0'
    } else if d == 1 {
        '1'
    } else if d == 2 {
        '2'
    } else if d == 3 {
        '3'
    } else if d == 4 {
        '4'
    } else if d == 5 {
        '5'
    } else if d == 6 {
        '6'
    } else if d == 7 {
        '7'
    } else if d == 8 {
        '8'
    } else {
        '9'
    }
}

/// Appends the decimal digits of `n` to `out`.
pub fn push_decimal(out: &mut String, n: u128)
    ensures
        final(out)@ == old(out)@ + decimal_digits(n as nat),
{
    let mut low_first: Vec<char> = Vec::new();
    low_first.push(digit_char(n % 10));
    let mut rest: u128 = n / 10;
    assert(low_first@.reverse() =~= seq![digit((n % 10) as int)]);
    assert(decimal_digits(rest as nat).push(digit((n % 10) as int)) =~= decimal_digits(
        rest as nat,
    ) + low_first@.reverse());
    while rest > 0
        invariant
            low_first.len() > 0,
            decimal_digits(n as nat) == if rest > 0 {
                decimal_digits(rest as nat) + low_first@.reverse()
            } else {
                low_first@.reverse()
            },
        decreases rest,
    {
        let ghost before = low_first@;
        let d = digit_char(rest % 10);
        low_first.push(d);
        assert(low_first@.reverse() =~= seq![d] + before.reverse());
        proof {
            if rest >= 10 {
                assert(decimal_digits((rest / 10) as nat).push(d) + before.reverse()
                    =~= decimal_digits((rest / 10) as nat) + low_first@.reverse());
            } else {
                assert(seq![d] + before.reverse() =~= low_first@.reverse());
            }
        }
        rest = rest / 10;
    }
    let mut i: usize = low_first.len();
    assert(old(out)@ + low_first@.reverse().take(0) =~= old(out)@);
    while i > 0
        invariant
            i <= low_first.len(),
            out@ == old(out)@ + low_first@.reverse().take(low_first.len() - i),
        decreases i,
    {
        i -= 1;
        out.push(low_first[i]);
        assert(low_first@.reverse().take(low_first.len() - i) =~= low_first@.reverse().take(
            low_first.len() - i - 1,
        ).push(low_first@[i as int]));
    }
    assert(low_first@.reverse().take(low_first.len() as int) =~= low_first@.reverse());
}

/// `n` in decimal, without sign or leading zeros.
pub fn natural_string(n: u128) -> (out: String)
    ensures
        out@ == decimal_digits(n as nat),
{
    let mut out = String::new();
    push_decimal(&mut out, n);
    assert(Seq::<char>::empty() + decimal_digits(n as nat) =~= decimal_digits(n as nat));
    out
}

/// `n` in decimal, with a leading `-` where it is negative.
pub fn decimal_string(n: i32) -> (out: String)
    ensures
        out@ == decimal(n as int),
{
    let wide: i64 = n as i64;
    let mut out = String::new();
    if wide < 0 {
        out.push('-');
        push_decimal(&mut out, (-wide) as u128);
        assert(out@ =~= seq!['-'] + decimal_digits((-n) as nat));
    } else {
        push_decimal(&mut out, wide as u128);
        assert(out@ =~= decimal_digits(n as nat));
    }
    out
}

} // verus!
