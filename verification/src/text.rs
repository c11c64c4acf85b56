//! Text handling shared by the tools and the seed-data reader: numbers written
//! in decimal and hexadecimal, splitting on a separator, line splitting and
//! trimming.
//!
//! All specifications are stated over `Seq<char>`, the view of `str` and
//! `String`; the executable functions work on `Vec<char>` so that a character
//! can be reached by its index.

use crate::views::views;
use vstd::prelude::*;

verus! {

/// `String::push` appends one character to the end of the string.
pub assume_specification[ String::push ](s: &mut String, c: char)
    ensures
        final(s)@ == old(s)@.push(c),
;

/// `String::pop` removes the last character and returns it, or returns `None`
/// and leaves the string alone when it is empty.
pub assume_specification[ String::pop ](s: &mut String) -> (r: Option<char>)
    ensures
        old(s)@.len() == 0 ==> r is None && final(s)@ == old(s)@,
        old(s)@.len() > 0 ==> r == Some(old(s)@.last()) && final(s)@ == old(s)@.drop_last(),
;

/// The upper-case form of a text under the Unicode case mapping of the
/// standard library. The mapping is a table of the Unicode standard; it is
/// named here, not restated.
pub uninterp spec fn uppercase(s: Seq<char>) -> Seq<char>;

/// `str::to_uppercase` returns the upper-case form of the text. The result
/// depends on the characters of the text alone.
pub assume_specification[ str::to_uppercase ](s: &str) -> (r: String)
    ensures
        r@ == uppercase(s@),
;

// ---------------------------------------------------------------------------
// Conversions between strings and character vectors
// ---------------------------------------------------------------------------

/// The characters of `s`, in order.
pub fn to_chars(s: &str) -> (v: Vec<char>)
    ensures
        v@ == s@,
{
    let mut v: Vec<char> = Vec::new();
    for c in it: s.chars()
        invariant
            v@ == it.seq().take(it.index() as int),
            it.seq() == s@,
    {
        v.push(c);
    }
    v
}

/// The string made of the characters `v[from..to]`.
pub fn string_of(v: &Vec<char>, from: usize, to: usize) -> (s: String)
    requires
        from <= to <= v.len(),
    ensures
        s@ == v@.subrange(from as int, to as int),
{
    let mut s = String::new();
    let mut i: usize = from;
    while i < to
        invariant
            from <= i <= to <= v.len(),
            s@ == v@.subrange(from as int, i as int),
        decreases to - i,
    {
        s.push(v[i]);
        i += 1;
    }
    s
}

/// The string made of the characters of `v`.
pub fn string_from(v: &Vec<char>) -> (s: String)
    ensures
        s@ == v@,
{
    assert(v@.subrange(0, v.len() as int) == v@);
    string_of(v, 0, v.len())
}

/// A copy of `v[from..to]`.
fn slice_of(v: &Vec<char>, from: usize, to: usize) -> (r: Vec<char>)
    requires
        from <= to <= v.len(),
    ensures
        r@ == v@.subrange(from as int, to as int),
{
    let mut r: Vec<char> = Vec::new();
    let mut i: usize = from;
    while i < to
        invariant
            from <= i <= to <= v.len(),
            r@ == v@.subrange(from as int, i as int),
        decreases to - i,
    {
        r.push(v[i]);
        i += 1;
    }
    r
}

// ---------------------------------------------------------------------------
// Numbers
// ---------------------------------------------------------------------------

/// The character that writes the digit `d`, for `d` below 16, in upper case.
pub open spec fn digit_char(d: nat) -> char
    recommends
        d < 16,
{
    if d < 10 {
        ('0' as u8 + d) as u8 as char
    } else {
        ('A' as u8 + d - 10) as u8 as char
    }
}

/// `n` written in decimal, most significant digit first; zero is "0".
pub open spec fn decimal(n: nat) -> Seq<char>
    decreases n,
{
    if n < 10 {
        seq![digit_char(n)]
    } else {
        decimal(n / 10).push(digit_char(n % 10))
    }
}

/// `n` written in upper-case hexadecimal, most significant digit first.
pub open spec fn hex_digits(n: nat) -> Seq<char>
    decreases n,
{
    if n < 16 {
        seq![digit_char(n)]
    } else {
        hex_digits(n / 16).push(digit_char(n % 16))
    }
}

/// `n` written in upper-case hexadecimal, padded with zeros on the left to at
/// least four digits.
pub open spec fn hex4(n: nat) -> Seq<char> {
    let d = hex_digits(n);
    if n < 0x10 {
        seq!['0', '0', '0'] + d
    } else if n < 0x100 {
        seq!['0', '0'] + d
    } else if n < 0x1000 {
        seq!['0'] + d
    } else {
        d
    }
}

fn digit_to_char(d: u8) -> (c: char)
    requires
        d < 16,
    ensures
        c == digit_char(d as nat),
{
    if d < 10 {
        (48u8 + d) as char
    } else {
        (65u8 + d - 10) as char
    }
}

/// Appends `n`, written in decimal, to `out`.
fn push_decimal(out: &mut String, n: u64)
    ensures
        final(out)@ == old(out)@ + decimal(n as nat),
    decreases n,
{
    if n >= 10 {
        push_decimal(out, n / 10);
    }
    out.push(digit_to_char((n % 10) as u8));
}

/// Appends `n`, written in upper-case hexadecimal, to `out`.
fn push_hex(out: &mut String, n: u64)
    ensures
        final(out)@ == old(out)@ + hex_digits(n as nat),
    decreases n,
{
    if n >= 16 {
        push_hex(out, n / 16);
    }
    out.push(digit_to_char((n % 16) as u8));
}

/// `n` written in decimal.
pub fn format_decimal(n: usize) -> (s: String)
    ensures
        s@ == decimal(n as nat),
{
    let mut s = String::new();
    push_decimal(&mut s, n as u64);
    s
}

/// `n` written in upper-case hexadecimal with at least four digits.
pub fn format_hex4(n: u32) -> (s: String)
    ensures
        s@ == hex4(n as nat),
{
    let mut s = String::new();
    if n < 0x10 {
        s.push('0');
        s.push('0');
        s.push('0');
    } else if n < 0x100 {
        s.push('0');
        s.push('0');
    } else if n < 0x1000 {
        s.push('0');
    }
    push_hex(&mut s, n as u64);
    s
}

/// The value of a hexadecimal digit, in either case.
pub open spec fn hex_value(c: char) -> Option<nat> {
    if '0' <= c && c <= '9' {
        Some((c as nat - '0' as nat) as nat)
    } else if 'a' <= c && c <= 'f' {
        Some((c as nat - 'a' as nat + 10) as nat)
    } else if 'A' <= c && c <= 'F' {
        Some((c as nat - 'A' as nat + 10) as nat)
    } else {
        None
    }
}

/// The number that a non-empty run of hexadecimal digits writes; `None` when
/// the text is empty or holds anything else.
pub open spec fn hex_number(s: Seq<char>) -> Option<nat>
    decreases s.len(),
{
    if s.len() == 0 {
        None
    } else if s.len() == 1 {
        hex_value(s[0])
    } else {
        match (hex_number(s.drop_last()), hex_value(s.last())) {
            (Some(h), Some(d)) => Some(h * 16 + d),
            _ => None,
        }
    }
}

/// A 32-bit number written in hexadecimal: an optional `+`, then at least one
/// digit, the whole no larger than `u32::MAX`.
pub open spec fn parse_hex(s: Seq<char>) -> Option<u32> {
    let body = if s.len() > 0 && s[0] == '+' {
        s.drop_first()
    } else {
        s
    };
    match hex_number(body) {
        Some(n) => if n <= u32::MAX {
            Some(n as u32)
        } else {
            None
        },
        None => None,
    }
}

fn hex_digit(c: char) -> (r: Option<u64>)
    ensures
        r is Some == hex_value(c) is Some,
        r matches Some(d) ==> d < 16 && hex_value(c) == Some(d as nat),
{
    if '0' <= c && c <= '9' {
        Some((c as u32 - '0' as u32) as u64)
    } else if 'a' <= c && c <= 'f' {
        Some((c as u32 - 'a' as u32 + 10) as u64)
    } else if 'A' <= c && c <= 'F' {
        Some((c as u32 - 'A' as u32 + 10) as u64)
    } else {
        None
    }
}

proof fn lemma_hex_number_prefix(s: Seq<char>, i: int)
    requires
        1 <= i <= s.len(),
        hex_number(s) is Some,
    ensures
        hex_number(s.take(i)) is Some,
        hex_number(s.take(i))->0 <= hex_number(s)->0,
    decreases s.len(),
{
    if i == s.len() {
        assert(s.take(i) == s);
    } else {
        assert(s.drop_last().take(i) == s.take(i));
        lemma_hex_number_prefix(s.drop_last(), i);
    }
}

/// Reads a 32-bit number written in hexadecimal.
pub fn parse_hex_u32(s: &Vec<char>) -> (r: Option<u32>)
    ensures
        r == parse_hex(s@),
{
    let start: usize = if s.len() > 0 && s[0] == '+' {
        1
    } else {
        0
    };
    let ghost body = s@.subrange(start as int, s.len() as int);
    assert(start == 1 ==> body == s@.drop_first());
    assert(start == 0 ==> body == s@);
    if start == s.len() {
        return None;
    }
    let mut acc: u64 = 0;
    let mut i: usize = start;
    while i < s.len()
        invariant
            start <= i <= s.len(),
            start < s.len(),
            body == (if s@.len() > 0 && s@[0] == '+' {
                s@.drop_first()
            } else {
                s@
            }),
            body.len() == s.len() - start,
            forall|j: int| 0 <= j < body.len() ==> body[j] == s@[start + j],
            acc <= u32::MAX,
            i > start ==> hex_number(body.take(i - start)) == Some(acc as nat),
            i == start ==> acc == 0,
        decreases s.len() - i,
    {
        let ghost k = i - start;
        assert(body.take(k + 1).drop_last() == body.take(k));
        assert(body.take(k + 1).last() == s@[i as int]);
        match hex_digit(s[i]) {
            None => {
                proof {
                    assert(body.take(k + 1)[k] == s@[i as int]);
                    assert(hex_number(body.take(k + 1)) is None);
                    if hex_number(body) is Some {
                        lemma_hex_number_prefix(body, k + 1);
                    }
                    assert(hex_number(body) is None);
                }
                return None;
            },
            Some(d) => {
                let next: u64 = acc * 16 + d;
                assert(hex_number(body.take(k + 1)) == Some(next as nat));
                if next > 0xFFFF_FFFF {
                    proof {
                        if hex_number(body) is Some {
                            lemma_hex_number_prefix(body, k + 1);
                            assert(hex_number(body)->0 > u32::MAX);
                        }
                    }
                    return None;
                }
                acc = next;
            },
        }
        i += 1;
    }
    assert(body.take(s.len() - start) == body);
    Some(acc as u32)
}

// ---------------------------------------------------------------------------
// Splitting
// ---------------------------------------------------------------------------

/// Whether `pat` stands in `s` at index `i`.
pub open spec fn matches_at(s: Seq<char>, pat: Seq<char>, i: int) -> bool {
    0 <= i && i + pat.len() <= s.len() && s.subrange(i, i + pat.len()) == pat
}

/// The pieces of `s[start..]` between occurrences of `pat`, where no
/// occurrence begins in `start..i`. Occurrences are taken from left to right
/// and do not overlap.
pub open spec fn split_from(s: Seq<char>, pat: Seq<char>, start: int, i: int) -> Seq<Seq<char>>
    recommends
        pat.len() > 0,
        0 <= start <= i <= s.len(),
    decreases s.len() - i,
{
    if pat.len() == 0 || i < start || start < 0 || i + pat.len() > s.len() {
        seq![s.subrange(start, s.len() as int)]
    } else if matches_at(s, pat, i) {
        seq![s.subrange(start, i)] + split_from(s, pat, i + pat.len(), i + pat.len())
    } else {
        split_from(s, pat, start, i + 1)
    }
}

/// The pieces of `s` between occurrences of the non-empty separator `pat`.
/// A text without the separator is one piece; an empty text is one empty
/// piece.
pub open spec fn split(s: Seq<char>, pat: Seq<char>) -> Seq<Seq<char>> {
    split_from(s, pat, 0, 0)
}

fn matches_at_exec(s: &Vec<char>, pat: &Vec<char>, i: usize) -> (r: bool)
    requires
        i <= s.len(),
    ensures
        r == matches_at(s@, pat@, i as int),
{
    if pat.len() > s.len() - i {
        return false;
    }
    let mut k: usize = 0;
    while k < pat.len()
        invariant
            i + pat.len() <= s.len(),
            k <= pat.len(),
            s@.subrange(i as int, i + k) == pat@.take(k as int),
        decreases pat.len() - k,
    {
        if s[i + k] != pat[k] {
            assert(s@.subrange(i as int, i + pat.len())[k as int] != pat@[k as int]);
            return false;
        }
        assert(s@.subrange(i as int, i + k + 1) == s@.subrange(i as int, i + k).push(s@[i + k]));
        assert(pat@.take(k + 1) == pat@.take(k as int).push(pat@[k as int]));
        k += 1;
    }
    assert(pat@.take(pat.len() as int) == pat@);
    true
}

/// Splits `s` at each occurrence of the separator `pat`.
pub fn split_text(s: &Vec<char>, pat: &Vec<char>) -> (pieces: Vec<Vec<char>>)
    requires
        pat.len() > 0,
    ensures
        views(pieces@) == split(s@, pat@),
{
    let mut pieces: Vec<Vec<char>> = Vec::new();
    let mut start: usize = 0;
    let mut i: usize = 0;
    assert(views(pieces@) + split_from(s@, pat@, 0, 0) == split(s@, pat@));
    while pat.len() <= s.len() - i
        invariant
            pat.len() > 0,
            0 <= start <= i <= s.len(),
            views(pieces@) + split_from(s@, pat@, start as int, i as int) == split(s@, pat@),
        decreases s.len() - i,
    {
        if matches_at_exec(s, pat, i) {
            let piece = slice_of(s, start, i);
            let ghost before = views(pieces@);
            pieces.push(piece);
            assert(views(pieces@) == before.push(piece@));
            i = i + pat.len();
            start = i;
        } else {
            i += 1;
        }
    }
    let piece = slice_of(s, start, s.len());
    let ghost before = views(pieces@);
    pieces.push(piece);
    assert(views(pieces@) == before.push(piece@));
    pieces
}

/// `s` without one carriage return at its end, if it has one.
pub open spec fn strip_cr(s: Seq<char>) -> Seq<char> {
    if s.len() > 0 && s.last() == '\r' {
        s.drop_last()
    } else {
        s
    }
}

/// The lines of `s[start..]`, where no line feed stands in `start..i`.
pub open spec fn lines_from(s: Seq<char>, start: int, i: int) -> Seq<Seq<char>>
    recommends
        0 <= start <= i <= s.len(),
    decreases s.len() - i,
{
    if i < start || start < 0 || i >= s.len() {
        if 0 <= start < s.len() {
            seq![s.subrange(start, s.len() as int)]
        } else {
            seq![]
        }
    } else if s[i] == '\n' {
        seq![strip_cr(s.subrange(start, i))] + lines_from(s, i + 1, i + 1)
    } else {
        lines_from(s, start, i + 1)
    }
}

/// The lines of a text. A line ends at a line feed, or at a carriage return
/// followed by a line feed; the ending is not part of the line. What follows
/// the last line feed is a line of its own unless it is empty.
pub open spec fn lines(s: Seq<char>) -> Seq<Seq<char>> {
    lines_from(s, 0, 0)
}

/// Splits a text into its lines.
pub fn split_lines(s: &Vec<char>) -> (out: Vec<Vec<char>>)
    ensures
        views(out@) == lines(s@),
{
    let mut out: Vec<Vec<char>> = Vec::new();
    let mut start: usize = 0;
    let mut i: usize = 0;
    assert(views(out@) + lines_from(s@, 0, 0) == lines(s@));
    while i < s.len()
        invariant
            0 <= start <= i <= s.len(),
            views(out@) + lines_from(s@, start as int, i as int) == lines(s@),
        decreases s.len() - i,
    {
        if s[i] == '\n' {
            let end: usize = if i > start && s[i - 1] == '\r' {
                i - 1
            } else {
                i
            };
            let line = slice_of(s, start, end);
            assert(line@ == strip_cr(s@.subrange(start as int, i as int)));
            let ghost before = views(out@);
            out.push(line);
            assert(views(out@) == before.push(line@));
            i += 1;
            start = i;
        } else {
            i += 1;
        }
    }
    if start < s.len() {
        let line = slice_of(s, start, s.len());
        let ghost before = views(out@);
        out.push(line);
        assert(views(out@) == before.push(line@));
    }
    out
}

// ---------------------------------------------------------------------------
// Trimming
// ---------------------------------------------------------------------------

/// The characters with the Unicode property `White_Space`.
pub open spec fn is_space(c: char) -> bool {
    let n = c as u32;
    (0x09 <= n && n <= 0x0D) || n == 0x20 || n == 0x85 || n == 0xA0 || n == 0x1680 || (0x2000 <= n
        && n <= 0x200A) || n == 0x2028 || n == 0x2029 || n == 0x202F || n == 0x205F || n == 0x3000
}

/// `s` without the white space at its start.
pub open spec fn trim_start(s: Seq<char>) -> Seq<char>
    decreases s.len(),
{
    if s.len() > 0 && is_space(s[0]) {
        trim_start(s.drop_first())
    } else {
        s
    }
}

/// `s` without the white space at its end.
pub open spec fn trim_end(s: Seq<char>) -> Seq<char>
    decreases s.len(),
{
    if s.len() > 0 && is_space(s.last()) {
        trim_end(s.drop_last())
    } else {
        s
    }
}

/// `s` without the white space at its start and at its end.
pub open spec fn trim(s: Seq<char>) -> Seq<char> {
    trim_end(trim_start(s))
}

fn is_space_exec(c: char) -> (r: bool)
    ensures
        r == is_space(c),
{
    let n: u32 = c as u32;
    (0x09 <= n && n <= 0x0D) || n == 0x20 || n == 0x85 || n == 0xA0 || n == 0x1680 || (0x2000 <= n
        && n <= 0x200A) || n == 0x2028 || n == 0x2029 || n == 0x202F || n == 0x205F || n == 0x3000
}

/// Removes the white space at both ends of `s`.
pub fn trim_text(s: &Vec<char>) -> (r: Vec<char>)
    ensures
        r@ == trim(s@),
{
    let mut lo: usize = 0;
    assert(s@.subrange(0, s.len() as int) == s@);
    while lo < s.len() && is_space_exec(s[lo])
        invariant
            lo <= s.len(),
            trim_start(s@) == trim_start(s@.subrange(lo as int, s.len() as int)),
        decreases s.len() - lo,
    {
        assert(s@.subrange(lo as int, s.len() as int).drop_first() == s@.subrange(
            lo + 1,
            s.len() as int,
        ));
        lo += 1;
    }
    assert(trim_start(s@) == s@.subrange(lo as int, s.len() as int));
    let mut hi: usize = s.len();
    while hi > lo && is_space_exec(s[hi - 1])
        invariant
            lo <= hi <= s.len(),
            trim(s@) == trim_end(s@.subrange(lo as int, hi as int)),
        decreases hi - lo,
    {
        assert(s@.subrange(lo as int, hi as int).drop_last() == s@.subrange(lo as int, hi - 1));
        hi -= 1;
    }
    slice_of(s, lo, hi)
}

/// `s` without any leading repetitions of the non-empty prefix `pre`.
pub open spec fn strip_leading(s: Seq<char>, pre: Seq<char>) -> Seq<char>
    decreases s.len(),
{
    if pre.len() > 0 && matches_at(s, pre, 0) {
        strip_leading(s.subrange(pre.len() as int, s.len() as int), pre)
    } else {
        s
    }
}

/// Removes every leading repetition of `pre` from `s`.
pub fn strip_leading_text(s: &Vec<char>, pre: &Vec<char>) -> (r: Vec<char>)
    requires
        pre.len() > 0,
    ensures
        r@ == strip_leading(s@, pre@),
{
    let mut lo: usize = 0;
    assert(s@.subrange(0, s.len() as int) == s@);
    while matches_at_exec(s, pre, lo)
        invariant
            lo <= s.len(),
            pre.len() > 0,
            strip_leading(s@, pre@) == strip_leading(s@.subrange(lo as int, s.len() as int), pre@),
        decreases s.len() - lo,
    {
        let ghost rest = s@.subrange(lo as int, s.len() as int);
        assert(rest.subrange(0, pre.len() as int) == s@.subrange(lo as int, lo + pre.len()));
        assert(rest.subrange(pre.len() as int, rest.len() as int) == s@.subrange(
            lo + pre.len(),
            s.len() as int,
        ));
        lo = lo + pre.len();
    }
    proof {
        let rest = s@.subrange(lo as int, s.len() as int);
        if lo + pre.len() <= s.len() {
            assert(rest.subrange(0, pre.len() as int) == s@.subrange(lo as int, lo + pre.len()));
        }
    }
    slice_of(s, lo, s.len())
}

} // verus!
