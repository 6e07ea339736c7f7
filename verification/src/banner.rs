//! Text of the startup banner: fixed-width fields and the wall-clock stamp.

use vstd::prelude::*;
use vstd::utf8::{decode_utf8, encode_utf8, encode_utf8_decode_utf8, is_char_boundary};
use vstd::string::StringSliceAdditionalSpecFns;
use crate::text::{
    char_is_ws, chars_starts_with, decimal, index_of_char, is_ws, lemma_index_of_char_at,
    lemma_index_of_char_none, parse_u64, parse_u64_str, push_char, push_decimal, push_str,
    starts_with, str_chars, string_of_range, trim_start,
};

verus! {

/// `n` spaces.
pub open spec fn spaces(n: nat) -> Seq<char> {
    Seq::new(n, |i: int| ' ')
}

/// Where a too long field is cut, in bytes: one byte short of the width.
pub open spec fn cut_at(max: nat) -> nat {
    if max >= 1 { (max - 1) as nat } else { 0 }
}

/// A field of width `max`: a text of at most `max` bytes is padded with spaces to
/// `max` characters; a longer one is cut to its first `max - 1` bytes and ends
/// with `…`.
pub open spec fn truncated(s: Seq<char>, max: nat) -> Seq<char> {
    if encode_utf8(s).len() <= max {
        if s.len() < max { s + spaces((max - s.len()) as nat) } else { s }
    } else {
        decode_utf8(encode_utf8(s).take(cut_at(max) as int)) + "…"@
    }
}

/// Fits `s` to a field of width `max` (see [`truncated`]). A text longer than `max`
/// bytes must be cut at a character boundary (else the cut would panic).
pub fn truncate(s: &str, max: usize) -> (r: String)
    requires
        encode_utf8(s@).len() <= usize::MAX,
        encode_utf8(s@).len() > max ==> is_char_boundary(encode_utf8(s@), cut_at(max as nat) as int),
    ensures
        r@ == truncated(s@, max as nat),
{
    if s.len() <= max {
        let mut out = String::from_str(s);
        let n = str_chars(s).len();
        let mut i: usize = n;
        while i < max
            invariant
                n == s@.len(),
                n <= i <= max || (i == n && n >= max),
                out@ == s@ + spaces((i - n) as nat),
            decreases max - i,
        {
            push_char(&mut out, ' ');
            assert(s@ + spaces((i - n) as nat) + seq![' '] =~= s@ + spaces((i + 1 - n) as nat));
            i = i + 1;
        }
        proof {
            if n >= max {
                assert(s@ + spaces(0) =~= s@);
            }
            assert(encode_utf8(s@).len() <= max);
        }
        out
    } else {
        let k: usize = if max >= 1 { max - 1 } else { 0 };
        let (a, _rest) = s.split_at(k);
        let mut out = String::from_str(a);
        push_str(&mut out, "…");
        proof {
            encode_utf8_decode_utf8(a@);
            assert(a.spec_bytes() == encode_utf8(a@));
            assert(encode_utf8(s@).subrange(0, k as int) =~= encode_utf8(s@).take(k as int));
            assert(a@ == decode_utf8(encode_utf8(s@).take(k as int)));
            assert(k == cut_at(max as nat));
            assert(encode_utf8(s@).len() > max);
        }
        out
    }
}

/// `n` in decimal, with leading zeros up to `w` digits (as `{:0w}`).
pub open spec fn padded(n: nat, w: nat) -> Seq<char> {
    let d = decimal(n);
    if d.len() < w { Seq::new((w - d.len()) as nat, |i: int| '0') + d } else { d }
}

fn push_padded(out: &mut String, n: u64, w: usize)
    ensures
        final(out)@ == old(out)@ + padded(n as nat, w as nat),
{
    let mut d = String::new();
    push_decimal(&mut d, n);
    assert(d@ =~= decimal(n as nat));
    let len = str_chars(d.as_str()).len();
    let mut i: usize = len;
    let ghost base = out@;
    while i < w
        invariant
            len == decimal(n as nat).len(),
            len <= i,
            i <= w || i == len,
            out@ == base + Seq::new((i - len) as nat, |j: int| '0'),
        decreases w - i,
    {
        push_char(out, '0');
        assert(base + Seq::new((i - len) as nat, |j: int| '0') + seq!['0']
            =~= base + Seq::new((i + 1 - len) as nat, |j: int| '0'));
        i = i + 1;
    }
    push_str(out, d.as_str());
    proof {
        if len < w {
            assert(base + Seq::new((w - len) as nat, |j: int| '0') + d@
                =~= base + padded(n as nat, w as nat));
        } else {
            assert(base + Seq::new(0, |j: int| '0') + d@ =~= base + padded(n as nat, w as nat));
        }
    }
}

/// `HH:MM:SS.mmm UTC (epoch+<secs>)` for a time `secs` seconds and `millis`
/// milliseconds after the Unix epoch.
pub open spec fn clock_stamp(secs: u64, millis: u32) -> Seq<char> {
    padded(((secs / 3600) % 24) as nat, 2) + ":"@ + padded(((secs / 60) % 60) as nat, 2) + ":"@
        + padded((secs % 60) as nat, 2) + "."@ + padded(millis as nat, 3) + " UTC (epoch+"@
        + decimal(secs as nat) + ")"@
}

/// The banner's time stamp (see [`clock_stamp`]).
pub fn chrono_lite(secs: u64, millis: u32) -> (r: String)
    ensures
        r@ == clock_stamp(secs, millis),
{
    let mut out = String::new();
    push_padded(&mut out, (secs / 3600) % 24, 2);
    push_str(&mut out, ":");
    push_padded(&mut out, (secs / 60) % 60, 2);
    push_str(&mut out, ":");
    push_padded(&mut out, secs % 60, 2);
    push_str(&mut out, ".");
    push_padded(&mut out, millis as u64, 3);
    push_str(&mut out, " UTC (epoch+");
    push_decimal(&mut out, secs);
    push_str(&mut out, ")");
    proof {
        assert(out@ =~= clock_stamp(secs, millis));
    }
    out
}

/// The text of `s` before its first line break (all of it when there is none).
pub open spec fn first_line(s: Seq<char>) -> Seq<char> {
    match index_of_char(s, '\n') {
        Some(k) => s.take(k),
        None => s,
    }
}

/// The first line of `s` that starts with `pre` (lines as `str::lines` gives them;
/// a line's closing `\r` is whitespace and does not matter to its fields).
pub open spec fn line_starting_with(s: Seq<char>, pre: Seq<char>) -> Option<Seq<char>>
    decreases s.len(),
{
    if starts_with(first_line(s), pre) {
        Some(first_line(s))
    } else {
        match index_of_char(s, '\n') {
            Some(k) => if 0 <= k < s.len() { line_starting_with(s.skip(k + 1), pre) } else { None },
            None => None,
        }
    }
}

/// Length of the run of non-whitespace characters that starts `s`.
pub open spec fn field_len(s: Seq<char>) -> nat
    decreases s.len(),
{
    if s.len() > 0 && !is_ws(s[0]) { 1 + field_len(s.drop_first()) } else { 0 }
}

/// The second whitespace-separated field of a line (as `split_whitespace().nth(1)`).
pub open spec fn second_field(line: Seq<char>) -> Option<Seq<char>> {
    let t = trim_start(line);
    let rest = trim_start(t.skip(field_len(t) as int));
    if rest.len() == 0 { None } else { Some(rest.take(field_len(rest) as int)) }
}

/// The resident set size in kB that `/proc/self/status` reports: the second field
/// of its first `VmRSS:` line, as a `u64`.
pub open spec fn vm_rss(status: Seq<char>) -> Option<u64> {
    match line_starting_with(status, "VmRSS:"@) {
        Some(l) => match second_field(l) {
            Some(f) => parse_u64(f),
            None => None,
        },
        None => None,
    }
}

/// End of the run of non-whitespace characters of `cs` that starts at `i`.
fn field_end(cs: &Vec<char>, i: usize) -> (e: usize)
    requires
        i <= cs@.len(),
    ensures
        i <= e <= cs@.len(),
        e - i == field_len(cs@.skip(i as int)),
{
    let mut e: usize = i;
    while e < cs.len() && !char_is_ws(cs[e])
        invariant
            i <= e <= cs@.len(),
            field_len(cs@.skip(i as int)) == (e - i) + field_len(cs@.skip(e as int)),
        decreases cs@.len() - e,
    {
        assert(cs@.skip(e as int).drop_first() =~= cs@.skip(e + 1));
        e = e + 1;
    }
    e
}

/// First index at or after `i` that is not whitespace (or the end).
fn skip_ws(cs: &Vec<char>, i: usize) -> (e: usize)
    requires
        i <= cs@.len(),
    ensures
        i <= e <= cs@.len(),
        trim_start(cs@.skip(i as int)) == cs@.skip(e as int),
{
    let mut e: usize = i;
    while e < cs.len() && char_is_ws(cs[e])
        invariant
            i <= e <= cs@.len(),
            trim_start(cs@.skip(i as int)) == trim_start(cs@.skip(e as int)),
        decreases cs@.len() - e,
    {
        assert(cs@.skip(e as int).drop_first() =~= cs@.skip(e + 1));
        e = e + 1;
    }
    e
}

fn second_field_of(line: &Vec<char>) -> (r: Option<String>)
    ensures
        match r {
            Some(f) => second_field(line@) == Some(f@),
            None => second_field(line@) is None,
        },
{
    let a = skip_ws(line, 0);
    assert(line@.skip(0) =~= line@);
    let b = field_end(line, a);
    proof {
        let t = line@.skip(a as int);
        assert(t.skip(field_len(t) as int) =~= line@.skip(b as int));
    }
    let c = skip_ws(line, b);
    if c == line.len() {
        return None;
    }
    let d = field_end(line, c);
    proof {
        let rest = line@.skip(c as int);
        assert(rest.take(field_len(rest) as int) =~= line@.subrange(c as int, d as int));
    }
    Some(string_of_range(line.as_slice(), c, d))
}

/// The resident set size in kB reported by the text of `/proc/self/status` (see [`vm_rss`]).
pub fn vm_rss_kb(status: &str) -> (r: Option<u64>)
    ensures
        r == vm_rss(status@),
{
    let cs = str_chars(status);
    let pre = str_chars("VmRSS:");
    let mut start: usize = 0;
    assert(cs@.skip(0) =~= cs@);
    loop
        invariant
            start <= cs@.len(),
            cs@ == status@,
            pre@ == "VmRSS:"@,
            line_starting_with(cs@.skip(start as int), "VmRSS:"@) == line_starting_with(status@, "VmRSS:"@),
        decreases cs@.len() - start,
    {
        let ghost rest = cs@.skip(start as int);
        let mut end: usize = start;
        while end < cs.len() && cs[end] != '\n'
            invariant
                start <= end <= cs@.len(),
                forall|j: int| start <= j < end ==> cs@[j] != '\n',
            decreases cs@.len() - end,
        {
            end = end + 1;
        }
        proof {
            if end < cs@.len() {
                lemma_index_of_char_at(rest, '\n', end - start);
                assert(first_line(rest) =~= cs@.subrange(start as int, end as int));
            } else {
                lemma_index_of_char_none(rest, '\n');
                assert(first_line(rest) =~= cs@.subrange(start as int, end as int));
            }
        }
        let line = cs_range(&cs, start, end);
        if chars_starts_with(line.as_slice(), pre.as_slice()) {
            return match second_field_of(&line) {
                Some(f) => parse_u64_str(f.as_str()),
                None => None,
            };
        }
        if end == cs.len() {
            return None;
        }
        assert(rest.skip(end - start + 1) =~= cs@.skip(end + 1));
        start = end + 1;
    }
}

fn cs_range(cs: &Vec<char>, lo: usize, hi: usize) -> (r: Vec<char>)
    requires
        lo <= hi <= cs@.len(),
    ensures
        r@ == cs@.subrange(lo as int, hi as int),
{
    let mut r: Vec<char> = Vec::new();
    let mut i: usize = lo;
    while i < hi
        invariant
            lo <= i <= hi <= cs@.len(),
            r@ == cs@.subrange(lo as int, i as int),
        decreases hi - i,
    {
        r.push(cs[i]);
        assert(cs@.subrange(lo as int, i as int).push(cs@[i as int]) =~= cs@.subrange(lo as int, i + 1));
        i = i + 1;
    }
    r
}

} // verus!
