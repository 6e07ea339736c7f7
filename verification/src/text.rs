//! Character-level helpers on strings, with their specifications over `Seq<char>`.

use vstd::prelude::*;

verus! {

// ---------------------------------------------------------------------------
// Specifications
// ---------------------------------------------------------------------------

/// `s` with every trailing `c` removed.
pub open spec fn trim_end_char(s: Seq<char>, c: char) -> Seq<char>
    decreases s.len(),
{
    if s.len() > 0 && s.last() == c {
        trim_end_char(s.drop_last(), c)
    } else {
        s
    }
}

pub open spec fn starts_with(s: Seq<char>, pre: Seq<char>) -> bool {
    pre.len() <= s.len() && s.take(pre.len() as int) == pre
}

pub open spec fn ends_with(s: Seq<char>, suf: Seq<char>) -> bool {
    suf.len() <= s.len() && s.subrange(s.len() - suf.len(), s.len() as int) == suf
}

/// `pat` occurs in `s` starting at index `i`.
pub open spec fn occurs_at(s: Seq<char>, pat: Seq<char>, i: int) -> bool {
    0 <= i && i + pat.len() <= s.len() && s.subrange(i, i + pat.len()) == pat
}

/// Index of the first occurrence of `pat` in `s` at or after `i`.
pub open spec fn find_from(s: Seq<char>, pat: Seq<char>, i: int) -> Option<int>
    decreases s.len() + 1 - i,
{
    if i < 0 || i + pat.len() > s.len() {
        None
    } else if occurs_at(s, pat, i) {
        Some(i)
    } else {
        find_from(s, pat, i + 1)
    }
}

/// Index of the first occurrence of `pat` in `s` (as `str::find`).
pub open spec fn find(s: Seq<char>, pat: Seq<char>) -> Option<int> {
    find_from(s, pat, 0)
}

/// `s` with its first occurrence of `from` replaced by `to` (as `str::replacen(.., 1)`).
pub open spec fn replace_first(s: Seq<char>, from: Seq<char>, to: Seq<char>) -> Seq<char> {
    match find(s, from) {
        Some(i) => s.take(i) + to + s.skip(i + from.len()),
        None => s,
    }
}

/// Unicode `White_Space` (as `char::is_whitespace`).
pub open spec fn is_ws(c: char) -> bool {
    ||| '\u{9}' <= c <= '\u{d}'
    ||| c == ' '
    ||| c == '\u{85}'
    ||| c == '\u{a0}'
    ||| c == '\u{1680}'
    ||| '\u{2000}' <= c <= '\u{200a}'
    ||| c == '\u{2028}'
    ||| c == '\u{2029}'
    ||| c == '\u{202f}'
    ||| c == '\u{205f}'
    ||| c == '\u{3000}'
}

pub open spec fn trim_start(s: Seq<char>) -> Seq<char>
    decreases s.len(),
{
    if s.len() > 0 && is_ws(s[0]) {
        trim_start(s.drop_first())
    } else {
        s
    }
}

pub open spec fn trim_end(s: Seq<char>) -> Seq<char>
    decreases s.len(),
{
    if s.len() > 0 && is_ws(s.last()) {
        trim_end(s.drop_last())
    } else {
        s
    }
}

/// Whitespace removed at both ends (as `str::trim`).
pub open spec fn trim(s: Seq<char>) -> Seq<char> {
    trim_end(trim_start(s))
}

/// Index of the first `c` in `s`, if any.
pub open spec fn index_of_char(s: Seq<char>, c: char) -> Option<int>
    decreases s.len(),
{
    if s.len() == 0 {
        None
    } else if s[0] == c {
        Some(0)
    } else {
        match index_of_char(s.drop_first(), c) {
            Some(i) => Some(i + 1),
            None => None,
        }
    }
}

/// The pieces of `s` between occurrences of `c` (as `str::split(c)`).
pub open spec fn split_on(s: Seq<char>, c: char) -> Seq<Seq<char>>
    decreases s.len(),
{
    match index_of_char(s, c) {
        Some(i) => {
            if 0 <= i < s.len() {
                seq![s.take(i)] + split_on(s.skip(i + 1), c)
            } else {
                seq![s]
            }
        },
        None => seq![s],
    }
}

pub open spec fn is_digit(c: char) -> bool {
    '0' <= c <= '9'
}

pub open spec fn digit_value(c: char) -> nat {
    (c as int - '0' as int) as nat
}

pub open spec fn all_digits(s: Seq<char>) -> bool {
    forall|i: int| 0 <= i < s.len() ==> is_digit(#[trigger] s[i])
}

/// The number written by the decimal digits `s`.
pub open spec fn decimal_value(s: Seq<char>) -> nat
    decreases s.len(),
{
    if s.len() == 0 {
        0
    } else {
        decimal_value(s.drop_last()) * 10 + digit_value(s.last())
    }
}

/// What `str::parse::<u64>` accepts: an optional `+`, then one or more decimal
/// digits whose value fits in a `u64`.
pub open spec fn parse_u64(s: Seq<char>) -> Option<u64> {
    let body = if s.len() > 0 && s[0] == '+' { s.drop_first() } else { s };
    if body.len() > 0 && all_digits(body) && decimal_value(body) <= u64::MAX {
        Some(decimal_value(body) as u64)
    } else {
        None
    }
}

pub open spec fn digit_char(d: nat) -> char {
    if d == 0 { '0' }
    else if d == 1 { '1' }
    else if d == 2 { '2' }
    else if d == 3 { '3' }
    else if d == 4 { '4' }
    else if d == 5 { '5' }
    else if d == 6 { '6' }
    else if d == 7 { '7' }
    else if d == 8 { '8' }
    else { '9' }
}

/// Decimal representation of `n`, without leading zeros (as `Display` for integers).
pub open spec fn decimal(n: nat) -> Seq<char>
    decreases n,
{
    if n < 10 {
        seq![digit_char(n)]
    } else {
        decimal(n / 10).push(digit_char(n % 10))
    }
}

/// Code point of a character after ASCII lower-casing.
pub open spec fn ascii_lower(c: char) -> int {
    if 'A' <= c <= 'Z' { c as int + 32 } else { c as int }
}

/// Equal up to ASCII case (as `str::eq_ignore_ascii_case`).
pub open spec fn eq_ignore_ascii_case(a: Seq<char>, b: Seq<char>) -> bool {
    a.len() == b.len() && forall|i: int| 0 <= i < a.len() ==> ascii_lower(#[trigger] a[i]) == ascii_lower(b[i])
}

// ---------------------------------------------------------------------------
// Executable helpers
// ---------------------------------------------------------------------------

/// Appends one character to a `String` (std `String::push`).
#[verifier::external_body]
pub(crate) fn push_char(s: &mut String, c: char)
    ensures
        final(s)@ == old(s)@.push(c),
{
    s.push(c);
}

/// The characters of `s`, in order.
pub fn str_chars(s: &str) -> (out: Vec<char>)
    ensures
        out@ == s@,
{
    let mut out: Vec<char> = Vec::new();
    for c in it: s.chars()
        invariant
            out@ == it.seq().take(it.index() as int),
            it.seq() == s@,
    {
        out.push(c);
    }
    out
}

/// Appends `cs[lo..hi]` to `out`.
pub fn push_range(out: &mut String, cs: &[char], lo: usize, hi: usize)
    requires
        lo <= hi <= cs@.len(),
    ensures
        final(out)@ == old(out)@ + cs@.subrange(lo as int, hi as int),
{
    let mut i: usize = lo;
    while i < hi
        invariant
            lo <= i <= hi <= cs@.len(),
            out@ == old(out)@ + cs@.subrange(lo as int, i as int),
        decreases hi - i,
    {
        push_char(out, cs[i]);
        assert(cs@.subrange(lo as int, i as int).push(cs@[i as int]) =~= cs@.subrange(lo as int, i + 1));
        i = i + 1;
    }
}

/// A `String` holding `cs[lo..hi]`.
pub fn string_of_range(cs: &[char], lo: usize, hi: usize) -> (out: String)
    requires
        lo <= hi <= cs@.len(),
    ensures
        out@ == cs@.subrange(lo as int, hi as int),
{
    let mut out = String::new();
    push_range(&mut out, cs, lo, hi);
    assert(Seq::<char>::empty() + cs@.subrange(lo as int, hi as int) =~= cs@.subrange(lo as int, hi as int));
    out
}

/// A `String` holding exactly the given characters.
pub fn string_from_chars(cs: &[char]) -> (out: String)
    ensures
        out@ == cs@,
{
    let out = string_of_range(cs, 0, cs.len());
    assert(cs@.subrange(0, cs@.len() as int) =~= cs@);
    out
}

/// Appends the characters of `t` to `out`.
pub fn push_str(out: &mut String, t: &str)
    ensures
        final(out)@ == old(out)@ + t@,
{
    let cs = str_chars(t);
    push_range(out, cs.as_slice(), 0, cs.len());
    assert(cs@.subrange(0, cs@.len() as int) =~= t@);
}

/// `a` followed by `b`.
pub fn concat2(a: &str, b: &str) -> (out: String)
    ensures
        out@ == a@ + b@,
{
    let mut out = String::new();
    push_str(&mut out, a);
    push_str(&mut out, b);
    assert(Seq::<char>::empty() + a@ + b@ =~= a@ + b@);
    out
}

/// Character-wise equality of two strings.
pub fn str_eq(a: &str, b: &str) -> (r: bool)
    ensures
        r == (a@ == b@),
{
    let x = str_chars(a);
    let y = str_chars(b);
    if x.len() != y.len() {
        return false;
    }
    let mut i: usize = 0;
    while i < x.len()
        invariant
            x@ == a@,
            y@ == b@,
            x@.len() == y@.len(),
            i <= x@.len(),
            forall|j: int| 0 <= j < i ==> x@[j] == y@[j],
        decreases x@.len() - i,
    {
        if x[i] != y[i] {
            return false;
        }
        i = i + 1;
    }
    assert(x@ =~= y@);
    true
}

/// Whether `pat` occurs in `cs` at `i`.
pub fn chars_occur_at(cs: &[char], pat: &[char], i: usize) -> (r: bool)
    ensures
        r == occurs_at(cs@, pat@, i as int),
{
    let n = cs.len();
    if i > n || pat.len() > n - i {
        return false;
    }
    let mut k: usize = 0;
    while k < pat.len()
        invariant
            n == cs@.len(),
            i + pat@.len() <= cs@.len(),
            k <= pat@.len(),
            forall|j: int| 0 <= j < k ==> cs@[i + j] == pat@[j],
        decreases pat@.len() - k,
    {
        assert(i + k < cs@.len());
        if cs[i + k] != pat[k] {
            assert(cs@.subrange(i as int, i + pat@.len())[k as int] != pat@[k as int]);
            return false;
        }
        k = k + 1;
    }
    assert(cs@.subrange(i as int, i + pat@.len()) =~= pat@);
    true
}

/// First index at which `pat` occurs in `cs` (as `str::find`).
pub fn chars_find(cs: &[char], pat: &[char]) -> (r: Option<usize>)
    ensures
        match r {
            Some(i) => find(cs@, pat@) == Some(i as int),
            None => find(cs@, pat@) is None,
        },
{
    if pat.len() > cs.len() {
        return None;
    }
    let last = cs.len() - pat.len();
    let mut i: usize = 0;
    while i < last
        invariant
            last + pat@.len() == cs@.len(),
            i <= last,
            find(cs@, pat@) == find_from(cs@, pat@, i as int),
        decreases last - i,
    {
        if chars_occur_at(cs, pat, i) {
            return Some(i);
        }
        i = i + 1;
    }
    if chars_occur_at(cs, pat, last) {
        Some(last)
    } else {
        assert(find_from(cs@, pat@, last + 1) is None);
        None
    }
}

/// Whether `s` starts with `pre`.
pub fn chars_starts_with(s: &[char], pre: &[char]) -> (r: bool)
    ensures
        r == starts_with(s@, pre@),
{
    let r = chars_occur_at(s, pre, 0);
    proof {
        if pre@.len() <= s@.len() {
            assert(s@.subrange(0, pre@.len() as int) =~= s@.take(pre@.len() as int));
        }
    }
    r
}

/// Whether `s` ends with `suf`.
pub fn chars_ends_with(s: &[char], suf: &[char]) -> (r: bool)
    ensures
        r == ends_with(s@, suf@),
{
    if suf.len() > s.len() {
        return false;
    }
    chars_occur_at(s, suf, s.len() - suf.len())
}

/// Length of `s` once its trailing `c` are removed.
pub fn trim_end_char_len(s: &[char], c: char) -> (n: usize)
    ensures
        n <= s@.len(),
        trim_end_char(s@, c) == s@.take(n as int),
{
    let mut n: usize = s.len();
    assert(s@.take(n as int) =~= s@);
    while n > 0 && s[n - 1] == c
        invariant
            n <= s@.len(),
            trim_end_char(s@, c) == trim_end_char(s@.take(n as int), c),
        decreases n,
    {
        assert(s@.take(n as int).drop_last() =~= s@.take(n - 1));
        n = n - 1;
    }
    n
}

/// `s` without its trailing `c` (as `str::trim_end_matches(c)`).
pub fn trim_end_matches_char(s: &str, c: char) -> (out: String)
    ensures
        out@ == trim_end_char(s@, c),
{
    let cs = str_chars(s);
    let n = trim_end_char_len(cs.as_slice(), c);
    let out = string_of_range(cs.as_slice(), 0, n);
    assert(cs@.subrange(0, n as int) =~= cs@.take(n as int));
    out
}

pub fn char_is_ws(c: char) -> (r: bool)
    ensures
        r == is_ws(c),
{
    ('\u{9}' <= c && c <= '\u{d}') || c == ' ' || c == '\u{85}' || c == '\u{a0}' || c == '\u{1680}'
        || ('\u{2000}' <= c && c <= '\u{200a}') || c == '\u{2028}' || c == '\u{2029}'
        || c == '\u{202f}' || c == '\u{205f}' || c == '\u{3000}'
}

/// Bounds `lo..hi` of `s` with surrounding whitespace removed.
pub fn trim_bounds(s: &[char]) -> (r: (usize, usize))
    ensures
        r.0 <= r.1 <= s@.len(),
        trim(s@) == s@.subrange(r.0 as int, r.1 as int),
        trim_start(s@) == s@.skip(r.0 as int),
{
    let mut lo: usize = 0;
    assert(s@.skip(0) =~= s@);
    while lo < s.len() && char_is_ws(s[lo])
        invariant
            lo <= s@.len(),
            trim_start(s@) == trim_start(s@.skip(lo as int)),
        decreases s@.len() - lo,
    {
        assert(s@.skip(lo as int).drop_first() =~= s@.skip(lo + 1));
        lo = lo + 1;
    }
    let ghost ts = s@.skip(lo as int);
    assert(trim_start(ts) == ts);
    let mut hi: usize = s.len();
    assert(s@.subrange(lo as int, hi as int) =~= ts);
    while hi > lo && char_is_ws(s[hi - 1])
        invariant
            lo <= hi <= s@.len(),
            trim_end(ts) == trim_end(s@.subrange(lo as int, hi as int)),
        decreases hi,
    {
        assert(s@.subrange(lo as int, hi as int).drop_last() =~= s@.subrange(lo as int, hi - 1));
        hi = hi - 1;
    }
    (lo, hi)
}

/// `s` with surrounding whitespace removed (as `str::trim`).
pub fn trim_str(s: &str) -> (out: String)
    ensures
        out@ == trim(s@),
{
    let cs = str_chars(s);
    let (lo, hi) = trim_bounds(cs.as_slice());
    string_of_range(cs.as_slice(), lo, hi)
}

/// `s` with its first `from` replaced by `to` (as `str::replacen(from, to, 1)`).
pub fn replace_first_str(s: &str, from: &str, to: &str) -> (out: String)
    ensures
        out@ == replace_first(s@, from@, to@),
{
    let cs = str_chars(s);
    let fs = str_chars(from);
    let n = cs.len();
    match chars_find(cs.as_slice(), fs.as_slice()) {
        Some(i) => {
            proof { find_from_bounds(cs@, fs@, 0); }
            assert(i + fs@.len() <= cs@.len());
            let mut out = string_of_range(cs.as_slice(), 0, i);
            push_str(&mut out, to);
            push_range(&mut out, cs.as_slice(), i + fs.len(), n);
            assert(cs@.subrange(0, i as int) =~= cs@.take(i as int));
            assert(cs@.subrange(i + fs@.len(), cs@.len() as int) =~= cs@.skip(i + fs@.len()));
            out
        },
        None => String::from_str(s),
    }
}

/// The first occurrence found from `i` is preceded by none.
pub proof fn lemma_find_from_first(s: Seq<char>, pat: Seq<char>, i: int, j: int)
    requires
        find_from(s, pat, i) matches Some(k) && i <= j < k,
    ensures
        !occurs_at(s, pat, j),
    decreases s.len() + 1 - i,
{
    if i < 0 || i + pat.len() > s.len() {
    } else if occurs_at(s, pat, i) {
    } else if j > i {
        lemma_find_from_first(s, pat, i + 1, j);
    }
}

/// Without an occurrence at or after `i`, the search from `i` finds none.
pub proof fn lemma_find_from_none(s: Seq<char>, pat: Seq<char>, i: int)
    requires
        forall|j: int| i <= j ==> !occurs_at(s, pat, j),
    ensures
        find_from(s, pat, i) is None,
    decreases s.len() + 1 - i,
{
    if i < 0 || i + pat.len() > s.len() {
    } else {
        lemma_find_from_none(s, pat, i + 1);
    }
}

/// `trim_start` drops a run of leading whitespace.
pub proof fn lemma_trim_start_skip(s: Seq<char>) -> (k: int)
    ensures
        0 <= k <= s.len(),
        trim_start(s) == s.skip(k),
        k < s.len() ==> !is_ws(s[k]),
    decreases s.len(),
{
    if s.len() > 0 && is_ws(s[0]) {
        let k1 = lemma_trim_start_skip(s.drop_first());
        assert(s.drop_first().skip(k1) =~= s.skip(k1 + 1));
        k1 + 1
    } else {
        assert(s.skip(0) =~= s);
        0
    }
}

/// `trim_end` drops a run of trailing whitespace.
pub proof fn lemma_trim_end_take(s: Seq<char>) -> (k: int)
    ensures
        0 <= k <= s.len(),
        trim_end(s) == s.take(k),
        k > 0 ==> !is_ws(s[k - 1]),
        forall|j: int| k <= j < s.len() ==> is_ws(#[trigger] s[j]),
    decreases s.len(),
{
    if s.len() > 0 && is_ws(s.last()) {
        let k1 = lemma_trim_end_take(s.drop_last());
        assert(s.drop_last().take(k1) =~= s.take(k1));
        assert forall|j: int| k1 <= j < s.len() implies is_ws(#[trigger] s[j]) by {
            if j < s.len() - 1 {
                assert(s[j] == s.drop_last()[j]);
            }
        }
        k1
    } else {
        assert(s.take(s.len() as int) =~= s);
        s.len() as int
    }
}

/// `trim` keeps a stretch of the text: it is `s[lo..hi]`.
pub proof fn lemma_trim_range(s: Seq<char>) -> (r: (int, int))
    ensures
        0 <= r.0 <= r.1 <= s.len(),
        trim(s) == s.subrange(r.0, r.1),
{
    let a = lemma_trim_start_skip(s);
    let t = s.skip(a);
    let m = lemma_trim_end_take(t);
    assert(t.take(m) =~= s.subrange(a, a + m));
    (a, a + m)
}

/// Trimming twice trims no more than once.
pub proof fn lemma_trim_idempotent(s: Seq<char>)
    ensures
        trim(trim(s)) == trim(s),
{
    let a = lemma_trim_start_skip(s);
    let t = s.skip(a);
    let m = lemma_trim_end_take(t);
    let u = t.take(m);
    if m > 0 {
        assert(!is_ws(u[0]));
        assert(trim_start(u) == u);
        assert(!is_ws(u.last()));
        assert(trim_end(u) == u);
    }
}

pub proof fn find_from_bounds(s: Seq<char>, pat: Seq<char>, i: int)
    ensures
        find_from(s, pat, i) matches Some(k) ==> i <= k && occurs_at(s, pat, k),
    decreases s.len() + 1 - i,
{
    if i < 0 || i + pat.len() > s.len() {
    } else if occurs_at(s, pat, i) {
    } else {
        find_from_bounds(s, pat, i + 1);
    }
}

/// Appends the decimal representation of `n`.
pub fn push_decimal(out: &mut String, n: u64)
    ensures
        final(out)@ == old(out)@ + decimal(n as nat),
    decreases n,
{
    if n >= 10 {
        push_decimal(out, n / 10);
    }
    let d = n % 10;
    let c = if d == 0 { '0' } else if d == 1 { '1' } else if d == 2 { '2' } else if d == 3 { '3' }
        else if d == 4 { '4' } else if d == 5 { '5' } else if d == 6 { '6' } else if d == 7 { '7' }
        else if d == 8 { '8' } else { '9' };
    push_char(out, c);
    proof {
        if n >= 10 {
            assert(decimal(n as nat) == decimal((n / 10) as nat).push(digit_char((n % 10) as nat)));
            assert(old(out)@ + decimal((n / 10) as nat) + seq![c] =~= old(out)@ + decimal(n as nat));
        } else {
            assert(old(out)@ + seq![c] =~= old(out)@ + decimal(n as nat));
        }
    }
}


/// `str::parse::<u64>`: an optional `+`, then decimal digits that fit in a `u64`.
pub fn parse_u64_str(s: &str) -> (r: Option<u64>)
    ensures
        r == parse_u64(s@),
{
    let cs = str_chars(s);
    let n = cs.len();
    let start: usize = if n > 0 && cs[0] == '+' { 1 } else { 0 };
    let ghost body = cs@.skip(start as int);
    assert(body == (if cs@.len() > 0 && cs@[0] == '+' { cs@.drop_first() } else { cs@ }));
    if start == n {
        return None;
    }
    let mut acc: u64 = 0;
    let mut i: usize = start;
    assert(cs@.subrange(start as int, start as int) =~= Seq::<char>::empty());
    while i < n
        invariant
            n == cs@.len(),
            cs@ == s@,
            start <= i <= n,
            body == cs@.skip(start as int),
            body == (if s@.len() > 0 && s@[0] == '+' { s@.drop_first() } else { s@ }),
            all_digits(cs@.subrange(start as int, i as int)),
            acc as nat == decimal_value(cs@.subrange(start as int, i as int)),
        decreases n - i,
    {
        let c = cs[i];
        let ghost pre = cs@.subrange(start as int, i as int);
        let ghost pre1 = cs@.subrange(start as int, i + 1);
        assert(pre1.drop_last() =~= pre);
        assert(pre1 =~= body.take(i + 1 - start));
        if !('0' <= c && c <= '9') {
            assert(body[i - start] == c);
            assert(!is_digit(body[i - start]));
            assert(!all_digits(body));
            assert(cs@ == s@);
            assert(parse_u64(s@) is None);
            return None;
        }
        let d: u64 = (c as u32 - '0' as u32) as u64;
        let next: u128 = acc as u128 * 10 + d as u128;
        assert(all_digits(pre1));
        assert(next == decimal_value(pre1));
        if next > u64::MAX as u128 {
            proof {
                if all_digits(body) {
                    lemma_decimal_prefix_le(body, i + 1 - start);
                    assert(decimal_value(body) > u64::MAX);
                }
            }
            return None;
        }
        acc = next as u64;
        i = i + 1;
    }
    assert(cs@.subrange(start as int, n as int) =~= body);
    Some(acc)
}

/// A digit string is worth at least each of its prefixes.
pub proof fn lemma_decimal_prefix_le(t: Seq<char>, k: int)
    requires
        0 <= k <= t.len(),
        all_digits(t),
    ensures
        decimal_value(t.take(k)) <= decimal_value(t),
    decreases t.len(),
{
    if k < t.len() {
        assert(all_digits(t.drop_last()));
        lemma_decimal_prefix_le(t.drop_last(), k);
        assert(t.drop_last().take(k) =~= t.take(k));
    } else {
        assert(t.take(k) =~= t);
    }
}

/// Code point of `c` after ASCII lower-casing.
pub fn lower_code(c: char) -> (r: u32)
    ensures
        r == ascii_lower(c),
{
    if 'A' <= c && c <= 'Z' {
        (c as u32) + 32
    } else {
        c as u32
    }
}

/// Whether `a` equals `b` up to ASCII case.
pub fn str_eq_ignore_ascii_case(a: &str, b: &str) -> (r: bool)
    ensures
        r == eq_ignore_ascii_case(a@, b@),
{
    let x = str_chars(a);
    let y = str_chars(b);
    if x.len() != y.len() {
        return false;
    }
    let mut i: usize = 0;
    while i < x.len()
        invariant
            x@ == a@,
            y@ == b@,
            x@.len() == y@.len(),
            i <= x@.len(),
            forall|j: int| 0 <= j < i ==> ascii_lower(#[trigger] x@[j]) == ascii_lower(y@[j]),
        decreases x@.len() - i,
    {
        let p = x[i];
        let q = y[i];
        if lower_code(p) != lower_code(q) {
            return false;
        }
        i = i + 1;
    }
    true
}

/// The pieces of `pieces`, each trimmed, keeping the non-empty ones.
pub open spec fn trimmed_nonempty(pieces: Seq<Seq<char>>) -> Seq<Seq<char>>
    decreases pieces.len(),
{
    if pieces.len() == 0 {
        seq![]
    } else if trim(pieces[0]).len() > 0 {
        seq![trim(pieces[0])] + trimmed_nonempty(pieces.drop_first())
    } else {
        trimmed_nonempty(pieces.drop_first())
    }
}

/// The views of a vector of strings.
pub open spec fn string_views(v: Seq<String>) -> Seq<Seq<char>> {
    v.map_values(|x: String| x@)
}

pub proof fn lemma_index_of_char_at(t: Seq<char>, c: char, k: int)
    requires
        0 <= k < t.len(),
        t[k] == c,
        forall|j: int| 0 <= j < k ==> t[j] != c,
    ensures
        index_of_char(t, c) == Some(k),
    decreases t.len(),
{
    if k > 0 {
        lemma_index_of_char_at(t.drop_first(), c, k - 1);
    }
}

pub proof fn lemma_index_of_char_none(t: Seq<char>, c: char)
    requires
        forall|j: int| 0 <= j < t.len() ==> t[j] != c,
    ensures
        index_of_char(t, c) is None,
    decreases t.len(),
{
    if t.len() > 0 {
        lemma_index_of_char_none(t.drop_first(), c);
    }
}

pub proof fn lemma_trimmed_nonempty_append(a: Seq<Seq<char>>, b: Seq<Seq<char>>)
    ensures
        trimmed_nonempty(a + b) == trimmed_nonempty(a) + trimmed_nonempty(b),
    decreases a.len(),
{
    if a.len() == 0 {
        assert(a + b =~= b);
    } else {
        assert((a + b).drop_first() =~= a.drop_first() + b);
        lemma_trimmed_nonempty_append(a.drop_first(), b);
    }
}

/// Splits `s` on `c`, trims each piece and keeps the non-empty ones
/// (as `s.split(c).map(str::trim).filter(|p| !p.is_empty())`).
pub fn split_trim_nonempty(s: &str, c: char) -> (out: Vec<String>)
    ensures
        string_views(out@) == trimmed_nonempty(split_on(s@, c)),
{
    let cs = str_chars(s);
    let n = cs.len();
    let mut out: Vec<String> = Vec::new();
    let mut st: usize = 0;
    let mut i: usize = 0;
    assert(cs@.skip(0) =~= cs@);
    while i < n
        invariant
            n == cs@.len(),
            st <= i <= n,
            forall|j: int| st <= j < i ==> cs@[j] != c,
            trimmed_nonempty(split_on(s@, c)) == string_views(out@) + trimmed_nonempty(split_on(cs@.skip(st as int), c)),
        decreases n - i,
    {
        if cs[i] == c {
            let ghost t = cs@.skip(st as int);
            proof {
                lemma_index_of_char_at(t, c, i - st);
                assert(t.take(i - st) =~= cs@.subrange(st as int, i as int));
                assert(t.skip(i - st + 1) =~= cs@.skip(i + 1));
                assert(split_on(t, c) == seq![cs@.subrange(st as int, i as int)] + split_on(cs@.skip(i + 1), c));
                lemma_trimmed_nonempty_append(seq![cs@.subrange(st as int, i as int)], split_on(cs@.skip(i + 1), c));
            }
            let ghost piece = cs@.subrange(st as int, i as int);
            let raw = string_of_range(cs.as_slice(), st, i);
            let p = trim_str(raw.as_str());
            if !p.as_str().is_empty() {
                let ghost old_out = out@;
                out.push(p);
                proof {
                    assert(string_views(out@) =~= string_views(old_out).push(trim(piece)));
                    assert(seq![piece].drop_first() =~= Seq::<Seq<char>>::empty());
                    assert(trimmed_nonempty(Seq::<Seq<char>>::empty()) == Seq::<Seq<char>>::empty());
                    assert(raw@ == piece);
                    assert(p@ == trim(piece));
                    assert(trimmed_nonempty(seq![piece]) =~= seq![trim(piece)]);
                }
            } else {
                assert(seq![piece].drop_first() =~= Seq::<Seq<char>>::empty());
                assert(trimmed_nonempty(Seq::<Seq<char>>::empty()) == Seq::<Seq<char>>::empty());
                assert(raw@ == piece);
                assert(p@ == trim(piece));
                assert(trimmed_nonempty(seq![piece]) =~= Seq::<Seq<char>>::empty());
            }
            assert(string_views(out@) + trimmed_nonempty(split_on(cs@.skip(i + 1), c)) =~=
                trimmed_nonempty(split_on(s@, c)));
            st = i + 1;
        }
        i = i + 1;
    }
    let ghost t = cs@.skip(st as int);
    proof {
        lemma_index_of_char_none(t, c);
        assert(t =~= cs@.subrange(st as int, n as int));
        assert(trimmed_nonempty(seq![t].drop_first()) =~= Seq::<Seq<char>>::empty());
    }
    let raw = string_of_range(cs.as_slice(), st, n);
    let p = trim_str(raw.as_str());
    if !p.as_str().is_empty() {
        let ghost old_out = out@;
        out.push(p);
        assert(string_views(out@) =~= string_views(old_out).push(trim(t)));
    }
    assert(string_views(out@) =~= trimmed_nonempty(split_on(s@, c)));
    out
}

} // verus!
