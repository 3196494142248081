//! Small verified text utilities the engine is built from: character
//! classes, equality, trimming, splitting, line splitting and decimal
//! rendering, each proved against a spec-level model on `Seq<char>`.

use vstd::prelude::*;
use vstd::string::StrSliceExecFns;
use vstd::string::StringExecFns;

verus! {

/// The whitespace characters this engine trims around header names and
/// values: space, horizontal tab, carriage return and line feed.
pub open spec fn spec_is_ws(c: char) -> bool {
    c == ' ' || c == '\t' || c == '\r' || c == '\n'
}

/// Index of the first occurrence of `c` in `s`, or `-1` when absent.
pub open spec fn spec_first_index(s: Seq<char>, c: char) -> int
    decreases s.len(),
{
    if s.len() == 0 {
        -1
    } else if s[0] == c {
        0
    } else {
        let r = spec_first_index(s.drop_first(), c);
        if r < 0 {
            -1
        } else {
            r + 1
        }
    }
}

pub proof fn lemma_first_index_bounds(s: Seq<char>, c: char)
    ensures
        -1 <= spec_first_index(s, c) < s.len(),
        spec_first_index(s, c) >= 0 ==> s[spec_first_index(s, c)] == c,
    decreases s.len(),
{
    if s.len() > 0 && s[0] != c {
        lemma_first_index_bounds(s.drop_first(), c);
    }
}

/// `spec_first_index` is pinned down by a scan witness: no `c` before `k`,
/// and `c` at `k` (or `k` the length, when `c` never occurs).
pub proof fn lemma_first_index_at(s: Seq<char>, c: char, k: int)
    requires
        0 <= k <= s.len(),
        forall|j: int| 0 <= j < k ==> s[j] != c,
        k < s.len() ==> s[k] == c,
    ensures
        spec_first_index(s, c) == if k == s.len() {
            -1int
        } else {
            k
        },
    decreases s.len(),
{
    if s.len() == 0 {
    } else if k == 0 {
    } else {
        assert(s[0] != c);
        lemma_first_index_at(s.drop_first(), c, k - 1);
    }
}

/// Any occurrence of `c` bounds the first one from above.
pub proof fn lemma_first_index_exists(s: Seq<char>, c: char, w: int)
    requires
        0 <= w < s.len(),
        s[w] == c,
    ensures
        0 <= spec_first_index(s, c) <= w,
    decreases s.len(),
{
    if s[0] != c {
        lemma_first_index_exists(s.drop_first(), c, w - 1);
    }
}

/// Index of the first occurrence of `c` in `s`, if any.
pub fn find_char(s: &str, c: char) -> (r: Option<usize>)
    ensures
        match r {
            Some(i) => spec_first_index(s@, c) == i as int,
            None => spec_first_index(s@, c) == -1,
        },
{
    let n = s.unicode_len();
    let mut i: usize = 0;
    while i < n
        invariant
            0 <= i <= n,
            n == s@.len(),
            forall|j: int| 0 <= j < i ==> s@[j] != c,
        decreases n - i,
    {
        if s.get_char(i) == c {
            proof {
                lemma_first_index_at(s@, c, i as int);
            }
            return Some(i);
        }
        i = i + 1;
    }
    proof {
        lemma_first_index_at(s@, c, n as int);
    }
    None
}

/// Fields of `s` split on every occurrence of `sep`; always at least one
/// field, as with `str::split`.
pub open spec fn spec_split(s: Seq<char>, sep: char) -> Seq<Seq<char>>
    decreases s.len(),
    via spec_split_decreases
{
    let i = spec_first_index(s, sep);
    if i < 0 {
        seq![s]
    } else {
        seq![s.take(i)] + spec_split(s.skip(i + 1), sep)
    }
}

#[via_fn]
proof fn spec_split_decreases(s: Seq<char>, sep: char) {
    lemma_first_index_bounds(s, sep);
}

/// Splits `s` on every occurrence of `sep`, as `str::split` does.
pub fn split_char(s: &str, sep: char) -> (parts: Vec<String>)
    ensures
        parts.deep_view() == spec_split(s@, sep),
{
    let s_len = s.unicode_len();
    let mut parts: Vec<String> = Vec::new();
    let mut start: usize = 0;
    let mut i: usize = 0;
    proof {
        assert(parts.deep_view() =~= Seq::<Seq<char>>::empty());
        assert(s@.skip(0) =~= s@);
        assert(Seq::<Seq<char>>::empty() + spec_split(s@, sep) =~= spec_split(s@, sep));
    }
    while i < s_len
        invariant
            0 <= start <= i <= s_len,
            s_len == s@.len(),
            forall|j: int| start <= j < i ==> s@[j] != sep,
            spec_split(s@, sep) == parts.deep_view() + spec_split(s@.skip(start as int), sep),
        decreases s_len - i,
    {
        if s.get_char(i) == sep {
            let field = s.substring_char(start, i);
            let ghost old_parts = parts.deep_view();
            parts.push(String::from_str(field));
            proof {
                let tail = s@.skip(start as int);
                lemma_first_index_at(tail, sep, i - start);
                assert(tail.take(i - start) =~= s@.subrange(start as int, i as int));
                assert(tail.skip(i - start + 1) =~= s@.skip(i + 1));
                assert(spec_split(tail, sep) == seq![field@] + spec_split(s@.skip(i + 1), sep));
                assert(parts.deep_view() =~= old_parts.push(field@));
                assert(parts.deep_view() + spec_split(s@.skip(i + 1), sep) =~= old_parts + (seq![
                    field@,
                ] + spec_split(s@.skip(i + 1), sep)));
            }
            start = i + 1;
        }
        i = i + 1;
    }
    let field = s.substring_char(start, s_len);
    let ghost old_parts = parts.deep_view();
    parts.push(String::from_str(field));
    proof {
        let tail = s@.skip(start as int);
        lemma_first_index_at(tail, sep, s_len - start);
        assert(tail =~= s@.subrange(start as int, s_len as int));
        assert(spec_split(tail, sep) == seq![tail]);
        assert(parts.deep_view() =~= old_parts.push(field@));
        assert(parts.deep_view() =~= old_parts + seq![tail]);
    }
    parts
}

/// A line with one trailing carriage return removed, as `str::lines` does.
pub open spec fn spec_strip_cr(l: Seq<char>) -> Seq<char> {
    if l.len() > 0 && l[l.len() - 1] == '\r' {
        l.drop_last()
    } else {
        l
    }
}

/// The lines of `s`: split on line feeds, one trailing carriage return
/// removed from each line, and no final empty line after a terminator —
/// the behaviour of `str::lines`.
pub open spec fn spec_lines(s: Seq<char>) -> Seq<Seq<char>>
    decreases s.len(),
    via spec_lines_decreases
{
    if s.len() == 0 {
        Seq::empty()
    } else {
        let i = spec_first_index(s, '\n');
        if i < 0 {
            seq![spec_strip_cr(s)]
        } else {
            seq![spec_strip_cr(s.take(i))] + spec_lines(s.skip(i + 1))
        }
    }
}

#[via_fn]
proof fn spec_lines_decreases(s: Seq<char>) {
    lemma_first_index_bounds(s, '\n');
}

fn strip_cr(l: &str) -> (r: String)
    ensures
        r@ == spec_strip_cr(l@),
{
    let l_len = l.unicode_len();
    if l_len > 0 && l.get_char(l_len - 1) == '\r' {
        let r = String::from_str(l.substring_char(0, l_len - 1));
        proof {
            assert(l@.subrange(0, l@.len() - 1) =~= l@.drop_last());
        }
        r
    } else {
        String::from_str(l)
    }
}

/// Splits `s` into lines, as `str::lines` does.
pub fn split_lines(s: &str) -> (lines: Vec<String>)
    ensures
        lines.deep_view() == spec_lines(s@),
{
    let s_len = s.unicode_len();
    let mut lines: Vec<String> = Vec::new();
    let mut start: usize = 0;
    let mut i: usize = 0;
    proof {
        assert(lines.deep_view() =~= Seq::<Seq<char>>::empty());
        assert(s@.skip(0) =~= s@);
        assert(Seq::<Seq<char>>::empty() + spec_lines(s@) =~= spec_lines(s@));
    }
    while i < s_len
        invariant
            0 <= start <= i <= s_len,
            s_len == s@.len(),
            forall|j: int| start <= j < i ==> s@[j] != '\n',
            spec_lines(s@) == lines.deep_view() + spec_lines(s@.skip(start as int)),
        decreases s_len - i,
    {
        if s.get_char(i) == '\n' {
            let line = strip_cr(s.substring_char(start, i));
            let ghost old_lines = lines.deep_view();
            lines.push(line);
            proof {
                let tail = s@.skip(start as int);
                lemma_first_index_at(tail, '\n', i - start);
                assert(tail.len() > 0);
                assert(tail.take(i - start) =~= s@.subrange(start as int, i as int));
                assert(tail.skip(i - start + 1) =~= s@.skip(i + 1));
                assert(spec_lines(tail) == seq![spec_strip_cr(s@.subrange(start as int, i as int))]
                    + spec_lines(s@.skip(i + 1)));
                assert(lines.deep_view() =~= old_lines.push(
                    spec_strip_cr(s@.subrange(start as int, i as int)),
                ));
                assert(lines.deep_view() + spec_lines(s@.skip(i + 1)) =~= old_lines + (seq![
                    spec_strip_cr(s@.subrange(start as int, i as int)),
                ] + spec_lines(s@.skip(i + 1))));
            }
            start = i + 1;
        }
        i = i + 1;
    }
    if start < s_len {
        let line = strip_cr(s.substring_char(start, s_len));
        let ghost old_lines = lines.deep_view();
        lines.push(line);
        proof {
            let tail = s@.skip(start as int);
            lemma_first_index_at(tail, '\n', s_len - start);
            assert(tail =~= s@.subrange(start as int, s_len as int));
            assert(spec_lines(tail) == seq![spec_strip_cr(tail)]);
            assert(lines.deep_view() =~= old_lines.push(spec_strip_cr(tail)));
            assert(lines.deep_view() =~= old_lines + seq![spec_strip_cr(tail)]);
        }
    } else {
        proof {
            assert(s@.skip(start as int) =~= Seq::<char>::empty());
            assert(lines.deep_view() + spec_lines(s@.skip(start as int)) =~= lines.deep_view());
        }
    }
    lines
}

/// Character-for-character equality of two string slices.
pub fn str_eq(a: &str, b: &str) -> (r: bool)
    ensures
        r == (a@ == b@),
{
    let a_len = a.unicode_len();
    let b_len = b.unicode_len();
    if a_len != b_len {
        assert(a@ != b@);
        return false;
    }
    let mut i: usize = 0;
    while i < a_len
        invariant
            0 <= i <= a_len,
            a_len == a@.len(),
            a_len == b@.len(),
            forall|j: int| 0 <= j < i ==> a@[j] == b@[j],
        decreases a_len - i,
    {
        if a.get_char(i) != b.get_char(i) {
            return false;
        }
        i = i + 1;
    }
    assert(a@ =~= b@);
    true
}

/// Whether `s` ends with the suffix `suf`.
pub open spec fn spec_ends_with(s: Seq<char>, suf: Seq<char>) -> bool {
    s.len() >= suf.len() && s.skip(s.len() - suf.len()) == suf
}

pub fn str_ends_with(s: &str, suf: &str) -> (r: bool)
    ensures
        r == spec_ends_with(s@, suf@),
{
    let s_len = s.unicode_len();
    let suf_len = suf.unicode_len();
    if suf_len > s_len {
        return false;
    }
    let tail = s.substring_char(s_len - suf_len, s_len);
    proof {
        assert(s@.subrange(s@.len() - suf@.len(), s@.len() as int) =~= s@.skip(
            s@.len() - suf@.len(),
        ));
    }
    str_eq(tail, suf)
}

pub open spec fn spec_trim_start(s: Seq<char>) -> Seq<char>
    decreases s.len(),
{
    if s.len() > 0 && spec_is_ws(s[0]) {
        spec_trim_start(s.drop_first())
    } else {
        s
    }
}

pub open spec fn spec_trim_end(s: Seq<char>) -> Seq<char>
    decreases s.len(),
{
    if s.len() > 0 && spec_is_ws(s[s.len() - 1]) {
        spec_trim_end(s.drop_last())
    } else {
        s
    }
}

/// `s` with leading and trailing whitespace removed.
pub open spec fn spec_trim(s: Seq<char>) -> Seq<char> {
    spec_trim_end(spec_trim_start(s))
}

proof fn lemma_trim_start_skip(s: Seq<char>, k: int)
    requires
        0 <= k <= s.len(),
        forall|j: int| 0 <= j < k ==> spec_is_ws(s[j]),
        k < s.len() ==> !spec_is_ws(s[k]),
    ensures
        spec_trim_start(s) == s.skip(k),
    decreases k,
{
    if k == 0 {
        assert(s.skip(0) =~= s);
    } else {
        lemma_trim_start_skip(s.drop_first(), k - 1);
        assert(s.drop_first().skip(k - 1) =~= s.skip(k));
    }
}

proof fn lemma_trim_end_take(s: Seq<char>, k: int)
    requires
        0 <= k <= s.len(),
        forall|j: int| k <= j < s.len() ==> spec_is_ws(s[j]),
        k > 0 ==> !spec_is_ws(s[k - 1]),
    ensures
        spec_trim_end(s) == s.take(k),
    decreases s.len() - k,
{
    if k == s.len() {
        assert(s.take(k) =~= s);
    } else {
        lemma_trim_end_take(s.drop_last(), k);
        assert(s.drop_last().take(k) =~= s.take(k));
    }
}

/// Removes leading and trailing whitespace, as `str::trim` does on
/// ASCII-whitespace-padded text.
pub fn trim(s: &str) -> (r: String)
    ensures
        r@ == spec_trim(s@),
{
    let s_len = s.unicode_len();
    let mut lo: usize = 0;
    while lo < s_len && is_ws(s.get_char(lo))
        invariant
            0 <= lo <= s_len,
            s_len == s@.len(),
            forall|j: int| 0 <= j < lo ==> spec_is_ws(s@[j]),
        decreases s_len - lo,
    {
        lo = lo + 1;
    }
    proof {
        lemma_trim_start_skip(s@, lo as int);
    }
    if lo == s_len {
        proof {
            assert(s@.skip(lo as int) =~= Seq::<char>::empty());
        }
        return String::new();
    }
    let mut hi: usize = s_len;
    while hi > lo && is_ws(s.get_char(hi - 1))
        invariant
            lo <= hi <= s_len,
            s_len == s@.len(),
            forall|j: int| hi <= j < s_len ==> spec_is_ws(s@[j]),
        decreases hi,
    {
        hi = hi - 1;
    }
    assert(!spec_is_ws(s@[lo as int]));
    assert(hi > lo);
    let r = String::from_str(s.substring_char(lo, hi));
    proof {
        let t = s@.skip(lo as int);
        lemma_trim_end_take(t, hi - lo);
        assert(t.take(hi - lo) =~= s@.subrange(lo as int, hi as int));
    }
    r
}

fn is_ws(c: char) -> (r: bool)
    ensures
        r == spec_is_ws(c),
{
    c == ' ' || c == '\t' || c == '\r' || c == '\n'
}

/// The decimal digit characters of `n`, most significant first.
pub open spec fn spec_dec_digits(n: nat) -> Seq<char>
    decreases n,
{
    if n < 10 {
        seq![spec_digit_char(n)]
    } else {
        spec_dec_digits(n / 10).push(spec_digit_char(n % 10))
    }
}

pub open spec fn spec_digit_char(d: nat) -> char {
    if d == 0 {
        '0'
    } else if d == 1 {
        '1'
    } else if d == 2 {
        '2'
    } else if d == 3 {
        '3'
    } else if d == 4 {
        '4'
    } else if d == 5 {
        '5'
    } else if d == 6 {
        '6'
    } else if d == 7 {
        '7'
    } else if d == 8 {
        '8'
    } else {
        '9'
    }
}

fn digit_literal(d: usize) -> (s: &'static str)
    requires
        d < 10,
    ensures
        s@ =~= seq![spec_digit_char(d as nat)],
{
    proof {
        reveal_strlit("0");
        reveal_strlit("1");
        reveal_strlit("2");
        reveal_strlit("3");
        reveal_strlit("4");
        reveal_strlit("5");
        reveal_strlit("6");
        reveal_strlit("7");
        reveal_strlit("8");
        reveal_strlit("9");
    }
    match d {
        0 => "0",
        1 => "1",
        2 => "2",
        3 => "3",
        4 => "4",
        5 => "5",
        6 => "6",
        7 => "7",
        8 => "8",
        _ => "9",
    }
}

/// Renders `n` in decimal, most significant digit first.
pub fn usize_to_dec(n: usize) -> (s: String)
    ensures
        s@ == spec_dec_digits(n as nat),
    decreases n,
{
    if n < 10 {
        String::from_str(digit_literal(n))
    } else {
        let mut s = usize_to_dec(n / 10);
        s.append(digit_literal(n % 10));
        proof {
            assert(s@ =~= spec_dec_digits((n / 10) as nat).push(spec_digit_char((n % 10) as nat)));
        }
        s
    }
}

} // verus!
