//! Text as a sequence of characters: conversion between strings and character
//! vectors, whitespace, trimming, searching, lines and decimal numbers.

use vstd::prelude::*;
use vstd::string::StringSliceAdditionalSpecFns;
use vstd::utf8::{
    decode_utf8, encode_utf8, encode_utf8_decode_utf8, encode_utf8_valid_utf8, is_char_boundary,
    is_char_boundary_start_end_of_seq,
};

verus! {

broadcast use vstd::string::group_string_axioms;

/// `String::push`: the string afterwards is the string before with `c` at
/// its end. This is taken from the documentation of std, not proved.
pub assume_specification[ String::push ](s: &mut String, c: char)
    ensures
        final(s)@ == old(s)@.push(c),
;

/// The characters of a string, in order.
pub fn chars_of(s: &str) -> (v: Vec<char>)
    ensures
        v@ == s@,
{
    let mut v: Vec<char> = Vec::new();
    for c in it: s.chars()
        invariant
            it.seq() == s@,
            v@ == it.seq().take(it.index()),
    {
        v.push(c);
    }
    v
}

/// The string made of the characters `v[lo..hi]`.
pub(crate) fn string_of_range(v: &Vec<char>, lo: usize, hi: usize) -> (s: String)
    requires
        lo <= hi <= v.len(),
    ensures
        s@ == v@.subrange(lo as int, hi as int),
{
    let mut s = String::new();
    let mut i: usize = lo;
    while i < hi
        invariant
            lo <= i <= hi <= v.len(),
            s@ == v@.subrange(lo as int, i as int),
        decreases hi - i,
    {
        s.push(v[i]);
        i += 1;
    }
    s
}

/// The string made of the characters of `v`.
pub fn string_of(v: &Vec<char>) -> (s: String)
    ensures
        s@ == v@,
{
    string_of_range(v, 0, v.len())
}

/// Whether two strings hold the same characters.
pub fn same_text(a: &str, b: &str) -> (r: bool)
    ensures
        r == (a@ == b@),
{
    let x = chars_of(a);
    let y = chars_of(b);
    same_chars(&x, &y)
}

/// Whether two character vectors hold the same characters.
pub fn same_chars(x: &Vec<char>, y: &Vec<char>) -> (r: bool)
    ensures
        r == (x@ == y@),
{
    if x.len() != y.len() {
        return false;
    }
    let mut i: usize = 0;
    while i < x.len()
        invariant
            i <= x.len(),
            x.len() == y.len(),
            x@.take(i as int) == y@.take(i as int),
        decreases x.len() - i,
    {
        if x[i] != y[i] {
            return false;
        }
        i += 1;
    }
    assert(x@.take(x.len() as int) =~= x@);
    assert(y@.take(y.len() as int) =~= y@);
    true
}

/// The characters that Unicode marks as White_Space.
pub open spec fn is_space(c: char) -> bool {
    let n = c as u32;
    ||| 0x09 <= n <= 0x0D
    ||| n == 0x20
    ||| n == 0x85
    ||| n == 0xA0
    ||| n == 0x1680
    ||| 0x2000 <= n <= 0x200A
    ||| n == 0x2028
    ||| n == 0x2029
    ||| n == 0x202F
    ||| n == 0x205F
    ||| n == 0x3000
}

/// Whether `c` is a whitespace character.
pub fn is_whitespace(c: char) -> (r: bool)
    ensures
        r == is_space(c),
{
    let n: u32 = c as u32;
    (0x09 <= n && n <= 0x0D) || n == 0x20 || n == 0x85 || n == 0xA0 || n == 0x1680 || (0x2000 <= n
        && n <= 0x200A) || n == 0x2028 || n == 0x2029 || n == 0x202F || n == 0x205F || n == 0x3000
}

/// `s` without its leading whitespace.
pub open spec fn trim_front(s: Seq<char>) -> Seq<char>
    decreases s.len(),
{
    if s.len() > 0 && is_space(s.first()) {
        trim_front(s.drop_first())
    } else {
        s
    }
}

/// `s` without its trailing whitespace.
pub open spec fn trim_back(s: Seq<char>) -> Seq<char>
    decreases s.len(),
{
    if s.len() > 0 && is_space(s.last()) {
        trim_back(s.drop_last())
    } else {
        s
    }
}

/// `s` without its leading and trailing whitespace.
pub open spec fn trimmed(s: Seq<char>) -> Seq<char> {
    trim_back(trim_front(s))
}

/// Dropping leading whitespace one character at a time: once `i` characters,
/// all of them whitespace, are gone, what is left trims to the same text.
pub proof fn lemma_trim_front_skip(s: Seq<char>, i: int)
    requires
        0 <= i <= s.len(),
        forall|k: int| 0 <= k < i ==> is_space(#[trigger] s[k]),
    ensures
        trim_front(s) == trim_front(s.subrange(i, s.len() as int)),
    decreases i,
{
    if i == 0 {
        assert(s.subrange(0, s.len() as int) =~= s);
    } else {
        let t = s.drop_first();
        lemma_trim_front_skip(t, i - 1);
        assert(t.subrange(i - 1, t.len() as int) =~= s.subrange(i, s.len() as int));
    }
}

/// The mirror image of `lemma_trim_front_skip` for the end of the text.
pub proof fn lemma_trim_back_skip(s: Seq<char>, j: int)
    requires
        0 <= j <= s.len(),
        forall|k: int| j <= k < s.len() ==> is_space(#[trigger] s[k]),
    ensures
        trim_back(s) == trim_back(s.subrange(0, j)),
    decreases s.len() - j,
{
    if j == s.len() {
        assert(s.subrange(0, j) =~= s);
    } else {
        let t = s.drop_last();
        lemma_trim_back_skip(t, j);
        assert(t.subrange(0, j) =~= s.subrange(0, j));
    }
}

/// The characters `v[lo..hi]` as a vector of their own.
pub(crate) fn copy_range(v: &Vec<char>, lo: usize, hi: usize) -> (r: Vec<char>)
    requires
        lo <= hi <= v.len(),
    ensures
        r@ == v@.subrange(lo as int, hi as int),
{
    let mut r: Vec<char> = Vec::new();
    let mut i: usize = lo;
    while i < hi
        invariant
            lo <= i <= hi <= v.len(),
            r@ == v@.subrange(lo as int, i as int),
        decreases hi - i,
    {
        r.push(v[i]);
        i += 1;
    }
    r
}

/// The bounds `(a, b)` of the trimmed part of `v[lo..hi]`.
pub(crate) fn trim_bounds(v: &Vec<char>, lo: usize, hi: usize) -> (r: (usize, usize))
    requires
        lo <= hi <= v.len(),
    ensures
        lo <= r.0 <= r.1 <= hi,
        v@.subrange(r.0 as int, r.1 as int) == trimmed(v@.subrange(lo as int, hi as int)),
{
    let ghost s = v@.subrange(lo as int, hi as int);
    let mut a: usize = lo;
    while a < hi && is_whitespace(v[a])
        invariant
            lo <= a <= hi <= v.len(),
            s == v@.subrange(lo as int, hi as int),
            forall|k: int| 0 <= k < a - lo ==> is_space(#[trigger] s[k]),
        decreases hi - a,
    {
        a += 1;
    }
    let ghost f = v@.subrange(a as int, hi as int);
    proof {
        lemma_trim_front_skip(s, a - lo);
        assert(trim_front(s) == f);
    }
    let mut b: usize = hi;
    while b > a && is_whitespace(v[b - 1])
        invariant
            a <= b <= hi <= v.len(),
            f == v@.subrange(a as int, hi as int),
            forall|k: int| b - a <= k < f.len() ==> is_space(#[trigger] f[k]),
        decreases b,
    {
        b -= 1;
    }
    proof {
        lemma_trim_back_skip(f, b - a);
    }
    (a, b)
}

/// `v` without its leading and trailing whitespace.
pub fn trim(v: &Vec<char>) -> (r: Vec<char>)
    ensures
        r@ == trimmed(v@),
{
    let (a, b) = trim_bounds(v, 0, v.len());
    assert(v@.subrange(0, v.len() as int) =~= v@);
    copy_range(v, a, b)
}

/// Whether `pat` stands in `s` at position `i`.
pub open spec fn has_at(s: Seq<char>, i: int, pat: Seq<char>) -> bool {
    &&& 0 <= i
    &&& i + pat.len() <= s.len()
    &&& s.subrange(i, i + pat.len()) == pat
}

/// Whether `pat` stands in `v` at position `i`.
pub fn matches_at(v: &Vec<char>, i: usize, pat: &Vec<char>) -> (r: bool)
    ensures
        r == has_at(v@, i as int, pat@),
{
    if pat.len() > v.len() || i > v.len() - pat.len() {
        return false;
    }
    let mut k: usize = 0;
    while k < pat.len()
        invariant
            k <= pat.len(),
            i + pat.len() <= v.len(),
            v@.subrange(i as int, i + k) == pat@.take(k as int),
        decreases pat.len() - k,
    {
        if v[i + k] != pat[k] {
            return false;
        }
        k += 1;
    }
    assert(pat@.take(pat.len() as int) =~= pat@);
    true
}

/// The first position at or after `from` where `pat` stands in `s`.
pub open spec fn find_from(s: Seq<char>, pat: Seq<char>, from: int) -> Option<int>
    decreases s.len() + 1 - from,
{
    if from < 0 || from + pat.len() > s.len() {
        None
    } else if has_at(s, from, pat) {
        Some(from)
    } else {
        find_from(s, pat, from + 1)
    }
}

/// What `find_from` finds is the least position at or after `from` that holds
/// `pat`; it finds nothing only where no such position exists.
pub proof fn lemma_find_from(s: Seq<char>, pat: Seq<char>, from: int)
    requires
        0 <= from,
    ensures
        match find_from(s, pat, from) {
            Some(p) => from <= p && has_at(s, p, pat) && forall|k: int|
                from <= k < p ==> !has_at(s, k, pat),
            None => forall|k: int| from <= k ==> !has_at(s, k, pat),
        },
    decreases s.len() + 1 - from,
{
    if from + pat.len() <= s.len() && !has_at(s, from, pat) {
        lemma_find_from(s, pat, from + 1);
    }
}

/// A position that holds `pat`, with none before it from `from` on, is what
/// `find_from` finds.
pub proof fn lemma_find_from_is(s: Seq<char>, pat: Seq<char>, from: int, p: int)
    requires
        0 <= from <= p,
        has_at(s, p, pat),
        forall|k: int| from <= k < p ==> !has_at(s, k, pat),
    ensures
        find_from(s, pat, from) == Some(p),
    decreases p - from,
{
    if from < p {
        lemma_find_from_is(s, pat, from + 1, p);
    }
}

/// The first position at or after `from` where `pat` stands in `v`.
pub fn find(v: &Vec<char>, pat: &Vec<char>, from: usize) -> (r: Option<usize>)
    ensures
        match r {
            Some(p) => find_from(v@, pat@, from as int) == Some(p as int),
            None => find_from(v@, pat@, from as int).is_none(),
        },
{
    if pat.len() > v.len() {
        return None;
    }
    let last: usize = v.len() - pat.len();
    let mut i: usize = from;
    while i <= last
        invariant
            from <= i,
            last == v.len() - pat.len(),
            find_from(v@, pat@, from as int) == find_from(v@, pat@, i as int),
        decreases last + 1 - i,
    {
        if matches_at(v, i, pat) {
            return Some(i);
        }
        if i == last {
            assert(find_from(v@, pat@, i + 1).is_none());
            return None;
        }
        i += 1;
    }
    None
}

/// The decimal digit for `d`.
pub open spec fn digit(d: int) -> char {
    if d == 0 {
        '0'
    } else if d == 1 {
        '1'
    } else if d == 2 {
        '2'
    } else if d == 3 {
        '3'
    } else if d == 4 {
        '4'
    } else if d == 5 {
        '5'
    } else if d == 6 {
        '6'
    } else if d == 7 {
        '7'
    } else if d == 8 {
        '8'
    } else {
        '9'
    }
}

/// The decimal digits of `n`, most significant first, without leading zeros.
pub open spec fn digits(n: nat) -> Seq<char>
    decreases n,
{
    if n < 10 {
        seq![digit(n as int)]
    } else {
        digits(n / 10).push(digit((n % 10) as int))
    }
}

/// `n` in decimal, with a minus sign in front where it is negative.
pub open spec fn decimal(n: int) -> Seq<char> {
    if n < 0 {
        seq!['-'] + digits((-n) as nat)
    } else {
        digits(n as nat)
    }
}

fn digit_char(d: u64) -> (c: char)
    requires
        d < 10,
    ensures
        c == digit(d as int),
{
    if d == 0 {
        '0'
    } else if d == 1 {
        '1'
    } else if d == 2 {
        '2'
    } else if d == 3 {
        '3'
    } else if d == 4 {
        '4'
    } else if d == 5 {
        '5'
    } else if d == 6 {
        '6'
    } else if d == 7 {
        '7'
    } else if d == 8 {
        '8'
    } else {
        '9'
    }
}

/// Appends the decimal digits of `n` to `out`.
pub fn push_digits(out: &mut String, n: u64)
    ensures
        final(out)@ == old(out)@ + digits(n as nat),
    decreases n,
{
    if n < 10 {
        out.push(digit_char(n));
    } else {
        push_digits(out, n / 10);
        out.push(digit_char(n % 10));
    }
}

/// Appends `n` in decimal to `out`.
pub fn push_decimal(out: &mut String, n: i64)
    ensures
        final(out)@ == old(out)@ + decimal(n as int),
{
    if n < 0 {
        out.push('-');
        let m: u64 = if n == i64::MIN {
            9223372036854775808u64
        } else {
            (-n) as u64
        };
        push_digits(out, m);
    } else {
        push_digits(out, n as u64);
    }
}

/// `line` without the carriage return at its end, where it has one.
pub open spec fn without_cr(line: Seq<char>) -> Seq<char> {
    if line.len() > 0 && line.last() == '\r' {
        line.drop_last()
    } else {
        line
    }
}

/// The lines that `s` has finished, and the line that it has begun: a
/// newline finishes a line, and a carriage return right before the newline
/// belongs to the line's end.
pub open spec fn line_scan(s: Seq<char>) -> (Seq<Seq<char>>, Seq<char>)
    decreases s.len(),
{
    if s.len() == 0 {
        (Seq::empty(), Seq::empty())
    } else {
        let before = line_scan(s.drop_last());
        if s.last() == '\n' {
            (before.0.push(without_cr(before.1)), Seq::empty())
        } else {
            (before.0, before.1.push(s.last()))
        }
    }
}

/// The lines of `s`, without their line ends. The last line needs no newline
/// after it; a text that ends in a newline has no empty line after it.
pub open spec fn lines_of(s: Seq<char>) -> Seq<Seq<char>> {
    let scan = line_scan(s);
    if scan.1.len() > 0 {
        scan.0.push(scan.1)
    } else {
        scan.0
    }
}

/// The lines, with a newline between each two.
pub open spec fn join_lines(lines: Seq<Seq<char>>) -> Seq<char>
    decreases lines.len(),
{
    if lines.len() == 0 {
        Seq::empty()
    } else if lines.len() == 1 {
        lines[0]
    } else {
        join_lines(lines.drop_last()) + seq!['\n'] + lines.last()
    }
}

/// The character sequences that the vectors hold.
pub open spec fn rows(lines: Seq<Vec<char>>) -> Seq<Seq<char>> {
    lines.map_values(|line: Vec<char>| line@)
}

/// The lines of `v`.
pub fn lines(v: &Vec<char>) -> (r: Vec<Vec<char>>)
    ensures
        rows(r@) == lines_of(v@),
{
    let mut done: Vec<Vec<char>> = Vec::new();
    let mut current: Vec<char> = Vec::new();
    let mut i: usize = 0;
    while i < v.len()
        invariant
            i <= v.len(),
            rows(done@) == line_scan(v@.take(i as int)).0,
            current@ == line_scan(v@.take(i as int)).1,
        decreases v.len() - i,
    {
        let c = v[i];
        proof {
            assert(v@.take(i + 1).drop_last() =~= v@.take(i as int));
        }
        if c == '\n' {
            let n = current.len();
            let line = if n > 0 && current[n - 1] == '\r' {
                copy_range(&current, 0, n - 1)
            } else {
                current
            };
            done.push(line);
            current = Vec::new();
        } else {
            current.push(c);
        }
        i += 1;
    }
    assert(v@.take(v.len() as int) =~= v@);
    if current.len() > 0 {
        done.push(current);
    }
    done
}

/// The lines from position `from` on, with a newline between each two.
pub(crate) fn join_from(lines: &Vec<Vec<char>>, from: usize) -> (r: Vec<char>)
    requires
        from <= lines.len(),
    ensures
        r@ == join_lines(rows(lines@).subrange(from as int, lines.len() as int)),
{
    let mut r: Vec<char> = Vec::new();
    let mut i: usize = from;
    while i < lines.len()
        invariant
            from <= i <= lines.len(),
            r@ == join_lines(rows(lines@).subrange(from as int, i as int)),
        decreases lines.len() - i,
    {
        let ghost before = rows(lines@).subrange(from as int, i as int);
        let ghost after = rows(lines@).subrange(from as int, i + 1);
        proof {
            assert(after.drop_last() =~= before);
        }
        if i > from {
            r.push('\n');
        }
        let line = &lines[i];
        let mut k: usize = 0;
        let ghost head = r@;
        while k < line.len()
            invariant
                k <= line.len(),
                r@ == head + line@.take(k as int),
            decreases line.len() - k,
        {
            r.push(line[k]);
            k += 1;
        }
        i += 1;
    }
    r
}

/// The last character boundary of `bytes` at or before `limit`.
pub open spec fn cut_point(bytes: Seq<u8>, limit: int) -> int
    decreases limit,
{
    if limit <= 0 {
        0
    } else if is_char_boundary(bytes, limit) {
        limit
    } else {
        cut_point(bytes, limit - 1)
    }
}

/// The longest beginning of `text` whose UTF-8 form takes at most `limit`
/// bytes.
pub open spec fn truncated(text: Seq<char>, limit: int) -> Seq<char> {
    let bytes = encode_utf8(text);
    if bytes.len() <= limit {
        text
    } else {
        decode_utf8(bytes.subrange(0, cut_point(bytes, limit)))
    }
}

/// The longest beginning of `text` that takes at most `limit` bytes.
pub fn truncate(text: &str, limit: usize) -> (r: &str)
    ensures
        r@ == truncated(text@, limit as int),
{
    if text.as_bytes().len() <= limit {
        return text;
    }
    let ghost bytes = text.spec_bytes();
    let mut m: usize = limit;
    while m > 0 && !text.is_char_boundary(m)
        invariant
            m <= limit < bytes.len(),
            bytes == text.spec_bytes(),
            cut_point(bytes, limit as int) == cut_point(bytes, m as int),
        decreases m,
    {
        m -= 1;
    }
    proof {
        encode_utf8_valid_utf8(text@);
        is_char_boundary_start_end_of_seq(bytes);
    }
    let (head, _) = text.split_at(m);
    proof {
        encode_utf8_decode_utf8(head@);
    }
    head
}

} // verus!
