//! Character-level helpers on strings: conversion between strings and
//! character vectors, prefixes, whitespace trimming and case folding.

use vstd::prelude::*;
use vstd::string::StringExecFns;

verus! {

/// Appends one character to a string (`String::push`): the contract states
/// that the character is added at the end and nothing else changes.
#[verifier::external_body]
pub(crate) fn push_char(s: &mut String, c: char)
    ensures
        final(s)@ == old(s)@.push(c),
{
    s.push(c);
}

/// Whether `c` has the Unicode `White_Space` property, the characters that
/// `char::is_whitespace` accepts: U+0009 to U+000D, the space, U+0085,
/// U+00A0, U+1680, U+2000 to U+200A, U+2028, U+2029, U+202F, U+205F and
/// U+3000.
pub open spec fn is_white_space(c: char) -> bool {
    ||| ('\u{9}' <= c && c <= '\u{d}')
    ||| c == ' '
    ||| c == '\u{85}'
    ||| c == '\u{a0}'
    ||| c == '\u{1680}'
    ||| ('\u{2000}' <= c && c <= '\u{200a}')
    ||| c == '\u{2028}'
    ||| c == '\u{2029}'
    ||| c == '\u{202f}'
    ||| c == '\u{205f}'
    ||| c == '\u{3000}'
}

/// Whether `c` is whitespace (see `is_white_space`).
pub fn char_is_whitespace(c: char) -> (r: bool)
    ensures
        r == is_white_space(c),
{
    ('\u{9}' <= c && c <= '\u{d}') || c == ' ' || c == '\u{85}' || c == '\u{a0}' || c == '\u{1680}'
        || ('\u{2000}' <= c && c <= '\u{200a}') || c == '\u{2028}' || c == '\u{2029}' || c == '\u{202f}'
        || c == '\u{205f}' || c == '\u{3000}'
}

/// The lowercase form of a string, as `str::to_lowercase` computes it.
pub uninterp spec fn lowercase(s: Seq<char>) -> Seq<char>;

/// Whether every character of `s` is ASCII.
pub open spec fn all_ascii(s: Seq<char>) -> bool {
    forall|i: int| 0 <= i < s.len() ==> (s[i] as u32) < 128
}

/// The ASCII lowercase form of one character.
pub open spec fn ascii_lower(c: char) -> char {
    if 'A' <= c && c <= 'Z' {
        ((c as u32) + 32) as char
    } else {
        c
    }
}

/// `str::to_lowercase`. The result is named `lowercase(s@)`; for an ASCII
/// string the documentation fixes it, character by character, as the ASCII
/// lowercase form. For other strings (where a character may lower to several,
/// or depend on its neighbours) nothing more is stated.
#[verifier::external_body]
pub(crate) fn to_lowercase(s: &str) -> (r: String)
    ensures
        r@ == lowercase(s@),
        all_ascii(s@) ==> r@ == s@.map_values(|c: char| ascii_lower(c)),
{
    s.to_lowercase()
}

/// The characters of `s`, in order.
pub fn chars_of(s: &str) -> (v: Vec<char>)
    ensures
        v@ == s@,
{
    let mut v: Vec<char> = Vec::new();
    for c in it: s.chars()
        invariant
            v@ == it.seq().take(it.index() as int),
    {
        v.push(c);
    }
    v
}

/// The string made of `cs[from..to]`.
pub fn string_of(cs: &[char], from: usize, to: usize) -> (s: String)
    requires
        from <= to <= cs@.len(),
    ensures
        s@ == cs@.subrange(from as int, to as int),
{
    let mut s = String::new();
    let mut i = from;
    while i < to
        invariant
            from <= i <= to <= cs@.len(),
            s@ == cs@.subrange(from as int, i as int),
        decreases to - i,
    {
        push_char(&mut s, cs[i]);
        assert(cs@.subrange(from as int, i + 1) == cs@.subrange(from as int, i as int).push(cs@[i as int]));
        i = i + 1;
    }
    s
}

/// Whether `p` is a prefix of `s`.
pub open spec fn starts_with(s: Seq<char>, p: Seq<char>) -> bool {
    p.len() <= s.len() && s.take(p.len() as int) == p
}

/// Whether `cs[from..]` starts with `p`.
pub fn has_prefix_at(cs: &[char], from: usize, p: &[char]) -> (b: bool)
    requires
        from <= cs@.len(),
    ensures
        b == starts_with(cs@.skip(from as int), p@),
{
    if p.len() > cs.len() - from {
        return false;
    }
    let mut i: usize = 0;
    while i < p.len()
        invariant
            from + p@.len() <= cs@.len(),
            p@.len() == p.len(),
            cs@.len() == cs.len(),
            i <= p@.len(),
            forall|j: int| 0 <= j < i ==> cs@[from + j] == p@[j],
        decreases p.len() - i,
    {
        if cs[from + i] != p[i] {
            assert(cs@.skip(from as int).take(p@.len() as int)[i as int] != p@[i as int]);
            return false;
        }
        i = i + 1;
    }
    assert(cs@.skip(from as int).take(p@.len() as int) =~= p@);
    true
}

/// The number of whitespace characters at the start of `s`.
pub open spec fn leading_ws(s: Seq<char>) -> nat
    decreases s.len(),
{
    if s.len() > 0 && is_white_space(s[0]) {
        1 + leading_ws(s.drop_first())
    } else {
        0
    }
}

/// The number of whitespace characters at the end of `s`.
pub open spec fn trailing_ws(s: Seq<char>) -> nat
    decreases s.len(),
{
    if s.len() > 0 && is_white_space(s.last()) {
        1 + trailing_ws(s.drop_last())
    } else {
        0
    }
}

/// `s` without its leading whitespace (`str::trim_start`).
pub open spec fn trim_start(s: Seq<char>) -> Seq<char> {
    s.skip(leading_ws(s) as int)
}

/// `s` without its trailing whitespace (`str::trim_end`).
pub open spec fn trim_end(s: Seq<char>) -> Seq<char> {
    s.take(s.len() - trailing_ws(s))
}

/// `s` without leading and trailing whitespace (`str::trim`).
pub open spec fn trim(s: Seq<char>) -> Seq<char> {
    trim_end(trim_start(s))
}

proof fn lemma_leading_ws_bound(s: Seq<char>)
    ensures
        leading_ws(s) <= s.len(),
        forall|j: int| 0 <= j < leading_ws(s) ==> is_white_space(#[trigger] s[j]),
        leading_ws(s) < s.len() ==> !is_white_space(s[leading_ws(s) as int]),
    decreases s.len(),
{
    if s.len() > 0 && is_white_space(s[0]) {
        lemma_leading_ws_bound(s.drop_first());
        assert forall|j: int| 0 <= j < leading_ws(s) implies is_white_space(#[trigger] s[j]) by {
            if j > 0 {
                assert(s[j] == s.drop_first()[j - 1]);
            }
        }
    }
}

proof fn lemma_leading_ws_skip(s: Seq<char>, k: int)
    requires
        0 <= k <= s.len(),
        forall|j: int| 0 <= j < k ==> is_white_space(#[trigger] s[j]),
    ensures
        leading_ws(s) == k + leading_ws(s.skip(k)),
    decreases k,
{
    if k > 0 {
        assert(is_white_space(s[0]));
        assert(s.drop_first().skip(k - 1) =~= s.skip(k));
        assert forall|j: int| 0 <= j < k - 1 implies is_white_space(#[trigger] s.drop_first()[j]) by {
            assert(s.drop_first()[j] == s[j + 1]);
        }
        lemma_leading_ws_skip(s.drop_first(), k - 1);
    } else {
        assert(s.skip(0) =~= s);
    }
}

/// `trailing_ws` counts at most the whole sequence.
pub proof fn lemma_trailing_ws_bound(s: Seq<char>)
    ensures
        trailing_ws(s) <= s.len(),
    decreases s.len(),
{
    if s.len() > 0 && is_white_space(s.last()) {
        lemma_trailing_ws_bound(s.drop_last());
    }
}

/// Trimming the end of a string keeps any prefix that ends in a
/// non-whitespace character.
pub proof fn lemma_trim_end_keeps_prefix(s: Seq<char>, p: Seq<char>)
    requires
        p.len() > 0,
        !is_white_space(p.last()),
    ensures
        starts_with(trim_end(s), p) == starts_with(s, p),
    decreases s.len(),
{
    lemma_trailing_ws_bound(s);
    if s.len() > 0 && is_white_space(s.last()) {
        lemma_trim_end_keeps_prefix(s.drop_last(), p);
        assert(trim_end(s) =~= trim_end(s.drop_last()));
        if starts_with(s, p) {
            assert(s[p.len() - 1] == p.last());
            assert(p.len() < s.len());
            assert(s.drop_last().take(p.len() as int) =~= s.take(p.len() as int));
        }
        if starts_with(s.drop_last(), p) {
            assert(s.drop_last().take(p.len() as int) =~= s.take(p.len() as int));
        }
    } else {
        assert(trim_end(s) =~= s);
    }
}

proof fn lemma_trailing_ws_take(s: Seq<char>, k: int)
    requires
        0 <= k <= s.len(),
        forall|j: int| s.len() - k <= j < s.len() ==> is_white_space(#[trigger] s[j]),
    ensures
        trailing_ws(s) == k + trailing_ws(s.take(s.len() - k)),
    decreases k,
{
    if k > 0 {
        assert(is_white_space(s.last()));
        assert(s.drop_last().take(s.drop_last().len() - (k - 1)) =~= s.take(s.len() - k));
        assert forall|j: int| s.drop_last().len() - (k - 1) <= j < s.drop_last().len() implies is_white_space(
            #[trigger] s.drop_last()[j],
        ) by {
            assert(s.drop_last()[j] == s[j]);
        }
        lemma_trailing_ws_take(s.drop_last(), k - 1);
    } else {
        assert(s.take(s.len() as int) =~= s);
    }
}

/// The number of trailing whitespace characters of `cs[from..]`, as
/// `trim_end` counts them.
pub fn count_trailing_ws(cs: &[char], from: usize) -> (k: usize)
    requires
        from <= cs@.len(),
    ensures
        k == trailing_ws(cs@.skip(from as int)),
        k <= cs@.len() - from,
{
    let ghost t = cs@.skip(from as int);
    let mut k: usize = 0;
    while k < cs.len() - from && char_is_whitespace(cs[cs.len() - 1 - k])
        invariant
            from <= cs@.len(),
            cs@.len() == cs.len(),
            t == cs@.skip(from as int),
            k <= t.len(),
            forall|j: int| t.len() - k <= j < t.len() ==> is_white_space(#[trigger] t[j]),
        decreases cs.len() - from - k,
    {
        assert(t[t.len() - 1 - k] == cs@[cs@.len() - 1 - k]);
        k = k + 1;
    }
    proof {
        lemma_trailing_ws_take(t, k as int);
        if k < t.len() {
            assert(t.take(t.len() - k).last() == t[t.len() - 1 - k]);
        } else {
            assert(t.take(t.len() - k).len() == 0);
        }
    }
    k
}

/// `s` without leading and trailing whitespace (see `trim`).
pub fn trim_string(s: &str) -> (r: String)
    ensures
        r@ == trim(s@),
{
    let cs = chars_of(s);
    let a = count_leading_ws(cs.as_slice());
    let b = count_trailing_ws(cs.as_slice(), a);
    let r = string_of(cs.as_slice(), a, cs.len() - b);
    assert(r@ =~= trim(s@));
    r
}

/// The number of leading whitespace characters of `cs`, as `trim_start`
/// counts them.
pub fn count_leading_ws(cs: &[char]) -> (k: usize)
    ensures
        k == leading_ws(cs@),
        k <= cs@.len(),
{
    let mut k: usize = 0;
    while k < cs.len() && char_is_whitespace(cs[k])
        invariant
            k <= cs@.len(),
            forall|j: int| 0 <= j < k ==> is_white_space(#[trigger] cs@[j]),
        decreases cs.len() - k,
    {
        k = k + 1;
    }
    proof {
        lemma_leading_ws_skip(cs@, k as int);
        if k < cs@.len() {
            assert(cs@.skip(k as int)[0] == cs@[k as int]);
        } else {
            assert(cs@.skip(k as int).len() == 0);
        }
    }
    k
}

/// The strings of a vector, each taken by its view.
pub open spec fn strings_view(v: Seq<String>) -> Seq<Seq<char>> {
    v.map_values(|s: String| s@)
}

/// The position of the first `'\n'` in `s` at or after `i`, or `s.len()`.
pub open spec fn next_newline(s: Seq<char>, i: int) -> int
    decreases s.len() - i,
{
    if i < 0 || i >= s.len() {
        s.len() as int
    } else if s[i] == '\n' {
        i
    } else {
        next_newline(s, i + 1)
    }
}

/// A line without its terminating `'\r'`, where it has one.
pub open spec fn strip_cr(l: Seq<char>) -> Seq<char> {
    if l.len() > 0 && l.last() == '\r' {
        l.drop_last()
    } else {
        l
    }
}

/// The lines of `s` from position `i` on, as `str::lines` gives them: the
/// text is cut after each `'\n'`, the `'\n'` and a `'\r'` just before it
/// are dropped, and a final empty piece (after a last `'\n'`, or of an empty
/// text) is not a line.
pub open spec fn lines_from(s: Seq<char>, i: int) -> Seq<Seq<char>>
    decreases s.len() - i,
{
    if i < 0 || i >= s.len() {
        seq![]
    } else {
        let k = next_newline(s, i);
        if k >= s.len() {
            seq![s.subrange(i, s.len() as int)]
        } else {
            proof {
                lemma_next_newline(s, i);
            }
            seq![strip_cr(s.subrange(i, k))] + lines_from(s, k + 1)
        }
    }
}

/// The lines of `s` (`str::lines`).
pub open spec fn lines_of(s: Seq<char>) -> Seq<Seq<char>> {
    lines_from(s, 0)
}

/// The end of the line that starts at `i` lies between `i` and the end of
/// `s`, on a newline where it is before the end, with no newline before it.
pub proof fn lemma_next_newline(s: Seq<char>, i: int)
    requires
        0 <= i <= s.len(),
    ensures
        i <= next_newline(s, i) <= s.len(),
        next_newline(s, i) < s.len() ==> s[next_newline(s, i)] == '\n',
        forall|j: int| i <= j < next_newline(s, i) ==> s[j] != '\n',
    decreases s.len() - i,
{
    if i < s.len() && s[i] != '\n' {
        lemma_next_newline(s, i + 1);
    }
}

/// Splits `s` into its lines (see `lines_of`).
pub fn split_lines(s: &str) -> (v: Vec<String>)
    ensures
        strings_view(v@) == lines_of(s@),
{
    let cs = chars_of(s);
    let n = cs.len();
    let mut v: Vec<String> = Vec::new();
    let mut i: usize = 0;
    proof {
        assert(strings_view(v@) + lines_from(cs@, 0) =~= lines_of(s@));
    }
    while i < n
        invariant
            n == cs@.len(),
            cs@ == s@,
            i <= n,
            strings_view(v@) + lines_from(cs@, i as int) == lines_of(s@),
        decreases n - i,
    {
        let mut k = i;
        while k < n && cs[k] != '\n'
            invariant
                i <= k <= n,
                n == cs@.len(),
                forall|j: int| i <= j < k ==> cs@[j] != '\n',
            decreases n - k,
        {
            k = k + 1;
        }
        proof {
            lemma_next_newline(cs@, i as int);
            if next_newline(cs@, i as int) < k {
                assert(cs@[next_newline(cs@, i as int)] == '\n');
            }
            if k < n {
                assert(next_newline(cs@, i as int) <= k);
            } else {
                assert(next_newline(cs@, i as int) == k);
            }
        }
        let ghost old_v = v@;
        if k >= n {
            let line = string_of(cs.as_slice(), i, n);
            v.push(line);
            proof {
                assert(strings_view(v@) =~= strings_view(old_v).push(line@));
                assert(lines_from(cs@, n as int) =~= Seq::<Seq<char>>::empty());
                assert(strings_view(old_v) + lines_from(cs@, i as int) =~= strings_view(v@) + lines_from(cs@, n as int));
            }
            i = n;
        } else {
            let end = if k > i && cs[k - 1] == '\r' { k - 1 } else { k };
            let line = string_of(cs.as_slice(), i, end);
            v.push(line);
            proof {
                assert(line@ =~= strip_cr(cs@.subrange(i as int, k as int)));
                assert(strings_view(v@) =~= strings_view(old_v).push(line@));
                assert(strings_view(old_v) + lines_from(cs@, i as int) =~= strings_view(v@) + lines_from(cs@, k + 1));
            }
            i = k + 1;
        }
    }
    proof {
        assert(lines_from(cs@, i as int) =~= Seq::<Seq<char>>::empty());
        assert(strings_view(v@) + Seq::<Seq<char>>::empty() =~= strings_view(v@));
    }
    v
}

/// The lines joined with `'\n'` between them (`[String]::join("\n")`).
pub open spec fn join_lines(ls: Seq<Seq<char>>) -> Seq<char>
    decreases ls.len(),
{
    if ls.len() == 0 {
        seq![]
    } else if ls.len() == 1 {
        ls[0]
    } else {
        join_lines(ls.drop_last()) + seq!['\n'] + ls.last()
    }
}

/// The strings of `v` joined with `'\n'` between them (see `join_lines`).
pub fn join_with_newlines(v: &Vec<String>) -> (r: String)
    ensures
        r@ == join_lines(strings_view(v@)),
{
    let mut r = String::new();
    let ghost all = strings_view(v@);
    let mut i: usize = 0;
    assert(all.take(0) =~= Seq::<Seq<char>>::empty());
    while i < v.len()
        invariant
            i <= v@.len(),
            all == strings_view(v@),
            r@ == join_lines(all.take(i as int)),
        decreases v.len() - i,
    {
        assert(all.take(i + 1).drop_last() =~= all.take(i as int));
        if i > 0 {
            push_char(&mut r, '\n');
        } else {
            assert(r@ =~= Seq::<char>::empty());
        }
        let ghost before = r@;
        r.append(v[i].as_str());
        assert(all[i as int] == v@[i as int]@);
        if i == 0 {
            assert(r@ =~= all.take(1)[0]);
        }
        i = i + 1;
    }
    assert(all.take(v@.len() as int) =~= all);
    r
}

} // verus!
