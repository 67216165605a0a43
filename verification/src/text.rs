//! Character-level text utilities shared by the feed parser, the
//! extractors and the notification formatter.
//!
//! All executable functions here work on `Vec<char>` so that indexing is
//! cheap; the two trusted bridges at the top convert between `&str` and
//! `Vec<char>` without changing the character sequence.

use vstd::prelude::*;

verus! {

/// Relies on `str::chars` (std): iterating a string yields exactly the
/// characters of its view, in order.
#[verifier::external_body]
pub fn str_to_chars(s: &str) -> (r: Vec<char>)
    ensures
        r@ == s@,
{
    s.chars().collect()
}

/// Relies on `FromIterator<char> for String` (std): collecting characters
/// builds the string with exactly those characters, in order.
#[verifier::external_body]
pub fn chars_to_string(v: &Vec<char>) -> (r: String)
    ensures
        r@ == v@,
{
    v.iter().collect()
}

/// The Unicode whitespace characters, as `char::is_whitespace` accepts them.
pub open spec fn is_space(c: char) -> bool {
    c == ' ' || c == '\t' || c == '\n' || c == '\r' || c == '\u{000B}' || c == '\u{000C}'
        || c == '\u{0085}' || c == '\u{00A0}' || c == '\u{1680}'
        || ('\u{2000}' <= c && c <= '\u{200A}') || c == '\u{2028}' || c == '\u{2029}'
        || c == '\u{202F}' || c == '\u{205F}' || c == '\u{3000}'
}

pub fn char_is_space(c: char) -> (r: bool)
    ensures
        r == is_space(c),
{
    c == ' ' || c == '\t' || c == '\n' || c == '\r' || c == '\u{000B}' || c == '\u{000C}'
        || c == '\u{0085}' || c == '\u{00A0}' || c == '\u{1680}'
        || ('\u{2000}' <= c && c <= '\u{200A}') || c == '\u{2028}' || c == '\u{2029}'
        || c == '\u{202F}' || c == '\u{205F}' || c == '\u{3000}'
}

/// The pattern `p` occurs in `s` at position `i`.
pub open spec fn match_at(s: Seq<char>, p: Seq<char>, i: int) -> bool {
    0 <= i && i + p.len() <= s.len() && s.subrange(i, i + p.len() as int) == p
}

/// `s` begins with `p`.
pub open spec fn starts_with(s: Seq<char>, p: Seq<char>) -> bool {
    match_at(s, p, 0)
}

/// `s` ends with `p`.
pub open spec fn ends_with(s: Seq<char>, p: Seq<char>) -> bool {
    p.len() <= s.len() && match_at(s, p, s.len() - p.len())
}

/// Whether `p` occurs in `s` at position `i`.
pub fn chars_match_at(s: &Vec<char>, p: &Vec<char>, i: usize) -> (r: bool)
    requires
        i <= s.len(),
    ensures
        r == match_at(s@, p@, i as int),
{
    if s.len() - i < p.len() {
        return false;
    }
    let mut j: usize = 0;
    while j < p.len()
        invariant
            0 <= j <= p.len(),
            i + p.len() <= s.len(),
            forall|k: int| 0 <= k < j ==> s@[i + k] == p@[k],
        decreases p.len() - j,
    {
        if s[i + j] != p[j] {
            assert(s@.subrange(i as int, i + p.len() as int)[j as int] != p@[j as int]);
            return false;
        }
        j += 1;
    }
    assert(s@.subrange(i as int, i + p.len() as int) =~= p@);
    true
}

/// Whether `s` begins with `p`.
pub fn chars_start_with(s: &Vec<char>, p: &Vec<char>) -> (r: bool)
    ensures
        r == starts_with(s@, p@),
{
    chars_match_at(s, p, 0)
}

/// Whether `s` ends with `p`.
pub fn chars_end_with(s: &Vec<char>, p: &Vec<char>) -> (r: bool)
    ensures
        r == ends_with(s@, p@),
{
    if p.len() > s.len() {
        return false;
    }
    chars_match_at(s, p, s.len() - p.len())
}

/// Whether two character sequences are equal.
pub fn chars_eq(a: &Vec<char>, b: &Vec<char>) -> (r: bool)
    ensures
        r == (a@ == b@),
{
    if a.len() != b.len() {
        return false;
    }
    let r = chars_match_at(a, b, 0);
    proof {
        assert(a@.subrange(0, b@.len() as int) =~= a@);
    }
    r
}

/// Copy of `s[from..to]`.
pub fn copy_range(s: &Vec<char>, from: usize, to: usize) -> (r: Vec<char>)
    requires
        from <= to <= s.len(),
    ensures
        r@ == s@.subrange(from as int, to as int),
{
    let mut out: Vec<char> = Vec::new();
    let mut i: usize = from;
    while i < to
        invariant
            from <= i <= to <= s.len(),
            out@ == s@.subrange(from as int, i as int),
        decreases to - i,
    {
        out.push(s[i]);
        assert(out@ =~= s@.subrange(from as int, i + 1 as int));
        i += 1;
    }
    out
}

/// Append every character of `src` to `out`.
pub fn push_all(out: &mut Vec<char>, src: &Vec<char>)
    ensures
        final(out)@ == old(out)@ + src@,
{
    let mut i: usize = 0;
    while i < src.len()
        invariant
            0 <= i <= src.len(),
            out@ == old(out)@ + src@.subrange(0, i as int),
        decreases src.len() - i,
    {
        out.push(src[i]);
        assert(out@ =~= old(out)@ + src@.subrange(0, i + 1 as int));
        i += 1;
    }
    assert(out@ =~= old(out)@ + src@);
}

/// Every occurrence of `p` in `s`, scanned left to right without overlap,
/// replaced by `r`; `str::replace` behaves this way for a non-empty pattern.
pub open spec fn replace_spec(s: Seq<char>, p: Seq<char>, r: Seq<char>) -> Seq<char>
    decreases s.len(),
{
    if p.len() == 0 || s.len() == 0 {
        s
    } else if starts_with(s, p) {
        r + replace_spec(s.skip(p.len() as int), p, r)
    } else {
        seq![s[0]] + replace_spec(s.skip(1), p, r)
    }
}

pub fn replace_chars(s: &Vec<char>, p: &Vec<char>, r: &Vec<char>) -> (out: Vec<char>)
    requires
        p.len() > 0,
    ensures
        out@ == replace_spec(s@, p@, r@),
{
    let ghost whole = replace_spec(s@, p@, r@);
    let mut out: Vec<char> = Vec::new();
    let mut i: usize = 0;
    assert(s@.skip(0) =~= s@);
    while i < s.len()
        invariant
            0 <= i <= s.len(),
            p.len() > 0,
            whole == replace_spec(s@, p@, r@),
            out@ + replace_spec(s@.skip(i as int), p@, r@) == whole,
        decreases s.len() - i,
    {
        let ghost suffix = s@.skip(i as int);
        assert(suffix.len() == s.len() - i);
        if chars_match_at(s, p, i) {
            assert(starts_with(suffix, p@)) by {
                assert(suffix.subrange(0, p@.len() as int) =~= s@.subrange(
                    i as int,
                    i + p@.len() as int,
                ));
            }
            push_all(&mut out, r);
            i += p.len();
            proof {
                assert(suffix.skip(p@.len() as int) =~= s@.skip(i as int));
                assert(replace_spec(suffix, p@, r@) == r@ + replace_spec(
                    s@.skip(i as int),
                    p@,
                    r@,
                ));
            }
        } else {
            assert(!starts_with(suffix, p@)) by {
                if starts_with(suffix, p@) {
                    assert(suffix.subrange(0, p@.len() as int) =~= s@.subrange(
                        i as int,
                        i + p@.len() as int,
                    ));
                }
            }
            out.push(s[i]);
            proof {
                assert(suffix[0] == s@[i as int]);
                assert(suffix.skip(1) =~= s@.skip(i + 1));
                assert(replace_spec(suffix, p@, r@) == seq![s@[i as int]] + replace_spec(
                    s@.skip(i + 1),
                    p@,
                    r@,
                ));
            }
            i += 1;
        }
        assert(out@ + replace_spec(s@.skip(i as int), p@, r@) =~= whole);
    }
    assert(s@.skip(i as int) =~= Seq::<char>::empty());
    assert(out@ =~= out@ + replace_spec(s@.skip(i as int), p@, r@));
    out
}

/// `s` without its leading whitespace.
pub open spec fn trim_start_spec(s: Seq<char>) -> Seq<char>
    decreases s.len(),
{
    if s.len() > 0 && is_space(s[0]) {
        trim_start_spec(s.skip(1))
    } else {
        s
    }
}

/// `s` without its trailing whitespace.
pub open spec fn trim_end_spec(s: Seq<char>) -> Seq<char>
    decreases s.len(),
{
    if s.len() > 0 && is_space(s[s.len() - 1]) {
        trim_end_spec(s.take(s.len() - 1))
    } else {
        s
    }
}

/// `s` without surrounding whitespace, as `str::trim` returns it.
pub open spec fn trim_spec(s: Seq<char>) -> Seq<char> {
    trim_end_spec(trim_start_spec(s))
}

proof fn lemma_trim_start_step(s: Seq<char>, i: int)
    requires
        0 <= i <= s.len(),
        forall|k: int| 0 <= k < i ==> is_space(s[k]),
    ensures
        trim_start_spec(s) == trim_start_spec(s.skip(i)),
    decreases i,
{
    if i > 0 {
        lemma_trim_start_step(s, i - 1);
        assert(s.skip(i - 1).len() > 0);
        assert(s.skip(i - 1)[0] == s[i - 1]);
        assert(is_space(s[i - 1]));
        assert(s.skip(i - 1).skip(1) =~= s.skip(i));
    } else {
        assert(s.skip(0) =~= s);
    }
}

proof fn lemma_trim_end_step(s: Seq<char>, j: int)
    requires
        0 <= j <= s.len(),
        forall|k: int| j <= k < s.len() ==> is_space(s[k]),
    ensures
        trim_end_spec(s) == trim_end_spec(s.take(j)),
    decreases s.len() - j,
{
    if j < s.len() {
        lemma_trim_end_step(s, j + 1);
        let t = s.take(j + 1);
        assert(t.len() == j + 1);
        assert(t[j] == s[j]);
        assert(is_space(t[t.len() - 1]));
        assert(t.take(t.len() - 1) =~= s.take(j));
    } else {
        assert(s.take(j) =~= s);
    }
}

pub fn trim_chars(s: &Vec<char>) -> (out: Vec<char>)
    ensures
        out@ == trim_spec(s@),
{
    let mut lo: usize = 0;
    while lo < s.len() && char_is_space(s[lo])
        invariant
            0 <= lo <= s.len(),
            forall|k: int| 0 <= k < lo ==> is_space(s@[k]),
        decreases s.len() - lo,
    {
        lo += 1;
    }
    proof {
        lemma_trim_start_step(s@, lo as int);
        // past the leading spaces nothing more is trimmed from the front
        assert(trim_start_spec(s@) == s@.skip(lo as int));
    }
    let ghost t = s@.skip(lo as int);
    let mut hi: usize = s.len();
    while hi > lo && char_is_space(s[hi - 1])
        invariant
            lo <= hi <= s.len(),
            forall|k: int| hi <= k < s.len() ==> is_space(s@[k]),
        decreases hi,
    {
        hi -= 1;
    }
    proof {
        assert(t.len() == s.len() - lo);
        assert(forall|k: int| hi - lo <= k < t.len() ==> is_space(t[k]));
        lemma_trim_end_step(t, hi - lo as int);
        assert(t.take(hi - lo as int) =~= s@.subrange(lo as int, hi as int));
        if hi > lo {
            assert(t.take(hi - lo as int)[hi - lo - 1] == s@[hi - 1]);
        }
        assert(trim_end_spec(t) == s@.subrange(lo as int, hi as int));
    }
    copy_range(s, lo, hi)
}

/// Trim surrounding whitespace from a string.
pub fn trim_text(text: &str) -> (r: String)
    ensures
        r@ == trim_spec(text@),
{
    let chars = str_to_chars(text);
    let trimmed = trim_chars(&chars);
    chars_to_string(&trimmed)
}

/// The position of the first occurrence of `p` at or after `i`.
pub open spec fn find_from_spec(s: Seq<char>, p: Seq<char>, i: int) -> Option<int>
    decreases s.len() - i,
{
    if i < 0 || i + p.len() > s.len() {
        None
    } else if p.len() == 0 || match_at(s, p, i) {
        Some(i)
    } else {
        find_from_spec(s, p, i + 1)
    }
}

proof fn lemma_find_from_unchanged(s: Seq<char>, p: Seq<char>, i: int, j: int)
    requires
        p.len() > 0,
        0 <= i <= j,
        forall|k: int| i <= k < j ==> !match_at(s, p, k),
    ensures
        find_from_spec(s, p, i) == find_from_spec(s, p, j),
    decreases j - i,
{
    if i < j {
        if i + p.len() > s.len() {
            assert(j + p.len() > s.len());
        } else {
            lemma_find_from_unchanged(s, p, i + 1, j);
        }
    }
}

pub fn find_chars(s: &Vec<char>, p: &Vec<char>) -> (r: Option<usize>)
    ensures
        match r {
            Some(i) => find_from_spec(s@, p@, 0) == Some(i as int) && match_at(s@, p@, i as int),
            None => find_from_spec(s@, p@, 0).is_none(),
        },
{
    if p.len() > s.len() {
        return None;
    }
    if p.len() == 0 {
        assert(match_at(s@, p@, 0)) by {
            assert(s@.subrange(0, 0) =~= p@);
        }
        return Some(0);
    }
    let last: usize = s.len() - p.len();
    let mut i: usize = 0;
    while i <= last
        invariant
            0 <= i <= last + 1,
            0 < p.len() <= s.len(),
            last == s.len() - p.len(),
            forall|k: int| 0 <= k < i ==> !match_at(s@, p@, k),
        decreases last + 1 - i,
    {
        if chars_match_at(s, p, i) {
            proof {
                lemma_find_from_unchanged(s@, p@, 0, i as int);
            }
            return Some(i);
        }
        i += 1;
    }
    proof {
        lemma_find_from_unchanged(s@, p@, 0, i as int);
    }
    None
}

/// `s` itself when it is shorter than `limit` characters, else its first
/// `limit - 1` characters with a horizontal-ellipsis character appended.
pub open spec fn cap_spec(s: Seq<char>, limit: int) -> Seq<char> {
    if s.len() < limit {
        s
    } else {
        s.take(limit - 1) + seq!['\u{2026}']
    }
}

pub fn cap_chars(s: &Vec<char>, limit: usize) -> (out: Vec<char>)
    requires
        limit > 0,
    ensures
        out@ == cap_spec(s@, limit as int),
{
    if s.len() < limit {
        let mut out: Vec<char> = Vec::new();
        push_all(&mut out, s);
        assert(out@ =~= s@);
        out
    } else {
        let mut out = copy_range(s, 0, limit - 1);
        out.push('\u{2026}');
        assert(out@ =~= s@.take(limit - 1) + seq!['\u{2026}']);
        out
    }
}

} // verus!
