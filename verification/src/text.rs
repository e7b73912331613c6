//! Text as sequences of characters: trimming, searching, comparing.

use vstd::prelude::*;
use vstd::slice::slice_subrange;

verus! {

/// Whether `c` is white space, as Unicode defines it.
pub open spec fn is_whitespace(c: char) -> bool {
    let n = c as u32;
    ||| 0x09 <= n <= 0x0D
    ||| n == 0x20
    ||| n == 0x85
    ||| n == 0xA0
    ||| n == 0x1680
    ||| 0x2000 <= n <= 0x200A
    ||| n == 0x2028
    ||| n == 0x2029
    ||| n == 0x202F
    ||| n == 0x205F
    ||| n == 0x3000
}

/// Whether `x` is a character to strip: `c` or, where `c` is `None`, any
/// white space.
pub open spec fn strippable(x: char, c: Option<char>) -> bool {
    match c {
        Some(c) => x == c,
        None => is_whitespace(x),
    }
}

/// `s` without the characters at its start that are `c` or, where `c` is
/// `None`, white space.
pub open spec fn strip_start(s: Seq<char>, c: Option<char>) -> Seq<char>
    decreases s.len(),
{
    if s.len() > 0 && strippable(s[0], c) {
        strip_start(s.drop_first(), c)
    } else {
        s
    }
}

/// `s` without the characters at its end that are `c` or, where `c` is
/// `None`, white space.
pub open spec fn strip_end(s: Seq<char>, c: Option<char>) -> Seq<char>
    decreases s.len(),
{
    if s.len() > 0 && strippable(s.last(), c) {
        strip_end(s.drop_last(), c)
    } else {
        s
    }
}

/// `s` without the white space at its start and at its end.
pub open spec fn trim(s: Seq<char>) -> Seq<char> {
    strip_end(strip_start(s, None), None)
}

/// `s` without the characters `c` at its start and at its end.
pub open spec fn trim_matches(s: Seq<char>, c: char) -> Seq<char> {
    strip_end(strip_start(s, Some(c)), Some(c))
}

/// The index of the first `c` in `s`, or the length of `s` if there is none.
pub open spec fn first_index(s: Seq<char>, c: char) -> nat
    decreases s.len(),
{
    if s.len() == 0 || s[0] == c {
        0
    } else {
        1 + first_index(s.drop_first(), c)
    }
}

/// What follows the last `c` in `s`; all of `s` if there is none.
pub open spec fn after_last(s: Seq<char>, c: char) -> Seq<char>
    decreases s.len(),
{
    if s.len() == 0 || s.last() == c {
        Seq::empty()
    } else {
        after_last(s.drop_last(), c).push(s.last())
    }
}

/// `pattern` occurs in `s`.
pub open spec fn contains(s: Seq<char>, pattern: Seq<char>) -> bool {
    exists|i: int| occurs_at(s, pattern, i)
}

/// `pattern` occurs in `s` at index `i`.
pub open spec fn occurs_at(s: Seq<char>, pattern: Seq<char>, i: int) -> bool {
    0 <= i && i + pattern.len() <= s.len() && s.subrange(i, i + pattern.len()) == pattern
}

/// The characters of a string.
pub fn chars_of(s: &str) -> (chars: Vec<char>)
    ensures
        chars@ == s@,
{
    let mut chars: Vec<char> = Vec::new();
    for c in it: s.chars()
        invariant
            it.seq() == s@,
            chars@ == s@.take(it.index() as int),
    {
        chars.push(c);
    }
    chars
}

/// Tells whether `c` is white space.
pub fn char_is_whitespace(c: char) -> (b: bool)
    ensures
        b == is_whitespace(c),
{
    let n = c as u32;
    (0x09 <= n && n <= 0x0D) || n == 0x20 || n == 0x85 || n == 0xA0 || n == 0x1680 || (0x2000 <= n
        && n <= 0x200A) || n == 0x2028 || n == 0x2029 || n == 0x202F || n == 0x205F || n == 0x3000
}

/// Tells whether `x` is a character to strip.
fn is_strippable(x: char, c: Option<char>) -> (b: bool)
    ensures
        b == strippable(x, c),
{
    match c {
        Some(c) => x == c,
        None => char_is_whitespace(x),
    }
}

/// The number of characters that [`strip_start`] takes off `s`.
pub fn strip_start_len(s: &[char], c: Option<char>) -> (n: usize)
    ensures
        n <= s.len(),
        s@.skip(n as int) == strip_start(s@, c),
{
    let mut n: usize = 0;
    assert(s@.skip(0) == s@);
    while n < s.len() && is_strippable(s[n], c)
        invariant
            n <= s.len(),
            strip_start(s@.skip(n as int), c) == strip_start(s@, c),
        decreases s.len() - n,
    {
        assert(s@.skip(n as int).drop_first() == s@.skip(n + 1));
        n += 1;
    }
    n
}

/// The number of characters that [`strip_end`] leaves of `s`.
pub fn strip_end_len(s: &[char], c: Option<char>) -> (n: usize)
    ensures
        n <= s.len(),
        s@.take(n as int) == strip_end(s@, c),
{
    let mut n: usize = s.len();
    assert(s@.take(n as int) == s@);
    while n > 0 && is_strippable(s[n - 1], c)
        invariant
            n <= s.len(),
            strip_end(s@.take(n as int), c) == strip_end(s@, c),
        decreases n,
    {
        assert(s@.take(n as int).drop_last() == s@.take(n - 1));
        n -= 1;
    }
    n
}

/// Where `s` starts and ends once the characters to strip are taken off
/// both ends.
pub fn strip_bounds(s: &[char], c: Option<char>) -> (bounds: (usize, usize))
    ensures
        bounds.0 <= bounds.1 <= s.len(),
        s@.subrange(bounds.0 as int, bounds.1 as int) == strip_end(strip_start(s@, c), c),
{
    let lo = strip_start_len(s, c);
    let rest = slice_subrange(s, lo, s.len());
    assert(rest@ == s@.skip(lo as int));
    let kept = strip_end_len(rest, c);
    assert(rest@.take(kept as int) == s@.subrange(lo as int, lo + kept));
    (lo, lo + kept)
}

/// `first_index` gives the least index that holds `c`.
pub proof fn lemma_first_index(s: Seq<char>, c: char)
    ensures
        first_index(s, c) <= s.len(),
        first_index(s, c) < s.len() ==> s[first_index(s, c) as int] == c,
        forall|j: int| 0 <= j < first_index(s, c) ==> s[j] != c,
    decreases s.len(),
{
    if s.len() > 0 && s[0] != c {
        lemma_first_index(s.drop_first(), c);
        assert forall|j: int| 0 <= j < first_index(s, c) implies s[j] != c by {
            if j > 0 {
                assert(s.drop_first()[j - 1] == s[j]);
            }
        }
    }
}

/// The index of the first `c` in `s`, or the length of `s` if there is none.
pub fn find(s: &[char], c: char) -> (i: usize)
    ensures
        i == first_index(s@, c),
        i <= s.len(),
        i < s.len() ==> s@[i as int] == c,
        forall|j: int| 0 <= j < i ==> s@[j] != c,
{
    proof {
        lemma_first_index(s@, c);
    }
    let mut i: usize = 0;
    assert(s@.skip(0) == s@);
    while i < s.len() && s[i] != c
        invariant
            i <= s.len(),
            first_index(s@, c) == i + first_index(s@.skip(i as int), c),
        decreases s.len() - i,
    {
        assert(s@.skip(i as int).drop_first() == s@.skip(i + 1));
        i += 1;
    }
    i
}

/// Where in `s` the part after its last `c` starts.
pub fn after_last_start(s: &[char], c: char) -> (i: usize)
    ensures
        i <= s.len(),
        s@.skip(i as int) == after_last(s@, c),
{
    let mut i: usize = s.len();
    assert(s@.take(i as int) == s@);
    while i > 0 && s[i - 1] != c
        invariant
            i <= s.len(),
            after_last(s@, c) == after_last(s@.take(i as int), c) + s@.skip(i as int),
        decreases i,
    {
        assert(s@.take(i as int).drop_last() == s@.take(i - 1));
        assert(after_last(s@.take(i - 1), c).push(s@[i - 1]) + s@.skip(i as int) == after_last(
            s@.take(i - 1),
            c,
        ) + s@.skip(i - 1));
        i -= 1;
    }
    assert(Seq::<char>::empty() + s@.skip(i as int) == s@.skip(i as int));
    i
}

/// Tells whether `s` holds `pattern` at index `i`.
fn holds_at(s: &[char], pattern: &[char], i: usize) -> (b: bool)
    requires
        i + pattern.len() <= s.len(),
    ensures
        b == occurs_at(s@, pattern@, i as int),
{
    let mut k: usize = 0;
    while k < pattern.len()
        invariant
            k <= pattern.len(),
            i + pattern.len() <= s.len(),
            s@.subrange(i as int, i + k) == pattern@.take(k as int),
        decreases pattern.len() - k,
    {
        if s[i + k] != pattern[k] {
            assert(s@.subrange(i as int, i + pattern.len())[k as int] != pattern@[k as int]);
            return false;
        }
        assert(s@.subrange(i as int, i + k + 1) == s@.subrange(i as int, i + k).push(s@[i + k]));
        assert(pattern@.take(k + 1) == pattern@.take(k as int).push(pattern@[k as int]));
        k += 1;
    }
    assert(pattern@.take(k as int) == pattern@);
    true
}

/// Tells whether `pattern` occurs in `s`.
pub fn contains_pattern(s: &[char], pattern: &[char]) -> (b: bool)
    ensures
        b == contains(s@, pattern@),
{
    if pattern.len() > s.len() {
        return false;
    }
    if pattern.len() == 0 {
        assert(s@.subrange(0, 0) == pattern@);
        assert(occurs_at(s@, pattern@, 0));
        return true;
    }
    let last = s.len() - pattern.len();
    let mut i: usize = 0;
    while i <= last
        invariant
            0 < pattern.len() <= s.len(),
            last == s.len() - pattern.len(),
            i <= last + 1,
            forall|j: int| 0 <= j < i ==> !occurs_at(s@, pattern@, j),
        decreases last + 1 - i,
    {
        if holds_at(s, pattern, i) {
            return true;
        }
        i += 1;
    }
    false
}

/// Tells whether `s` spells `word`.
pub fn spells(s: &[char], word: &str) -> (b: bool)
    ensures
        b == (s@ == word@),
{
    let n = word.unicode_len();
    if s.len() != n {
        return false;
    }
    let mut i: usize = 0;
    while i < n
        invariant
            n == word@.len(),
            n == s.len(),
            i <= n,
            s@.take(i as int) == word@.take(i as int),
        decreases n - i,
    {
        if s[i] != word.get_char(i) {
            return false;
        }
        assert(s@.take(i + 1) == s@.take(i as int).push(s@[i as int]));
        assert(word@.take(i + 1) == word@.take(i as int).push(word@[i as int]));
        i += 1;
    }
    assert(s@.take(n as int) == s@);
    assert(word@.take(n as int) == word@);
    true
}

/// A part of a part of `s` is a part of `s`.
pub proof fn lemma_subrange_of_subrange(s: Seq<char>, lo: int, hi: int, from: int, to: int)
    requires
        0 <= lo <= hi <= s.len(),
        0 <= from <= to <= hi - lo,
    ensures
        s.subrange(lo, hi).subrange(from, to) == s.subrange(lo + from, lo + to),
{
}

/// [`strip_bounds`] on the part of `s` from `lo` to `hi`.
pub fn strip_bounds_in(s: &[char], lo: usize, hi: usize, c: Option<char>) -> (bounds: (usize, usize))
    requires
        lo <= hi <= s.len(),
    ensures
        lo <= bounds.0 <= bounds.1 <= hi,
        s@.subrange(bounds.0 as int, bounds.1 as int) == strip_end(
            strip_start(s@.subrange(lo as int, hi as int), c),
            c,
        ),
{
    let part = slice_subrange(s, lo, hi);
    let (from, to) = strip_bounds(part, c);
    proof {
        lemma_subrange_of_subrange(s@, lo as int, hi as int, from as int, to as int);
    }
    (lo + from, lo + to)
}

/// [`strip_end_len`] on the part of `s` from `lo` to `hi`: where the part
/// ends once the characters to strip are taken off its end.
pub fn strip_end_in(s: &[char], lo: usize, hi: usize, c: Option<char>) -> (end: usize)
    requires
        lo <= hi <= s.len(),
    ensures
        lo <= end <= hi,
        s@.subrange(lo as int, end as int) == strip_end(s@.subrange(lo as int, hi as int), c),
{
    let part = slice_subrange(s, lo, hi);
    let kept = strip_end_len(part, c);
    proof {
        lemma_subrange_of_subrange(s@, lo as int, hi as int, 0, kept as int);
    }
    lo + kept
}

/// [`find`] on the part of `s` from `lo` to `hi`: the index in `s` of the
/// first `c` in that part, or `hi` if there is none.
pub fn find_in(s: &[char], lo: usize, hi: usize, c: char) -> (i: usize)
    requires
        lo <= hi <= s.len(),
    ensures
        lo <= i <= hi,
        i - lo == first_index(s@.subrange(lo as int, hi as int), c),
{
    let part = slice_subrange(s, lo, hi);
    lo + find(part, c)
}

} // verus!
