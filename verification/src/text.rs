//! Character-level helpers for the names that travel through the launcher.
//!
//! Names are compared as sequences of Unicode scalar values. Case is folded
//! for the ASCII letters only, so that `ZIP`, `Zip` and `zip` are one suffix.

use vstd::prelude::*;

verus! {

/// `c` with an ASCII capital letter replaced by its small letter.
pub open spec fn ascii_lower(c: char) -> char {
    if 'A' <= c && c <= 'Z' {
        ((c as u8) + 32) as char
    } else {
        c
    }
}

/// `s` with every ASCII capital letter replaced by its small letter.
pub open spec fn ascii_lowered(s: Seq<char>) -> Seq<char> {
    Seq::new(s.len(), |i: int| ascii_lower(s[i]))
}

/// `s` as it is compared: folded to lower case when `fold` is set.
pub open spec fn folded(s: Seq<char>, fold: bool) -> Seq<char> {
    if fold {
        ascii_lowered(s)
    } else {
        s
    }
}

/// `needle` stands in `hay` at position `at`.
pub open spec fn occurs_at(hay: Seq<char>, needle: Seq<char>, at: int) -> bool {
    &&& 0 <= at
    &&& at + needle.len() <= hay.len()
    &&& hay.subrange(at, at + needle.len()) == needle
}

/// `needle` stands somewhere in `hay`.
pub open spec fn contains_text(hay: Seq<char>, needle: Seq<char>) -> bool {
    exists|at: int| occurs_at(hay, needle, at)
}

/// `s` ends with `suffix`.
pub open spec fn ends_with_text(s: Seq<char>, suffix: Seq<char>) -> bool {
    suffix.is_suffix_of(s)
}

/// `s` ends with `suffix`, the case of ASCII letters set aside.
pub open spec fn ends_with_text_ignoring_case(s: Seq<char>, suffix: Seq<char>) -> bool {
    ascii_lowered(suffix).is_suffix_of(ascii_lowered(s))
}

/// The characters of `s`, in order.
pub fn to_chars(s: &str) -> (chars: Vec<char>)
    ensures
        chars@ == s@,
{
    let mut chars: Vec<char> = Vec::new();
    for c in it: s.chars()
        invariant
            chars@ == s@.take(it.index() as int),
            it.seq() == s@,
    {
        chars.push(c);
    }
    chars
}

/// Folds one character to lower case.
pub fn to_ascii_lower(c: char) -> (lower: char)
    ensures
        lower == ascii_lower(c),
{
    if 'A' <= c && c <= 'Z' {
        ((c as u8) + 32) as char
    } else {
        c
    }
}

/// Compares `needle` with the part of `hay` that starts at `at`, folding case
/// on both sides when `fold` is set.
pub fn region_matches(hay: &[char], at: usize, needle: &[char], fold: bool) -> (hit: bool)
    ensures
        hit == occurs_at(folded(hay@, fold), folded(needle@, fold), at as int),
{
    if needle.len() > hay.len() || at > hay.len() - needle.len() {
        return false;
    }
    let ghost h = folded(hay@, fold);
    let ghost n = folded(needle@, fold);
    let mut k: usize = 0;
    while k < needle.len()
        invariant
            k <= needle.len(),
            at + needle.len() <= hay.len(),
            h == folded(hay@, fold),
            n == folded(needle@, fold),
            forall|j: int| 0 <= j < k ==> h[at + j] == n[j],
        decreases needle.len() - k,
    {
        let a: char = if fold { to_ascii_lower(hay[at + k]) } else { hay[at + k] };
        let b: char = if fold { to_ascii_lower(needle[k]) } else { needle[k] };
        if a != b {
            assert(h.subrange(at as int, at + n.len())[k as int] != n[k as int]);
            return false;
        }
        k += 1;
    }
    assert(h.subrange(at as int, at + n.len()) =~= n);
    true
}

/// Whether `needle` stands somewhere in `hay`.
pub fn contains(hay: &str, needle: &str) -> (found: bool)
    ensures
        found == contains_text(hay@, needle@),
{
    let h = to_chars(hay);
    let n = to_chars(needle);
    if n.len() > h.len() {
        return false;
    }
    let last: usize = h.len() - n.len();
    let mut at: usize = 0;
    while at < last
        invariant
            at <= last,
            last == h.len() - n.len(),
            h@ == hay@,
            n@ == needle@,
            forall|p: int| 0 <= p < at ==> !occurs_at(hay@, needle@, p),
        decreases last - at,
    {
        if region_matches(h.as_slice(), at, n.as_slice(), false) {
            return true;
        }
        at += 1;
    }
    region_matches(h.as_slice(), last, n.as_slice(), false)
}

/// Whether `s` ends with `suffix`.
pub fn ends_with(s: &str, suffix: &str) -> (hit: bool)
    ensures
        hit == ends_with_text(s@, suffix@),
{
    ends_with_folded(s, suffix, false)
}

/// Whether `s` ends with `suffix`, the case of ASCII letters set aside.
pub fn ends_with_ignoring_case(s: &str, suffix: &str) -> (hit: bool)
    ensures
        hit == ends_with_text_ignoring_case(s@, suffix@),
{
    ends_with_folded(s, suffix, true)
}

fn ends_with_folded(s: &str, suffix: &str, fold: bool) -> (hit: bool)
    ensures
        hit == folded(suffix@, fold).is_suffix_of(folded(s@, fold)),
{
    let h = to_chars(s);
    let n = to_chars(suffix);
    if n.len() > h.len() {
        return false;
    }
    region_matches(h.as_slice(), h.len() - n.len(), n.as_slice(), fold)
}

} // verus!
