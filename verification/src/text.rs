//! Character-level helpers shared by the parser and the classifier.
//!
//! Text is handled as a sequence of Unicode scalar values. Every function here
//! is stated over `Seq<char>`, so a contract about a `&str` and one about a
//! slice of characters speak of the same thing.

use vstd::prelude::*;
use vstd::slice::slice_subrange;

verus! {

/// Whether `needle` occurs in `hay` starting at index `i`.
pub open spec fn occurs_at(hay: Seq<char>, needle: Seq<char>, i: int) -> bool {
    &&& 0 <= i
    &&& i + needle.len() <= hay.len()
    &&& hay.subrange(i, i + needle.len()) == needle
}

/// Whether `needle` occurs in `hay` as a contiguous run.
pub open spec fn contains_seq(hay: Seq<char>, needle: Seq<char>) -> bool {
    exists|i: int| occurs_at(hay, needle, i)
}

/// Whether `s` begins with `prefix`.
pub open spec fn starts_with_seq(s: Seq<char>, prefix: Seq<char>) -> bool {
    occurs_at(s, prefix, 0)
}

/// `line` without the carriage return at its end, where it has one.
pub open spec fn without_carriage_return_seq(line: Seq<char>) -> Seq<char> {
    if line.len() > 0 && line.last() == '\r' {
        line.drop_last()
    } else {
        line
    }
}

/// The length of the first line of `s`: the index of its first line feed, or
/// the length of `s` where it holds none.
pub open spec fn first_line_len(s: Seq<char>) -> int
    decreases s.len(),
{
    if s.len() == 0 || s.first() == '\n' {
        0
    } else {
        1 + first_line_len(s.drop_first())
    }
}

/// `first_line_len` stays inside the sequence, stops at a line feed, and
/// passes none on its way.
pub proof fn lemma_first_line_len(s: Seq<char>)
    ensures
        0 <= first_line_len(s) <= s.len(),
        first_line_len(s) < s.len() ==> s[first_line_len(s)] == '\n',
        forall|k: int| 0 <= k < first_line_len(s) ==> s[k] != '\n',
    decreases s.len(),
{
    if s.len() == 0 || s.first() == '\n' {
    } else {
        let rest = s.drop_first();
        lemma_first_line_len(rest);
        assert forall|k: int| 0 <= k < first_line_len(s) implies s[k] != '\n' by {
            if k > 0 {
                assert(s[k] == rest[k - 1]);
            }
        }
    }
}

/// A run without a line feed that ends at a line feed, or at the end of the
/// sequence, is the first line.
pub proof fn lemma_first_line_len_is(s: Seq<char>, n: int)
    requires
        0 <= n <= s.len(),
        n < s.len() ==> s[n] == '\n',
        forall|k: int| 0 <= k < n ==> s[k] != '\n',
    ensures
        first_line_len(s) == n,
    decreases s.len(),
{
    if s.len() == 0 || s.first() == '\n' {
        if s.len() > 0 && n > 0 {
            assert(s[0] != '\n');
        }
    } else {
        let rest = s.drop_first();
        assert(n > 0);
        assert forall|k: int| 0 <= k < n - 1 implies rest[k] != '\n' by {
            assert(rest[k] == s[k + 1]);
        }
        lemma_first_line_len_is(rest, n - 1);
    }
}

/// The characters of a string slice, in order.
pub fn chars_of(s: &str) -> (v: Vec<char>)
    ensures
        v@ == s@,
{
    let mut v: Vec<char> = Vec::new();
    for c in it: s.chars()
        invariant
            it.seq() == s@,
            v@ == it.seq().take(it.index()),
    {
        v.push(c);
    }
    v
}

/// A string made of the given characters.
///
/// Trusted: collecting characters into a `String` through its
/// `FromIterator<char>` impl yields exactly those characters, in order.
#[verifier::external_body]
pub(crate) fn string_of(s: &[char]) -> (r: String)
    ensures
        r@ == s@,
{
    s.iter().collect()
}

/// Whether `needle` stands in `hay` at index `i`.
pub fn matches_at(hay: &[char], needle: &[char], i: usize) -> (b: bool)
    ensures
        b == occurs_at(hay@, needle@, i as int),
{
    let n: usize = needle.len();
    if i > hay.len() || n > hay.len() - i {
        return false;
    }
    let mut k: usize = 0;
    while k < n
        invariant
            k <= n,
            n == needle@.len(),
            i + n <= hay.len(),
            forall|j: int| 0 <= j < k ==> hay@[i + j] == needle@[j],
        decreases n - k,
    {
        if hay[i + k] != needle[k] {
            proof {
                let window = hay@.subrange(i as int, i + n);
                assert(window[k as int] == hay@[i + k]);
            }
            return false;
        }
        k += 1;
    }
    assert(hay@.subrange(i as int, i + n) =~= needle@);
    true
}

/// Whether `s` begins with `prefix`.
pub fn starts_with(s: &[char], prefix: &[char]) -> (b: bool)
    ensures
        b == starts_with_seq(s@, prefix@),
{
    matches_at(s, prefix, 0)
}

/// Whether `needle` occurs somewhere in `hay`.
pub fn contains(hay: &[char], needle: &[char]) -> (b: bool)
    ensures
        b == contains_seq(hay@, needle@),
{
    let n: usize = needle.len();
    if n > hay.len() {
        return false;
    }
    let last: usize = hay.len() - n;
    let mut i: usize = 0;
    while i < last
        invariant
            i <= last,
            last + n == hay@.len(),
            n == needle@.len(),
            forall|j: int| 0 <= j < i ==> !occurs_at(hay@, needle@, j),
        decreases last - i,
    {
        if matches_at(hay, needle, i) {
            return true;
        }
        i += 1;
    }
    matches_at(hay, needle, last)
}

/// The line without the carriage return at its end, where it has one.
pub fn without_carriage_return(line: &[char]) -> (r: &[char])
    ensures
        r@ == without_carriage_return_seq(line@),
{
    let len: usize = line.len();
    if len > 0 && line[len - 1] == '\r' {
        let r = slice_subrange(line, 0, len - 1);
        assert(r@ =~= line@.drop_last());
        r
    } else {
        line
    }
}

/// The length of the first line of `s`.
pub fn line_len(s: &[char]) -> (n: usize)
    ensures
        n == first_line_len(s@),
{
    let len: usize = s.len();
    let mut n: usize = 0;
    while n < len && s[n] != '\n'
        invariant
            n <= len,
            len == s@.len(),
            forall|k: int| 0 <= k < n ==> s@[k] != '\n',
        decreases len - n,
    {
        n += 1;
    }
    proof {
        lemma_first_line_len_is(s@, n as int);
    }
    n
}

} // verus!
