//! Character-level helpers for strings: equality and substring search,
//! both specified over the `Seq<char>` views of `&str`.

use vstd::prelude::*;

verus! {

/// `needle` occurs contiguously somewhere inside `hay`.
pub open spec fn contains_sub(hay: Seq<char>, needle: Seq<char>) -> bool {
    exists|i: int|
        0 <= i && i + needle.len() <= hay.len() && #[trigger] hay.subrange(i, i + needle.len())
            == needle
}

/// Whether `needle` occurs in `hay` starting exactly at `start`.
fn matches_at(hay: &str, needle: &str, start: usize) -> (r: bool)
    requires
        start + needle@.len() <= hay@.len(),
    ensures
        r == (hay@.subrange(start as int, start + needle@.len()) == needle@),
{
    let hlen = hay.unicode_len();
    let nlen = needle.unicode_len();
    let mut j: usize = 0;
    while j < nlen
        invariant
            0 <= j <= nlen,
            hlen == hay@.len(),
            nlen == needle@.len(),
            start + nlen <= hay@.len(),
            forall|k: int| 0 <= k < j ==> hay@[start + k] == needle@[k],
        decreases nlen - j,
    {
        let hc = hay.get_char(start + j);
        let nc = needle.get_char(j);
        if hc != nc {
            assert(hay@.subrange(start as int, start + needle@.len()) != needle@) by {
                assert(hay@.subrange(start as int, start + needle@.len())[j as int]
                    == hay@[start + j]);
            }
            return false;
        }
        j = j + 1;
    }
    assert(hay@.subrange(start as int, start + needle@.len()) =~= needle@);
    true
}

/// Substring search; the result is exactly `contains_sub` on the views.
pub fn contains_substring(hay: &str, needle: &str) -> (r: bool)
    ensures
        r == contains_sub(hay@, needle@),
{
    let hlen = hay.unicode_len();
    let nlen = needle.unicode_len();
    if nlen > hlen {
        assert(!contains_sub(hay@, needle@));
        return false;
    }
    if nlen == 0 {
        assert(contains_sub(hay@, needle@)) by {
            assert(hay@.subrange(0, 0 + needle@.len() as int) =~= needle@);
        }
        return true;
    }
    let mut start: usize = 0;
    loop
        invariant
            0 <= start <= hlen - nlen + 1,
            hlen == hay@.len(),
            nlen == needle@.len(),
            1 <= nlen <= hlen,
            forall|s: int|
                0 <= s < start ==> #[trigger] hay@.subrange(s, s + needle@.len()) != needle@,
        decreases hlen - nlen + 1 - start,
    {
        if start > hlen - nlen {
            assert(!contains_sub(hay@, needle@));
            return false;
        }
        if matches_at(hay, needle, start) {
            assert(contains_sub(hay@, needle@));
            return true;
        }
        start = start + 1;
    }
}

/// Character-for-character string equality, specified over the views.
pub fn str_eq(a: &str, b: &str) -> (r: bool)
    ensures
        r == (a@ == b@),
{
    let alen = a.unicode_len();
    let blen = b.unicode_len();
    if alen != blen {
        return false;
    }
    let mut i: usize = 0;
    while i < alen
        invariant
            0 <= i <= alen,
            alen == a@.len(),
            alen == b@.len(),
            forall|k: int| 0 <= k < i ==> a@[k] == b@[k],
        decreases alen - i,
    {
        if a.get_char(i) != b.get_char(i) {
            return false;
        }
        i = i + 1;
    }
    assert(a@ =~= b@);
    true
}

} // verus!
