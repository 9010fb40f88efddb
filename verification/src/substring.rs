//! Substring containment over character sequences, with a verified
//! character-wise search.

use vstd::prelude::*;
use vstd::string::StrSliceExecFns;

verus! {

/// `needle` occurs in `haystack` starting at character index `i`.
pub open spec fn substr_at(haystack: Seq<char>, i: int, needle: Seq<char>) -> bool {
    &&& 0 <= i
    &&& i + needle.len() <= haystack.len()
    &&& haystack.subrange(i, i + needle.len()) == needle
}

/// `needle` occurs somewhere in `haystack`.
pub open spec fn contains_substr(haystack: Seq<char>, needle: Seq<char>) -> bool {
    exists|i: int| substr_at(haystack, i, needle)
}

/// A sequence occurs in itself, at the start.
pub proof fn lemma_substr_at_self(s: Seq<char>)
    ensures
        substr_at(s, 0, s),
{
    assert(s.subrange(0, s.len() as int) =~= s);
}

/// An occurrence is kept when text follows.
pub proof fn lemma_substr_at_extend_right(a: Seq<char>, b: Seq<char>, i: int, needle: Seq<char>)
    requires
        substr_at(a, i, needle),
    ensures
        substr_at(a + b, i, needle),
{
    assert((a + b).subrange(i, i + needle.len()) =~= a.subrange(i, i + needle.len()));
}

/// An occurrence is kept, shifted, when text precedes.
pub proof fn lemma_substr_at_extend_left(a: Seq<char>, b: Seq<char>, i: int, needle: Seq<char>)
    requires
        substr_at(b, i, needle),
    ensures
        substr_at(a + b, a.len() + i, needle),
{
    assert((a + b).subrange(a.len() + i, a.len() + i + needle.len()) =~= b.subrange(
        i,
        i + needle.len(),
    ));
}

/// Compare `needle` against `haystack` at character offset `i`.
fn match_at(haystack: &str, needle: &str, i: usize, n_len: usize) -> (r: bool)
    requires
        n_len == needle@.len(),
        i + n_len <= haystack@.len(),
        haystack@.len() <= usize::MAX,
    ensures
        r == substr_at(haystack@, i as int, needle@),
{
    let mut j: usize = 0;
    while j < n_len
        invariant
            n_len == needle@.len(),
            j <= n_len,
            i + n_len <= haystack@.len(),
            haystack@.len() <= usize::MAX,
            forall|k: int| 0 <= k < j ==> haystack@[i + k] == needle@[k],
        decreases n_len - j,
    {
        if haystack.get_char(i + j) != needle.get_char(j) {
            proof {
                assert(haystack@.subrange(i as int, i + needle@.len())[j as int] == haystack@[
                    i + j
                ]);
            }
            return false;
        }
        j = j + 1;
    }
    proof {
        assert(haystack@.subrange(i as int, i + needle@.len()) =~= needle@);
    }
    true
}

/// Whether `needle` occurs in `haystack`, as case-sensitive character-wise
/// substring containment.
pub fn str_contains(haystack: &str, needle: &str) -> (r: bool)
    ensures
        r == contains_substr(haystack@, needle@),
{
    let h_len = haystack.unicode_len();
    let n_len = needle.unicode_len();
    if n_len > h_len {
        return false;
    }
    if n_len == 0 {
        proof {
            assert(haystack@.subrange(0, 0) =~= needle@);
            assert(substr_at(haystack@, 0, needle@));
        }
        return true;
    }
    let mut i: usize = 0;
    while i <= h_len - n_len
        invariant
            h_len == haystack@.len(),
            n_len == needle@.len(),
            0 < n_len <= h_len,
            i <= h_len - n_len + 1,
            forall|k: int| 0 <= k < i ==> !substr_at(haystack@, k, needle@),
        decreases h_len - n_len - i + 1,
    {
        if match_at(haystack, needle, i, n_len) {
            return true;
        }
        i = i + 1;
    }
    proof {
        assert forall|k: int| !substr_at(haystack@, k, needle@) by {
            if 0 <= k < i {
                assert(!substr_at(haystack@, k, needle@));
            }
        }
    }
    false
}

} // verus!
