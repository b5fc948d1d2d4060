//! Character-level string helpers used throughout the contracts.

use vstd::prelude::*;

verus! {

/// Compares two string slices character by character.
pub fn str_eq(a: &str, b: &str) -> (r: bool)
    ensures
        r == (a@ == b@),
{
    let alen = a.unicode_len();
    let blen = b.unicode_len();
    if alen != blen {
        return false;
    }
    let mut i: usize = 0;
    while i < alen
        invariant
            i <= alen,
            alen == a@.len(),
            alen == b@.len(),
            forall|j: int| 0 <= j < i ==> a@[j] == b@[j],
        decreases alen - i,
    {
        if a.get_char(i) != b.get_char(i) {
            return false;
        }
        i = i + 1;
    }
    proof {
        assert(a@ =~= b@);
    }
    true
}

/// The prefix of `s` that precedes its first `/`, or all of `s` when it has
/// none.
pub open spec fn prefix_before_slash(s: Seq<char>) -> Seq<char>
    decreases s.len(),
{
    if s.len() == 0 {
        s
    } else if s[0] == '/' {
        Seq::empty()
    } else {
        seq![s[0]] + prefix_before_slash(s.drop_first())
    }
}

proof fn lemma_prefix_is_take(s: Seq<char>, k: int)
    requires
        0 <= k <= s.len(),
        forall|j: int| 0 <= j < k ==> s[j] != '/',
        k == s.len() || s[k] == '/',
    ensures
        prefix_before_slash(s) == s.take(k),
    decreases k,
{
    if s.len() == 0 {
        assert(prefix_before_slash(s) =~= s.take(k));
    } else if k == 0 {
        assert(prefix_before_slash(s) =~= s.take(0));
    } else {
        lemma_prefix_is_take(s.drop_first(), k - 1);
        assert(s.take(k) =~= seq![s[0]] + s.drop_first().take(k - 1));
    }
}

/// The part of an address that precedes any `/`-separated suffix.
pub fn split_prefix<'a>(s: &'a str) -> (p: &'a str)
    ensures
        p@ == prefix_before_slash(s@),
{
    let len = s.unicode_len();
    let mut k: usize = 0;
    while k < len
        invariant
            k <= len,
            len == s@.len(),
            forall|j: int| 0 <= j < k ==> s@[j] != '/',
        decreases len - k,
    {
        if s.get_char(k) == '/' {
            proof {
                lemma_prefix_is_take(s@, k as int);
            }
            return s.substring_char(0, k);
        }
        k = k + 1;
    }
    proof {
        lemma_prefix_is_take(s@, len as int);
        assert(s@.take(len as int) =~= s@);
    }
    s
}

} // verus!
