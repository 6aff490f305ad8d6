//! Verified substring search over character sequences.
//!
//! The model-presence check looks for a model identifier inside the raw
//! body of the service's listing endpoint; this module supplies that
//! search with an exact contract.

use vstd::prelude::*;

verus! {

/// The needle `n` occurs in `h` starting at character position `i`.
pub open spec fn contains_at(h: Seq<char>, n: Seq<char>, i: int) -> bool {
    &&& 0 <= i
    &&& i + n.len() <= h.len()
    &&& forall|j: int| 0 <= j < n.len() ==> h[i + j] == n[j]
}

/// The needle `n` occurs somewhere in `h` (always true of an empty needle).
pub open spec fn seq_contains(h: Seq<char>, n: Seq<char>) -> bool {
    exists|i: int| contains_at(h, n, i)
}

/// Does `h` match `n` character by character starting at position `i`?
fn matches_at(h: &str, n: &str, i: usize) -> (r: bool)
    requires
        i + n@.len() <= h@.len(),
    ensures
        r == contains_at(h@, n@, i as int),
{
    let nl = n.unicode_len();
    let hl = h.unicode_len();
    let mut j: usize = 0;
    while j < nl
        invariant
            nl == n@.len(),
            hl == h@.len(),
            j <= nl,
            i + nl <= h@.len(),
            forall|k: int| 0 <= k < j ==> h@[i + k] == n@[k],
        decreases nl - j,
    {
        if h.get_char(i + j) != n.get_char(j) {
            return false;
        }
        j += 1;
    }
    true
}

/// Substring search: returns whether `n` occurs anywhere in `h`.
pub fn str_contains(h: &str, n: &str) -> (r: bool)
    ensures
        r == seq_contains(h@, n@),
{
    let hl = h.unicode_len();
    let nl = n.unicode_len();
    if nl > hl {
        assert(forall|i: int| !contains_at(h@, n@, i));
        return false;
    }
    let last = hl - nl;
    let mut i: usize = 0;
    while i <= last
        invariant
            hl == h@.len(),
            nl == n@.len(),
            nl <= hl,
            last == hl - nl,
            i <= last + 1,
            forall|k: int| 0 <= k < i ==> !contains_at(h@, n@, k),
        decreases last + 1 - i,
    {
        if matches_at(h, n, i) {
            assert(contains_at(h@, n@, i as int));
            return true;
        }
        i += 1;
    }
    assert forall|k: int| !contains_at(h@, n@, k) by {
        if 0 <= k <= last {
            assert(!contains_at(h@, n@, k));
        }
    }
    false
}

} // verus!
