//! End-of-candidates detection.
//!
//! Trickle ICE gives this controller no explicit "gathering done" signal,
//! so a candidate whose text contains an implementation-defined marker is
//! taken to be the last one; a fallback timer covers the case where no such
//! candidate ever arrives.

use vstd::prelude::*;
use vstd::string::*;

verus! {

/// `n` occurs in `h` starting at position `i`.
pub open spec fn contains_at(h: Seq<char>, n: Seq<char>, i: int) -> bool {
    &&& 0 <= i
    &&& i + n.len() <= h.len()
    &&& forall|k: int| 0 <= k < n.len() ==> h[i + k] == n[k]
}

/// `n` occurs somewhere in `h`.
pub open spec fn contains_seq(h: Seq<char>, n: Seq<char>) -> bool {
    exists|i: int| contains_at(h, n, i)
}

/// The candidate text that marks the believed-last candidate of a gather.
pub open spec fn sentinel_mark() -> Seq<char> {
    "candidate:18"@
}

/// Whether a candidate's text marks the end of candidate gathering.
pub open spec fn is_sentinel(candidate: Seq<char>) -> bool {
    contains_seq(candidate, sentinel_mark())
}

/// Substring search: does `h` contain `n`?
pub fn contains_str(h: &str, n: &str) -> (b: bool)
    ensures
        b == contains_seq(h@, n@),
{
    let hl = h.unicode_len();
    let nl = n.unicode_len();
    if nl > hl {
        proof {
            assert forall|i: int| !contains_at(h@, n@, i) by {};
        }
        return false;
    }
    let mut i: usize = 0;
    while i <= hl - nl
        invariant
            nl <= hl,
            hl == h@.len(),
            nl == n@.len(),
            i <= hl - nl + 1,
            forall|j: int| 0 <= j < i ==> !contains_at(h@, n@, j),
        decreases hl - nl - i + 1,
    {
        let mut k: usize = 0;
        let mut matches_here = true;
        while k < nl && matches_here
            invariant
                nl <= hl,
                hl == h@.len(),
                nl == n@.len(),
                i <= hl - nl,
                k <= nl,
                matches_here ==> forall|m: int| 0 <= m < k ==> h@[i + m] == n@[m],
                !matches_here ==> !contains_at(h@, n@, i as int),
            decreases nl - k + (if matches_here {
                1int
            } else {
                0int
            }),
        {
            if h.get_char(i + k) != n.get_char(k) {
                matches_here = false;
            } else {
                k += 1;
            }
        }
        if matches_here {
            assert(contains_at(h@, n@, i as int));
            return true;
        }
        i += 1;
    }
    proof {
        assert forall|j: int| !contains_at(h@, n@, j) by {
            if 0 <= j && j + n@.len() <= h@.len() {
                assert(j < i);
            }
        };
    }
    false
}

/// Whether this candidate's text marks the end of gathering.
pub fn candidate_is_sentinel(candidate: &str) -> (b: bool)
    ensures
        b == is_sentinel(candidate@),
{
    contains_str(candidate, "candidate:18")
}

} // verus!
