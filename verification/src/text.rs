//! Verified equality on string slices.
//!
//! The controller's stable protocol identifiers (window label, menu item ids)
//! arrive from the platform as `&str`; dispatching on them needs an equality
//! test whose result is pinned to the views of both strings.

use vstd::prelude::*;

verus! {

/// Character-for-character equality of two string slices: the result is true
/// exactly when the two views are the same sequence of characters.
pub fn str_eq(a: &str, b: &str) -> (r: bool)
    ensures
        r == (a@ == b@),
{
    let a_len = a.unicode_len();
    let b_len = b.unicode_len();
    if a_len != b_len {
        return false;
    }
    let mut i: usize = 0;
    while i < a_len
        invariant
            i <= a_len,
            a_len == a@.len(),
            a_len == b@.len(),
            forall|j: int| 0 <= j < i ==> a@[j] == b@[j],
        decreases a_len - i,
    {
        if a.get_char(i) != b.get_char(i) {
            return false;
        }
        i = i + 1;
    }
    proof {
        assert(a@ =~= b@);
    }
    true
}

} // verus!
