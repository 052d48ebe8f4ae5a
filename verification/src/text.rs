//! Comparison of string slices, character by character.

use vstd::prelude::*;
use vstd::string::StrSliceExecFns;

verus! {

/// Tells whether two string slices hold the same characters. Each character
/// is reached by counting from the start, so the time taken grows with the
/// square of the length: meant for short identifiers.
pub fn same_text(a: &str, b: &str) -> (same: bool)
    ensures
        same == (a@ == b@),
{
    let n: usize = a.unicode_len();
    if n != b.unicode_len() {
        return false;
    }
    let mut i: usize = 0;
    while i < n
        invariant
            n == a@.len(),
            n == b@.len(),
            i <= n,
            forall|j: int| 0 <= j < i ==> a@[j] == b@[j],
        decreases n - i,
    {
        if a.get_char(i) != b.get_char(i) {
            return false;
        }
        i += 1;
    }
    assert(a@ =~= b@);
    true
}

} // verus!
