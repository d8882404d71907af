//! Small shared executable helpers.

use vstd::prelude::*;

verus! {

/// Whether some entry of `v` has the same characters as `s`.
pub fn contains_string(v: &Vec<String>, s: &String) -> (b: bool)
    ensures
        b == (exists|k: int| 0 <= k < v@.len() && (#[trigger] v@[k])@ == s@),
{
    let mut k: usize = 0;
    while k < v.len()
        invariant
            k <= v@.len(),
            forall|j: int| 0 <= j < k ==> (#[trigger] v@[j])@ != s@,
        decreases v@.len() - k,
    {
        if s.eq(&v[k]) {
            return true;
        }
        k = k + 1;
    }
    false
}

} // verus!
