//! Policies for `bool`. The default policy replaces the left side when the two
//! sides differ.

use vstd::prelude::*;

verus! {

/// Takes `rhs` only while `lhs` is still `false`: once set, a flag stays set.
pub fn only_if_falsy(lhs: &mut bool, rhs: bool)
    ensures
        *final(lhs) == (*old(lhs) || rhs),
{
    if !*lhs {
        *lhs = rhs;
    }
}

} // verus!
