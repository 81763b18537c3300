//! Policies for [`Vec`]. The default policy is [`extend`].

use vstd::prelude::*;

verus! {

/// Puts the elements of `rhs`, in their order, behind those of `lhs`. Nothing
/// is dropped, reordered or deduplicated.
pub fn extend<T>(lhs: &mut Vec<T>, rhs: Vec<T>)
    ensures
        final(lhs)@ == old(lhs)@ + rhs@,
{
    let mut rhs = rhs;
    lhs.append(&mut rhs);
}

/// Replaces `lhs` by `rhs`, whatever `lhs` held.
pub fn overwrite<T>(lhs: &mut Vec<T>, rhs: Vec<T>)
    ensures
        *final(lhs) == rhs,
{
    *lhs = rhs;
}

/// Moves the elements of `right`, in their order, behind those of `left`.
pub fn append<T>(left: &mut Vec<T>, right: Vec<T>)
    ensures
        final(left)@ == old(left)@ + right@,
{
    let mut right = right;
    left.append(&mut right);
}

/// Fills `lhs` with the elements of `right` if `lhs` is empty, and leaves it
/// alone otherwise.
pub fn overwrite_empty<T>(lhs: &mut Vec<T>, right: Vec<T>)
    ensures
        final(lhs)@ == if old(lhs)@.len() == 0 {
            right@
        } else {
            old(lhs)@
        },
{
    let mut right = right;
    if lhs.is_empty() {
        lhs.append(&mut right);
    }
}

} // verus!
