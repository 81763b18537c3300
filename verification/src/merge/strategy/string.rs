//! Policies for [`String`]. The default policy replaces the left side when the
//! two sides differ.

use vstd::prelude::*;
use vstd::string::StringExecFns;

verus! {

/// Appends `right` to `left`.
pub fn append(left: &mut String, right: String)
    ensures
        final(left)@ == old(left)@ + right@,
{
    left.append(right.as_str());
}

/// Replaces `left` by `right`, whatever `left` held.
pub fn overwrite(left: &mut String, right: String)
    ensures
        *final(left) == right,
{
    *left = right;
}

/// Replaces `left` by `right` if `left` is empty, and leaves it alone otherwise.
pub fn overwrite_empty(left: &mut String, right: String)
    ensures
        *final(left) == if old(left)@.len() == 0 {
            right
        } else {
            *old(left)
        },
{
    if left.as_str().is_empty() {
        *left = right;
    }
}

} // verus!
