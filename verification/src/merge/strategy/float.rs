//! Policies for numbers with a fraction.
//!
//! Such numbers are compared by the caller, who also holds them; what is
//! decided here, from the outcome of the comparisons, is whether the right
//! side replaces the left. As for unsigned integers, zero stands for "not
//! set". The default policy is [`non_negative`].

use vstd::prelude::*;

verus! {

/// What comparing the two operands of a merge gave.
#[derive(Debug, Clone, Copy, PartialEq, Eq)]
pub struct Comparison {
    /// The left operand is less than zero.
    pub left_negative: bool,
    /// The right operand is less than zero.
    pub right_negative: bool,
    /// The left operand equals zero.
    pub left_zero: bool,
    /// The right operand equals zero.
    pub right_zero: bool,
    /// The two operands are equal.
    pub equal: bool,
}

impl Comparison {
    /// What holds of the outcome whatever two numbers were compared: zero is
    /// not negative, two zeros are equal, and equal numbers are alike in
    /// being zero and in being negative. (An operand that is not a number
    /// equals nothing, itself included, and is neither zero nor negative.)
    pub open spec fn consistent(self) -> bool {
        &&& self.left_zero ==> !self.left_negative
        &&& self.right_zero ==> !self.right_negative
        &&& self.left_zero && self.right_zero ==> self.equal
        &&& self.equal ==> self.left_zero == self.right_zero
        &&& self.equal ==> self.left_negative == self.right_negative
    }

    /// Whether the right side replaces the left where negative numbers are
    /// let through: it does unless it is zero or equal to the left.
    pub open spec fn replaces(self) -> bool {
        !self.right_zero && !self.equal
    }

    /// Whether the right side replaces the left where negative numbers are
    /// held back: a negative number on either side disables the merge.
    pub open spec fn replaces_non_negative(self) -> bool {
        !self.left_negative && !self.right_negative && self.replaces()
    }
}

/// Decides a merge that holds negative numbers back: with a negative number
/// on either side the left side is kept; otherwise as [`with_negatives`].
/// Returns whether the right side replaces the left.
pub fn non_negative(seen: Comparison) -> (replace: bool)
    ensures
        replace == seen.replaces_non_negative(),
{
    if seen.left_negative || seen.right_negative {
        return false;
    }
    with_negatives(seen)
}

/// Decides a merge that lets negative numbers through: a zero on the right
/// never overwrites, anything else on the right wins. Returns whether the
/// right side replaces the left.
pub fn with_negatives(seen: Comparison) -> (replace: bool)
    ensures
        replace == seen.replaces(),
{
    // Nothing is set on either side.
    if seen.left_zero && seen.right_zero {
        return false;
    }
    // Only the left side is set: zero does not overwrite it.
    if !seen.left_zero && seen.right_zero {
        return false;
    }
    !seen.equal
}

/// Under the policy that holds negative numbers back, a negative operand on
/// either side leaves the left side unchanged; the policy that lets them
/// through takes a right side that is set and differs, negative or not.
pub proof fn lemma_negative_disables_the_merge(seen: Comparison)
    ensures
        seen.left_negative || seen.right_negative ==> !seen.replaces_non_negative(),
        !seen.right_zero && !seen.equal ==> seen.replaces(),
        !seen.left_negative && !seen.right_negative ==> seen.replaces_non_negative()
            == seen.replaces(),
{
}

/// Zero stands for "not set": merging zero into a number leaves the number
/// unchanged, and merging a number that is not negative into zero gives a
/// left side equal to that number.
pub proof fn lemma_zero_is_unset(seen: Comparison)
    requires
        seen.consistent(),
    ensures
        seen.right_zero ==> !seen.replaces() && !seen.replaces_non_negative(),
        seen.left_zero && !seen.right_negative ==> seen.replaces_non_negative() || seen.equal,
{
}

} // verus!
