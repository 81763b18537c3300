//! Policies for [`BTreeSet`]. The default policy is [`extend`].

use std::collections::BTreeSet;
use vstd::laws_cmp::obeys_cmp;
use vstd::prelude::*;

verus! {

/// `Extend::extend` of `BTreeSet`, fed with another set: every element of
/// `rhs` is inserted into `lhs`, so that `lhs` ends as the union of the two.
/// As everywhere in the model of `BTreeSet`, this is claimed for elements
/// whose order is a total order.
#[verifier::external_body]
fn extend_from_set<T: Ord>(lhs: &mut BTreeSet<T>, rhs: BTreeSet<T>)
    ensures
        obeys_cmp::<T>() ==> final(lhs)@ == old(lhs)@.union(rhs@),
{
    lhs.extend(rhs);
}

/// `BTreeSet::append`: moves every element of `right` into `left`, so that
/// `left` ends as the union of the two and `right` ends empty. Claimed for
/// elements whose order is a total order.
#[verifier::external_body]
fn append_set<T: Ord>(left: &mut BTreeSet<T>, right: &mut BTreeSet<T>)
    ensures
        obeys_cmp::<T>() ==> final(left)@ == old(left)@.union(old(right)@),
        obeys_cmp::<T>() ==> final(right)@ == Set::<T>::empty(),
{
    left.append(right);
}

/// Inserts every element of `rhs` into `lhs`: `lhs` ends as the union of the
/// two sets.
pub fn extend<T: Ord>(lhs: &mut BTreeSet<T>, rhs: BTreeSet<T>)
    ensures
        obeys_cmp::<T>() ==> final(lhs)@ == old(lhs)@.union(rhs@),
{
    extend_from_set(lhs, rhs);
}

/// Replaces `lhs` by `rhs`, whatever `lhs` held.
pub fn overwrite<T: Ord>(lhs: &mut BTreeSet<T>, rhs: BTreeSet<T>)
    ensures
        *final(lhs) == rhs,
{
    *lhs = rhs;
}

/// Moves every element of `right` into `left`: `left` ends as the union of
/// the two sets.
pub fn append<T: Ord>(left: &mut BTreeSet<T>, right: BTreeSet<T>)
    ensures
        obeys_cmp::<T>() ==> final(left)@ == old(left)@.union(right@),
{
    let mut right = right;
    append_set(left, &mut right);
}

/// Moves the elements of `right` into `lhs` if `lhs` is empty, and leaves
/// `lhs` alone otherwise.
pub fn overwrite_empty<T: Ord>(lhs: &mut BTreeSet<T>, right: BTreeSet<T>)
    ensures
        obeys_cmp::<T>() ==> final(lhs)@ == if old(lhs)@.is_empty() {
            right@
        } else {
            old(lhs)@
        },
{
    let mut right = right;
    if lhs.is_empty() {
        append_set(lhs, &mut right);
    }
}

} // verus!
