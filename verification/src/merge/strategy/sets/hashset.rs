//! Policies for [`HashSet`]. The default policy is [`extend`].

use std::collections::HashSet;
use std::hash::{Hash, RandomState};
use vstd::prelude::*;
use vstd::std_specs::hash::{builds_valid_hashers, obeys_key_model};

verus! {

/// `Extend::extend` of `HashSet`, fed with another set: every element of `rhs`
/// is inserted into `lhs`, so that `lhs` ends as the union of the two. As
/// everywhere in the model of `HashSet`, this is claimed for elements that
/// hash and compare as the model expects.
#[verifier::external_body]
fn extend_from_set<T: Hash + Eq>(lhs: &mut HashSet<T>, rhs: HashSet<T>)
    ensures
        obeys_key_model::<T>() && builds_valid_hashers::<RandomState>() ==> final(lhs)@ == old(
            lhs,
        )@.union(rhs@),
{
    lhs.extend(rhs);
}

/// Inserts every element of `rhs` into `lhs`: `lhs` ends as the union of the
/// two sets.
pub fn extend<T: Hash + Eq>(lhs: &mut HashSet<T>, rhs: HashSet<T>)
    ensures
        obeys_key_model::<T>() ==> final(lhs)@ == old(lhs)@.union(rhs@),
{
    broadcast use vstd::std_specs::hash::group_hash_axioms;

    extend_from_set(lhs, rhs);
}

/// Replaces `lhs` by `rhs`, whatever `lhs` held.
pub fn overwrite<T: Hash + Eq>(lhs: &mut HashSet<T>, rhs: HashSet<T>)
    ensures
        *final(lhs) == rhs,
{
    *lhs = rhs;
}

} // verus!
