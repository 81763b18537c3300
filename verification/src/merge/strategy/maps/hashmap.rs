//! Policies for [`HashMap`]. The default policy is [`extend`].

use std::collections::HashMap;
use std::hash::{Hash, RandomState};
use vstd::prelude::*;
use vstd::std_specs::hash::{builds_valid_hashers, obeys_key_model};

verus! {

/// `Extend::extend` of `HashMap`, fed with another map: every entry of `rhs`
/// is inserted into `lhs`, and where a key is in both, the value of `rhs`
/// replaces the one `lhs` had. As everywhere in the model of `HashMap`, this
/// is claimed for keys that hash and compare as the model expects.
#[verifier::external_body]
fn extend_from_map<K: Hash + Eq, V>(lhs: &mut HashMap<K, V>, rhs: HashMap<K, V>)
    ensures
        obeys_key_model::<K>() && builds_valid_hashers::<RandomState>() ==> final(lhs)@ == old(
            lhs,
        )@.union_prefer_right(rhs@),
{
    lhs.extend(rhs);
}

/// Inserts every entry of `rhs` into `lhs`. Entries of `lhs` under keys that
/// `rhs` does not have stay; under a key that both have, the value of `rhs`
/// wins.
pub fn extend<K: Hash + Eq, V>(lhs: &mut HashMap<K, V>, rhs: HashMap<K, V>)
    ensures
        obeys_key_model::<K>() ==> final(lhs)@ == old(lhs)@.union_prefer_right(rhs@),
{
    broadcast use vstd::std_specs::hash::group_hash_axioms;

    extend_from_map(lhs, rhs);
}

/// Replaces `lhs` by `rhs`, whatever `lhs` held.
pub fn overwrite<K: Hash + Eq, V>(lhs: &mut HashMap<K, V>, rhs: HashMap<K, V>)
    ensures
        *final(lhs) == rhs,
{
    *lhs = rhs;
}

} // verus!
