//! Policies for [`BTreeMap`]. The default policy is [`extend`].

use std::collections::BTreeMap;
use vstd::laws_cmp::obeys_cmp;
use vstd::prelude::*;

verus! {

/// `Extend::extend` of `BTreeMap`, fed with another map: every entry of `rhs`
/// is inserted into `lhs`, and where a key is in both, the value of `rhs`
/// replaces the one `lhs` had. As everywhere in the model of `BTreeMap`, this
/// is claimed for keys whose order is a total order.
#[verifier::external_body]
fn extend_from_map<K: Ord, V>(lhs: &mut BTreeMap<K, V>, rhs: BTreeMap<K, V>)
    ensures
        obeys_cmp::<K>() ==> final(lhs)@ == old(lhs)@.union_prefer_right(rhs@),
{
    lhs.extend(rhs);
}

/// Inserts every entry of `rhs` into `lhs`. Entries of `lhs` under keys that
/// `rhs` does not have stay; under a key that both have, the value of `rhs`
/// wins.
pub fn extend<K: Ord, V>(lhs: &mut BTreeMap<K, V>, rhs: BTreeMap<K, V>)
    ensures
        obeys_cmp::<K>() ==> final(lhs)@ == old(lhs)@.union_prefer_right(rhs@),
{
    extend_from_map(lhs, rhs);
}

/// Replaces `lhs` by `rhs`, whatever `lhs` held.
pub fn overwrite<K: Ord, V>(lhs: &mut BTreeMap<K, V>, rhs: BTreeMap<K, V>)
    ensures
        *final(lhs) == rhs,
{
    *lhs = rhs;
}

} // verus!
