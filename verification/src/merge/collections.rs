//! Collections grow when merged: sequences are concatenated, maps and sets
//! take every entry of the other side.

use crate::merge::strategy;
use crate::merge::Merge;
use std::collections::{BTreeMap, BTreeSet, HashMap, HashSet};
use std::hash::Hash;
use vstd::laws_cmp::obeys_cmp;
use vstd::prelude::*;
use vstd::std_specs::hash::obeys_key_model;

verus! {

impl<T> Merge for Vec<T> {
    open spec fn merged(pre: Self, other: Self, post: Self) -> bool {
        post@ == pre@ + other@
    }

    fn merge(&mut self, other: Self) {
        strategy::vec::extend(self, other);
    }
}

impl<K: Hash + Eq, V> Merge for HashMap<K, V> {
    open spec fn merged(pre: Self, other: Self, post: Self) -> bool {
        obeys_key_model::<K>() ==> post@ == pre@.union_prefer_right(other@)
    }

    fn merge(&mut self, other: Self) {
        strategy::maps::hashmap::extend(self, other);
    }
}

impl<T: Hash + Eq> Merge for HashSet<T> {
    open spec fn merged(pre: Self, other: Self, post: Self) -> bool {
        obeys_key_model::<T>() ==> post@ == pre@.union(other@)
    }

    fn merge(&mut self, other: Self) {
        strategy::sets::hashset::extend(self, other);
    }
}

impl<K: Ord, V> Merge for BTreeMap<K, V> {
    open spec fn merged(pre: Self, other: Self, post: Self) -> bool {
        obeys_cmp::<K>() ==> post@ == pre@.union_prefer_right(other@)
    }

    fn merge(&mut self, other: Self) {
        strategy::maps::btreemap::extend(self, other);
    }
}

impl<T: Ord> Merge for BTreeSet<T> {
    open spec fn merged(pre: Self, other: Self, post: Self) -> bool {
        obeys_cmp::<T>() ==> post@ == pre@.union(other@)
    }

    fn merge(&mut self, other: Self) {
        strategy::sets::btreeset::extend(self, other);
    }
}

} // verus!
