//! The [`Merge`] trait: folding one value of a type into another of the same type.
//!
//! Two configurations of the same shape, say defaults read from a file and
//! overrides read from the environment, are combined field by field. Merging
//! never fails. The rules lean towards filling gaps rather than destroying
//! what is there: an empty slot takes the incoming value, collections grow,
//! and for unsigned numbers zero counts as "not set".

pub mod strategy;

mod collections;
mod foreign;
mod signed;
mod unsigned;

use vstd::prelude::*;

verus! {

/// Deep merge of two values of one type.
///
/// `merge` folds `other` into `self`. It never fails; what the receiver holds
/// afterwards is given by [`Merge::merged`].
pub trait Merge: Sized {
    /// Relates the receiver before the merge (`pre`), the value merged in
    /// (`other`) and the receiver after the merge (`post`). An implementation
    /// that says nothing promises nothing.
    open spec fn merged(pre: Self, other: Self, post: Self) -> bool {
        true
    }

    /// Folds `other` into `self`.
    fn merge(&mut self, other: Self)
        ensures
            Self::merged(*old(self), other, *final(self)),
    ;
}

/// The rule for unsigned numbers, where zero stands for "not set": a zero on
/// the right never overwrites, anything else on the right wins.
pub open spec fn zero_as_unset(pre: int, other: int) -> int {
    if other == 0 {
        pre
    } else {
        other
    }
}

/// The rule for optional values: a filled slot is kept, an empty one takes
/// what comes in.
pub open spec fn fill_empty<T>(pre: Option<T>, other: Option<T>) -> Option<T> {
    if pre is Some {
        pre
    } else {
        other
    }
}

/// The rule for values that have no "unset" state: the right side replaces
/// the left whenever the two differ.
pub open spec fn replace_unequal<T>(pre: T, other: T) -> T {
    if pre == other {
        pre
    } else {
        other
    }
}

impl Merge for () {
    open spec fn merged(pre: Self, other: Self, post: Self) -> bool {
        post == pre
    }

    fn merge(&mut self, other: Self) {
    }
}

impl<T> Merge for Option<T> {
    open spec fn merged(pre: Self, other: Self, post: Self) -> bool {
        post == fill_empty(pre, other)
    }

    fn merge(&mut self, other: Self) {
        let mut other = other;
        if !self.is_some() {
            *self = other.take();
        }
    }
}

impl Merge for bool {
    open spec fn merged(pre: Self, other: Self, post: Self) -> bool {
        post == replace_unequal(pre, other)
    }

    fn merge(&mut self, other: Self) {
        if *self != other {
            *self = other;
        }
    }
}

impl Merge for String {
    open spec fn merged(pre: Self, other: Self, post: Self) -> bool {
        post == if pre@ == other@ {
            pre
        } else {
            other
        }
    }

    fn merge(&mut self, other: Self) {
        if *self != other {
            *self = other;
        }
    }
}

/// Merging zero into an unsigned number leaves the number as it is, and
/// merging a number into zero gives that number.
pub proof fn lemma_zero_is_unset(x: int)
    ensures
        zero_as_unset(x, 0) == x,
        zero_as_unset(0, x) == x,
{
}

/// Once both sides of an unsigned merge are set, the right side wins.
pub proof fn lemma_set_right_side_wins(x: int, y: int)
    requires
        y != 0,
    ensures
        zero_as_unset(x, y) == y,
{
}

/// An optional value is never overwritten once it is filled, and an empty one
/// becomes whatever is merged into it.
pub proof fn lemma_option_is_left_biased<T>(a: T, b: T)
    ensures
        fill_empty(Some(a), Some(b)) == Some(a),
        fill_empty(Some(a), None::<T>) == Some(a),
        fill_empty(None::<T>, Some(b)) == Some(b),
        fill_empty(None::<T>, None::<T>) == None::<T>,
{
}

/// Where the right side replaces the left on inequality, the merge of two
/// different values is the right one, and merging a value with itself
/// changes nothing.
pub proof fn lemma_replace_is_right_biased<T>(a: T, b: T)
    ensures
        a != b ==> replace_unequal(a, b) == b,
        replace_unequal(a, a) == a,
        replace_unequal(a, b) == b,
{
}

/// For strings the same holds, with strings compared by their characters:
/// after the merge the left side reads as the right side did.
pub proof fn lemma_string_replace_is_right_biased(a: String, b: String, post: String)
    requires
        String::merged(a, b, post),
    ensures
        a@ != b@ ==> post == b,
        a@ == b@ ==> post == a,
        post@ == b@,
{
}

/// Merging sequences only adds: the result is as long as both sides
/// together, it starts with the left side as it was, and the right side
/// follows in its order.
pub proof fn lemma_vec_merge_is_additive<T>(pre: Vec<T>, other: Vec<T>, post: Vec<T>)
    requires
        Vec::<T>::merged(pre, other, post),
    ensures
        post@.len() == pre@.len() + other@.len(),
        post@.subrange(0, pre@.len() as int) == pre@,
        post@.subrange(pre@.len() as int, post@.len() as int) == other@,
{
    assert(post@.subrange(0, pre@.len() as int) =~= pre@);
    assert(post@.subrange(pre@.len() as int, post@.len() as int) =~= other@);
}

/// Merging maps only adds and overrides: an entry of the left side whose key
/// the right side does not have stays as it was, every entry of the right
/// side is taken, and no other key comes in.
pub proof fn lemma_map_merge_keeps_and_overrides<K, V>(pre: Map<K, V>, other: Map<K, V>, key: K)
    ensures
        other.contains_key(key) ==> pre.union_prefer_right(other).contains_key(key)
            && pre.union_prefer_right(other)[key] == other[key],
        pre.contains_key(key) && !other.contains_key(key) ==> pre.union_prefer_right(
            other,
        ).contains_key(key) && pre.union_prefer_right(other)[key] == pre[key],
        pre.union_prefer_right(other).contains_key(key) ==> pre.contains_key(key)
            || other.contains_key(key),
{
}

/// Merging sets only adds: the result holds what either side held, and
/// nothing else.
pub proof fn lemma_set_merge_is_the_union<T>(pre: Set<T>, other: Set<T>, item: T)
    ensures
        pre.union(other).contains(item) <==> pre.contains(item) || other.contains(item),
{
}

} // verus!
