//! Signed integers: zero is a value like any other, so the right side
//! replaces the left whenever the two differ.

use crate::merge::{replace_unequal, Merge};
use vstd::prelude::*;

verus! {

impl Merge for i8 {
    open spec fn merged(pre: Self, other: Self, post: Self) -> bool {
        post == replace_unequal(pre, other)
    }

    fn merge(&mut self, other: Self) {
        if *self != other {
            *self = other;
        }
    }
}

impl Merge for i16 {
    open spec fn merged(pre: Self, other: Self, post: Self) -> bool {
        post == replace_unequal(pre, other)
    }

    fn merge(&mut self, other: Self) {
        if *self != other {
            *self = other;
        }
    }
}

impl Merge for i32 {
    open spec fn merged(pre: Self, other: Self, post: Self) -> bool {
        post == replace_unequal(pre, other)
    }

    fn merge(&mut self, other: Self) {
        if *self != other {
            *self = other;
        }
    }
}

impl Merge for i64 {
    open spec fn merged(pre: Self, other: Self, post: Self) -> bool {
        post == replace_unequal(pre, other)
    }

    fn merge(&mut self, other: Self) {
        if *self != other {
            *self = other;
        }
    }
}

impl Merge for i128 {
    open spec fn merged(pre: Self, other: Self, post: Self) -> bool {
        post == replace_unequal(pre, other)
    }

    fn merge(&mut self, other: Self) {
        if *self != other {
            *self = other;
        }
    }
}

impl Merge for isize {
    open spec fn merged(pre: Self, other: Self, post: Self) -> bool {
        post == replace_unequal(pre, other)
    }

    fn merge(&mut self, other: Self) {
        if *self != other {
            *self = other;
        }
    }
}

} // verus!
