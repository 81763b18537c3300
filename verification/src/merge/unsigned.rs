//! Unsigned integers: zero stands for "not set".

use crate::merge::{zero_as_unset, Merge};
use vstd::prelude::*;

verus! {

impl Merge for u8 {
    open spec fn merged(pre: Self, other: Self, post: Self) -> bool {
        post == zero_as_unset(pre as int, other as int)
    }

    fn merge(&mut self, other: Self) {
        // Nothing is set on either side.
        if *self == 0 && other == 0 {
            return ;
        }
        // Only the left side is set: zero does not overwrite it.
        if *self != 0 && other == 0 {
            return ;
        }
        // Only the right side is set.
        if *self == 0 && other > 0 {
            *self = other;
            return ;
        }
        // Both are set: the right side wins.
        if *self != other {
            *self = other;
        }
    }
}

impl Merge for u16 {
    open spec fn merged(pre: Self, other: Self, post: Self) -> bool {
        post == zero_as_unset(pre as int, other as int)
    }

    fn merge(&mut self, other: Self) {
        // Nothing is set on either side.
        if *self == 0 && other == 0 {
            return ;
        }
        // Only the left side is set: zero does not overwrite it.
        if *self != 0 && other == 0 {
            return ;
        }
        // Only the right side is set.
        if *self == 0 && other > 0 {
            *self = other;
            return ;
        }
        // Both are set: the right side wins.
        if *self != other {
            *self = other;
        }
    }
}

impl Merge for u32 {
    open spec fn merged(pre: Self, other: Self, post: Self) -> bool {
        post == zero_as_unset(pre as int, other as int)
    }

    fn merge(&mut self, other: Self) {
        // Nothing is set on either side.
        if *self == 0 && other == 0 {
            return ;
        }
        // Only the left side is set: zero does not overwrite it.
        if *self != 0 && other == 0 {
            return ;
        }
        // Only the right side is set.
        if *self == 0 && other > 0 {
            *self = other;
            return ;
        }
        // Both are set: the right side wins.
        if *self != other {
            *self = other;
        }
    }
}

impl Merge for u64 {
    open spec fn merged(pre: Self, other: Self, post: Self) -> bool {
        post == zero_as_unset(pre as int, other as int)
    }

    fn merge(&mut self, other: Self) {
        // Nothing is set on either side.
        if *self == 0 && other == 0 {
            return ;
        }
        // Only the left side is set: zero does not overwrite it.
        if *self != 0 && other == 0 {
            return ;
        }
        // Only the right side is set.
        if *self == 0 && other > 0 {
            *self = other;
            return ;
        }
        // Both are set: the right side wins.
        if *self != other {
            *self = other;
        }
    }
}

impl Merge for u128 {
    open spec fn merged(pre: Self, other: Self, post: Self) -> bool {
        post == zero_as_unset(pre as int, other as int)
    }

    fn merge(&mut self, other: Self) {
        // Nothing is set on either side.
        if *self == 0 && other == 0 {
            return ;
        }
        // Only the left side is set: zero does not overwrite it.
        if *self != 0 && other == 0 {
            return ;
        }
        // Only the right side is set.
        if *self == 0 && other > 0 {
            *self = other;
            return ;
        }
        // Both are set: the right side wins.
        if *self != other {
            *self = other;
        }
    }
}

impl Merge for usize {
    open spec fn merged(pre: Self, other: Self, post: Self) -> bool {
        post == zero_as_unset(pre as int, other as int)
    }

    fn merge(&mut self, other: Self) {
        // Nothing is set on either side.
        if *self == 0 && other == 0 {
            return ;
        }
        // Only the left side is set: zero does not overwrite it.
        if *self != 0 && other == 0 {
            return ;
        }
        // Only the right side is set.
        if *self == 0 && other > 0 {
            *self = other;
            return ;
        }
        // Both are set: the right side wins.
        if *self != other {
            *self = other;
        }
    }
}

} // verus!
