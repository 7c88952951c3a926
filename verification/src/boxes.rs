//! Merge rule for owned indirection: transparency.
//!
//! A single-owner wrapper merges by recursing into the value it holds;
//! the wrapper itself is never replaced. A box can also absorb a bare
//! value of its element type the same way.

use vstd::prelude::*;

use crate::MergeFrom;

verus! {

impl<T: MergeFrom> MergeFrom for Box<T> {
    open spec fn merge_post(pre: Self, other: Self, post: Self) -> bool {
        T::merge_post(*pre, *other, *post)
    }

    fn merge_from(&mut self, other: &Self) {
        (&mut **self).merge_from(&**other);
    }
}

impl<T: MergeFrom> MergeFrom<T> for Box<T> {
    open spec fn merge_post(pre: Self, other: T, post: Self) -> bool {
        T::merge_post(*pre, other, *post)
    }

    fn merge_from(&mut self, other: &T) {
        (&mut **self).merge_from(other);
    }
}

} // verus!
