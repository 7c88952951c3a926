//! Merge rule for scalar leaves: replacement.
//!
//! A scalar carries no structure to combine, so merging takes the
//! incoming value wholesale — last write wins.

use vstd::prelude::*;

use crate::MergeFrom;

verus! {

impl MergeFrom for u8 {
    open spec fn merge_post(pre: Self, other: Self, post: Self) -> bool {
        post == other
    }

    fn merge_from(&mut self, other: &Self) {
        *self = *other;
    }
}

impl MergeFrom for i8 {
    open spec fn merge_post(pre: Self, other: Self, post: Self) -> bool {
        post == other
    }

    fn merge_from(&mut self, other: &Self) {
        *self = *other;
    }
}

impl MergeFrom for u16 {
    open spec fn merge_post(pre: Self, other: Self, post: Self) -> bool {
        post == other
    }

    fn merge_from(&mut self, other: &Self) {
        *self = *other;
    }
}

impl MergeFrom for i16 {
    open spec fn merge_post(pre: Self, other: Self, post: Self) -> bool {
        post == other
    }

    fn merge_from(&mut self, other: &Self) {
        *self = *other;
    }
}

impl MergeFrom for u32 {
    open spec fn merge_post(pre: Self, other: Self, post: Self) -> bool {
        post == other
    }

    fn merge_from(&mut self, other: &Self) {
        *self = *other;
    }
}

impl MergeFrom for i32 {
    open spec fn merge_post(pre: Self, other: Self, post: Self) -> bool {
        post == other
    }

    fn merge_from(&mut self, other: &Self) {
        *self = *other;
    }
}

impl MergeFrom for u64 {
    open spec fn merge_post(pre: Self, other: Self, post: Self) -> bool {
        post == other
    }

    fn merge_from(&mut self, other: &Self) {
        *self = *other;
    }
}

impl MergeFrom for i64 {
    open spec fn merge_post(pre: Self, other: Self, post: Self) -> bool {
        post == other
    }

    fn merge_from(&mut self, other: &Self) {
        *self = *other;
    }
}

impl MergeFrom for usize {
    open spec fn merge_post(pre: Self, other: Self, post: Self) -> bool {
        post == other
    }

    fn merge_from(&mut self, other: &Self) {
        *self = *other;
    }
}

impl MergeFrom for isize {
    open spec fn merge_post(pre: Self, other: Self, post: Self) -> bool {
        post == other
    }

    fn merge_from(&mut self, other: &Self) {
        *self = *other;
    }
}

impl MergeFrom for bool {
    open spec fn merge_post(pre: Self, other: Self, post: Self) -> bool {
        post == other
    }

    fn merge_from(&mut self, other: &Self) {
        *self = *other;
    }
}

/// Merging a scalar replaces it: whatever satisfies the scalar merge
/// relation is the incoming value, regardless of what was there before.
pub proof fn lemma_scalar_merge_replaces(pre: u64, other: u64, post: u64)
    requires
        <u64 as MergeFrom>::merge_post(pre, other, post),
    ensures
        post == other,
{
}

} // verus!
