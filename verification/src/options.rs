//! Merge rule for optional values.
//!
//! An absent incoming value changes nothing. A present incoming value
//! fills an absent receiver with a copy of its contents, and merges
//! recursively into a present one. An optional can also absorb a bare
//! value of its element type under the same rule.

use vstd::prelude::*;

use crate::MergeFrom;

verus! {

impl<T: MergeFrom + Clone> MergeFrom for Option<T> {
    open spec fn merge_post(pre: Self, other: Self, post: Self) -> bool {
        match other {
            None => post == pre,
            Some(o) => match (pre, post) {
                (None, Some(p)) => cloned::<T>(o, p),
                (Some(s), Some(p)) => T::merge_post(s, o, p),
                _ => false,
            },
        }
    }

    fn merge_from(&mut self, other: &Self) {
        match other {
            None => {},
            Some(o) => {
                let cur = self.take();
                match cur {
                    None => {
                        *self = Some(o.clone());
                    },
                    Some(mut r) => {
                        r.merge_from(o);
                        *self = Some(r);
                    },
                }
            },
        }
    }
}

impl<T: MergeFrom + Clone> MergeFrom<T> for Option<T> {
    open spec fn merge_post(pre: Self, other: T, post: Self) -> bool {
        match (pre, post) {
            (None, Some(p)) => cloned::<T>(other, p),
            (Some(s), Some(p)) => T::merge_post(s, other, p),
            _ => false,
        }
    }

    fn merge_from(&mut self, other: &T) {
        let cur = self.take();
        match cur {
            None => {
                *self = Some(other.clone());
            },
            Some(mut r) => {
                r.merge_from(other);
                *self = Some(r);
            },
        }
    }
}

/// Merging from an absent optional leaves the receiver unchanged,
/// whatever it holds.
pub proof fn lemma_merge_absent_is_identity<T: MergeFrom + Clone>(
    pre: Option<T>,
    post: Option<T>,
)
    requires
        <Option<T> as MergeFrom>::merge_post(pre, None, post),
    ensures
        post == pre,
{
}

} // verus!
