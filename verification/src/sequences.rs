//! Merge rule for sequences and text: appending.
//!
//! Merging never discards or reorders what the receiver already holds;
//! the incoming elements are copied onto its end, in their own order.
//! Text is the character-level instance of the same rule. A vector can
//! absorb any slice-like view of its element type, and text any
//! string-slice view.

use vstd::prelude::*;

use crate::MergeFrom;
use crate::clone_exact;

verus! {

/// Relates a sequence before a merge, the merged-in elements, and the
/// sequence after: the old elements stay in place and a copy of each
/// incoming element follows them, in order.
pub open spec fn appended<T: Clone>(pre: Seq<T>, other: Seq<T>, post: Seq<T>) -> bool {
    &&& post.len() == pre.len() + other.len()
    &&& forall|i: int| 0 <= i < pre.len() ==> post[i] == pre[i]
    &&& forall|i: int|
        0 <= i < other.len() ==> cloned::<T>(other[i], #[trigger] post[pre.len() + i])
}

impl<T: Clone> MergeFrom for Vec<T> {
    open spec fn merge_post(pre: Self, other: Self, post: Self) -> bool {
        appended(pre@, other@, post@)
    }

    fn merge_from(&mut self, other: &Self) {
        self.extend_from_slice(other.as_slice());
    }
}

impl<'a, T: Clone> MergeFrom<&'a [T]> for Vec<T> {
    open spec fn merge_post(pre: Self, other: &'a [T], post: Self) -> bool {
        appended(pre@, other@, post@)
    }

    fn merge_from(&mut self, other: &&'a [T]) {
        self.extend_from_slice(*other);
    }
}

impl<T: Clone, const N: usize> MergeFrom<[T; N]> for Vec<T> {
    open spec fn merge_post(pre: Self, other: [T; N], post: Self) -> bool {
        appended(pre@, other@, post@)
    }

    fn merge_from(&mut self, other: &[T; N]) {
        self.extend_from_slice(other.as_slice());
    }
}

impl MergeFrom for String {
    open spec fn merge_post(pre: Self, other: Self, post: Self) -> bool {
        post@ == pre@ + other@
    }

    fn merge_from(&mut self, other: &Self) {
        self.append(other.as_str());
    }
}

impl<'a> MergeFrom<&'a str> for String {
    open spec fn merge_post(pre: Self, other: &'a str, post: Self) -> bool {
        post@ == pre@ + other@
    }

    fn merge_from(&mut self, other: &&'a str) {
        self.append(*other);
    }
}

/// Merging sequences concatenates: when the elements' clones are exact,
/// the result is the old sequence followed by the incoming one, and the
/// lengths add up.
pub proof fn lemma_sequence_merge_appends<T: Clone>(pre: Vec<T>, other: Vec<T>, post: Vec<T>)
    requires
        <Vec<T> as MergeFrom>::merge_post(pre, other, post),
        clone_exact::<T>(),
    ensures
        post@ == pre@ + other@,
        post@.len() == pre@.len() + other@.len(),
{
    assert forall|i: int| 0 <= i < post@.len() implies post@[i] == (pre@ + other@)[i] by {
        if pre@.len() <= i {
            let j = i - pre@.len();
            assert(cloned::<T>(other@[j], post@[pre@.len() + j]));
        }
    }
    assert(post@ =~= pre@ + other@);
}

} // verus!
