//! In-place structural merging.
//!
//! A mergeable type combines a value of a compatible type into itself,
//! following a fixed rule for each structural category: scalars are
//! replaced, sequences and text are appended to, optionals and owned
//! indirections recurse into their contents, and maps take the union of
//! their keys, merging the values held under keys present on both sides.
//!
//! Compound types (records and tagged unions) obtain their merge
//! behaviour structurally, field by field or variant by variant; the
//! [`derivation`] module builds the plan such an implementation follows
//! from a description of the type's shape.

use vstd::prelude::*;

pub mod boxes;
pub mod compound;
pub mod derivation;
pub mod maps;
pub mod options;
pub mod scalars;
pub mod sequences;

verus! {

/// Holds when cloning a `T` can only yield a value equal to the
/// original. True of the scalar leaves; merge relations that insert
/// clones collapse to plain equality under it.
pub open spec fn clone_exact<T: Clone>() -> bool {
    forall|a: T, b: T| cloned::<T>(a, b) ==> b == a
}

/// The ability to merge a value of type `Rhs` into `self`, in place.
///
/// `other` is only read; `self` is updated so that
/// [`MergeFrom::merge_post`] relates its old value, `other`, and its
/// new value. Merging is total: it always completes and never fails.
pub trait MergeFrom<Rhs = Self>: Sized {
    /// What merging means for this type: relates the value of `self`
    /// before the merge, the merged-in value, and the value of `self`
    /// after.
    spec fn merge_post(pre: Self, other: Rhs, post: Self) -> bool;

    /// Merge `other` into `self` in place.
    fn merge_from(&mut self, other: &Rhs)
        ensures
            Self::merge_post(*old(self), *other, *final(self)),
    ;

    /// Merge with a caller-supplied rule in place of the type's own:
    /// `self` becomes whatever the rule makes of its old value and
    /// `other`, for one-off custom semantics.
    fn merge_with<F: FnOnce(&Self, &Rhs) -> Self>(&mut self, other: &Rhs, f: F)
        requires
            call_requires(f, (&*old(self), other)),
        ensures
            call_ensures(f, (&*old(self), other), *final(self)),
    {
        let merged = f(&*self, other);
        *self = merged;
    }
}

} // verus!
