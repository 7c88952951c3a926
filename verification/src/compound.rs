//! Compound types and their structural merge implementations.
//!
//! A record merges field by field, in declaration order, each field
//! under its own type's rule; a tagged union merges payload-wise when
//! both sides hold the same variant and is wholly replaced otherwise.
//! The implementations here follow the merge plans that
//! [`crate::derivation`] builds from a shape descriptor, written out
//! for a few representative shapes.

use std::collections::BTreeMap;

use vstd::prelude::*;

use crate::MergeFrom;

verus! {

/// A record exercising one field of every structural category: a
/// scalar, an optional scalar, a sequence, an owned indirection into an
/// optional, and an optional map.
#[derive(Debug, PartialEq)]
pub struct MergeMe {
    pub a: i32,
    pub b: Option<u8>,
    pub c: Vec<i64>,
    pub d: Box<Option<usize>>,
    pub e: Option<BTreeMap<usize, String>>,
}

impl MergeFrom for MergeMe {
    open spec fn merge_post(pre: Self, other: Self, post: Self) -> bool {
        &&& <i32 as MergeFrom>::merge_post(pre.a, other.a, post.a)
        &&& <Option<u8> as MergeFrom>::merge_post(pre.b, other.b, post.b)
        &&& <Vec<i64> as MergeFrom>::merge_post(pre.c, other.c, post.c)
        &&& <Box<Option<usize>> as MergeFrom>::merge_post(pre.d, other.d, post.d)
        &&& <Option<BTreeMap<usize, String>> as MergeFrom>::merge_post(pre.e, other.e, post.e)
    }

    fn merge_from(&mut self, other: &Self) {
        self.a.merge_from(&other.a);
        self.b.merge_from(&other.b);
        self.c.merge_from(&other.c);
        self.d.merge_from(&other.d);
        self.e.merge_from(&other.e);
    }
}

/// A record of replace-and-recurse categories only: merging it is
/// field-wise replacement wherever the incoming side has a value.
#[derive(Debug, PartialEq)]
pub struct Scalars {
    pub a: i32,
    pub b: Option<i64>,
    pub c: Box<usize>,
}

impl MergeFrom for Scalars {
    open spec fn merge_post(pre: Self, other: Self, post: Self) -> bool {
        &&& <i32 as MergeFrom>::merge_post(pre.a, other.a, post.a)
        &&& <Option<i64> as MergeFrom>::merge_post(pre.b, other.b, post.b)
        &&& <Box<usize> as MergeFrom>::merge_post(pre.c, other.c, post.c)
    }

    fn merge_from(&mut self, other: &Self) {
        self.a.merge_from(&other.a);
        self.b.merge_from(&other.b);
        self.c.merge_from(&other.c);
    }
}

/// A record of the two appending categories, a sequence and text.
#[derive(Debug, PartialEq)]
pub struct VecStr {
    pub a: Vec<i64>,
    pub b: String,
}

impl MergeFrom for VecStr {
    open spec fn merge_post(pre: Self, other: Self, post: Self) -> bool {
        &&& <Vec<i64> as MergeFrom>::merge_post(pre.a, other.a, post.a)
        &&& <String as MergeFrom>::merge_post(pre.b, other.b, post.b)
    }

    fn merge_from(&mut self, other: &Self) {
        self.a.merge_from(&other.a);
        self.b.merge_from(&other.b);
    }
}

/// A tagged union with one payload variant and one unit variant.
#[derive(Debug, PartialEq, Clone, Copy)]
pub enum Shape {
    A(i32),
    B,
}

impl MergeFrom for Shape {
    open spec fn merge_post(pre: Self, other: Self, post: Self) -> bool {
        match (pre, other) {
            (Shape::A(p1), Shape::A(p2)) => match post {
                Shape::A(q) => <i32 as MergeFrom>::merge_post(p1, p2, q),
                _ => false,
            },
            (Shape::B, Shape::B) => post == pre,
            _ => post == other,
        }
    }

    fn merge_from(&mut self, other: &Self) {
        let cur = *self;
        match (cur, *other) {
            (Shape::A(p1), Shape::A(p2)) => {
                let mut q = p1;
                q.merge_from(&p2);
                *self = Shape::A(q);
            },
            (Shape::B, Shape::B) => {},
            _ => {
                *self = other.clone();
            },
        }
    }
}

/// Merging tagged unions dispatches on the variants: the same payload
/// variant on both sides merges the payloads and keeps the tag, while
/// different variants replace the receiver with the incoming value
/// wholesale.
pub proof fn lemma_union_merge(pre: Shape, other: Shape, post: Shape)
    requires
        <Shape as MergeFrom>::merge_post(pre, other, post),
    ensures
        (match (pre, other) {
            (Shape::A(p1), Shape::A(p2)) => post == Shape::A(p2),
            (Shape::B, Shape::B) => post == pre,
            _ => post == other,
        }),
{
}

/// A merged record matches applying each field's rule one at a time, in
/// declaration order: first the sequence field alone, then the text
/// field alone on the intermediate record.
pub proof fn lemma_record_merge_sequential(pre: VecStr, other: VecStr, post: VecStr)
    requires
        <VecStr as MergeFrom>::merge_post(pre, other, post),
    ensures
        ({
            let mid = (VecStr { a: post.a, b: pre.b });
            &&& <Vec<i64> as MergeFrom>::merge_post(pre.a, other.a, mid.a)
            &&& mid.b == pre.b
            &&& post.a == mid.a
            &&& <String as MergeFrom>::merge_post(mid.b, other.b, post.b)
        }),
{
}

/// A tuple-like record: fields are merged by position, in order.
#[derive(Debug, PartialEq)]
pub struct Point(pub i32, pub i32);

impl MergeFrom for Point {
    open spec fn merge_post(pre: Self, other: Self, post: Self) -> bool {
        &&& <i32 as MergeFrom>::merge_post(pre.0, other.0, post.0)
        &&& <i32 as MergeFrom>::merge_post(pre.1, other.1, post.1)
    }

    fn merge_from(&mut self, other: &Self) {
        self.0.merge_from(&other.0);
        self.1.merge_from(&other.1);
    }
}

/// A record parameterized over a field type: its merge requires the
/// capability of the parameter, as the derivation's bound propagation
/// demands.
#[derive(Debug, PartialEq)]
pub struct PairOf<T> {
    pub first: T,
    pub second: T,
}

impl<T: MergeFrom> MergeFrom for PairOf<T> {
    open spec fn merge_post(pre: Self, other: Self, post: Self) -> bool {
        &&& T::merge_post(pre.first, other.first, post.first)
        &&& T::merge_post(pre.second, other.second, post.second)
    }

    fn merge_from(&mut self, other: &Self) {
        self.first.merge_from(&other.first);
        self.second.merge_from(&other.second);
    }
}

} // verus!
