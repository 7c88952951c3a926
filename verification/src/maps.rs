//! Merge rule for associative maps: union of keys.
//!
//! A key only the incoming map holds is inserted with a copy of its
//! value; a key both sides hold has the two values merged in place; a
//! key only the receiver holds is untouched. A map can also absorb a
//! single key–value pair under the same upsert-or-merge rule.
//!
//! Map merging is provided for key types that implement [`MergeKey`]:
//! ordered exactly as their mathematical model says, and reproduced
//! exactly by cloning. The integer types qualify.

use std::collections::BTreeMap;
use std::collections::HashMap;
use std::hash::Hash;

use vstd::laws_cmp::obeys_cmp;
use vstd::prelude::*;
use vstd::std_specs::iter::IteratorSpec;

use crate::MergeFrom;
use crate::clone_exact;

verus! {

/// A key type fit for merging maps: its comparisons agree with the
/// mathematical ordering model, it fits the hash-table key model, and
/// cloning it reproduces it exactly.
pub trait MergeKey: Ord + Clone + Sized {
    /// The facts map merging relies on for this key type.
    proof fn key_properties()
        ensures
            obeys_cmp::<Self>(),
            vstd::std_specs::hash::obeys_key_model::<Self>(),
            clone_exact::<Self>(),
    ;
}

impl MergeKey for u8 {
    proof fn key_properties() {
        broadcast use vstd::laws_cmp::group_laws_cmp;

        assert(vstd::std_specs::hash::obeys_key_model::<Self>());
        assert forall|a: Self, b: Self| cloned::<Self>(a, b) implies b == a by {}
    }
}

impl MergeKey for i8 {
    proof fn key_properties() {
        broadcast use vstd::laws_cmp::group_laws_cmp;

        assert(vstd::std_specs::hash::obeys_key_model::<Self>());
        assert forall|a: Self, b: Self| cloned::<Self>(a, b) implies b == a by {}
    }
}

impl MergeKey for u16 {
    proof fn key_properties() {
        broadcast use vstd::laws_cmp::group_laws_cmp;

        assert(vstd::std_specs::hash::obeys_key_model::<Self>());
        assert forall|a: Self, b: Self| cloned::<Self>(a, b) implies b == a by {}
    }
}

impl MergeKey for i16 {
    proof fn key_properties() {
        broadcast use vstd::laws_cmp::group_laws_cmp;

        assert(vstd::std_specs::hash::obeys_key_model::<Self>());
        assert forall|a: Self, b: Self| cloned::<Self>(a, b) implies b == a by {}
    }
}

impl MergeKey for u32 {
    proof fn key_properties() {
        broadcast use vstd::laws_cmp::group_laws_cmp;

        assert(vstd::std_specs::hash::obeys_key_model::<Self>());
        assert forall|a: Self, b: Self| cloned::<Self>(a, b) implies b == a by {}
    }
}

impl MergeKey for i32 {
    proof fn key_properties() {
        broadcast use vstd::laws_cmp::group_laws_cmp;

        assert(vstd::std_specs::hash::obeys_key_model::<Self>());
        assert forall|a: Self, b: Self| cloned::<Self>(a, b) implies b == a by {}
    }
}

impl MergeKey for u64 {
    proof fn key_properties() {
        broadcast use vstd::laws_cmp::group_laws_cmp;

        assert(vstd::std_specs::hash::obeys_key_model::<Self>());
        assert forall|a: Self, b: Self| cloned::<Self>(a, b) implies b == a by {}
    }
}

impl MergeKey for i64 {
    proof fn key_properties() {
        broadcast use vstd::laws_cmp::group_laws_cmp;

        assert(vstd::std_specs::hash::obeys_key_model::<Self>());
        assert forall|a: Self, b: Self| cloned::<Self>(a, b) implies b == a by {}
    }
}

impl MergeKey for usize {
    proof fn key_properties() {
        broadcast use vstd::laws_cmp::group_laws_cmp;

        assert(vstd::std_specs::hash::obeys_key_model::<Self>());
        assert forall|a: Self, b: Self| cloned::<Self>(a, b) implies b == a by {}
    }
}

impl MergeKey for isize {
    proof fn key_properties() {
        broadcast use vstd::laws_cmp::group_laws_cmp;

        assert(vstd::std_specs::hash::obeys_key_model::<Self>());
        assert forall|a: Self, b: Self| cloned::<Self>(a, b) implies b == a by {}
    }
}

/// Relates a map before a merge, the merged-in map, and the map after:
/// the domains unite; values under keys only the receiver held stay;
/// values under shared keys are merged; values under new keys are
/// copies of the incoming ones.
pub open spec fn map_merged<K, V: MergeFrom + Clone>(
    pre: Map<K, V>,
    other: Map<K, V>,
    post: Map<K, V>,
) -> bool {
    &&& post.dom() =~= pre.dom() + other.dom()
    &&& forall|k: K| #![auto]
        pre.contains_key(k) && !other.contains_key(k) ==> post[k] == pre[k]
    &&& forall|k: K| #![auto]
        pre.contains_key(k) && other.contains_key(k) ==> V::merge_post(pre[k], other[k], post[k])
    &&& forall|k: K| #![auto]
        !pre.contains_key(k) && other.contains_key(k) ==> cloned::<V>(other[k], post[k])
}

/// The state part-way through a map merge: the keys in `done` have been
/// treated as [`map_merged`] asks, the rest of the receiver is still
/// untouched, and nothing else has appeared.
pub open spec fn map_merged_upto<K, V: MergeFrom + Clone>(
    pre: Map<K, V>,
    other: Map<K, V>,
    done: Set<K>,
    cur: Map<K, V>,
) -> bool {
    &&& done.subset_of(other.dom())
    &&& cur.dom() =~= pre.dom() + done
    &&& forall|k: K| #![auto] pre.contains_key(k) && !done.contains(k) ==> cur[k] == pre[k]
    &&& forall|k: K| #![auto]
        pre.contains_key(k) && done.contains(k) ==> V::merge_post(pre[k], other[k], cur[k])
    &&& forall|k: K| #![auto]
        !pre.contains_key(k) && done.contains(k) ==> cloned::<V>(other[k], cur[k])
}

/// The keys of the first `n` of a sequence of borrowed key–value pairs.
pub open spec fn prefix_keys<'a, K, V>(pairs: Seq<(&'a K, &'a V)>, n: int) -> Set<K> {
    Set::new(|k: K| exists|j: int| 0 <= j < n && k == *(#[trigger] pairs[j]).0)
}

/// Every key of `m` appears among the keys of `pairs` when `pairs`
/// lists `m`'s entries.
proof fn lemma_pairs_cover_keys<'a, K, V>(m: Map<K, V>, pairs: Seq<(&'a K, &'a V)>)
    requires
        forall|k: K| #[trigger] m.contains_key(k) ==> pairs.contains((&k, &m[k])),
    ensures
        forall|k: K| #[trigger]
            m.contains_key(k) ==> prefix_keys(pairs, pairs.len() as int).contains(k),
{
    assert forall|k: K| m.contains_key(k) implies prefix_keys(
        pairs,
        pairs.len() as int,
    ).contains(k) by {
        let j = choose|j: int| 0 <= j < pairs.len() && pairs[j] == ((&k, &m[k]));
        assert(k == *pairs[j].0);
    }
}

/// Once every key of the incoming map has been treated, the part-way
/// relation is the full merge relation.
proof fn lemma_upto_complete<K, V: MergeFrom + Clone>(
    pre: Map<K, V>,
    other: Map<K, V>,
    done: Set<K>,
    cur: Map<K, V>,
)
    requires
        map_merged_upto(pre, other, done, cur),
        done =~= other.dom(),
    ensures
        map_merged(pre, other, cur),
{
}

impl<K: MergeKey, V: MergeFrom + Clone> MergeFrom for BTreeMap<K, V> {
    open spec fn merge_post(pre: Self, other: Self, post: Self) -> bool {
        map_merged(pre@, other@, post@)
    }

    fn merge_from(&mut self, other: &Self) {
        let ghost pre = self@;
        proof {
            K::key_properties();
            assert(vstd::std_specs::btree::key_obeys_cmp_spec::<K>());
        }
        if other.is_empty() {
            proof {
                assert(other@.dom() =~= Set::<K>::empty());
                assert(pre.dom() + other@.dom() =~= pre.dom());
            }
            return ;
        }
        proof {
            assert(other@.dom().finite());
            if other@.dom().len() == 0 {
                other@.dom().lemma_len0_is_empty();
            }
        }
        for kv in it: other.iter()
            invariant
                obeys_cmp::<K>(),
                clone_exact::<K>(),
                pre == old(self)@,
                it.seq().no_duplicates(),
                it.seq() == vstd::std_specs::btree::spec_btree_map_iter(other).remaining(),
                it.seq().len() == other@.dom().len(),
                it.history().len() == it.index(),
                map_merged_upto(pre, other@, prefix_keys(it.history(), it.index()), self@),
                it.index() >= it.seq().len() && it.seq().len() > 0 ==> map_merged(
                    pre,
                    other@,
                    self@,
                ),
        {
            let (k, v) = kv;
            let ghost n: int = it.index();
            let ghost done = prefix_keys(it.history(), n);
            let ghost hist = it.history().push(kv);
            proof {
                assert(it.history().len() == n);
                assert(kv == it.seq()[n]);
                assert(other@.contains_key(*k) && other@[*k] == *v);
                assert forall|j: int| 0 <= j < n implies *(it.history()[j].0) != *k by {
                    assert(it.history()[j] == it.seq()[j]);
                    assert(other@.contains_key(*(it.seq()[j].0)) && other@[*(it.seq()[j].0)] == *(
                    it.seq()[j].1));
                    assert(it.seq()[j] != it.seq()[n]);
                }
                assert(!done.contains(*k));
                assert(hist[n] == kv);
                assert(forall|j: int| 0 <= j < n ==> hist[j] == #[trigger] it.history()[j]);
                assert(prefix_keys(hist, n + 1) =~= done.insert(*k));
            }
            let k2 = k.clone();
            proof {
                assert(cloned::<K>(*k, k2));
                assert(k2 == *k);
            }
            match self.remove(k) {
                Some(mut cur) => {
                    cur.merge_from(v);
                    self.insert(k2, cur);
                },
                None => {
                    self.insert(k2, v.clone());
                },
            }
            proof {
                assert(self@.dom() =~= pre.dom() + prefix_keys(hist, n + 1));
                assert(map_merged_upto(pre, other@, prefix_keys(hist, n + 1), self@));
                if n + 1 == other@.dom().len() {
                    assert forall|kk: K| other@.contains_key(kk) implies hist.contains(
                        ((&kk, &other@[kk])),
                    ) by {
                        assert(it.seq().contains((&kk, &other@[kk])));
                        assert(hist[it.seq().index_of((&kk, &other@[kk]))] == ((
                        &kk,
                        &other@[kk],
                        )));
                    }
                    lemma_pairs_cover_keys(other@, hist);
                    assert(prefix_keys(hist, hist.len() as int) =~= other@.dom());
                    lemma_upto_complete(pre, other@, prefix_keys(hist, hist.len() as int), self@);
                }
            }
        }
        proof {
            assert(other@.dom().finite());
            if other@.dom().len() == 0 {
                other@.dom().lemma_len0_is_empty();
            }
            assert(map_merged(pre, other@, self@));
        }
    }
}

impl<K: MergeKey, V: MergeFrom + Clone> MergeFrom<(K, V)> for BTreeMap<K, V> {
    open spec fn merge_post(pre: Self, other: (K, V), post: Self) -> bool {
        &&& post@.dom() == pre@.dom().insert(other.0)
        &&& forall|j: K| #![auto]
            pre@.contains_key(j) && j != other.0 ==> post@[j] == pre@[j]
        &&& pre@.contains_key(other.0) ==> V::merge_post(pre@[other.0], other.1, post@[other.0])
        &&& !pre@.contains_key(other.0) ==> cloned::<V>(other.1, post@[other.0])
    }

    fn merge_from(&mut self, other: &(K, V)) {
        proof {
            K::key_properties();
        }
        let (k, v) = other;
        let k2 = k.clone();
        proof {
            assert(cloned::<K>(*k, k2));
            assert(k2 == *k);
        }
        match self.remove(k) {
            Some(mut cur) => {
                cur.merge_from(v);
                self.insert(k2, cur);
            },
            None => {
                self.insert(k2, v.clone());
            },
        }
        proof {
            assert(self@.dom() =~= old(self)@.dom().insert(other.0));
        }
    }
}

impl<K: MergeKey + Hash, V: MergeFrom + Clone> MergeFrom for HashMap<K, V> {
    open spec fn merge_post(pre: Self, other: Self, post: Self) -> bool {
        map_merged(pre@, other@, post@)
    }

    fn merge_from(&mut self, other: &Self) {
        let ghost pre = self@;
        proof {
            K::key_properties();
            assert(vstd::std_specs::hash::builds_valid_hashers::<std::hash::RandomState>());
        }
        if other.is_empty() {
            proof {
                assert(other@.dom() =~= Set::<K>::empty());
                assert(pre.dom() + other@.dom() =~= pre.dom());
            }
            return ;
        }
        proof {
            assert(other@.dom().finite());
            if other@.dom().len() == 0 {
                other@.dom().lemma_len0_is_empty();
            }
        }
        for kv in it: other.iter()
            invariant
                vstd::std_specs::hash::obeys_key_model::<K>(),
                vstd::std_specs::hash::builds_valid_hashers::<std::hash::RandomState>(),
                clone_exact::<K>(),
                pre == old(self)@,
                it.seq().no_duplicates(),
                it.seq() == vstd::std_specs::hash::spec_hash_map_iter(other).remaining(),
                it.seq().len() == other@.dom().len(),
                it.history().len() == it.index(),
                map_merged_upto(pre, other@, prefix_keys(it.history(), it.index()), self@),
                it.index() >= it.seq().len() && it.seq().len() > 0 ==> map_merged(
                    pre,
                    other@,
                    self@,
                ),
        {
            let (k, v) = kv;
            let ghost n: int = it.index();
            let ghost done = prefix_keys(it.history(), n);
            let ghost hist = it.history().push(kv);
            proof {
                assert(it.history().len() == n);
                assert(kv == it.seq()[n]);
                assert(other@.contains_key(*k) && other@[*k] == *v);
                assert forall|j: int| 0 <= j < n implies *(it.history()[j].0) != *k by {
                    assert(it.history()[j] == it.seq()[j]);
                    assert(other@.contains_key(*(it.seq()[j].0)) && other@[*(it.seq()[j].0)] == *(
                    it.seq()[j].1));
                    assert(it.seq()[j] != it.seq()[n]);
                }
                assert(!done.contains(*k));
                assert(hist[n] == kv);
                assert(forall|j: int| 0 <= j < n ==> hist[j] == #[trigger] it.history()[j]);
                assert(prefix_keys(hist, n + 1) =~= done.insert(*k));
            }
            let k2 = k.clone();
            proof {
                assert(cloned::<K>(*k, k2));
                assert(k2 == *k);
            }
            match self.remove(k) {
                Some(mut cur) => {
                    cur.merge_from(v);
                    self.insert(k2, cur);
                },
                None => {
                    self.insert(k2, v.clone());
                },
            }
            proof {
                assert(self@.dom() =~= pre.dom() + prefix_keys(hist, n + 1));
                assert(map_merged_upto(pre, other@, prefix_keys(hist, n + 1), self@));
                if n + 1 == other@.dom().len() {
                    assert forall|kk: K| other@.contains_key(kk) implies hist.contains(
                        ((&kk, &other@[kk])),
                    ) by {
                        assert(it.seq().contains((&kk, &other@[kk])));
                        assert(hist[it.seq().index_of((&kk, &other@[kk]))] == ((
                        &kk,
                        &other@[kk],
                        )));
                    }
                    lemma_pairs_cover_keys(other@, hist);
                    assert(prefix_keys(hist, hist.len() as int) =~= other@.dom());
                    lemma_upto_complete(pre, other@, prefix_keys(hist, hist.len() as int), self@);
                }
            }
        }
        proof {
            assert(other@.dom().finite());
            if other@.dom().len() == 0 {
                other@.dom().lemma_len0_is_empty();
            }
            assert(map_merged(pre, other@, self@));
        }
    }
}

/// Merging maps takes the union of the keys: a key only the incoming
/// map held ends up with a copy of its value, a shared key with the
/// merge of the two values, and a key only the receiver held keeps its
/// value untouched.
pub proof fn lemma_map_merge_unions<K, V: MergeFrom + Clone>(
    pre: Map<K, V>,
    other: Map<K, V>,
    post: Map<K, V>,
)
    requires
        map_merged(pre, other, post),
        clone_exact::<V>(),
    ensures
        post.dom() == pre.dom() + other.dom(),
        forall|k: K| #![auto]
            other.contains_key(k) && !pre.contains_key(k) ==> post[k] == other[k],
        forall|k: K| #![auto]
            other.contains_key(k) && pre.contains_key(k) ==> V::merge_post(
                pre[k],
                other[k],
                post[k],
            ),
        forall|k: K| #![auto]
            pre.contains_key(k) && !other.contains_key(k) ==> post[k] == pre[k],
{
}

} // verus!
