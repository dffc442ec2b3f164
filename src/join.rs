//! The join index shared by every cross-sheet join: values grouped by a
//! customer key (or a customer key and account number), in order of first
//! appearance, with a lookup that yields nothing for an absent key.

use vstd::prelude::*;
use crate::text::text_eq;

verus! {

/// A key that rows are joined on, compared by its texts.
pub trait JoinKey: Sized {
    spec fn key_view(&self) -> Seq<Seq<char>>;

    fn same_key(&self, other: &Self) -> (r: bool)
        ensures
            r == (self.key_view() == other.key_view()),
    ;

    fn duplicate_key(&self) -> (r: Self)
        ensures
            r.key_view() == self.key_view(),
    ;
}

impl JoinKey for String {
    open spec fn key_view(&self) -> Seq<Seq<char>> {
        seq![self@]
    }

    fn same_key(&self, other: &Self) -> (r: bool) {
        let r = text_eq(self.as_str(), other.as_str());
        assert(r == (self.key_view() == other.key_view())) by {
            if self.key_view() == other.key_view() {
                assert(self.key_view()[0] == other.key_view()[0]);
            }
        }
        r
    }

    fn duplicate_key(&self) -> (r: Self) {
        self.clone()
    }
}

impl JoinKey for (String, String) {
    open spec fn key_view(&self) -> Seq<Seq<char>> {
        seq![self.0@, self.1@]
    }

    fn same_key(&self, other: &Self) -> (r: bool) {
        let a = text_eq(self.0.as_str(), other.0.as_str());
        let b = text_eq(self.1.as_str(), other.1.as_str());
        assert((a && b) == (self.key_view() == other.key_view())) by {
            if self.key_view() == other.key_view() {
                assert(self.key_view()[0] == other.key_view()[0]);
                assert(self.key_view()[1] == other.key_view()[1]);
            }
            if a && b {
                assert(self.key_view() =~= other.key_view());
            }
        }
        a && b
    }

    fn duplicate_key(&self) -> (r: Self) {
        (self.0.clone(), self.1.clone())
    }
}

/// A value that can be copied exactly.
pub trait Duplicate: Sized {
    fn duplicate(&self) -> (r: Self)
        ensures
            r == *self,
    ;
}

/// The values paired with key `k`, in order.
pub open spec fn values_for<K: JoinKey, V>(pairs: Seq<(K, V)>, k: Seq<Seq<char>>) -> Seq<V>
    decreases pairs.len(),
{
    if pairs.len() == 0 {
        Seq::empty()
    } else if pairs.last().0.key_view() == k {
        values_for(pairs.drop_last(), k).push(pairs.last().1)
    } else {
        values_for(pairs.drop_last(), k)
    }
}

/// What a join on key `k` yields: the values paired with it, or `None` when
/// there are none.
pub open spec fn joined<K: JoinKey, V>(pairs: Seq<(K, V)>, k: Seq<Seq<char>>) -> Option<Seq<V>> {
    if values_for(pairs, k).len() > 0 {
        Some(values_for(pairs, k))
    } else {
        None
    }
}

/// Values grouped by key; each key appears once.
pub struct JoinIndex<K, V> {
    pub groups: Vec<(K, Vec<V>)>,
}

impl<K: JoinKey, V> JoinIndex<K, V> {
    pub open spec fn has_key(self, k: Seq<Seq<char>>) -> bool {
        exists|i: int| 0 <= i < self.groups@.len() && (#[trigger] self.groups@[i]).0.key_view() == k
    }

    /// Each key has one group.
    pub open spec fn wf(self) -> bool {
        forall|i: int, j: int|
            0 <= i < self.groups@.len() && 0 <= j < self.groups@.len() && i != j ==> (#[trigger] self.groups@[i]).0.key_view()
                != (#[trigger] self.groups@[j]).0.key_view()
    }

    /// The index groups exactly the given pairs: one group per key that
    /// occurs, holding that key's values in order.
    pub open spec fn represents(self, pairs: Seq<(K, V)>) -> bool {
        &&& self.wf()
        &&& forall|i: int|
            0 <= i < self.groups@.len() ==> (#[trigger] self.groups@[i]).1@ == values_for(
                pairs,
                self.groups@[i].0.key_view(),
            )
        &&& forall|k: Seq<Seq<char>>| #[trigger] self.has_key(k) <==> values_for(pairs, k).len() > 0
    }

    /// The position of the group of key `k`.
    pub fn position(&self, k: &K) -> (r: Option<usize>)
        ensures
            match r {
                Some(i) => i < self.groups@.len() && self.groups@[i as int].0.key_view() == k.key_view(),
                None => !self.has_key(k.key_view()),
            },
    {
        let mut i: usize = 0;
        while i < self.groups.len()
            invariant
                i <= self.groups@.len(),
                forall|j: int| 0 <= j < i ==> (#[trigger] self.groups@[j]).0.key_view() != k.key_view(),
            decreases self.groups@.len() - i,
        {
            if self.groups[i].0.same_key(k) {
                return Some(i);
            }
            i = i + 1;
        }
        None
    }
}

proof fn lemma_values_for_push<K: JoinKey, V>(pairs: Seq<(K, V)>, p: (K, V), k: Seq<Seq<char>>)
    ensures
        values_for(pairs.push(p), k) == if p.0.key_view() == k {
            values_for(pairs, k).push(p.1)
        } else {
            values_for(pairs, k)
        },
{
    assert(pairs.push(p).drop_last() =~= pairs);
}

/// Groups the pairs by key, keeping the order of first appearance.
pub fn group_by_key<K: JoinKey, V>(pairs: Vec<(K, V)>) -> (r: JoinIndex<K, V>)
    ensures
        r.represents(pairs@),
{
    let ghost all = pairs@;
    let mut rest = pairs;
    let mut index: JoinIndex<K, V> = JoinIndex { groups: Vec::new() };
    let ghost mut done: Seq<(K, V)> = Seq::empty();
    assert(all.subrange(0, 0) =~= done);
    assert(all.subrange(0, all.len() as int) =~= all);
    while rest.len() > 0
        invariant
            done + rest@ == all,
            index.represents(done),
        decreases rest@.len(),
    {
        let p = rest.remove(0);
        let ghost prev = done;
        let ghost old_groups = index.groups@;
        let ghost old_index = index;
        proof {
            done = done.push(p);
            assert(done + rest@ =~= all);
            assert forall|k: Seq<Seq<char>>| values_for(done, k) == if p.0.key_view() == k {
                values_for(prev, k).push(p.1)
            } else {
                values_for(prev, k)
            } by {
                lemma_values_for_push(prev, p, k);
            }
        }
        match index.position(&p.0) {
            Some(at) => {
                let (key, mut values) = index.groups.remove(at);
                values.push(p.1);
                index.groups.insert(at, (key, values));
                assert(index.groups@ =~= old_groups.update(at as int, index.groups@[at as int]));
                assert forall|k: Seq<Seq<char>>| #[trigger] index.has_key(k) <==> values_for(done, k).len() > 0 by {
                    if index.has_key(k) {
                        let i = choose|i: int| 0 <= i < index.groups@.len() && (#[trigger] index.groups@[i]).0.key_view() == k;
                        assert(old_groups[i].0.key_view() == k);
                        assert(old_index.has_key(k));
                    }
                    if values_for(done, k).len() > 0 && k != p.0.key_view() {
                        assert(values_for(prev, k).len() > 0);
                        assert(old_index.has_key(k));
                        let i = choose|i: int| 0 <= i < old_groups.len() && (#[trigger] old_groups[i]).0.key_view() == k;
                        assert(index.groups@[i].0.key_view() == k);
                    }
                    if k == p.0.key_view() {
                        assert(index.groups@[at as int].0.key_view() == k);
                    }
                }
            },
            None => {
                index.groups.push((p.0, vec![p.1]));
                assert(index.groups@ =~= old_groups.push(index.groups@.last()));
                proof {
                    assert(values_for(prev, p.0.key_view()).len() == 0);
                    assert(values_for(prev, p.0.key_view()) =~= Seq::<V>::empty());
                    assert(index.groups@.last().1@ =~= values_for(done, p.0.key_view()));
                }
                assert forall|k: Seq<Seq<char>>| #[trigger] index.has_key(k) <==> values_for(done, k).len() > 0 by {
                    if index.has_key(k) {
                        let i = choose|i: int| 0 <= i < index.groups@.len() && (#[trigger] index.groups@[i]).0.key_view() == k;
                        if i < old_groups.len() {
                            assert(old_groups[i].0.key_view() == k);
                            assert(old_index.has_key(k));
                        }
                    }
                    if values_for(done, k).len() > 0 && k != p.0.key_view() {
                        assert(values_for(prev, k).len() > 0);
                        assert(old_index.has_key(k));
                        let i = choose|i: int| 0 <= i < old_groups.len() && (#[trigger] old_groups[i]).0.key_view() == k;
                        assert(index.groups@[i].0.key_view() == k);
                    }
                    if k == p.0.key_view() {
                        assert(index.groups@[old_groups.len() as int].0.key_view() == k);
                    }
                }
            },
        }
    }
    assert(done =~= all);
    index
}


/// An exact copy of a list of values.
pub fn duplicate_all<V: Duplicate>(v: &Vec<V>) -> (r: Vec<V>)
    ensures
        r@ == v@,
{
    let mut out: Vec<V> = Vec::new();
    let mut i: usize = 0;
    while i < v.len()
        invariant
            i <= v@.len(),
            out@ == v@.subrange(0, i as int),
        decreases v@.len() - i,
    {
        out.push(v[i].duplicate());
        assert(out@ =~= v@.subrange(0, i + 1));
        i = i + 1;
    }
    assert(out@ =~= v@);
    out
}

impl<K: JoinKey, V: Duplicate> JoinIndex<K, V> {
    /// The values joined to key `k`: all values paired with it, in order, or
    /// `None` when no value is.
    pub fn get(&self, k: &K) -> (r: Option<Vec<V>>)
        ensures
            forall|pairs: Seq<(K, V)>| #[trigger] self.represents(pairs) ==> match r {
                Some(v) => joined(pairs, k.key_view()) == Some(v@),
                None => joined(pairs, k.key_view()) is None,
            },
    {
        match self.position(k) {
            Some(i) => {
                let v = duplicate_all(&self.groups[i].1);
                assert forall|pairs: Seq<(K, V)>| #[trigger] self.represents(pairs) implies joined(
                    pairs,
                    k.key_view(),
                ) == Some(v@) by {
                    assert(self.groups@[i as int].1@ == values_for(pairs, self.groups@[i as int].0.key_view()));
                    assert(self.has_key(k.key_view()));
                }
                Some(v)
            },
            None => None,
        }
    }
}


/// A join yields exactly the values whose key is `k`, in their order, and
/// nothing at all for a key that no pair carries.
pub proof fn lemma_join_exact<K: JoinKey, V>(pairs: Seq<(K, V)>, k: Seq<Seq<char>>)
    ensures
        values_for(pairs, k) == pairs.filter(|p: (K, V)| p.0.key_view() == k).map_values(|p: (K, V)| p.1),
        joined(pairs, k) is None <==> forall|i: int| 0 <= i < pairs.len() ==> (#[trigger] pairs[i]).0.key_view() != k,
    decreases pairs.len(),
{
    let pred = |p: (K, V)| p.0.key_view() == k;
    reveal(Seq::filter);
    if pairs.len() > 0 {
        let init = pairs.drop_last();
        lemma_join_exact(init, k);
        assert(pairs.filter(pred) == if pred(pairs.last()) {
            init.filter(pred).push(pairs.last())
        } else {
            init.filter(pred)
        });
        if pred(pairs.last()) {
            assert(init.filter(pred).push(pairs.last()).map_values(|p: (K, V)| p.1) =~= init.filter(pred).map_values(
                |p: (K, V)| p.1,
            ).push(pairs.last().1));
        }
        if values_for(pairs, k).len() == 0 {
            assert forall|i: int| 0 <= i < pairs.len() implies (#[trigger] pairs[i]).0.key_view() != k by {
                if i < init.len() {
                    assert(init[i] == pairs[i]);
                }
            }
        }
        if forall|i: int| 0 <= i < pairs.len() ==> (#[trigger] pairs[i]).0.key_view() != k {
            assert(pairs[pairs.len() - 1].0.key_view() != k);
            assert forall|i: int| 0 <= i < init.len() implies (#[trigger] init[i]).0.key_view() != k by {
                assert(init[i] == pairs[i]);
            }
        }
    } else {
        assert(pairs.filter(pred) =~= pairs);
        assert(pairs.filter(pred).map_values(|p: (K, V)| p.1) =~= Seq::<V>::empty());
    }
}

} // verus!
