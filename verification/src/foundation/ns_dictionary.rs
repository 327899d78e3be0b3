//! The keyed collection wrapper: a native dictionary projected as a typed,
//! immutable surface. Entries are held as parallel key and value buffers
//! with pairwise-distinct key values; the view is the finite map from key
//! values to entry values.

use vstd::prelude::*;

use crate::runtime::PNSObject;

verus! {

/// The finite map holding `vs[i]` at key `ks[i]` for each entry.
pub open spec fn map_of<A, B>(ks: Seq<A>, vs: Seq<B>) -> Map<A, B>
    recommends
        ks.len() == vs.len(),
    decreases ks.len(),
{
    if ks.len() == 0 {
        Map::empty()
    } else {
        map_of(ks.drop_last(), vs.drop_last()).insert(ks.last(), vs.last())
    }
}

/// True when no value occurs twice in the sequence.
pub open spec fn distinct_seq<A>(ks: Seq<A>) -> bool {
    forall|i: int, j: int|
        #![trigger ks[i], ks[j]]
        0 <= i < j < ks.len() ==> ks[i] != ks[j]
}

/// A key is in the map exactly when it occurs among the key values.
pub proof fn lemma_map_of_contains<A, B>(ks: Seq<A>, vs: Seq<B>, x: A)
    requires
        ks.len() == vs.len(),
    ensures
        map_of(ks, vs).contains_key(x) <==> ks.contains(x),
    decreases ks.len(),
{
    if ks.len() != 0 {
        lemma_map_of_contains(ks.drop_last(), vs.drop_last(), x);
        assert(ks.contains(x) <==> (ks.drop_last().contains(x) || ks.last() == x)) by {
            if ks.contains(x) {
                let i = choose|i: int| 0 <= i < ks.len() && ks[i] == x;
                if i < ks.len() - 1 {
                    assert(ks.drop_last()[i] == x);
                }
            }
            if ks.drop_last().contains(x) {
                let i = choose|i: int| 0 <= i < ks.drop_last().len() && ks.drop_last()[i] == x;
                assert(ks[i] == x);
            }
            if ks.last() == x {
                assert(ks[ks.len() - 1] == x);
            }
        }
    }
}

/// Dropping the last entry keeps the remaining keys distinct.
pub proof fn lemma_distinct_drop_last<A>(ks: Seq<A>)
    requires
        ks.len() > 0,
        distinct_seq(ks),
    ensures
        distinct_seq(ks.drop_last()),
{
    assert forall|i: int, j: int|
        0 <= i < j < ks.drop_last().len() implies #[trigger] ks.drop_last()[i] != #[trigger] ks.drop_last()[j] by {
        assert(ks.drop_last()[i] == ks[i]);
        assert(ks.drop_last()[j] == ks[j]);
    }
}

/// With distinct keys, the entry at each index is what the map holds for
/// that index's key.
pub proof fn lemma_map_of_value<A, B>(ks: Seq<A>, vs: Seq<B>, i: int)
    requires
        ks.len() == vs.len(),
        distinct_seq(ks),
        0 <= i < ks.len(),
    ensures
        map_of(ks, vs).contains_key(ks[i]),
        map_of(ks, vs)[ks[i]] == vs[i],
    decreases ks.len(),
{
    if i == ks.len() - 1 {
    } else {
        lemma_distinct_drop_last(ks);
        lemma_map_of_value(ks.drop_last(), vs.drop_last(), i);
        assert(ks.drop_last()[i] == ks[i]);
        assert(vs.drop_last()[i] == vs[i]);
        assert(ks[i] != ks.last());
    }
}

/// With distinct keys, the map holds exactly one entry per key value.
pub proof fn lemma_map_of_len<A, B>(ks: Seq<A>, vs: Seq<B>)
    requires
        ks.len() == vs.len(),
        distinct_seq(ks),
    ensures
        map_of(ks, vs).dom().finite(),
        map_of(ks, vs).len() == ks.len(),
    decreases ks.len(),
{
    if ks.len() != 0 {
        lemma_distinct_drop_last(ks);
        lemma_map_of_len(ks.drop_last(), vs.drop_last());
        lemma_map_of_contains(ks.drop_last(), vs.drop_last(), ks.last());
        assert(!ks.drop_last().contains(ks.last())) by {
            if ks.drop_last().contains(ks.last()) {
                let i = choose|i: int|
                    0 <= i < ks.drop_last().len() && ks.drop_last()[i] == ks.last();
                assert(ks[i] == ks[ks.len() - 1]);
            }
        }
    }
}

/// Replacing the entry at an index is, on the map, an insertion at that
/// index's key.
pub proof fn lemma_map_of_update<A, B>(ks: Seq<A>, vs: Seq<B>, i: int, b: B)
    requires
        ks.len() == vs.len(),
        distinct_seq(ks),
        0 <= i < ks.len(),
    ensures
        map_of(ks, vs.update(i, b)) =~= map_of(ks, vs).insert(ks[i], b),
    decreases ks.len(),
{
    let vs2 = vs.update(i, b);
    if i == ks.len() - 1 {
        assert(vs2.drop_last() =~= vs.drop_last());
        assert(vs2.last() == b);
    } else {
        lemma_distinct_drop_last(ks);
        assert(vs2.drop_last() =~= vs.drop_last().update(i, b));
        lemma_map_of_update(ks.drop_last(), vs.drop_last(), i, b);
        assert(ks.drop_last()[i] == ks[i]);
        assert(vs2.last() == vs.last());
        assert(ks[i] != ks.last());
    }
}

/// Appending an entry is, on the map, an insertion of its key and value.
pub proof fn lemma_map_of_push<A, B>(ks: Seq<A>, vs: Seq<B>, a: A, b: B)
    requires
        ks.len() == vs.len(),
    ensures
        map_of(ks.push(a), vs.push(b)) == map_of(ks, vs).insert(a, b),
{
    assert(ks.push(a).drop_last() =~= ks);
    assert(vs.push(b).drop_last() =~= vs);
    assert(ks.push(a).last() == a);
    assert(vs.push(b).last() == b);
}

/// Removing a value from a distinct sequence keeps it distinct.
pub proof fn lemma_distinct_remove<A>(ks: Seq<A>, i: int)
    requires
        distinct_seq(ks),
        0 <= i < ks.len(),
    ensures
        distinct_seq(ks.remove(i)),
{
    assert forall|p: int, q: int|
        0 <= p < q < ks.remove(i).len() implies #[trigger] ks.remove(i)[p] != #[trigger] ks.remove(
        i,
    )[q] by {
        let p0 = if p < i {
            p
        } else {
            p + 1
        };
        let q0 = if q < i {
            q
        } else {
            q + 1
        };
        assert(ks.remove(i)[p] == ks[p0]);
        assert(ks.remove(i)[q] == ks[q0]);
    }
}

/// Removing the entry at an index is, on the map, a removal of that
/// index's key.
pub proof fn lemma_map_of_remove<A, B>(ks: Seq<A>, vs: Seq<B>, i: int)
    requires
        ks.len() == vs.len(),
        distinct_seq(ks),
        0 <= i < ks.len(),
    ensures
        map_of(ks.remove(i), vs.remove(i)) =~= map_of(ks, vs).remove(ks[i]),
    decreases ks.len(),
{
    lemma_distinct_drop_last(ks);
    if i == ks.len() - 1 {
        assert(ks.remove(i) =~= ks.drop_last());
        assert(vs.remove(i) =~= vs.drop_last());
        lemma_map_of_contains(ks.drop_last(), vs.drop_last(), ks.last());
        assert(!ks.drop_last().contains(ks.last())) by {
            if ks.drop_last().contains(ks.last()) {
                let j = choose|j: int|
                    0 <= j < ks.drop_last().len() && ks.drop_last()[j] == ks.last();
                assert(ks[j] == ks[ks.len() - 1]);
            }
        }
        assert(map_of(ks.drop_last(), vs.drop_last()) =~= map_of(ks, vs).remove(ks[i]));
    } else {
        assert(ks.remove(i).drop_last() =~= ks.drop_last().remove(i));
        assert(vs.remove(i).drop_last() =~= vs.drop_last().remove(i));
        assert(ks.remove(i).last() == ks.last());
        assert(vs.remove(i).last() == vs.last());
        lemma_map_of_remove(ks.drop_last(), vs.drop_last(), i);
        assert(ks.drop_last()[i] == ks[i]);
        assert(ks[i] != ks.last());
    }
}

/// An immutable keyed collection of bridged objects. Its view is the
/// finite map from key values to entry values; the order of entries is
/// not part of the view.
pub struct NSDictionary<K: PNSObject, V: View> {
    keys: Vec<K>,
    values: Vec<V>,
}

impl<K: PNSObject, V: View> View for NSDictionary<K, V> {
    type V = Map<K::V, V::V>;

    closed spec fn view(&self) -> Map<K::V, V::V> {
        map_of(self.key_views(), self.value_views())
    }
}

impl<K: PNSObject, V: View> NSDictionary<K, V> {
    /// The key values, in entry order.
    pub closed spec fn key_views(&self) -> Seq<K::V> {
        Seq::new(self.keys@.len(), |i: int| self.keys@[i]@)
    }

    /// The entry values, in entry order.
    pub closed spec fn value_views(&self) -> Seq<V::V> {
        Seq::new(self.values@.len(), |i: int| self.values@[i]@)
    }

    /// The dictionary's internal invariant: one value per key, and no key
    /// value occurs twice. Constructors establish it and every method
    /// preserves it.
    pub closed spec fn well_formed(self) -> bool {
        &&& self.keys@.len() == self.values@.len()
        &&& distinct_seq(self.key_views())
    }

    /// An empty dictionary.
    pub fn new() -> (r: NSDictionary<K, V>)
        ensures
            r.well_formed(),
            r@ == Map::<K::V, V::V>::empty(),
    {
        NSDictionary { keys: Vec::new(), values: Vec::new() }
    }

    /// How many entries the dictionary holds.
    pub fn count(&self) -> (r: usize)
        requires
            self.well_formed(),
        ensures
            r == self@.len(),
    {
        proof {
            lemma_map_of_len(self.key_views(), self.value_views());
        }
        self.keys.len()
    }

    /// The index holding the given key value, if any.
    fn index_of_key(&self, key: &K) -> (r: Option<usize>)
        ensures
            match r {
                Some(i) => i < self.key_views().len() && self.key_views()[i as int] == key@,
                None => !self.key_views().contains(key@),
            },
    {
        let n = self.keys.len();
        for i in 0..n
            invariant
                n == self.keys@.len(),
                forall|j: int| 0 <= j < i ==> self.key_views()[j] != key@,
        {
            if self.keys[i].is_equal(key) {
                return Some(i);
            }
        }
        None
    }

    /// True when the dictionary holds an entry for the key's value.
    pub fn contains_key(&self, key: &K) -> (r: bool)
        requires
            self.well_formed(),
        ensures
            r == self@.contains_key(key@),
    {
        proof {
            lemma_map_of_contains(self.key_views(), self.value_views(), key@);
        }
        match self.index_of_key(key) {
            Some(_) => true,
            None => false,
        }
    }

    /// The entry stored for the key's value, if any: a keyed lookup
    /// against the live collection.
    pub fn object_for_key(&self, key: &K) -> (r: Option<&V>)
        requires
            self.well_formed(),
        ensures
            match r {
                Some(v) => self@.contains_key(key@) && v@ == self@[key@],
                None => !self@.contains_key(key@),
            },
    {
        proof {
            lemma_map_of_contains(self.key_views(), self.value_views(), key@);
        }
        match self.index_of_key(key) {
            Some(i) => {
                proof {
                    lemma_map_of_value(self.key_views(), self.value_views(), i as int);
                }
                Some(&self.values[i])
            },
            None => None,
        }
    }

    /// Inserts or replaces the entry for the key's value.
    pub(crate) fn set_pair(&mut self, key: K, value: V)
        requires
            old(self).well_formed(),
        ensures
            final(self).well_formed(),
            final(self)@ == old(self)@.insert(key@, value@),
    {
        match self.index_of_key(&key) {
            Some(i) => {
                self.values.set(i, value);
                proof {
                    assert(self.value_views() =~= old(self).value_views().update(
                        i as int,
                        value@,
                    ));
                    assert(self.key_views() =~= old(self).key_views());
                    lemma_map_of_update(
                        old(self).key_views(),
                        old(self).value_views(),
                        i as int,
                        value@,
                    );
                }
            },
            None => {
                self.keys.push(key);
                self.values.push(value);
                proof {
                    assert(self.key_views() =~= old(self).key_views().push(key@));
                    assert(self.value_views() =~= old(self).value_views().push(value@));
                    lemma_map_of_push(old(self).key_views(), old(self).value_views(), key@, value@);
                    assert forall|i: int, j: int|
                        0 <= i < j < self.key_views().len() implies #[trigger] self.key_views()[i]
                        != #[trigger] self.key_views()[j] by {
                        if j < self.key_views().len() - 1 {
                            assert(old(self).key_views()[i] != old(self).key_views()[j]);
                        } else {
                            assert(!old(self).key_views().contains(key@));
                            assert(old(self).key_views()[i] != key@);
                        }
                    }
                }
            },
        }
    }

    /// Removes the entry for the key's value, if one is held.
    pub(crate) fn remove_pair(&mut self, key: &K)
        requires
            old(self).well_formed(),
        ensures
            final(self).well_formed(),
            final(self)@ == old(self)@.remove(key@),
    {
        match self.index_of_key(key) {
            Some(i) => {
                self.keys.remove(i);
                self.values.remove(i);
                proof {
                    assert(self.key_views() =~= old(self).key_views().remove(i as int));
                    assert(self.value_views() =~= old(self).value_views().remove(i as int));
                    lemma_map_of_remove(old(self).key_views(), old(self).value_views(), i as int);
                    lemma_distinct_remove(old(self).key_views(), i as int);
                }
            },
            None => {
                proof {
                    lemma_map_of_contains(self.key_views(), self.value_views(), key@);
                    assert(old(self)@.remove(key@) =~= old(self)@);
                }
            },
        }
    }

    /// Empties the dictionary.
    pub(crate) fn clear(&mut self)
        ensures
            final(self).well_formed(),
            final(self)@ == Map::<K::V, V::V>::empty(),
    {
        self.keys = Vec::new();
        self.values = Vec::new();
        proof {
            assert(self.key_views() =~= Seq::<K::V>::empty());
            assert(self.value_views() =~= Seq::<V::V>::empty());
        }
    }

    /// Takes the dictionary apart into its key and value buffers.
    pub(crate) fn into_parts(self) -> (r: (Vec<K>, Vec<V>))
        requires
            self.well_formed(),
        ensures
            r.0@.len() == r.1@.len(),
            Seq::new(r.0@.len(), |i: int| r.0@[i]@) == self.key_views(),
            Seq::new(r.1@.len(), |i: int| r.1@[i]@) == self.value_views(),
            distinct_seq(self.key_views()),
            self@ == map_of(self.key_views(), self.value_views()),
    {
        let NSDictionary { keys, values } = self;
        proof {
            assert(Seq::new(keys@.len(), |i: int| keys@[i]@) =~= self.key_views());
            assert(Seq::new(values@.len(), |i: int| values@[i]@) =~= self.value_views());
        }
        (keys, values)
    }
}

} // verus!
