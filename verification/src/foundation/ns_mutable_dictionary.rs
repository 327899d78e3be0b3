//! The mutable keyed collection wrapper: in-place insertion and removal
//! over the native dictionary, and construction from host containers.

use vstd::prelude::*;

use crate::foundation::convert::ToBridged;
use crate::foundation::ns_array::Array;
use crate::foundation::ns_dictionary::{map_of, NSDictionary};
use crate::runtime::PNSObject;

verus! {

/// The set of key values a sequence of keys designates.
pub open spec fn key_set_of<K: View>(ks: Seq<K>) -> Set<K::V> {
    Set::new(|x: K::V| exists|i: int| 0 <= i < ks.len() && #[trigger] ks[i]@ == x)
}

/// A mutable keyed collection of bridged objects. Its view is the finite
/// map from key values to entry values.
pub struct NSMutableDictionary<K: PNSObject, V: View> {
    inner: NSDictionary<K, V>,
}

impl<K: PNSObject, V: View> View for NSMutableDictionary<K, V> {
    type V = Map<K::V, V::V>;

    closed spec fn view(&self) -> Map<K::V, V::V> {
        self.inner@
    }
}

impl<K: PNSObject, V: View> NSMutableDictionary<K, V> {
    /// The dictionary's internal invariant, established by every
    /// constructor and preserved by every method.
    pub closed spec fn well_formed(self) -> bool {
        self.inner.well_formed()
    }

    /// A new empty dictionary.
    pub fn new() -> (r: NSMutableDictionary<K, V>)
        ensures
            r.well_formed(),
            r@ == Map::<K::V, V::V>::empty(),
    {
        NSMutableDictionary { inner: NSDictionary::new() }
    }

    /// A new empty dictionary with room reserved for the given number of
    /// entries. The reservation is advisory: the contents start empty.
    pub fn with_capacity(capacity: usize) -> (r: NSMutableDictionary<K, V>)
        ensures
            r.well_formed(),
            r@ == Map::<K::V, V::V>::empty(),
    {
        Self::tm_dictionary_with_capacity(capacity)
    }

    /// The class-method entry point behind `with_capacity`.
    pub fn tm_dictionary_with_capacity(capacity: usize) -> (r: NSMutableDictionary<K, V>)
        ensures
            r.well_formed(),
            r@ == Map::<K::V, V::V>::empty(),
    {
        NSMutableDictionary { inner: NSDictionary::new() }
    }

    /// Inserts or replaces the entry for the key's value.
    pub fn insert(&mut self, key: K, value: V)
        requires
            old(self).well_formed(),
        ensures
            final(self).well_formed(),
            final(self)@ == old(self)@.insert(key@, value@),
    {
        self.im_set_object_for_key(key, value)
    }

    /// Inserts or replaces the entry for the key's value.
    pub fn im_set_object_for_key(&mut self, key: K, value: V)
        requires
            old(self).well_formed(),
        ensures
            final(self).well_formed(),
            final(self)@ == old(self)@.insert(key@, value@),
    {
        self.inner.set_pair(key, value);
    }

    /// Inserts or replaces the entry for the key's value through the
    /// subscripting entry point, which the native framework keeps distinct
    /// from the plain keyed insertion.
    pub fn im_set_object_forkeyed_superscript(&mut self, key: K, value: V)
        requires
            old(self).well_formed(),
        ensures
            final(self).well_formed(),
            final(self)@ == old(self)@.insert(key@, value@),
    {
        self.inner.set_pair(key, value);
    }

    /// Inserts or replaces the entry for the key's value through the
    /// key-value-coding entry point, kept distinct from the plain keyed
    /// insertion as the native framework keeps it.
    pub fn im_set_value_for_key(&mut self, key: K, value: V)
        requires
            old(self).well_formed(),
        ensures
            final(self).well_formed(),
            final(self)@ == old(self)@.insert(key@, value@),
    {
        self.inner.set_pair(key, value);
    }

    /// Removes the entry for the key's value; without one, the dictionary
    /// is unchanged.
    pub fn im_remove_object_for_key(&mut self, key: K)
        requires
            old(self).well_formed(),
        ensures
            final(self).well_formed(),
            final(self)@ == old(self)@.remove(key@),
    {
        self.inner.remove_pair(&key);
    }

    /// Empties the dictionary.
    pub fn im_remove_all_objects(&mut self)
        ensures
            final(self).well_formed(),
            final(self)@ == Map::<K::V, V::V>::empty(),
    {
        self.inner.clear();
    }

    /// Adds every entry of the given dictionary, replacing entries whose
    /// keys are already held: afterwards the other dictionary's entries
    /// win wherever the key sets meet.
    pub fn im_add_entries_from_dictionary(&mut self, dictionary: NSDictionary<K, V>)
        requires
            old(self).well_formed(),
            dictionary.well_formed(),
        ensures
            final(self).well_formed(),
            final(self)@ == old(self)@.union_prefer_right(dictionary@),
    {
        let ghost okv = dictionary.key_views();
        let ghost ovv = dictionary.value_views();
        let ghost n0 = okv.len();
        let (mut ks, mut vs) = dictionary.into_parts();
        proof {
            assert(okv.take(0) =~= Seq::<K::V>::empty());
            assert(ovv.take(0) =~= Seq::<V::V>::empty());
            assert(okv.skip(0) =~= okv);
            assert(ovv.skip(0) =~= ovv);
            assert(old(self)@.union_prefer_right(Map::<K::V, V::V>::empty()) =~= old(self)@);
        }
        while ks.len() > 0
            invariant
                ks@.len() == vs@.len(),
                ks@.len() <= n0,
                n0 == okv.len() && n0 == ovv.len(),
                Seq::new(ks@.len(), |i: int| ks@[i]@) == okv.skip(n0 - ks@.len()),
                Seq::new(vs@.len(), |i: int| vs@[i]@) == ovv.skip(n0 - vs@.len()),
                self.well_formed(),
                self@ == old(self)@.union_prefer_right(
                    map_of(okv.take(n0 - ks@.len()), ovv.take(n0 - vs@.len())),
                ),
            decreases ks@.len(),
        {
            let ghost p = n0 - ks@.len();
            let ghost ksb = ks@;
            let ghost vsb = vs@;
            let k = ks.remove(0);
            let v = vs.remove(0);
            proof {
                assert(k@ == okv.skip(p)[0]);
                assert(v@ == ovv.skip(p)[0]);
                assert(k@ == okv[p]);
                assert(v@ == ovv[p]);
            }
            self.im_set_object_for_key(k, v);
            proof {
                assert forall|i: int| 0 <= i < ks@.len() implies #[trigger] ks@[i]@ == okv[p + 1
                    + i] by {
                    assert(ks@[i] == ksb[i + 1]);
                    assert(ksb[i + 1]@ == okv.skip(p)[i + 1]);
                }
                assert forall|i: int| 0 <= i < vs@.len() implies #[trigger] vs@[i]@ == ovv[p + 1
                    + i] by {
                    assert(vs@[i] == vsb[i + 1]);
                    assert(vsb[i + 1]@ == ovv.skip(p)[i + 1]);
                }
                assert(Seq::new(ks@.len(), |i: int| ks@[i]@) =~= okv.skip(p + 1));
                assert(Seq::new(vs@.len(), |i: int| vs@[i]@) =~= ovv.skip(p + 1));
                assert(okv.take(p + 1).drop_last() =~= okv.take(p));
                assert(ovv.take(p + 1).drop_last() =~= ovv.take(p));
                assert(okv.take(p + 1).last() == okv[p]);
                assert(ovv.take(p + 1).last() == ovv[p]);
                assert(map_of(okv.take(p + 1), ovv.take(p + 1)) == map_of(
                    okv.take(p),
                    ovv.take(p),
                ).insert(okv[p], ovv[p]));
                assert(self@ =~= old(self)@.union_prefer_right(
                    map_of(okv.take(p + 1), ovv.take(p + 1)),
                ));
            }
        }
        proof {
            assert(okv.take(n0 as int) =~= okv);
            assert(ovv.take(n0 as int) =~= ovv);
        }
    }

    /// Removes the entry for each key in the given array; keys without an
    /// entry change nothing.
    pub fn im_remove_objects_for_keys(&mut self, keys: &Array<K>)
        requires
            old(self).well_formed(),
        ensures
            final(self).well_formed(),
            final(self)@ == old(self)@.remove_keys(key_set_of(keys@)),
    {
        let n = keys.count();
        proof {
            assert(self@ =~= old(self)@.remove_keys(key_set_of(keys@.take(0))));
        }
        for i in 0..n
            invariant
                old(self).well_formed(),
                n == keys@.len(),
                self.well_formed(),
                self@ == old(self)@.remove_keys(key_set_of(keys@.take(i as int))),
        {
            let k = keys.object_at(i);
            self.inner.remove_pair(k);
            proof {
                assert forall|x: K::V|
                    key_set_of(keys@.take(i + 1)).contains(x) <==> (key_set_of(
                        keys@.take(i as int),
                    ).contains(x) || keys@[i as int]@ == x) by {
                    if key_set_of(keys@.take(i + 1)).contains(x) {
                        let j = choose|j: int|
                            0 <= j < keys@.take(i + 1).len() && #[trigger] keys@.take(i + 1)[j]@
                                == x;
                        if j < i {
                            assert(keys@.take(i as int)[j]@ == x);
                        }
                    }
                    if key_set_of(keys@.take(i as int)).contains(x) {
                        let j = choose|j: int|
                            0 <= j < keys@.take(i as int).len() && #[trigger] keys@.take(
                                i as int,
                            )[j]@ == x;
                        assert(keys@.take(i + 1)[j]@ == x);
                    }
                    if keys@[i as int]@ == x {
                        assert(keys@.take(i + 1)[i as int]@ == x);
                    }
                }
                assert(self@ =~= old(self)@.remove_keys(key_set_of(keys@.take(i + 1))));
            }
        }
        proof {
            assert(keys@.take(n as int) =~= keys@);
        }
    }

    /// Builds a dictionary from host key-value pairs through the generic
    /// conversion adapters, in the host container's order: when two pairs
    /// bridge to the same key value, the later one wins.
    pub fn from_host_pairs<HK: ToBridged<K>, HV: ToBridged<V>>(pairs: &Vec<(HK, HV)>) -> (r: Self)
        ensures
            r.well_formed(),
            r@ == map_of(
                pairs@.map_values(|p: (HK, HV)| p.0.bridged_view()),
                pairs@.map_values(|p: (HK, HV)| p.1.bridged_view()),
            ),
    {
        let ghost kviews = pairs@.map_values(|p: (HK, HV)| p.0.bridged_view());
        let ghost vviews = pairs@.map_values(|p: (HK, HV)| p.1.bridged_view());
        let mut dict = NSMutableDictionary::new();
        let n = pairs.len();
        proof {
            assert(kviews.take(0) =~= Seq::<K::V>::empty());
            assert(vviews.take(0) =~= Seq::<V::V>::empty());
        }
        for i in 0..n
            invariant
                n == pairs@.len(),
                kviews == pairs@.map_values(|p: (HK, HV)| p.0.bridged_view()),
                vviews == pairs@.map_values(|p: (HK, HV)| p.1.bridged_view()),
                dict.well_formed(),
                dict@ == map_of(kviews.take(i as int), vviews.take(i as int)),
        {
            let k = pairs[i].0.to_bridged();
            let v = pairs[i].1.to_bridged();
            dict.insert(k, v);
            proof {
                assert(kviews.take(i + 1).drop_last() =~= kviews.take(i as int));
                assert(vviews.take(i + 1).drop_last() =~= vviews.take(i as int));
                assert(kviews.take(i + 1).last() == kviews[i as int]);
                assert(vviews.take(i + 1).last() == vviews[i as int]);
                assert(kviews[i as int] == pairs@[i as int].0.bridged_view());
                assert(vviews[i as int] == pairs@[i as int].1.bridged_view());
            }
        }
        proof {
            assert(kviews.take(n as int) =~= kviews);
            assert(vviews.take(n as int) =~= vviews);
        }
        dict
    }

    /// Replaces the dictionary's contents with the given dictionary's
    /// entries.
    pub fn im_set_dictionary(&mut self, dictionary: NSDictionary<K, V>)
        requires
            dictionary.well_formed(),
        ensures
            final(self).well_formed(),
            final(self)@ == dictionary@,
    {
        self.im_remove_all_objects();
        let ghost emptied = self@;
        self.im_add_entries_from_dictionary(dictionary);
        proof {
            assert(emptied.union_prefer_right(dictionary@) =~= dictionary@);
        }
    }

    /// How many entries the dictionary holds.
    pub fn count(&self) -> (r: usize)
        requires
            self.well_formed(),
        ensures
            r == self@.len(),
    {
        self.inner.count()
    }

    /// The entry stored for the key's value, if any.
    pub fn object_for_key(&self, key: &K) -> (r: Option<&V>)
        requires
            self.well_formed(),
        ensures
            match r {
                Some(v) => self@.contains_key(key@) && v@ == self@[key@],
                None => !self@.contains_key(key@),
            },
    {
        self.inner.object_for_key(key)
    }

    /// True when the dictionary holds an entry for the key's value.
    pub fn contains_key(&self, key: &K) -> (r: bool)
        requires
            self.well_formed(),
        ensures
            r == self@.contains_key(key@),
    {
        self.inner.contains_key(key)
    }

    /// Gives the contents up as an immutable dictionary.
    pub fn into_dictionary(self) -> (r: NSDictionary<K, V>)
        requires
            self.well_formed(),
        ensures
            r.well_formed(),
            r@ == self@,
    {
        let NSMutableDictionary { inner } = self;
        inner
    }

    /// Wraps an immutable dictionary's contents as a mutable dictionary.
    pub fn from_dictionary(dictionary: NSDictionary<K, V>) -> (r: Self)
        requires
            dictionary.well_formed(),
        ensures
            r.well_formed(),
            r@ == dictionary@,
    {
        NSMutableDictionary { inner: dictionary }
    }

    /// A read-only view of the same contents.
    pub fn borrow(&self) -> (r: &NSDictionary<K, V>)
        requires
            self.well_formed(),
        ensures
            r.well_formed(),
            r@ == self@,
    {
        &self.inner
    }
}

/// Law: after inserting a value for a key, a lookup of that key yields
/// exactly that value; after removing a key, the key is absent. The
/// dictionary's insertion and removal contracts are stated over these map
/// operations, so this carries to `insert` followed by `object_for_key`
/// and to `im_remove_object_for_key`.
pub proof fn lemma_insert_then_lookup<A, B>(m: Map<A, B>, k: A, v: B)
    ensures
        m.insert(k, v).contains_key(k),
        m.insert(k, v)[k] == v,
        !m.insert(k, v).remove(k).contains_key(k),
        !m.remove(k).contains_key(k),
{
}

impl<K: PNSObject, V: View> Default for NSMutableDictionary<K, V> {
    /// A new empty dictionary.
    fn default() -> (r: NSMutableDictionary<K, V>)
        ensures
            r.well_formed(),
            r@ == Map::<K::V, V::V>::empty(),
    {
        NSMutableDictionary::new()
    }
}

} // verus!
