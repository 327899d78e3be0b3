//! The scoped release pool: objects added to the pool are retained for it
//! and given back, all at once, when the pool is drained. Draining happens
//! exactly once, however often it is requested.

use vstd::prelude::*;

use crate::foundation::ns_string::NSString;
use crate::foundation::utf16::encode_utf16;
use crate::runtime::{spec_release, spec_retain, NativeHandle, Protocol, Runtime, Selector};

verus! {

/// True when the entries can be released in order: each one designates an
/// object still live when its turn comes.
pub open spec fn can_release_all(counts: Seq<u64>, entries: Seq<NativeHandle>) -> bool
    decreases entries.len(),
{
    entries.len() == 0 || {
        let h = entries[0];
        &&& h.id < counts.len()
        &&& counts[h.id as int] >= 1
        &&& can_release_all(spec_release(counts, h.id as int), entries.drop_first())
    }
}

/// The retain-count table after releasing each entry once, in order.
pub open spec fn release_all(counts: Seq<u64>, entries: Seq<NativeHandle>) -> Seq<u64>
    recommends
        can_release_all(counts, entries),
    decreases entries.len(),
{
    if entries.len() == 0 {
        counts
    } else {
        release_all(spec_release(counts, entries[0].id as int), entries.drop_first())
    }
}

/// A pool that defers release: every object added is retained once for
/// the pool, and the drain gives all those references back together.
pub struct NSAutoreleasePool {
    entries: Vec<NativeHandle>,
    drained: bool,
}

impl NSAutoreleasePool {
    /// The handles added to the pool, in order.
    pub closed spec fn entries_view(&self) -> Seq<NativeHandle> {
        self.entries@
    }

    /// True once the pool has been drained.
    pub closed spec fn is_drained(&self) -> bool {
        self.drained
    }

    /// A new, empty, undrained pool.
    pub fn new() -> (r: NSAutoreleasePool)
        ensures
            r.entries_view() == Seq::<NativeHandle>::empty(),
            !r.is_drained(),
    {
        NSAutoreleasePool { entries: Vec::new(), drained: false }
    }

    /// Adds a live object to the pool: one retain now, one deferred
    /// release at drain time. Adding to a drained pool is a programmer
    /// error, excluded here.
    pub fn add_object(&mut self, rt: &mut Runtime, h: NativeHandle)
        requires
            !old(self).is_drained(),
            old(rt).live(h),
            old(rt)@[h.id as int] < u64::MAX,
        ensures
            final(rt)@ == spec_retain(old(rt)@, h.id as int),
            final(self).entries_view() == old(self).entries_view().push(h),
            !final(self).is_drained(),
    {
        self.im_add_object(rt, h)
    }

    /// The instance-method entry point behind `add_object`.
    pub fn im_add_object(&mut self, rt: &mut Runtime, h: NativeHandle)
        requires
            !old(self).is_drained(),
            old(rt).live(h),
            old(rt)@[h.id as int] < u64::MAX,
        ensures
            final(rt)@ == spec_retain(old(rt)@, h.id as int),
            final(self).entries_view() == old(self).entries_view().push(h),
            !final(self).is_drained(),
    {
        rt.retain(h);
        self.entries.push(h);
    }

    /// Releases every pooled reference once and marks the pool drained.
    /// Draining an already-drained pool changes nothing: release happens
    /// exactly once however often the drain is requested.
    pub fn drain(&mut self, rt: &mut Runtime)
        requires
            !old(self).is_drained() ==> can_release_all(old(rt)@, old(self).entries_view()),
        ensures
            final(self).is_drained(),
            final(self).entries_view() == old(self).entries_view(),
            old(self).is_drained() ==> final(rt)@ == old(rt)@,
            !old(self).is_drained() ==> final(rt)@ == release_all(
                old(rt)@,
                old(self).entries_view(),
            ),
    {
        self.im_drain(rt)
    }

    /// The instance-method entry point behind `drain`.
    pub fn im_drain(&mut self, rt: &mut Runtime)
        requires
            !old(self).is_drained() ==> can_release_all(old(rt)@, old(self).entries_view()),
        ensures
            final(self).is_drained(),
            final(self).entries_view() == old(self).entries_view(),
            old(self).is_drained() ==> final(rt)@ == old(rt)@,
            !old(self).is_drained() ==> final(rt)@ == release_all(
                old(rt)@,
                old(self).entries_view(),
            ),
    {
        if self.drained {
            return ;
        }
        let ghost c0 = rt@;
        let ghost es = self.entries@;
        let n = self.entries.len();
        proof {
            assert(es.skip(0) =~= es);
        }
        let mut i: usize = 0;
        while i < n
            invariant
                i <= n,
                n == es.len(),
                self.entries@ == es,
                !self.drained,
                can_release_all(rt@, es.skip(i as int)),
                release_all(c0, es) == release_all(rt@, es.skip(i as int)),
            decreases n - i,
        {
            let h = self.entries[i];
            proof {
                assert(es.skip(i as int)[0] == es[i as int]);
                assert(es.skip(i as int).drop_first() =~= es.skip(i + 1));
            }
            rt.release(h);
            i = i + 1;
        }
        proof {
            assert(es.skip(n as int) =~= Seq::<NativeHandle>::empty());
        }
        self.drained = true;
    }
}

impl View for NSAutoreleasePool {
    type V = (Seq<NativeHandle>, bool);

    closed spec fn view(&self) -> (Seq<NativeHandle>, bool) {
        (self.entries@, self.drained)
    }
}

/// The hash of a pool's contents: a fold over the pooled handles, mixed
/// with the drained flag.
pub open spec fn hash_pool(v: (Seq<NativeHandle>, bool)) -> u64
    decreases v.0.len(),
{
    if v.0.len() == 0 {
        if v.1 {
            1
        } else {
            0
        }
    } else {
        vstd::wrapping::u64_specs::wrapping_mul(
            hash_pool((v.0.drop_last(), v.1)) ^ (v.0.last().id as u64),
            0x100000001b3u64,
        )
    }
}

impl crate::runtime::PNSObject for NSAutoreleasePool {
    open spec fn hash_spec(v: (Seq<NativeHandle>, bool)) -> u64 {
        hash_pool(v)
    }

    open spec fn class_responds_to(sel: Selector) -> bool {
        match sel {
            Selector::IsEqual => true,
            Selector::Hash => true,
            Selector::Description => true,
            Selector::DebugDescription => true,
            Selector::AddObject => true,
            _ => false,
        }
    }

    open spec fn class_conforms_to(p: Protocol) -> bool {
        match p {
            Protocol::ObjectProtocol => true,
            Protocol::Copying => false,
            Protocol::FastEnumeration => false,
        }
    }

    fn is_equal(&self, other: &Self) -> (r: bool) {
        if self.drained != other.drained {
            return false;
        }
        let n = self.entries.len();
        if n != other.entries.len() {
            proof {
                assert(self@.0.len() != other@.0.len());
            }
            return false;
        }
        for i in 0..n
            invariant
                n == self@.0.len(),
                n == other@.0.len(),
                self@.1 == other@.1,
                forall|j: int| 0 <= j < i ==> self@.0[j] == other@.0[j],
        {
            if self.entries[i].id != other.entries[i].id {
                return false;
            }
        }
        proof {
            assert(self@.0 =~= other@.0);
        }
        true
    }

    fn hash_value(&self) -> (r: u64) {
        let n = self.entries.len();
        let mut h: u64 = if self.drained {
            1
        } else {
            0
        };
        proof {
            assert(self@.0.subrange(0, 0) =~= Seq::<NativeHandle>::empty());
        }
        for i in 0..n
            invariant
                n == self@.0.len(),
                h == hash_pool((self@.0.subrange(0, i as int), self@.1)),
        {
            h = (h ^ (self.entries[i].id as u64)).wrapping_mul(0x100000001b3);
            proof {
                let p = self@.0.subrange(0, i + 1);
                assert(p.drop_last() =~= self@.0.subrange(0, i as int));
                assert(p.last() == self@.0[i as int]);
            }
        }
        proof {
            assert(self@.0.subrange(0, n as int) =~= self@.0);
        }
        h
    }

    fn responds_to(&self, sel: Selector) -> (r: bool) {
        match sel {
            Selector::IsEqual => true,
            Selector::Hash => true,
            Selector::Description => true,
            Selector::DebugDescription => true,
            Selector::AddObject => true,
            _ => false,
        }
    }

    fn conforms_to(&self, p: Protocol) -> (r: bool) {
        match p {
            Protocol::ObjectProtocol => true,
            Protocol::Copying => false,
            Protocol::FastEnumeration => false,
        }
    }

    /// A pool's diagnostic rendering: its class name.
    fn description(&self) -> (r: NSString)
        ensures
            r@ == encode_utf16("NSAutoreleasePool"@),
    {
        NSString::from_str("NSAutoreleasePool")
    }
}

impl Default for NSAutoreleasePool {
    /// A new, empty, undrained pool.
    fn default() -> (r: NSAutoreleasePool)
        ensures
            r.entries_view() == Seq::<NativeHandle>::empty(),
            !r.is_drained(),
    {
        NSAutoreleasePool::new()
    }
}

/// Law: retaining an object for the pool and then draining releases it
/// exactly once: the retain count comes back to what it was, and the
/// object stays live for its other owners.
pub proof fn lemma_pool_retain_release_balanced(counts: Seq<u64>, h: NativeHandle)
    requires
        h.id < counts.len(),
        1 <= counts[h.id as int] < u64::MAX,
    ensures
        can_release_all(spec_retain(counts, h.id as int), seq![h]),
        release_all(spec_retain(counts, h.id as int), seq![h]) == counts,
        release_all(spec_retain(counts, h.id as int), seq![h])[h.id as int] >= 1,
{
    let c1 = spec_retain(counts, h.id as int);
    assert(seq![h][0] == h);
    assert(seq![h].drop_first() =~= Seq::<NativeHandle>::empty());
    assert(can_release_all(spec_release(c1, h.id as int), Seq::<NativeHandle>::empty()));
    assert(release_all(spec_release(c1, h.id as int), Seq::<NativeHandle>::empty())
        == spec_release(c1, h.id as int));
    assert(c1.len() == counts.len() && c1[h.id as int] == counts[h.id as int] + 1);
    assert(release_all(spec_release(c1, h.id as int), seq![h].drop_first()) == spec_release(
        c1,
        h.id as int,
    ));
    crate::runtime::lemma_clone_then_release_is_balanced(counts, h.id as int);
}

} // verus!
