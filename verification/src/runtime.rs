//! Model of the native runtime's reference-counted object system: opaque
//! handles, a table of retain counts, and the ownership wrapper whose
//! lifetime operations drive those counts.

use vstd::prelude::*;

use crate::foundation::ns_string::NSString;

verus! {

/// The host boolean for a native boolean value: anything but zero is true.
pub fn to_bool(value: i8) -> (r: bool)
    ensures
        r == (value != 0),
{
    value != 0
}

/// The native boolean value for a host boolean.
pub fn to_native_bool(b: bool) -> (r: i8)
    ensures
        b <==> r == 1,
        !b <==> r == 0,
{
    if b {
        1
    } else {
        0
    }
}

/// A named, late-bound operation identifier that bridged objects can be
/// asked about.
#[derive(Debug, Clone, Copy, PartialEq, Eq, Structural)]
pub enum Selector {
    /// Value equality.
    IsEqual,
    /// The object's hash.
    Hash,
    /// The diagnostic rendering.
    Description,
    /// The debugging rendering.
    DebugDescription,
    /// A string's code-unit count.
    Length,
    /// A string's unit at an index.
    CharacterAtIndex,
    /// A collection's entry count.
    Count,
    /// A keyed lookup.
    ObjectForKey,
    /// A keyed insertion.
    SetObjectForKey,
    /// An indexed lookup.
    ObjectAtIndex,
    /// An appending insertion.
    AddObject,
}

/// A protocol a bridged object's class can conform to.
#[derive(Debug, Clone, Copy, PartialEq, Eq, Structural)]
pub enum Protocol {
    /// The base object protocol.
    ObjectProtocol,
    /// Copying by value.
    Copying,
    /// Enumeration over contents.
    FastEnumeration,
}

/// The object protocol every bridged object supports: value equality, a
/// hash consistent with it, diagnostic rendering, and dynamic capability
/// queries. Equality and the hash are both functions of the object's
/// mathematical value (its view), which ties the two together.
pub trait PNSObject: View + Sized {
    /// The hash the object reports, as a function of its value.
    spec fn hash_spec(v: Self::V) -> u64;

    /// True when the class understands the selector.
    spec fn class_responds_to(sel: Selector) -> bool;

    /// True when the class conforms to the protocol.
    spec fn class_conforms_to(p: Protocol) -> bool;

    /// Native value equality, not pointer equality: true exactly when the
    /// two objects' values are equal.
    fn is_equal(&self, other: &Self) -> (r: bool)
        ensures
            r == (self@ == other@),
    ;

    /// The native hash, a function of the object's value alone.
    fn hash_value(&self) -> (r: u64)
        ensures
            r == Self::hash_spec(self@),
    ;

    /// Asks whether the object handles the selector.
    fn responds_to(&self, sel: Selector) -> (r: bool)
        ensures
            r == Self::class_responds_to(sel),
    ;

    /// Asks whether the object's class conforms to the protocol.
    fn conforms_to(&self, p: Protocol) -> (r: bool)
        ensures
            r == Self::class_conforms_to(p),
    ;

    /// The object's diagnostic rendering.
    fn description(&self) -> NSString;
}

/// Law: objects that compare equal report equal hashes. `is_equal` compares
/// the objects' values and the hash is a function of that value alone, so
/// equal objects can never hash apart.
pub proof fn lemma_equal_objects_hash_equal<T: PNSObject>(a: T::V, b: T::V)
    requires
        a == b,
    ensures
        T::hash_spec(a) == T::hash_spec(b),
{
}

/// An opaque reference to one object owned by the native runtime.
#[derive(Clone, Copy, PartialEq, Eq, Structural, Debug)]
pub struct NativeHandle {
    /// Identifier of the native object this handle designates.
    pub id: usize,
}

/// The retain-count table after one retain of the object at `h`.
pub open spec fn spec_retain(counts: Seq<u64>, h: int) -> Seq<u64>
    recommends
        0 <= h < counts.len(),
        counts[h] < u64::MAX,
{
    counts.update(h, (counts[h] + 1) as u64)
}

/// The retain-count table after one release of the object at `h`.
pub open spec fn spec_release(counts: Seq<u64>, h: int) -> Seq<u64>
    recommends
        0 <= h < counts.len(),
        counts[h] >= 1,
{
    counts.update(h, (counts[h] - 1) as u64)
}

/// A model of the native runtime's object table: one retain count per
/// allocated object, indexed by handle identifier. A count of zero means
/// the object has been deallocated and must not be used again.
pub struct Runtime {
    counts: Vec<u64>,
}

impl View for Runtime {
    type V = Seq<u64>;

    closed spec fn view(&self) -> Seq<u64> {
        self.counts@
    }
}

impl Runtime {
    /// True when `h` designates an allocated, not-yet-deallocated object.
    pub open spec fn live(&self, h: NativeHandle) -> bool {
        h.id < self@.len() && self@[h.id as int] >= 1
    }

    /// A runtime with no allocated objects.
    pub fn new() -> (rt: Runtime)
        ensures
            rt@ == Seq::<u64>::empty(),
    {
        Runtime { counts: Vec::new() }
    }

    /// Allocates a fresh native object with an initial retain count of one,
    /// as the runtime's `alloc`/`init` pair does, and hands back its handle.
    pub fn alloc_object(&mut self) -> (h: NativeHandle)
        ensures
            final(self)@ == old(self)@.push(1),
            h.id == old(self)@.len(),
            final(self).live(h),
    {
        let id = self.counts.len();
        self.counts.push(1);
        NativeHandle { id }
    }

    /// The current retain count of the object at `h`.
    pub fn retain_count(&self, h: NativeHandle) -> (c: u64)
        requires
            h.id < self@.len(),
        ensures
            c == self@[h.id as int],
    {
        self.counts[h.id]
    }

    /// True when `h` designates a live object.
    pub fn is_live(&self, h: NativeHandle) -> (r: bool)
        ensures
            r == self.live(h),
    {
        h.id < self.counts.len() && self.counts[h.id] >= 1
    }

    /// Increments the retain count of the live object at `h`.
    pub fn retain(&mut self, h: NativeHandle)
        requires
            old(self).live(h),
            old(self)@[h.id as int] < u64::MAX,
        ensures
            final(self)@ == spec_retain(old(self)@, h.id as int),
    {
        let c = self.counts[h.id];
        self.counts.set(h.id, c + 1);
    }

    /// Decrements the retain count of the live object at `h`; when the count
    /// reaches zero the native runtime deallocates the object.
    pub fn release(&mut self, h: NativeHandle)
        requires
            old(self).live(h),
        ensures
            final(self)@ == spec_release(old(self)@, h.id as int),
    {
        let c = self.counts[h.id];
        self.counts.set(h.id, c - 1);
    }
}

/// An ownership wrapper: a safe handle whose construction, clone and release
/// each account for exactly one unit of the native object's retain count.
/// The raw handle never leaves this module.
pub struct OwnedRef {
    handle: NativeHandle,
}

impl OwnedRef {
    /// The handle this wrapper owns a reference to.
    pub closed spec fn handle(&self) -> NativeHandle {
        self.handle
    }

    /// Takes ownership of an already-retained handle without incrementing
    /// the count (transfer semantics). Passing a dead or never-allocated
    /// handle is a programmer error, excluded here rather than recovered.
    pub fn acquire(rt: &Runtime, h: NativeHandle) -> (w: OwnedRef)
        requires
            rt.live(h),
        ensures
            w.handle() == h,
    {
        OwnedRef { handle: h }
    }

    /// Increments the count of a live object, then wraps its handle
    /// (sharing semantics).
    pub fn retain(rt: &mut Runtime, h: NativeHandle) -> (w: OwnedRef)
        requires
            old(rt).live(h),
            old(rt)@[h.id as int] < u64::MAX,
        ensures
            final(rt)@ == spec_retain(old(rt)@, h.id as int),
            w.handle() == h,
    {
        rt.retain(h);
        OwnedRef { handle: h }
    }

    /// Clones the wrapper: one more retain on the same native object.
    pub fn clone_ref(&self, rt: &mut Runtime) -> (w: OwnedRef)
        requires
            old(rt).live(self.handle()),
            old(rt)@[self.handle().id as int] < u64::MAX,
        ensures
            final(rt)@ == spec_retain(old(rt)@, self.handle().id as int),
            w.handle() == self.handle(),
    {
        rt.retain(self.handle);
        OwnedRef { handle: self.handle }
    }

    /// Consumes the wrapper and gives its reference back: one release on
    /// the native object.
    pub fn release(self, rt: &mut Runtime)
        requires
            old(rt).live(self.handle()),
        ensures
            final(rt)@ == spec_release(old(rt)@, self.handle().id as int),
    {
        rt.release(self.handle);
    }
}

/// Law: cloning an ownership wrapper and then dropping the clone is a no-op
/// on the retain-count table, and the object stays reachable through the
/// original wrapper (its count stays at least one).
pub proof fn lemma_clone_then_release_is_balanced(counts: Seq<u64>, h: int)
    requires
        0 <= h < counts.len(),
        1 <= counts[h] < u64::MAX,
    ensures
        spec_release(spec_retain(counts, h), h) == counts,
        spec_release(spec_retain(counts, h), h)[h] >= 1,
{
    assert(spec_release(spec_retain(counts, h), h) =~= counts);
}

} // verus!
