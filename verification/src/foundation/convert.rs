//! The conversion adapters: one generic path from host values to native
//! objects. Each host type states which native value it bridges to; the
//! typed collections build themselves from any host values with adapters,
//! which replaces a separate entry point per primitive width.

use vstd::prelude::*;

use crate::foundation::ns_number::NSNumber;
use crate::foundation::ns_string::NSString;
use crate::foundation::utf16::encode_utf16;

verus! {

/// A host value that can cross the bridge into a native object of type
/// `N`.
pub trait ToBridged<N: View>: Sized {
    /// The native value this host value bridges to.
    spec fn bridged_view(&self) -> N::V;

    /// Bridges the host value into a new native object.
    fn to_bridged(&self) -> (r: N)
        ensures
            r@ == self.bridged_view(),
    ;
}

impl<'a> ToBridged<NSString> for &'a str {
    open spec fn bridged_view(&self) -> Seq<u16> {
        encode_utf16((*self)@)
    }

    fn to_bridged(&self) -> (r: NSString) {
        NSString::from_str(self)
    }
}

impl ToBridged<NSString> for NSString {
    open spec fn bridged_view(&self) -> Seq<u16> {
        self@
    }

    fn to_bridged(&self) -> (r: NSString) {
        self.retained()
    }
}

impl ToBridged<NSNumber> for u8 {
    open spec fn bridged_view(&self) -> int {
        *self as int
    }

    fn to_bridged(&self) -> (r: NSNumber) {
        NSNumber::from_u8(*self)
    }
}

impl ToBridged<NSNumber> for u16 {
    open spec fn bridged_view(&self) -> int {
        *self as int
    }

    fn to_bridged(&self) -> (r: NSNumber) {
        NSNumber::from_u16(*self)
    }
}

impl ToBridged<NSNumber> for u32 {
    open spec fn bridged_view(&self) -> int {
        *self as int
    }

    fn to_bridged(&self) -> (r: NSNumber) {
        NSNumber::from_u32(*self)
    }
}

impl ToBridged<NSNumber> for u64 {
    open spec fn bridged_view(&self) -> int {
        *self as int
    }

    fn to_bridged(&self) -> (r: NSNumber) {
        NSNumber::from_u64(*self)
    }
}

impl ToBridged<NSNumber> for usize {
    open spec fn bridged_view(&self) -> int {
        *self as int
    }

    fn to_bridged(&self) -> (r: NSNumber) {
        NSNumber::from_usize(*self)
    }
}

impl ToBridged<NSNumber> for i8 {
    open spec fn bridged_view(&self) -> int {
        *self as int
    }

    fn to_bridged(&self) -> (r: NSNumber) {
        NSNumber::from_i8(*self)
    }
}

impl ToBridged<NSNumber> for i16 {
    open spec fn bridged_view(&self) -> int {
        *self as int
    }

    fn to_bridged(&self) -> (r: NSNumber) {
        NSNumber::from_i16(*self)
    }
}

impl ToBridged<NSNumber> for i32 {
    open spec fn bridged_view(&self) -> int {
        *self as int
    }

    fn to_bridged(&self) -> (r: NSNumber) {
        NSNumber::from_i32(*self)
    }
}

impl ToBridged<NSNumber> for i64 {
    open spec fn bridged_view(&self) -> int {
        *self as int
    }

    fn to_bridged(&self) -> (r: NSNumber) {
        NSNumber::from_i64(*self)
    }
}

impl ToBridged<NSNumber> for isize {
    open spec fn bridged_view(&self) -> int {
        *self as int
    }

    fn to_bridged(&self) -> (r: NSNumber) {
        NSNumber::from_isize(*self)
    }
}

} // verus!
