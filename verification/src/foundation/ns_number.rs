//! The number bridge: a native number object boxes one integer value.
//! One constructor per host integer width replaces per-width duplication;
//! every constructor meets the same contract over the boxed value.

use vstd::prelude::*;
use vstd::arithmetic::div_mod::{lemma_div_decreases, lemma_mod_bound};

use crate::foundation::ns_string::NSString;
use crate::runtime::{PNSObject, Protocol, Selector};

verus! {

/// The decimal digits of `n`, most significant first, as code units.
pub open spec fn dec_digits(n: nat) -> Seq<u16>
    decreases n,
{
    if n < 10 {
        seq![(0x30 + n) as u16]
    } else {
        dec_digits(n / 10).push((0x30 + n % 10) as u16)
    }
}

/// The decimal rendering of `v` as code units: a leading minus sign for a
/// negative value, then its digits.
pub open spec fn spec_number_desc(v: int) -> Seq<u16> {
    if v < 0 {
        seq![0x2Du16] + dec_digits((0 - v) as nat)
    } else {
        dec_digits(v as nat)
    }
}

/// Appends the decimal digits of `n` to `out`.
fn push_digits(n: u64, out: &mut Vec<u16>)
    ensures
        final(out)@ == old(out)@ + dec_digits(n as nat),
    decreases n,
{
    if n < 10 {
        out.push(0x30 + n as u16);
        proof {
            assert(out@ =~= old(out)@ + dec_digits(n as nat));
        }
    } else {
        proof {
            lemma_div_decreases(n as int, 10);
        }
        push_digits(n / 10, out);
        proof {
            lemma_mod_bound(n as int, 10);
        }
        out.push(0x30 + (n % 10) as u16);
        proof {
            assert(out@ =~= old(out)@ + dec_digits(n as nat));
        }
    }
}

/// A native number object: a boxed integer. Its view is the boxed value.
/// The sign flag is set only for strictly negative values, so equal values
/// always have equal fields.
#[derive(Debug, Clone, Copy, PartialEq, Eq, Structural)]
pub struct NSNumber {
    negative: bool,
    magnitude: u64,
}

impl View for NSNumber {
    type V = int;

    closed spec fn view(&self) -> int {
        if self.negative {
            0 - self.magnitude as int
        } else {
            self.magnitude as int
        }
    }
}

impl NSNumber {
    #[verifier::type_invariant]
    spec fn canonical(self) -> bool {
        self.negative ==> self.magnitude > 0
    }

    /// Boxes an unsigned sixty-four-bit value.
    pub fn from_u64(x: u64) -> (r: NSNumber)
        ensures
            r@ == x as int,
    {
        NSNumber { negative: false, magnitude: x }
    }

    /// Boxes an unsigned byte.
    pub fn from_u8(x: u8) -> (r: NSNumber)
        ensures
            r@ == x as int,
    {
        NSNumber::from_u64(x as u64)
    }

    /// Boxes an unsigned sixteen-bit value.
    pub fn from_u16(x: u16) -> (r: NSNumber)
        ensures
            r@ == x as int,
    {
        NSNumber::from_u64(x as u64)
    }

    /// Boxes an unsigned thirty-two-bit value.
    pub fn from_u32(x: u32) -> (r: NSNumber)
        ensures
            r@ == x as int,
    {
        NSNumber::from_u64(x as u64)
    }

    /// Boxes a machine-word unsigned value.
    pub fn from_usize(x: usize) -> (r: NSNumber)
        ensures
            r@ == x as int,
    {
        NSNumber::from_u64(x as u64)
    }

    /// Boxes a signed sixty-four-bit value.
    pub fn from_i64(x: i64) -> (r: NSNumber)
        ensures
            r@ == x as int,
    {
        if x >= 0 {
            NSNumber { negative: false, magnitude: x as u64 }
        } else {
            let wide: i128 = x as i128;
            let m: u64 = (-wide) as u64;
            NSNumber { negative: true, magnitude: m }
        }
    }

    /// Boxes a signed byte.
    pub fn from_i8(x: i8) -> (r: NSNumber)
        ensures
            r@ == x as int,
    {
        NSNumber::from_i64(x as i64)
    }

    /// Boxes a signed sixteen-bit value.
    pub fn from_i16(x: i16) -> (r: NSNumber)
        ensures
            r@ == x as int,
    {
        NSNumber::from_i64(x as i64)
    }

    /// Boxes a signed thirty-two-bit value.
    pub fn from_i32(x: i32) -> (r: NSNumber)
        ensures
            r@ == x as int,
    {
        NSNumber::from_i64(x as i64)
    }

    /// Boxes a machine-word signed value.
    pub fn from_isize(x: isize) -> (r: NSNumber)
        ensures
            r@ == x as int,
    {
        NSNumber::from_i64(x as i64)
    }

    /// The boxed value as a signed sixty-four-bit integer. A value outside
    /// that range is a programmer error, excluded here.
    pub fn integer_value(&self) -> (r: i64)
        requires
            -0x8000_0000_0000_0000 <= self@ <= 0x7FFF_FFFF_FFFF_FFFF,
        ensures
            r as int == self@,
    {
        proof {
            use_type_invariant(self);
        }
        if self.negative {
            let wide: i128 = -(self.magnitude as i128);
            wide as i64
        } else {
            self.magnitude as i64
        }
    }

    /// The boxed value as an unsigned sixty-four-bit integer. A negative
    /// value is a programmer error, excluded here.
    pub fn unsigned_integer_value(&self) -> (r: u64)
        requires
            self@ >= 0,
        ensures
            r as int == self@,
    {
        proof {
            use_type_invariant(self);
        }
        self.magnitude
    }
}

impl PNSObject for NSNumber {
    open spec fn hash_spec(v: int) -> u64 {
        if v >= 0 {
            v as u64
        } else {
            ((0 - v) as u64) | 0x8000_0000_0000_0000u64
        }
    }

    open spec fn class_responds_to(sel: Selector) -> bool {
        match sel {
            Selector::IsEqual => true,
            Selector::Hash => true,
            Selector::Description => true,
            Selector::DebugDescription => true,
            _ => false,
        }
    }

    open spec fn class_conforms_to(p: Protocol) -> bool {
        match p {
            Protocol::ObjectProtocol => true,
            Protocol::Copying => true,
            Protocol::FastEnumeration => false,
        }
    }

    fn is_equal(&self, other: &Self) -> (r: bool) {
        proof {
            use_type_invariant(self);
            use_type_invariant(other);
        }
        self.negative == other.negative && self.magnitude == other.magnitude
    }

    fn hash_value(&self) -> (r: u64) {
        proof {
            use_type_invariant(self);
        }
        if self.negative {
            self.magnitude | 0x8000_0000_0000_0000u64
        } else {
            self.magnitude
        }
    }

    fn responds_to(&self, sel: Selector) -> (r: bool) {
        match sel {
            Selector::IsEqual => true,
            Selector::Hash => true,
            Selector::Description => true,
            Selector::DebugDescription => true,
            _ => false,
        }
    }

    fn conforms_to(&self, p: Protocol) -> (r: bool) {
        match p {
            Protocol::ObjectProtocol => true,
            Protocol::Copying => true,
            Protocol::FastEnumeration => false,
        }
    }

    /// The decimal rendering of the boxed value.
    fn description(&self) -> (r: NSString)
        ensures
            r@ == spec_number_desc(self@),
    {
        proof {
            use_type_invariant(self);
        }
        let mut units: Vec<u16> = Vec::new();
        if self.negative {
            units.push(0x2D);
        }
        push_digits(self.magnitude, &mut units);
        proof {
            if self.negative {
                assert(units@ =~= spec_number_desc(self@));
            } else {
                assert(units@ =~= spec_number_desc(self@));
            }
        }
        NSString::init_with_characters(units)
    }
}

} // verus!
