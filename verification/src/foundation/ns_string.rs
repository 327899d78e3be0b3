//! The string bridge: a native string is a sequence of UTF-16 code units.
//! Host text is encoded into units on construction and decoded back on
//! `as_str`; ordering, prefix, suffix and containment are defined unit for
//! unit.

use vstd::prelude::*;
use vstd::arithmetic::div_mod::{
    lemma_div_is_ordered, lemma_fundamental_div_mod, lemma_fundamental_div_mod_converse,
    lemma_mod_bound,
};
use vstd::string::StrSliceExecFns;
use vstd::string::StringSliceAdditionalSpecFns;
use vstd::utf8::{
    char_is_scalar, decode_utf8, encode_utf8, encode_utf8_decode_utf8, encode_utf8_valid_utf8,
    valid_utf8,
};

use crate::foundation::utf16::{
    decode_utf16, encode_char_utf16, encode_utf16, is_surrogate, utf16_from_text, utf16_to_text,
    valid_utf16,
};

verus! {

/// A three-way ordering result, as the native comparison methods report it.
#[derive(Debug, Clone, Copy, PartialEq, Eq, Structural)]
pub enum ComparisonResult {
    /// The receiver orders before the argument.
    OrderedAscending,
    /// The receiver and the argument order the same.
    OrderedSame,
    /// The receiver orders after the argument.
    OrderedDescending,
}

impl ComparisonResult {
    /// The number the native framework uses for this constant.
    pub open spec fn value_spec(self) -> i64 {
        match self {
            Self::OrderedAscending => -1i64,
            Self::OrderedSame => 0,
            Self::OrderedDescending => 1,
        }
    }

    /// Returns the number the native framework uses for this constant.
    pub fn value(self) -> (r: i64)
        ensures
            r == self.value_spec(),
    {
        match self {
            Self::OrderedAscending => -1,
            Self::OrderedSame => 0,
            Self::OrderedDescending => 1,
        }
    }
}

/// The error reported when native code units cannot be rendered as host
/// text: some surrogate unit is unpaired.
#[derive(Debug, Clone, Copy, PartialEq, Eq, Structural)]
pub struct EncodingError;

/// The byte encodings this bridge understands.
#[derive(Debug, Clone, Copy, PartialEq, Eq, Structural)]
pub enum Encoding {
    /// Seven-bit ASCII.
    ASCII,
    /// UTF-8.
    UTF8,
    /// UTF-16, two little-endian bytes per code unit.
    UTF16,
}

impl Encoding {
    /// The number the native framework uses for this constant.
    pub open spec fn value_spec(self) -> u64 {
        match self {
            Self::ASCII => 1,
            Self::UTF8 => 4,
            Self::UTF16 => 10,
        }
    }

    /// Returns the number the native framework uses for this constant.
    pub fn value(self) -> (r: u64)
        ensures
            r == self.value_spec(),
    {
        match self {
            Self::ASCII => 1,
            Self::UTF8 => 4,
            Self::UTF16 => 10,
        }
    }
}

/// Options that select how a comparison treats the units.
#[derive(Debug, Clone, Copy, PartialEq, Eq, Structural)]
pub enum CompareOptions {
    /// Compare the units exactly as they are.
    Literal,
    /// Fold ASCII case differences away before comparing.
    CaseInsensitive,
}

impl CompareOptions {
    /// The bit mask the native framework uses for this constant.
    pub open spec fn value_spec(self) -> u64 {
        match self {
            Self::CaseInsensitive => 1,
            Self::Literal => 2,
        }
    }

    /// Returns the bit mask the native framework uses for this constant.
    pub fn value(self) -> (r: u64)
        ensures
            r == self.value_spec(),
    {
        match self {
            Self::CaseInsensitive => 1,
            Self::Literal => 2,
        }
    }
}

/// Three-way lexicographic comparison of unit sequences: the order the
/// native literal string comparison uses.
pub open spec fn spec_compare(a: Seq<u16>, b: Seq<u16>) -> ComparisonResult
    decreases a.len(),
{
    if a.len() == 0 && b.len() == 0 {
        ComparisonResult::OrderedSame
    } else if a.len() == 0 {
        ComparisonResult::OrderedAscending
    } else if b.len() == 0 {
        ComparisonResult::OrderedDescending
    } else if a[0] < b[0] {
        ComparisonResult::OrderedAscending
    } else if a[0] > b[0] {
        ComparisonResult::OrderedDescending
    } else {
        spec_compare(a.drop_first(), b.drop_first())
    }
}

/// The unit with an ASCII capital letter folded to its small form.
pub open spec fn lower_unit(u: u16) -> u16 {
    if 0x41 <= u <= 0x5A {
        (u + 0x20) as u16
    } else {
        u
    }
}

/// The unit with an ASCII small letter raised to its capital form.
pub open spec fn upper_unit(u: u16) -> u16 {
    if 0x61 <= u <= 0x7A {
        (u - 0x20) as u16
    } else {
        u
    }
}

/// The sequence with every ASCII capital folded to its small form.
pub open spec fn lower_units(s: Seq<u16>) -> Seq<u16> {
    s.map_values(|u: u16| lower_unit(u))
}

/// The sequence with every ASCII small letter raised to its capital form.
pub open spec fn upper_units(s: Seq<u16>) -> Seq<u16> {
    s.map_values(|u: u16| upper_unit(u))
}

/// True when `p` is a prefix of `s`.
pub open spec fn spec_has_prefix(s: Seq<u16>, p: Seq<u16>) -> bool {
    p.len() <= s.len() && s.subrange(0, p.len() as int) == p
}

/// True when `p` is a suffix of `s`.
pub open spec fn spec_has_suffix(s: Seq<u16>, p: Seq<u16>) -> bool {
    p.len() <= s.len() && s.subrange(s.len() - p.len(), s.len() as int) == p
}

/// True when `n` occurs contiguously somewhere in `s`.
pub open spec fn spec_contains(s: Seq<u16>, n: Seq<u16>) -> bool {
    exists|j: int| 0 <= j <= s.len() - n.len() && #[trigger] s.subrange(j, j + n.len()) == n
}

/// `s` cut or cyclically padded with `p`, starting at `p[k]`, to length `n`.
pub open spec fn spec_padding(s: Seq<u16>, n: int, p: Seq<u16>, k: int) -> Seq<u16>
    recommends
        n > s.len() ==> p.len() > 0,
{
    if n <= s.len() {
        s.subrange(0, n)
    } else {
        s + Seq::new((n - s.len()) as nat, |i: int| p[(k + i) % (p.len() as int)])
    }
}

/// Law: comparing any unit sequence with itself reports the same order.
/// This is the reflexivity behind `compare(s, s) == OrderedSame`.
pub proof fn lemma_compare_reflexive(s: Seq<u16>)
    ensures
        spec_compare(s, s) == ComparisonResult::OrderedSame,
    decreases s.len(),
{
    if s.len() != 0 {
        lemma_compare_reflexive(s.drop_first());
    }
}

/// Law: two unit sequences compare the same exactly when they are equal.
pub proof fn lemma_compare_eq_iff(a: Seq<u16>, b: Seq<u16>)
    ensures
        (spec_compare(a, b) == ComparisonResult::OrderedSame) <==> a == b,
    decreases a.len(),
{
    if a.len() == 0 && b.len() == 0 {
        assert(a =~= b);
    } else if a.len() != 0 && b.len() != 0 && a[0] == b[0] {
        lemma_compare_eq_iff(a.drop_first(), b.drop_first());
        if spec_compare(a, b) == ComparisonResult::OrderedSame {
            assert(a.drop_first() == b.drop_first());
            assert forall|i: int| 0 <= i < a.len() implies a[i] == b[i] by {
                if i > 0 {
                    assert(a[i] == a.drop_first()[i - 1]);
                    assert(b[i] == b.drop_first()[i - 1]);
                }
            }
            assert(a =~= b);
        }
        if a == b {
            assert(a.drop_first() =~= b.drop_first());
        }
    } else {
        if a == b {
            assert(a.len() == b.len());
            if a.len() != 0 {
                assert(a[0] == b[0]);
            }
            assert(false);
        }
    }
}

/// Equal prefixes do not affect the comparison of what follows them.
pub proof fn lemma_compare_skip(a: Seq<u16>, b: Seq<u16>, i: int)
    requires
        0 <= i <= a.len(),
        i <= b.len(),
        forall|j: int| 0 <= j < i ==> a[j] == b[j],
    ensures
        spec_compare(a, b) == spec_compare(
            a.subrange(i, a.len() as int),
            b.subrange(i, b.len() as int),
        ),
    decreases i,
{
    if i == 0 {
        assert(a.subrange(0, a.len() as int) =~= a);
        assert(b.subrange(0, b.len() as int) =~= b);
    } else {
        lemma_compare_skip(a, b, i - 1);
        let sa = a.subrange(i - 1, a.len() as int);
        let sb = b.subrange(i - 1, b.len() as int);
        assert(sa[0] == a[i - 1] && sb[0] == b[i - 1]);
        assert(sa.drop_first() =~= a.subrange(i, a.len() as int));
        assert(sb.drop_first() =~= b.subrange(i, b.len() as int));
    }
}

/// Law: a native string has `p` as a prefix exactly when its first
/// `p.len()` code units equal `p`, unit for unit.
pub proof fn lemma_has_prefix_iff_units(s: Seq<u16>, p: Seq<u16>)
    ensures
        spec_has_prefix(s, p) <==> (p.len() <= s.len() && forall|i: int|
            0 <= i < p.len() ==> s[i] == p[i]),
{
    if p.len() <= s.len() {
        if forall|i: int| 0 <= i < p.len() ==> s[i] == p[i] {
            assert(s.subrange(0, p.len() as int) =~= p);
        }
        if spec_has_prefix(s, p) {
            assert forall|i: int| 0 <= i < p.len() implies s[i] == p[i] by {
                assert(s.subrange(0, p.len() as int)[i] == s[i]);
            }
        }
    }
}

#[verifier::external_type_specification]
#[verifier::external_body]
pub struct ExUtf8Error(core::str::Utf8Error);

/// Relies on `str::from_utf8` of the standard library: it succeeds exactly
/// on well-formed UTF-8 and returns the borrowed text of those bytes.
pub assume_specification[ core::str::from_utf8 ](v: &[u8]) -> (r: Result<
    &str,
    core::str::Utf8Error,
>)
    ensures
        valid_utf8(v@) ==> (r is Ok && r->Ok_0.spec_bytes() == v@),
        !valid_utf8(v@) ==> r is Err,
;

/// A native string: an owned sequence of UTF-16 code units. Its view is
/// that sequence.
#[derive(Debug)]
pub struct NSString {
    units: Vec<u16>,
}

impl View for NSString {
    type V = Seq<u16>;

    closed spec fn view(&self) -> Seq<u16> {
        self.units@
    }
}

impl NSString {
    /// An empty native string.
    pub fn new() -> (r: NSString)
        ensures
            r@ == Seq::<u16>::empty(),
    {
        NSString { units: Vec::new() }
    }

    /// An empty native string, as the class method `string` returns.
    pub fn string() -> (r: NSString)
        ensures
            r@ == Seq::<u16>::empty(),
    {
        NSString::new()
    }

    /// An empty native string, as plain initialization returns.
    pub fn init() -> (r: NSString)
        ensures
            r@ == Seq::<u16>::empty(),
    {
        NSString::new()
    }

    /// Bridges host text: the new native string holds the UTF-16 encoding
    /// of the text's characters.
    pub fn from_str(s: &str) -> (r: NSString)
        ensures
            r@ == encode_utf16(s@),
    {
        NSString { units: utf16_from_text(s) }
    }

    /// Bridges host text through the initializer entry point.
    pub fn init_with_str(s: &str) -> (r: NSString)
        ensures
            r@ == encode_utf16(s@),
    {
        NSString::from_str(s)
    }

    /// Bridges host text without retaining the host buffer; the native
    /// string still holds its own copy of the code units.
    pub fn init_with_no_copy_str(s: &str) -> (r: NSString)
        ensures
            r@ == encode_utf16(s@),
    {
        NSString::from_str(s)
    }

    /// Wraps a buffer of raw code units as a native string. The units are
    /// taken as they are; they need not be well-formed UTF-16.
    pub fn init_with_characters(units: Vec<u16>) -> (r: NSString)
        ensures
            r@ == units@,
    {
        NSString { units }
    }

    /// Bridges one character.
    pub fn from_char(c: char) -> (r: NSString)
        ensures
            r@ == encode_char_utf16(c),
    {
        let v = c as u32;
        proof {
            char_is_scalar(c);
        }
        let mut units: Vec<u16> = Vec::new();
        if v < 0x10000 {
            units.push(v as u16);
        } else {
            let x = v - 0x10000;
            units.push(0xD800 + (x / 0x400) as u16);
            units.push(0xDC00 + (x % 0x400) as u16);
            proof {
                let xi = x as int;
                lemma_div_is_ordered(xi, 0xFFFFF, 0x400);
                assert(0xFFFFF as int / 0x400 == 0x3FF);
                lemma_div_is_ordered(0, xi, 0x400);
                lemma_mod_bound(xi, 0x400);
            }
        }
        proof {
            assert(units@ =~= encode_char_utf16(c));
        }
        NSString { units }
    }

    /// Decodes a byte buffer in the given encoding; nothing comes back
    /// when the bytes are not well formed in that encoding.
    pub fn init_with_bytes(bytes: &[u8], encoding: Encoding) -> (r: Option<NSString>)
        ensures
            encoding == Encoding::UTF8 ==> match r {
                Some(ns) => valid_utf8(bytes@) && ns@ == encode_utf16(decode_utf8(bytes@)),
                None => !valid_utf8(bytes@),
            },
            encoding == Encoding::ASCII ==> match r {
                Some(ns) => (forall|i: int| 0 <= i < bytes@.len() ==> bytes@[i] < 0x80) && ns@
                    =~= Seq::new(bytes@.len(), |i: int| bytes@[i] as u16),
                None => exists|i: int| 0 <= i < bytes@.len() && #[trigger] bytes@[i] >= 0x80,
            },
            encoding == Encoding::UTF16 ==> match r {
                Some(ns) => bytes@.len() % 2 == 0 && ns@ =~= Seq::new(
                    bytes@.len() / 2,
                    |i: int| (bytes@[2 * i] + 0x100 * bytes@[2 * i + 1]) as u16,
                ),
                None => bytes@.len() % 2 != 0,
            },
    {
        match encoding {
            Encoding::UTF8 => {
                match core::str::from_utf8(bytes) {
                    Ok(s) => {
                        proof {
                            encode_utf8_valid_utf8(s@);
                            encode_utf8_decode_utf8(s@);
                        }
                        Some(NSString::from_str(s))
                    },
                    Err(_) => None,
                }
            },
            Encoding::ASCII => {
                let mut units: Vec<u16> = Vec::new();
                let n = bytes.len();
                for i in 0..n
                    invariant
                        encoding == Encoding::ASCII,
                        n == bytes@.len(),
                        units@.len() == i,
                        forall|j: int| 0 <= j < i ==> bytes@[j] < 0x80,
                        forall|j: int| 0 <= j < i ==> units@[j] == bytes@[j] as u16,
                {
                    let b = bytes[i];
                    if b >= 0x80 {
                        proof {
                            assert(bytes@[i as int] >= 0x80);
                        }
                        return None;
                    }
                    units.push(b as u16);
                }
                proof {
                    assert(units@ =~= Seq::new(bytes@.len(), |i: int| bytes@[i] as u16));
                }
                Some(NSString { units })
            },
            Encoding::UTF16 => {
                let n = bytes.len();
                if n % 2 != 0 {
                    return None;
                }
                let half = n / 2;
                let mut units: Vec<u16> = Vec::new();
                for i in 0..half
                    invariant
                        encoding == Encoding::UTF16,
                        n == bytes@.len(),
                        n % 2 == 0,
                        half == n / 2,
                        units@.len() == i,
                        forall|j: int|
                            0 <= j < i ==> units@[j] == (bytes@[2 * j] + 0x100 * bytes@[2 * j + 1]) as u16,
                {
                    let lo = bytes[2 * i];
                    let hi = bytes[2 * i + 1];
                    let u: u16 = lo as u16 + 0x100 * (hi as u16);
                    units.push(u);
                }
                proof {
                    assert(units@ =~= Seq::new(
                        bytes@.len() / 2,
                        |i: int| (bytes@[2 * i] + 0x100 * bytes@[2 * i + 1]) as u16,
                    ));
                }
                Some(NSString { units })
            },
        }
    }

    /// The native length: the count of UTF-16 code units, not bytes and
    /// not characters.
    pub fn length(&self) -> (r: usize)
        ensures
            r == self@.len(),
    {
        self.units.len()
    }

    /// The code unit at `index`, as a character. The unit must denote a
    /// basic-plane character: indexing into a surrogate pair is excluded,
    /// as is an index at or past the length.
    pub fn character_at_index(&self, index: usize) -> (r: char)
        requires
            index < self@.len(),
            !is_surrogate(self@[index as int]),
        ensures
            r as u32 == self@[index as int] as u32,
    {
        let u = self.units[index];
        match char::from_u32(u as u32) {
            Some(c) => c,
            None => {
                proof {
                    assert(false);
                }
                ' '
            },
        }
    }

    /// Reads the native string back as host text. Fails with an encoding
    /// error exactly when the units are not well-formed UTF-16.
    pub fn as_str(&self) -> (r: Result<String, EncodingError>)
        ensures
            match r {
                Ok(t) => valid_utf16(self@) && t@ == decode_utf16(self@),
                Err(_) => !valid_utf16(self@),
            },
    {
        match utf16_to_text(&self.units) {
            Some(t) => Ok(t),
            None => Err(EncodingError),
        }
    }

    /// The UTF-8 bytes of the text this native string holds. Fails exactly
    /// when the units are not well-formed UTF-16.
    pub fn bytes(&self) -> (r: Result<Vec<u8>, EncodingError>)
        ensures
            match r {
                Ok(b) => valid_utf16(self@) && b@ == encode_utf8(decode_utf16(self@)),
                Err(_) => !valid_utf16(self@),
            },
    {
        match self.as_str() {
            Ok(t) => Ok(t.as_str().as_bytes_vec()),
            Err(e) => Err(e),
        }
    }

    /// How many bytes the string takes in the given encoding: the exact
    /// byte count, or zero when the string cannot be rendered in it.
    pub fn length_of_bytes_using_encoding(&self, encoding: Encoding) -> (r: usize)
        requires
            self@.len() <= usize::MAX / 2,
        ensures
            encoding == Encoding::UTF8 ==> r == if valid_utf16(self@) {
                encode_utf8(decode_utf16(self@)).len() as int
            } else {
                0
            },
            encoding == Encoding::ASCII ==> r == if forall|i: int|
                0 <= i < self@.len() ==> self@[i] < 0x80 {
                self@.len() as int
            } else {
                0
            },
            encoding == Encoding::UTF16 ==> r == 2 * self@.len(),
    {
        match encoding {
            Encoding::UTF8 => {
                match self.bytes() {
                    Ok(b) => b.len(),
                    Err(_) => 0,
                }
            },
            Encoding::ASCII => {
                let n = self.units.len();
                for i in 0..n
                    invariant
                        encoding == Encoding::ASCII,
                        n == self@.len(),
                        forall|j: int| 0 <= j < i ==> self@[j] < 0x80,
                {
                    if self.units[i] >= 0x80 {
                        proof {
                            assert(!(forall|j: int| 0 <= j < self@.len() ==> self@[j] < 0x80))
                                by {
                                assert(self@[i as int] >= 0x80);
                            }
                        }
                        return 0;
                    }
                }
                n
            },
            Encoding::UTF16 => 2 * self.units.len(),
        }
    }

    /// An upper bound on the bytes the string could take in the given
    /// encoding, computed from the unit count alone: three bytes per unit
    /// for UTF-8, one for ASCII, two for UTF-16.
    pub fn maximum_length_of_bytes_using_encoding(&self, encoding: Encoding) -> (r: usize)
        requires
            self@.len() <= usize::MAX / 3,
        ensures
            encoding == Encoding::UTF8 ==> r == 3 * self@.len(),
            encoding == Encoding::ASCII ==> r == self@.len(),
            encoding == Encoding::UTF16 ==> r == 2 * self@.len(),
    {
        match encoding {
            Encoding::UTF8 => 3 * self.units.len(),
            Encoding::ASCII => self.units.len(),
            Encoding::UTF16 => 2 * self.units.len(),
        }
    }

    /// Literal three-way comparison, code unit by code unit.
    pub fn compare(&self, other: &NSString) -> (r: ComparisonResult)
        ensures
            r == spec_compare(self@, other@),
    {
        compare_units(&self.units, &other.units)
    }

    /// Three-way comparison in the model's fixed locale: the same order as
    /// the literal comparison.
    pub fn localized_compare(&self, other: &NSString) -> (r: ComparisonResult)
        ensures
            r == spec_compare(self@, other@),
    {
        self.compare(other)
    }

    /// Standard-ordering comparison in the model's fixed locale: the same
    /// order as the literal comparison.
    pub fn localized_standard_compare(&self, other: &NSString) -> (r: ComparisonResult)
        ensures
            r == spec_compare(self@, other@),
    {
        self.compare(other)
    }

    /// Three-way comparison with ASCII case differences ignored.
    pub fn case_insensitive_compare(&self, other: &NSString) -> (r: ComparisonResult)
        ensures
            r == spec_compare(lower_units(self@), lower_units(other@)),
    {
        let a = self.lowercased();
        let b = other.lowercased();
        compare_units(&a.units, &b.units)
    }

    /// Case-insensitive comparison in the model's fixed locale: the same
    /// order as the plain case-insensitive comparison.
    pub fn localized_case_insensitive_compare(&self, other: &NSString) -> (r: ComparisonResult)
        ensures
            r == spec_compare(lower_units(self@), lower_units(other@)),
    {
        self.case_insensitive_compare(other)
    }

    /// Three-way comparison under the given options.
    pub fn compare_with_options(&self, other: &NSString, options: CompareOptions) -> (r:
        ComparisonResult)
        ensures
            options == CompareOptions::Literal ==> r == spec_compare(self@, other@),
            options == CompareOptions::CaseInsensitive ==> r == spec_compare(
                lower_units(self@),
                lower_units(other@),
            ),
    {
        match options {
            CompareOptions::Literal => self.compare(other),
            CompareOptions::CaseInsensitive => self.case_insensitive_compare(other),
        }
    }

    /// The units from `start` up to `end`, as a new string. A range past
    /// the length is a programmer error, excluded here.
    pub fn substring_with_range(&self, start: usize, end: usize) -> (r: NSString)
        requires
            start <= end <= self@.len(),
        ensures
            r@ == self@.subrange(start as int, end as int),
    {
        let mut units: Vec<u16> = Vec::new();
        proof {
            assert(self@.subrange(start as int, start as int) =~= Seq::<u16>::empty());
        }
        for i in start..end
            invariant
                start <= i <= end <= self@.len(),
                units@ =~= self@.subrange(start as int, i as int),
        {
            units.push(self.units[i]);
            proof {
                assert(self@.subrange(start as int, i + 1) =~= self@.subrange(
                    start as int,
                    i as int,
                ).push(self@[i as int]));
            }
        }
        NSString { units }
    }

    /// Three-way comparison of the receiver's units in the given range
    /// against the whole of `other`, under the given options.
    pub fn compare_with_options_range(
        &self,
        other: &NSString,
        options: CompareOptions,
        start: usize,
        end: usize,
    ) -> (r: ComparisonResult)
        requires
            start <= end <= self@.len(),
        ensures
            options == CompareOptions::Literal ==> r == spec_compare(
                self@.subrange(start as int, end as int),
                other@,
            ),
            options == CompareOptions::CaseInsensitive ==> r == spec_compare(
                lower_units(self@.subrange(start as int, end as int)),
                lower_units(other@),
            ),
    {
        let sub = self.substring_with_range(start, end);
        sub.compare_with_options(other, options)
    }

    /// True when `prefix` starts this string.
    pub fn has_prefix(&self, prefix: &NSString) -> (r: bool)
        ensures
            r == spec_has_prefix(self@, prefix@),
    {
        let pn = prefix.units.len();
        if pn > self.units.len() {
            return false;
        }
        for i in 0..pn
            invariant
                pn == prefix@.len(),
                pn <= self@.len(),
                forall|j: int| 0 <= j < i ==> self@[j] == prefix@[j],
        {
            if self.units[i] != prefix.units[i] {
                proof {
                    assert(self@.subrange(0, pn as int)[i as int] == self@[i as int]);
                }
                return false;
            }
        }
        proof {
            assert(self@.subrange(0, pn as int) =~= prefix@);
        }
        true
    }

    /// True when `suffix` ends this string.
    pub fn has_suffix(&self, suffix: &NSString) -> (r: bool)
        ensures
            r == spec_has_suffix(self@, suffix@),
    {
        let pn = suffix.units.len();
        let sn = self.units.len();
        if pn > sn {
            return false;
        }
        let d = sn - pn;
        for i in 0..pn
            invariant
                pn == suffix@.len(),
                sn == self@.len(),
                d + pn == sn,
                forall|j: int| 0 <= j < i ==> self@[d + j] == suffix@[j],
        {
            if self.units[d + i] != suffix.units[i] {
                proof {
                    assert(self@.subrange(d as int, self@.len() as int)[i as int] == self@[
                        d + i as int
                    ]);
                }
                return false;
            }
        }
        proof {
            assert(self@.subrange(d as int, self@.len() as int) =~= suffix@);
        }
        true
    }

    /// True when the units starting at `at` equal `other`.
    fn matches_at(&self, other: &NSString, at: usize) -> (r: bool)
        requires
            at + other@.len() <= self@.len(),
        ensures
            r == (self@.subrange(at as int, at + other@.len()) == other@),
    {
        let n = other.units.len();
        let sn = self.units.len();
        for i in 0..n
            invariant
                n == other@.len(),
                sn == self@.len(),
                at + n <= sn,
                forall|j: int| 0 <= j < i ==> self@[at + j] == other@[j],
        {
            if self.units[at + i] != other.units[i] {
                proof {
                    assert(self@.subrange(at as int, at + other@.len())[i as int] == self@[
                        at + i as int
                    ]);
                }
                return false;
            }
        }
        proof {
            assert(self@.subrange(at as int, at + other@.len()) =~= other@);
        }
        true
    }

    /// True when `other` occurs contiguously somewhere in this string.
    pub fn contains(&self, other: &NSString) -> (r: bool)
        ensures
            r == spec_contains(self@, other@),
    {
        let n = other.units.len();
        let sn = self.units.len();
        if n > sn {
            return false;
        }
        if n == 0 {
            proof {
                assert(self@.subrange(0, 0 + other@.len() as int) =~= other@);
                assert(spec_contains(self@, other@));
            }
            return true;
        }
        let m = sn - n;
        let mut j: usize = 0;
        while j <= m
            invariant
                n == other@.len(),
                sn == self@.len(),
                1 <= n <= sn,
                m + n == sn,
                j <= m + 1,
                forall|j2: int| 0 <= j2 < j ==> #[trigger] self@.subrange(j2, j2 + n) != other@,
            decreases m + 1 - j,
        {
            if self.matches_at(other, j) {
                proof {
                    assert(0 <= j as int <= self@.len() - other@.len());
                }
                return true;
            }
            j = j + 1;
        }
        false
    }

    /// True when the two strings hold the same code units.
    pub fn is_equal_to(&self, other: &NSString) -> (r: bool)
        ensures
            r == (self@ == other@),
    {
        let c = self.compare(other);
        proof {
            lemma_compare_eq_iff(self@, other@);
        }
        match c {
            ComparisonResult::OrderedSame => true,
            _ => false,
        }
    }

    /// The concatenation of this string and `other`.
    pub fn appending(&self, other: &NSString) -> (r: NSString)
        ensures
            r@ == self@ + other@,
    {
        let mut units = copy_units(&self.units);
        let n = other.units.len();
        for i in 0..n
            invariant
                n == other@.len(),
                units@ =~= self@ + other@.subrange(0, i as int),
        {
            units.push(other.units[i]);
            proof {
                assert(self@ + other@.subrange(0, i + 1) =~= (self@ + other@.subrange(
                    0,
                    i as int,
                )).push(other@[i as int]));
            }
        }
        proof {
            assert(other@.subrange(0, n as int) =~= other@);
        }
        NSString { units }
    }

    /// The string cut to `new_length` units, or cyclically padded with
    /// `pad` starting at `pad[starting_at]` until it reaches that length.
    pub fn padding(&self, new_length: usize, pad: &NSString, starting_at: usize) -> (r: NSString)
        requires
            new_length > self@.len() ==> pad@.len() > 0,
            new_length > self@.len() ==> starting_at < pad@.len(),
        ensures
            r@ == spec_padding(self@, new_length as int, pad@, starting_at as int),
    {
        let sn = self.units.len();
        if new_length <= sn {
            let mut units: Vec<u16> = Vec::new();
            for i in 0..new_length
                invariant
                    new_length <= self@.len(),
                    units@ =~= self@.subrange(0, i as int),
            {
                units.push(self.units[i]);
                proof {
                    assert(self@.subrange(0, i + 1) =~= self@.subrange(0, i as int).push(
                        self@[i as int],
                    ));
                }
            }
            NSString { units }
        } else {
            let pn = pad.units.len();
            let k = starting_at;
            let mut units = copy_units(&self.units);
            let mut j = k;
            let ghost goal = Seq::new(
                (new_length - sn) as nat,
                |i: int| pad@[(k + i) % (pn as int)],
            );
            proof {
                vstd::arithmetic::div_mod::lemma_small_mod(k as nat, pn as nat);
                assert(goal.subrange(0, 0) =~= Seq::<u16>::empty());
                assert(units@ =~= self@ + goal.subrange(0, 0));
            }
            while units.len() < new_length
                invariant
                    sn == self@.len(),
                    pn == pad@.len(),
                    pn > 0,
                    k < pn,
                    sn <= units@.len() <= new_length,
                    j < pn,
                    j as int == (k + (units@.len() - sn)) % (pn as int),
                    goal == Seq::new(
                        (new_length - sn) as nat,
                        |i: int| pad@[(k + i) % (pn as int)],
                    ),
                    units@ =~= self@ + goal.subrange(0, units@.len() - sn),
                decreases new_length - units@.len(),
            {
                let ghost m = units@.len() - sn;
                units.push(pad.units[j]);
                proof {
                    lemma_mod_bound(k + m, pn as int);
                    assert(goal[m] == pad@[j as int]);
                    assert(goal.subrange(0, m + 1) =~= goal.subrange(0, m).push(goal[m]));
                    lemma_fundamental_div_mod(k + m, pn as int);
                    let q = (k + m) / (pn as int);
                    assert(k + m == (pn as int) * q + j);
                    if j + 1 < pn {
                        lemma_fundamental_div_mod_converse(k + m + 1, pn as int, q, j + 1);
                    } else {
                        assert((q + 1) * (pn as int) == (pn as int) * q + (pn as int))
                            by (nonlinear_arith);
                        lemma_fundamental_div_mod_converse(k + m + 1, pn as int, q + 1, 0);
                    }
                }
                j = j + 1;
                if j == pn {
                    j = 0;
                }
            }
            proof {
                assert(goal.subrange(0, goal.len() as int) =~= goal);
                assert(units@ =~= spec_padding(
                    self@,
                    new_length as int,
                    pad@,
                    starting_at as int,
                ));
            }
            NSString { units }
        }
    }

    /// The string with every ASCII capital folded to its small form.
    pub fn lowercased(&self) -> (r: NSString)
        ensures
            r@ == lower_units(self@),
    {
        let n = self.units.len();
        let mut units: Vec<u16> = Vec::new();
        for i in 0..n
            invariant
                n == self@.len(),
                units@.len() == i,
                forall|j: int| 0 <= j < i ==> units@[j] == lower_unit(self@[j]),
        {
            let u = self.units[i];
            if 0x41 <= u && u <= 0x5A {
                units.push(u + 0x20);
            } else {
                units.push(u);
            }
        }
        proof {
            assert(units@ =~= lower_units(self@));
        }
        NSString { units }
    }

    /// The folding of `lowercased` in the model's fixed locale.
    pub fn localized_lowercase(&self) -> (r: NSString)
        ensures
            r@ == lower_units(self@),
    {
        self.lowercased()
    }

    /// The string with every ASCII small letter raised to its capital form.
    pub fn uppercased(&self) -> (r: NSString)
        ensures
            r@ == upper_units(self@),
    {
        let n = self.units.len();
        let mut units: Vec<u16> = Vec::new();
        for i in 0..n
            invariant
                n == self@.len(),
                units@.len() == i,
                forall|j: int| 0 <= j < i ==> units@[j] == upper_unit(self@[j]),
        {
            let u = self.units[i];
            if 0x61 <= u && u <= 0x7A {
                units.push(u - 0x20);
            } else {
                units.push(u);
            }
        }
        proof {
            assert(units@ =~= upper_units(self@));
        }
        NSString { units }
    }

    /// The raising of `uppercased` in the model's fixed locale.
    pub fn localized_uppercase(&self) -> (r: NSString)
        ensures
            r@ == upper_units(self@),
    {
        self.uppercased()
    }

    /// The string with the first letter of each space-separated word
    /// raised and every other letter folded, over the ASCII letters.
    pub fn capitalized(&self) -> (r: NSString)
        ensures
            r@ == spec_capitalized(self@, true),
    {
        let n = self.units.len();
        let mut units: Vec<u16> = Vec::new();
        let mut at_start = true;
        proof {
            assert(self@.subrange(0, n as int) =~= self@);
        }
        for i in 0..n
            invariant
                n == self@.len(),
                spec_capitalized(self@, true) =~= units@ + spec_capitalized(
                    self@.subrange(i as int, n as int),
                    at_start,
                ),
                units@.len() == i,
        {
            let u = self.units[i];
            let t: u16 = if at_start {
                if 0x61 <= u && u <= 0x7A {
                    u - 0x20
                } else {
                    u
                }
            } else {
                if 0x41 <= u && u <= 0x5A {
                    u + 0x20
                } else {
                    u
                }
            };
            proof {
                let rest = self@.subrange(i as int, n as int);
                assert(rest[0] == self@[i as int]);
                assert(rest.drop_first() =~= self@.subrange(i + 1, n as int));
                assert(spec_capitalized(rest, at_start) == seq![
                    if at_start {
                        upper_unit(rest[0])
                    } else {
                        lower_unit(rest[0])
                    },
                ] + spec_capitalized(rest.drop_first(), rest[0] == 0x20));
            }
            units.push(t);
            at_start = u == 0x20;
        }
        proof {
            assert(self@.subrange(n as int, n as int) =~= Seq::<u16>::empty());
            assert(spec_capitalized(Seq::<u16>::empty(), at_start) =~= Seq::<u16>::empty());
            assert(units@ =~= units@ + Seq::<u16>::empty());
        }
        NSString { units }
    }

    /// The capitalization of `capitalized` in the model's fixed locale.
    pub fn localized_capitalized(&self) -> (r: NSString)
        ensures
            r@ == spec_capitalized(self@, true),
    {
        self.capitalized()
    }

    /// A new wrapper holding the same code units, as taking another native
    /// reference does.
    pub fn retained(&self) -> (r: NSString)
        ensures
            r@ == self@,
    {
        NSString { units: copy_units(&self.units) }
    }

    /// The diagnostic rendering of a string: the string itself.
    pub fn description(&self) -> (r: NSString)
        ensures
            r@ == self@,
    {
        self.retained()
    }

    /// The debugging rendering of a string: the string itself.
    pub fn debug_description(&self) -> (r: NSString)
        ensures
            r@ == self@,
    {
        self.retained()
    }
}

impl Default for NSString {
    /// The empty native string.
    fn default() -> (r: NSString)
        ensures
            r@ == Seq::<u16>::empty(),
    {
        NSString::new()
    }
}

impl Clone for NSString {
    /// A new wrapper holding the same code units.
    fn clone(&self) -> (r: NSString)
        ensures
            r@ == self@,
    {
        self.retained()
    }
}

impl PartialEq for NSString {
    /// Native string equality: the same code units.
    fn eq(&self, other: &NSString) -> (r: bool) {
        self.is_equal_to(other)
    }
}

impl vstd::std_specs::cmp::PartialEqSpecImpl for NSString {
    open spec fn obeys_eq_spec() -> bool {
        true
    }

    open spec fn eq_spec(&self, other: &NSString) -> bool {
        self@ == other@
    }
}

/// The string with the first letter of each space-separated word raised
/// and every other letter folded; `at_start` says whether the front of the
/// sequence begins a word.
pub open spec fn spec_capitalized(s: Seq<u16>, at_start: bool) -> Seq<u16>
    decreases s.len(),
{
    if s.len() == 0 {
        Seq::<u16>::empty()
    } else {
        seq![
            if at_start {
                upper_unit(s[0])
            } else {
                lower_unit(s[0])
            },
        ] + spec_capitalized(s.drop_first(), s[0] == 0x20)
    }
}

/// The hash of a unit sequence: a fold that mixes each unit into the
/// accumulator by exclusive-or and a multiplicative step.
pub open spec fn hash_units(s: Seq<u16>) -> u64
    decreases s.len(),
{
    if s.len() == 0 {
        0xcbf29ce484222325u64
    } else {
        vstd::wrapping::u64_specs::wrapping_mul(
            hash_units(s.drop_last()) ^ (s.last() as u64),
            0x100000001b3u64,
        )
    }
}

impl crate::runtime::PNSObject for NSString {
    open spec fn hash_spec(v: Seq<u16>) -> u64 {
        hash_units(v)
    }

    open spec fn class_responds_to(sel: crate::runtime::Selector) -> bool {
        match sel {
            crate::runtime::Selector::IsEqual => true,
            crate::runtime::Selector::Hash => true,
            crate::runtime::Selector::Description => true,
            crate::runtime::Selector::DebugDescription => true,
            crate::runtime::Selector::Length => true,
            crate::runtime::Selector::CharacterAtIndex => true,
            _ => false,
        }
    }

    open spec fn class_conforms_to(p: crate::runtime::Protocol) -> bool {
        match p {
            crate::runtime::Protocol::ObjectProtocol => true,
            crate::runtime::Protocol::Copying => true,
            crate::runtime::Protocol::FastEnumeration => false,
        }
    }

    fn is_equal(&self, other: &Self) -> (r: bool) {
        self.is_equal_to(other)
    }

    fn hash_value(&self) -> (r: u64) {
        let n = self.units.len();
        let mut h: u64 = 0xcbf29ce484222325;
        proof {
            assert(self@.subrange(0, 0) =~= Seq::<u16>::empty());
        }
        for i in 0..n
            invariant
                n == self@.len(),
                h == hash_units(self@.subrange(0, i as int)),
        {
            h = (h ^ (self.units[i] as u64)).wrapping_mul(0x100000001b3);
            proof {
                let p = self@.subrange(0, i + 1);
                assert(p.drop_last() =~= self@.subrange(0, i as int));
                assert(p.last() == self@[i as int]);
            }
        }
        proof {
            assert(self@.subrange(0, n as int) =~= self@);
        }
        h
    }

    fn responds_to(&self, sel: crate::runtime::Selector) -> (r: bool) {
        match sel {
            crate::runtime::Selector::IsEqual => true,
            crate::runtime::Selector::Hash => true,
            crate::runtime::Selector::Description => true,
            crate::runtime::Selector::DebugDescription => true,
            crate::runtime::Selector::Length => true,
            crate::runtime::Selector::CharacterAtIndex => true,
            _ => false,
        }
    }

    fn conforms_to(&self, p: crate::runtime::Protocol) -> (r: bool) {
        match p {
            crate::runtime::Protocol::ObjectProtocol => true,
            crate::runtime::Protocol::Copying => true,
            crate::runtime::Protocol::FastEnumeration => false,
        }
    }

    /// A string's diagnostic rendering: the string itself.
    fn description(&self) -> (r: NSString)
        ensures
            r@ == self@,
    {
        self.retained()
    }
}

/// A copy of a unit buffer.
fn copy_units(src: &Vec<u16>) -> (r: Vec<u16>)
    ensures
        r@ == src@,
{
    let n = src.len();
    let mut v: Vec<u16> = Vec::new();
    for i in 0..n
        invariant
            n == src@.len(),
            v@ =~= src@.subrange(0, i as int),
    {
        v.push(src[i]);
        proof {
            assert(src@.subrange(0, i + 1) =~= src@.subrange(0, i as int).push(src@[i as int]));
        }
    }
    proof {
        assert(src@.subrange(0, n as int) =~= src@);
    }
    v
}

/// Three-way lexicographic comparison of two unit buffers.
fn compare_units(a: &Vec<u16>, b: &Vec<u16>) -> (r: ComparisonResult)
    ensures
        r == spec_compare(a@, b@),
{
    let an = a.len();
    let bn = b.len();
    let n = if an < bn {
        an
    } else {
        bn
    };
    let mut i: usize = 0;
    while i < n
        invariant
            n <= a@.len() && n <= b@.len(),
            an == a@.len() && bn == b@.len(),
            n == if an < bn {
                an as int
            } else {
                bn as int
            },
            i <= n,
            forall|j: int| 0 <= j < i ==> a@[j] == b@[j],
        decreases n - i,
    {
        let x = a[i];
        let y = b[i];
        if x < y {
            proof {
                lemma_compare_skip(a@, b@, i as int);
                assert(a@.subrange(i as int, a@.len() as int)[0] == a@[i as int]);
                assert(b@.subrange(i as int, b@.len() as int)[0] == b@[i as int]);
            }
            return ComparisonResult::OrderedAscending;
        }
        if x > y {
            proof {
                lemma_compare_skip(a@, b@, i as int);
                assert(a@.subrange(i as int, a@.len() as int)[0] == a@[i as int]);
                assert(b@.subrange(i as int, b@.len() as int)[0] == b@[i as int]);
            }
            return ComparisonResult::OrderedDescending;
        }
        i = i + 1;
    }
    proof {
        lemma_compare_skip(a@, b@, n as int);
        assert(a@.subrange(n as int, a@.len() as int).len() == a@.len() - n);
        assert(b@.subrange(n as int, b@.len() as int).len() == b@.len() - n);
    }
    if an == bn {
        ComparisonResult::OrderedSame
    } else if an < bn {
        ComparisonResult::OrderedAscending
    } else {
        ComparisonResult::OrderedDescending
    }
}

} // verus!
