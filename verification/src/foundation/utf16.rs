//! UTF-16, the native string representation: encoding of host characters
//! into code units, decoding back, and the laws that make the two inverse
//! to each other.

use vstd::prelude::*;
use vstd::arithmetic::div_mod::{
    lemma_div_is_ordered, lemma_fundamental_div_mod, lemma_fundamental_div_mod_converse,
    lemma_mod_bound,
};
use vstd::string::StringExecFns;
use vstd::string::StrSliceExecFns;
use vstd::utf8::{char_is_scalar, char_u32_cast, is_scalar};

verus! {

/// True when the unit is a high (leading) surrogate.
pub open spec fn is_high_surrogate(u: u16) -> bool {
    0xD800 <= u <= 0xDBFF
}

/// True when the unit is a low (trailing) surrogate.
pub open spec fn is_low_surrogate(u: u16) -> bool {
    0xDC00 <= u <= 0xDFFF
}

/// True when the unit is a surrogate of either kind.
pub open spec fn is_surrogate(u: u16) -> bool {
    0xD800 <= u <= 0xDFFF
}

/// The scalar value a surrogate pair stands for.
pub open spec fn combine_surrogates(hi: u16, lo: u16) -> u32
    recommends
        is_high_surrogate(hi),
        is_low_surrogate(lo),
{
    (0x10000 + (hi - 0xD800) * 0x400 + (lo - 0xDC00)) as u32
}

/// The UTF-16 encoding of one character: one unit for a basic-plane
/// character, a surrogate pair beyond it.
pub open spec fn encode_char_utf16(c: char) -> Seq<u16> {
    let v = c as u32;
    if v < 0x10000 {
        seq![v as u16]
    } else {
        seq![
            (0xD800 + (v - 0x10000) / 0x400) as u16,
            (0xDC00 + (v - 0x10000) % 0x400) as u16,
        ]
    }
}

/// The UTF-16 encoding of a character sequence.
pub open spec fn encode_utf16(chars: Seq<char>) -> Seq<u16>
    decreases chars.len(),
{
    if chars.len() == 0 {
        seq![]
    } else {
        encode_char_utf16(chars[0]) + encode_utf16(chars.drop_first())
    }
}

/// True when the sequence begins with a well-formed encoding of one
/// character: a non-surrogate unit, or a high surrogate followed by a low
/// one.
pub open spec fn valid_first_unit(units: Seq<u16>) -> bool {
    ||| (units.len() >= 1 && !is_surrogate(units[0]))
    ||| (units.len() >= 2 && is_high_surrogate(units[0]) && is_low_surrogate(units[1]))
}

/// How many units the first character's encoding takes.
pub open spec fn length_of_first_char(units: Seq<u16>) -> int
    recommends
        valid_first_unit(units),
{
    if !is_surrogate(units[0]) {
        1
    } else {
        2
    }
}

/// The scalar value of the first character encoded in the sequence.
pub open spec fn decode_first_scalar16(units: Seq<u16>) -> u32
    recommends
        valid_first_unit(units),
{
    if !is_surrogate(units[0]) {
        units[0] as u32
    } else {
        combine_surrogates(units[0], units[1])
    }
}

/// The sequence with its first character's encoding removed.
pub open spec fn pop_first_char(units: Seq<u16>) -> Seq<u16>
    recommends
        valid_first_unit(units),
{
    units.subrange(length_of_first_char(units), units.len() as int)
}

/// True when the units form a well-formed UTF-16 encoding: every surrogate
/// is part of a high-low pair.
pub open spec fn valid_utf16(units: Seq<u16>) -> bool
    decreases units.len(),
{
    units.len() != 0 ==> (valid_first_unit(units) && valid_utf16(pop_first_char(units)))
}

/// The character sequence a well-formed UTF-16 encoding stands for.
pub open spec fn decode_utf16(units: Seq<u16>) -> Seq<char>
    recommends
        valid_utf16(units),
    decreases units.len(),
    when valid_utf16(units)
{
    if units.len() == 0 {
        seq![]
    } else {
        seq![decode_first_scalar16(units) as char] + decode_utf16(pop_first_char(units))
    }
}

/// One character's encoding put before any tail starts the sequence with
/// that character: the split, the scalar and the remainder all line up.
pub proof fn lemma_encode_char_first(c: char, rest: Seq<u16>)
    ensures
        ({
            let s = encode_char_utf16(c) + rest;
            &&& valid_first_unit(s)
            &&& length_of_first_char(s) == encode_char_utf16(c).len()
            &&& decode_first_scalar16(s) == c as u32
            &&& pop_first_char(s) =~= rest
        }),
{
    char_is_scalar(c);
    let v = c as u32;
    let s = encode_char_utf16(c) + rest;
    if v < 0x10000 {
        assert(s[0] == v as u16);
        assert(!is_surrogate(v as u16));
        assert(decode_first_scalar16(s) == v);
    } else {
        let x = (v - 0x10000) as int;
        let q = x / 0x400;
        let r = x % 0x400;
        assert(x <= 0xFFFFF);
        lemma_div_is_ordered(x, 0xFFFFF, 0x400);
        assert(0xFFFFF as int / 0x400 == 0x3FF);
        lemma_div_is_ordered(0, x, 0x400);
        assert(0 <= q <= 0x3FF);
        lemma_mod_bound(x, 0x400);
        assert(0 <= r < 0x400);
        let hi = (0xD800 + q) as u16;
        let lo = (0xDC00 + r) as u16;
        assert(s[0] == hi && s[1] == lo);
        assert(is_high_surrogate(hi));
        assert(is_low_surrogate(lo));
        lemma_fundamental_div_mod(x, 0x400);
        assert(0x400 * q + r == x);
        assert(decode_first_scalar16(s) == combine_surrogates(hi, lo));
        assert(combine_surrogates(hi, lo) == v);
    }
}

/// Encoding a character sequence yields well-formed UTF-16.
pub proof fn lemma_encode_utf16_valid(chars: Seq<char>)
    ensures
        valid_utf16(encode_utf16(chars)),
    decreases chars.len(),
{
    if chars.len() != 0 {
        lemma_encode_char_first(chars[0], encode_utf16(chars.drop_first()));
        lemma_encode_utf16_valid(chars.drop_first());
        assert(pop_first_char(encode_utf16(chars)) =~= encode_utf16(chars.drop_first()));
    }
}

/// Law: bridging any host character sequence into native UTF-16 code units
/// and decoding those units again gives the original sequence back; the
/// units are always well formed. This is the round trip behind
/// `NSString::from_str` followed by `NSString::as_str`.
pub proof fn lemma_utf16_round_trip(chars: Seq<char>)
    ensures
        valid_utf16(encode_utf16(chars)),
        decode_utf16(encode_utf16(chars)) == chars,
    decreases chars.len(),
{
    lemma_encode_utf16_valid(chars);
    let s = encode_utf16(chars);
    if chars.len() == 0 {
        assert(decode_utf16(s) =~= chars);
    } else {
        lemma_encode_char_first(chars[0], encode_utf16(chars.drop_first()));
        char_u32_cast(chars[0], chars[0] as u32);
        lemma_utf16_round_trip(chars.drop_first());
        assert(pop_first_char(s) =~= encode_utf16(chars.drop_first()));
        assert(decode_utf16(s) =~= chars);
    }
}

/// Appending one character to a sequence appends its encoding to the
/// sequence's encoding.
pub proof fn lemma_encode_utf16_push(chars: Seq<char>, c: char)
    ensures
        encode_utf16(chars.push(c)) =~= encode_utf16(chars) + encode_char_utf16(c),
    decreases chars.len(),
{
    if chars.len() == 0 {
        assert(chars.push(c).drop_first() =~= Seq::<char>::empty());
        assert(chars.push(c)[0] == c);
        assert(encode_utf16(Seq::<char>::empty()) =~= Seq::<u16>::empty());
        assert(encode_utf16(chars) =~= Seq::<u16>::empty());
    } else {
        assert(chars.push(c)[0] == chars[0]);
        assert(chars.push(c).drop_first() =~= chars.drop_first().push(c));
        lemma_encode_utf16_push(chars.drop_first(), c);
    }
}

/// Extending well-formed units by one character's encoding keeps them well
/// formed and appends that character to what they decode to.
pub proof fn lemma_valid_utf16_append_char(prefix: Seq<u16>, c: char)
    requires
        valid_utf16(prefix),
    ensures
        valid_utf16(prefix + encode_char_utf16(c)),
        decode_utf16(prefix + encode_char_utf16(c)) =~= decode_utf16(prefix).push(c),
    decreases prefix.len(),
{
    let e = encode_char_utf16(c);
    let s = prefix + e;
    if prefix.len() == 0 {
        assert(s =~= e + Seq::<u16>::empty());
        lemma_encode_char_first(c, Seq::<u16>::empty());
        char_u32_cast(c, c as u32);
        assert(pop_first_char(s) =~= Seq::<u16>::empty());
        assert(valid_utf16(Seq::<u16>::empty()));
        assert(valid_utf16(s));
        assert(decode_utf16(Seq::<u16>::empty()) =~= Seq::<char>::empty());
        assert(decode_utf16(s) =~= decode_utf16(prefix).push(c));
    } else {
        assert(valid_first_unit(prefix));
        assert(s[0] == prefix[0]);
        if is_surrogate(prefix[0]) {
            assert(prefix.len() >= 2 && s[1] == prefix[1]);
        }
        assert(valid_first_unit(s));
        assert(length_of_first_char(s) == length_of_first_char(prefix));
        assert(decode_first_scalar16(s) == decode_first_scalar16(prefix));
        assert(pop_first_char(s) =~= pop_first_char(prefix) + e);
        lemma_valid_utf16_append_char(pop_first_char(prefix), c);
        assert(valid_utf16(pop_first_char(s)));
        assert(valid_utf16(s));
        assert(decode_utf16(s) =~= decode_utf16(prefix).push(c));
    }
}

/// A sequence whose remainder starts with an ill-formed unit is not
/// well-formed UTF-16, however well formed the part before it is.
pub proof fn lemma_utf16_invalid_suffix(prefix: Seq<u16>, rest: Seq<u16>)
    requires
        valid_utf16(prefix),
        rest.len() > 0,
        !valid_first_unit(rest),
    ensures
        !valid_utf16(prefix + rest),
    decreases prefix.len(),
{
    let s = prefix + rest;
    if prefix.len() == 0 {
        assert(s =~= rest);
    } else {
        if valid_utf16(s) {
            assert(s[0] == prefix[0]);
            if is_surrogate(prefix[0]) {
                assert(prefix.len() >= 2 && s[1] == prefix[1]);
            }
            assert(length_of_first_char(s) == length_of_first_char(prefix));
            assert(pop_first_char(s) =~= pop_first_char(prefix) + rest);
            lemma_utf16_invalid_suffix(pop_first_char(prefix), rest);
            assert(false);
        }
    }
}

/// A surrogate pair's combined value is a scalar beyond the basic plane.
pub proof fn lemma_combine_is_scalar(hi: u16, lo: u16)
    requires
        is_high_surrogate(hi),
        is_low_surrogate(lo),
    ensures
        0x10000 <= combine_surrogates(hi, lo) <= 0x10FFFF,
        is_scalar(combine_surrogates(hi, lo)),
{
}

/// A character whose scalar is a surrogate pair's combined value encodes
/// back to exactly that pair.
pub proof fn lemma_surrogate_pair_encode(hi: u16, lo: u16, c: char)
    requires
        is_high_surrogate(hi),
        is_low_surrogate(lo),
        c as u32 == combine_surrogates(hi, lo),
    ensures
        encode_char_utf16(c) =~= seq![hi, lo],
{
    let v = c as u32;
    let x = (v - 0x10000) as int;
    lemma_fundamental_div_mod_converse(x, 0x400, (hi - 0xD800) as int, (lo - 0xDC00) as int);
    assert(x / 0x400 == hi - 0xD800);
    assert(x % 0x400 == lo - 0xDC00);
}

/// A character whose scalar is a non-surrogate basic-plane unit encodes
/// back to exactly that unit.
pub proof fn lemma_bmp_encode(u: u16, c: char)
    requires
        !is_surrogate(u),
        c as u32 == u as u32,
    ensures
        encode_char_utf16(c) =~= seq![u],
{
}

/// Relies on `char::from_u32` of the standard library: it returns the
/// character with the given scalar value, and nothing when the value is a
/// surrogate or lies beyond the last code point.
pub assume_specification[ char::from_u32 ](v: u32) -> (r: Option<char>)
    ensures
        is_scalar(v) ==> (r is Some && r->0 as u32 == v),
        !is_scalar(v) ==> r is None,
;

/// Relies on `String::push` of the standard library: it appends exactly
/// the given character.
pub assume_specification[ String::push ](s: &mut String, c: char)
    ensures
        final(s)@ == old(s)@.push(c),
;

/// Encodes host text into native UTF-16 code units.
pub fn utf16_from_text(s: &str) -> (units: Vec<u16>)
    ensures
        units@ == encode_utf16(s@),
{
    let n = s.unicode_len();
    let mut units: Vec<u16> = Vec::new();
    assert(units@ =~= encode_utf16(s@.subrange(0, 0)));
    for i in 0..n
        invariant
            n == s@.len(),
            units@ =~= encode_utf16(s@.subrange(0, i as int)),
    {
        let c = s.get_char(i);
        let v = c as u32;
        proof {
            char_is_scalar(c);
        }
        if v < 0x10000 {
            units.push(v as u16);
        } else {
            let x = v - 0x10000;
            units.push(0xD800 + (x / 0x400) as u16);
            units.push(0xDC00 + (x % 0x400) as u16);
        }
        proof {
            let prefix = s@.subrange(0, i as int);
            lemma_encode_char_first(c, Seq::<u16>::empty());
            lemma_encode_utf16_push(prefix, c);
            assert(s@.subrange(0, i + 1) =~= prefix.push(c));
            if v >= 0x10000 {
                let x = (v - 0x10000) as int;
                lemma_div_is_ordered(x, 0xFFFFF, 0x400);
                assert(0xFFFFF as int / 0x400 == 0x3FF);
                lemma_div_is_ordered(0, x, 0x400);
                lemma_mod_bound(x, 0x400);
            }
            assert(units@ =~= encode_utf16(s@.subrange(0, i + 1)));
        }
    }
    proof {
        assert(s@.subrange(0, n as int) =~= s@);
    }
    units
}

/// Decodes native UTF-16 code units into host text; nothing comes back
/// when the units are ill formed.
pub fn utf16_to_text(units: &Vec<u16>) -> (r: Option<String>)
    ensures
        match r {
            Some(t) => valid_utf16(units@) && t@ == decode_utf16(units@),
            None => !valid_utf16(units@),
        },
{
    let n = units.len();
    let mut out = String::new();
    let mut i: usize = 0;
    assert(units@.subrange(0, 0) =~= Seq::<u16>::empty());
    assert(out@ =~= decode_utf16(units@.subrange(0, 0)));
    while i < n
        invariant
            n == units@.len(),
            i <= n,
            valid_utf16(units@.subrange(0, i as int)),
            out@ =~= decode_utf16(units@.subrange(0, i as int)),
        decreases n - i,
    {
        let u = units[i];
        let ghost prefix = units@.subrange(0, i as int);
        if u < 0xD800 || u > 0xDFFF {
            let c = match char::from_u32(u as u32) {
                Some(c) => c,
                None => {
                    proof {
                        assert(false);
                    }
                    ' '
                },
            };
            out.push(c);
            proof {
                lemma_bmp_encode(u, c);
                lemma_valid_utf16_append_char(prefix, c);
                assert(units@.subrange(0, i + 1) =~= prefix + encode_char_utf16(c));
            }
            i = i + 1;
        } else if u <= 0xDBFF && i + 1 < n && 0xDC00 <= units[i + 1] && units[i + 1] <= 0xDFFF {
            let lo = units[i + 1];
            proof {
                lemma_combine_is_scalar(u, lo);
            }
            let v: u32 = 0x10000 + (u as u32 - 0xD800) * 0x400 + (lo as u32 - 0xDC00);
            let c = match char::from_u32(v) {
                Some(c) => c,
                None => {
                    proof {
                        assert(false);
                    }
                    ' '
                },
            };
            out.push(c);
            proof {
                lemma_surrogate_pair_encode(u, lo, c);
                lemma_valid_utf16_append_char(prefix, c);
                assert(units@.subrange(0, i + 2) =~= prefix + encode_char_utf16(c));
            }
            i = i + 2;
        } else {
            proof {
                let rest = units@.subrange(i as int, units@.len() as int);
                assert(rest[0] == u);
                assert(is_surrogate(u));
                if rest.len() >= 2 {
                    assert(rest[1] == units@[i + 1]);
                }
                assert(!valid_first_unit(rest));
                lemma_utf16_invalid_suffix(prefix, rest);
                assert(units@ =~= prefix + rest);
            }
            return None;
        }
    }
    proof {
        assert(units@.subrange(0, n as int) =~= units@);
    }
    Some(out)
}

} // verus!
