//! UTF-16 encoding and decoding of character sequences.
//!
//! The host delivers diagnostic text as a buffer of UTF-16 code units; the
//! shim also hands the host null-terminated UTF-16 strings.  Decoding never
//! aborts on a bad unit: each undecodable unit becomes one replacement
//! character and decoding continues with the units that follow.

use vstd::prelude::*;

verus! {

/// The Unicode replacement character, substituted for each undecodable unit.
pub const REPLACEMENT_CHARACTER: char = '\u{FFFD}';

/// A unit that is itself a whole code point (not a surrogate).
pub open spec fn is_bmp_unit(u: u16) -> bool {
    u < 0xD800 || u >= 0xE000
}

/// The first unit of a surrogate pair.
pub open spec fn is_high_surrogate(u: u16) -> bool {
    0xD800 <= u && u < 0xDC00
}

/// The second unit of a surrogate pair.
pub open spec fn is_low_surrogate(u: u16) -> bool {
    0xDC00 <= u && u < 0xE000
}

/// A value that `char` can carry: below 0x110000 and not a surrogate.
pub open spec fn is_unicode_scalar(v: u32) -> bool {
    v < 0xD800 || (0xE000 <= v && v <= 0x10FFFF)
}

/// The scalar value spelled by a surrogate pair.
pub open spec fn combined_scalar(hi: u16, lo: u16) -> u32 {
    (0x10000 + (hi - 0xD800) * 0x400 + (lo - 0xDC00)) as u32
}

/// The characters spelled by a sequence of UTF-16 code units.  A unit that
/// is a whole code point decodes to itself; a high surrogate directly
/// followed by a low surrogate decodes as the pair; any other unit decodes
/// to one replacement character, and decoding continues behind it.
pub open spec fn decode_units(s: Seq<u16>) -> Seq<char>
    decreases s.len(),
{
    if s.len() == 0 {
        Seq::empty()
    } else if is_bmp_unit(s[0]) {
        seq![(s[0] as u32) as char] + decode_units(s.skip(1))
    } else if is_high_surrogate(s[0]) && s.len() >= 2 && is_low_surrogate(s[1]) {
        seq![combined_scalar(s[0], s[1]) as char] + decode_units(s.skip(2))
    } else {
        seq![REPLACEMENT_CHARACTER] + decode_units(s.skip(1))
    }
}

/// The UTF-16 units of one character.
pub open spec fn encode_char(c: char) -> Seq<u16> {
    let v = c as u32;
    if v < 0x10000 {
        seq![v as u16]
    } else {
        seq![
            (0xD800 + (v - 0x10000) / 0x400) as u16,
            (0xDC00 + (v - 0x10000) % 0x400) as u16,
        ]
    }
}

/// The UTF-16 units of a sequence of characters.
pub open spec fn encode_units(s: Seq<char>) -> Seq<u16>
    decreases s.len(),
{
    if s.len() == 0 {
        Seq::empty()
    } else {
        encode_char(s[0]) + encode_units(s.skip(1))
    }
}

/// Relies on `char::from_u32`: returns `Some` exactly when the value is a
/// Unicode scalar (below 0x110000 and not a surrogate), and then carries
/// that value.
#[verifier::external_body]
pub(crate) fn char_from_u32(v: u32) -> (r: Option<char>)
    ensures
        r == (if is_unicode_scalar(v) {
            Some(v as char)
        } else {
            None::<char>
        }),
{
    char::from_u32(v)
}

/// An undecodable unit at the front yields exactly one replacement
/// character, and decoding continues with the units behind it.
pub proof fn lemma_invalid_unit_replaced(s: Seq<u16>)
    requires
        s.len() > 0,
        !is_bmp_unit(s[0]),
        !(is_high_surrogate(s[0]) && s.len() >= 2 && is_low_surrogate(s[1])),
    ensures
        decode_units(s) == seq![REPLACEMENT_CHARACTER] + decode_units(s.skip(1)),
{
}

/// Appending one character to a sequence appends its units to the encoding.
pub proof fn lemma_encode_units_push(s: Seq<char>, c: char)
    ensures
        encode_units(s.push(c)) == encode_units(s) + encode_char(c),
    decreases s.len(),
{
    if s.len() == 0 {
        assert(s.push(c).len() == 1);
        assert(s.push(c)[0] == c);
        assert(s.push(c).skip(1) =~= Seq::<char>::empty());
        assert(encode_units(s.push(c)) == encode_char(c) + encode_units(Seq::<char>::empty()));
        assert(encode_units(Seq::<char>::empty()) =~= Seq::<u16>::empty());
        assert(encode_units(s) =~= Seq::<u16>::empty());
        assert(encode_units(s.push(c)) =~= encode_units(s) + encode_char(c));
    } else {
        assert(s.push(c)[0] == s[0]);
        assert(s.push(c).skip(1) =~= s.skip(1).push(c));
        lemma_encode_units_push(s.skip(1), c);
        assert(encode_units(s.push(c)) == encode_char(s[0]) + encode_units(s.skip(1).push(c)));
        assert(encode_char(s[0]) + (encode_units(s.skip(1)) + encode_char(c)) =~= (encode_char(
            s[0],
        ) + encode_units(s.skip(1))) + encode_char(c));
    }
}

/// Decoding inverts encoding: every character sequence comes back from its
/// own UTF-16 units unchanged.
pub proof fn lemma_decode_of_encode(s: Seq<char>)
    ensures
        decode_units(encode_units(s)) == s,
    decreases s.len(),
{
    if s.len() == 0 {
        assert(decode_units(encode_units(s)) =~= s);
    } else {
        let c = s[0];
        let v = c as u32;
        vstd::utf8::char_is_scalar(c);
        lemma_decode_of_encode(s.skip(1));
        let rest = encode_units(s.skip(1));
        if v < 0x10000 {
            let u = v as u16;
            assert(is_bmp_unit(u));
            let units = encode_units(s);
            assert(units =~= seq![u] + rest);
            assert(units[0] == u);
            assert(units.skip(1) =~= rest);
            vstd::utf8::char_u32_cast(c, (u as u32));
            assert(decode_units(units) =~= s);
        } else {
            let hi = (0xD800 + (v - 0x10000) / 0x400) as u16;
            let lo = (0xDC00 + (v - 0x10000) % 0x400) as u16;
            vstd::arithmetic::div_mod::lemma_fundamental_div_mod((v - 0x10000) as int, 0x400);
            assert(is_high_surrogate(hi));
            assert(is_low_surrogate(lo));
            assert(combined_scalar(hi, lo) == v);
            let units = encode_units(s);
            assert(units =~= seq![hi, lo] + rest);
            assert(units[0] == hi && units[1] == lo);
            assert(units.skip(2) =~= rest);
            vstd::utf8::char_u32_cast(c, v);
            assert(decode_units(units) =~= s);
        }
    }
}

} // verus!
