//! Text of C callers as Windows takes it: UTF-8 in, UTF-16 out.
use vstd::prelude::*;
use vstd::utf8::{
    decode_first_scalar, decode_utf8, is_continuation_byte, is_leading_byte_width_1,
    is_leading_byte_width_2, is_leading_byte_width_3, is_scalar,
    length_of_first_scalar, pop_first_scalar, valid_first_scalar, valid_utf8,
};

verus! {

/// The units of one character: its own number, or a pair of surrogates for one beyond the
/// basic plane.
pub open spec fn units_of(scalar: u32) -> Seq<u16> {
    if scalar < 0x10000 {
        seq![scalar as u16]
    } else {
        seq![
            (0xD800 + (scalar - 0x10000) / 0x400) as u16,
            (0xDC00 + (scalar - 0x10000) % 0x400) as u16,
        ]
    }
}

/// Characters in UTF-16.
pub open spec fn utf16(chars: Seq<char>) -> Seq<u16>
    decreases chars.len(),
{
    if chars.len() == 0 {
        Seq::empty()
    } else {
        units_of(chars[0] as u32) + utf16(chars.skip(1))
    }
}

/// A text in UTF-16, where its bytes are UTF-8.
pub open spec fn wide(bytes: Seq<u8>) -> Seq<u16> {
    utf16(decode_utf8(bytes))
}

/// The units of the first character of a text, then those of the rest.
proof fn wide_first(bytes: Seq<u8>)
    requires
        bytes.len() > 0,
        valid_utf8(bytes),
    ensures
        wide(bytes) == units_of(decode_first_scalar(bytes)) + wide(pop_first_scalar(bytes)),
        is_scalar(decode_first_scalar(bytes)),
{
    let first = decode_first_scalar(bytes);
    let rest = decode_utf8(pop_first_scalar(bytes));
    assert(decode_utf8(bytes) == seq![first as char] + rest);
    assert(decode_utf8(bytes)[0] == first as char);
    assert(decode_utf8(bytes).skip(1) =~= rest);
    first_is_scalar(bytes);
    assert((first as char) as u32 == first);
}

/// The number of a first character is that of a character.
proof fn first_is_scalar(bytes: Seq<u8>)
    requires
        valid_first_scalar(bytes),
    ensures
        is_scalar(decode_first_scalar(bytes)),
{
    let (a, b, c, d) = (bytes[0], bytes[1], bytes[2], bytes[3]);
    assert((a & 0x7f) as u32 <= 0x7f) by (bit_vector);
    assert((((a & 0x1f) as u32) << 6) | ((b & 0x3f) as u32) <= 0x7ff) by (bit_vector);
    assert((((a & 0x0f) as u32) << 12) | (((b & 0x3f) as u32) << 6) | ((c & 0x3f) as u32) <= 0xffff)
        by (bit_vector);
}

/// A character in the bytes at a place: its number and its length.
fn first_scalar(bytes: &Vec<u8>, place: usize) -> (first: Option<(u32, usize)>)
    requires
        place < bytes@.len(),
    ensures
        match first {
            Some((scalar, length)) => {
                let rest = bytes@.skip(place as int);
                &&& valid_first_scalar(rest)
                &&& scalar == decode_first_scalar(rest)
                &&& length == length_of_first_scalar(rest)
                &&& 1 <= length <= rest.len()
            },
            None => !valid_first_scalar(bytes@.skip(place as int)),
        },
{
    let ghost rest = bytes@.skip(place as int);
    let left: usize = bytes.len() - place;
    let a: u8 = bytes[place];
    assert(rest[0] == a);
    if a <= 0x7f {
        let scalar: u32 = (a & 0x7f) as u32;
        proof {
            assert((a & 0x7f) as u32 <= 0x7f) by (bit_vector);
        }
        return Some((scalar, 1));
    }
    if a < 0xc0 || a > 0xf7 || left < 2 {
        return None;
    }
    let b: u8 = bytes[place + 1];
    assert(rest[1] == b);
    if b < 0x80 || b > 0xbf {
        return None;
    }
    if a <= 0xdf {
        let scalar: u32 = (((a & 0x1f) as u32) << 6) | ((b & 0x3f) as u32);
        proof {
            assert((((a & 0x1f) as u32) << 6) | ((b & 0x3f) as u32) <= 0x7ff) by (bit_vector);
        }
        if scalar < 0x80 {
            return None;
        }
        return Some((scalar, 2));
    }
    if left < 3 {
        return None;
    }
    let c: u8 = bytes[place + 2];
    assert(rest[2] == c);
    if c < 0x80 || c > 0xbf {
        return None;
    }
    if a <= 0xef {
        let scalar: u32 = (((a & 0x0f) as u32) << 12) | (((b & 0x3f) as u32) << 6) | ((c
            & 0x3f) as u32);
        if scalar < 0x800 || (scalar >= 0xD800 && scalar <= 0xDFFF) {
            return None;
        }
        return Some((scalar, 3));
    }
    if left < 4 {
        return None;
    }
    let d: u8 = bytes[place + 3];
    assert(rest[3] == d);
    if d < 0x80 || d > 0xbf {
        return None;
    }
    let scalar: u32 = (((a & 0x07) as u32) << 18) | (((b & 0x3f) as u32) << 12) | (((c
        & 0x3f) as u32) << 6) | ((d & 0x3f) as u32);
    if scalar < 0x10000 || scalar > 0x10ffff {
        return None;
    }
    Some((scalar, 4))
}

/// A text in UTF-16, where its bytes are UTF-8.
pub fn wide_text(bytes: &Vec<u8>) -> (text: Option<Vec<u16>>)
    ensures
        match text {
            Some(units) => valid_utf8(bytes@) && units@ == wide(bytes@),
            None => !valid_utf8(bytes@),
        },
{
    let mut units: Vec<u16> = Vec::new();
    let mut place: usize = 0;
    assert(bytes@.skip(0) =~= bytes@);
    assert(units@ + wide(bytes@) =~= wide(bytes@));
    while place < bytes.len()
        invariant
            place <= bytes@.len(),
            valid_utf8(bytes@) == valid_utf8(bytes@.skip(place as int)),
            valid_utf8(bytes@) ==> wide(bytes@) == units@ + wide(bytes@.skip(place as int)),
        decreases bytes@.len() - place,
    {
        let ghost rest = bytes@.skip(place as int);
        let ghost before = units@;
        let (scalar, length): (u32, usize) = match first_scalar(bytes, place) {
            Some(first) => first,
            None => {
                return None;
            },
        };
        proof {
            assert(pop_first_scalar(rest) =~= bytes@.skip(place + length));
            first_is_scalar(rest);
            if valid_utf8(rest) {
                wide_first(rest);
            }
        }
        if scalar < 0x10000 {
            units.push(scalar as u16);
        } else {
            let beyond: u32 = scalar - 0x10000;
            units.push((0xD800 + beyond / 0x400) as u16);
            units.push((0xDC00 + beyond % 0x400) as u16);
        }
        proof {
            assert(units@ =~= before + units_of(scalar));
            if valid_utf8(rest) {
                assert(before + wide(rest) =~= units@ + wide(bytes@.skip(place + length)));
            }
        }
        place = place + length;
    }
    proof {
        assert(bytes@.skip(place as int) =~= Seq::empty());
        assert(wide(Seq::empty()) =~= Seq::empty());
        assert(units@ + wide(bytes@.skip(place as int)) =~= units@);
    }
    Some(units)
}

/// A separator parts a text: it is UTF-8 exactly when what stands before it and what stands
/// behind it both are.
pub proof fn separator_parts_text(before: Seq<u8>, behind: Seq<u8>)
    ensures
        valid_utf8(before.push(61) + behind) == (valid_utf8(before) && valid_utf8(behind)),
    decreases before.len(),
{
    let whole = before.push(61) + behind;
    if before.len() == 0 {
        assert((61u8 & 0x7f) as u32 == 61) by (bit_vector);
        assert(whole[0] == 61);
        assert(valid_first_scalar(whole));
        assert(pop_first_scalar(whole) =~= behind);
    } else {
        let lead = before[0];
        assert(whole[0] == lead);
        assert(whole[before.len() as int] == 61);
        let length: int = if is_leading_byte_width_1(lead) {
            1
        } else if is_leading_byte_width_2(lead) {
            2
        } else if is_leading_byte_width_3(lead) {
            3
        } else {
            4
        };
        if length <= before.len() {
            assert(forall|i: int| 0 <= i < length ==> whole[i] == before[i]);
            assert(valid_first_scalar(whole) == valid_first_scalar(before));
            if valid_first_scalar(before) {
                assert(pop_first_scalar(whole) =~= pop_first_scalar(before).push(61) + behind);
                separator_parts_text(pop_first_scalar(before), behind);
            }
        } else {
            assert(!is_continuation_byte(whole[before.len() as int]));
            assert(!valid_first_scalar(whole));
            assert(!valid_first_scalar(before));
        }
    }
}

/// An ASCII text is itself, unit by unit.
pub proof fn plain_text_stays_itself(bytes: Seq<u8>)
    requires
        forall|i: int| 0 <= i < bytes.len() ==> (#[trigger] bytes[i]) < 128,
    ensures
        valid_utf8(bytes),
        wide(bytes) == Seq::new(bytes.len(), |i: int| bytes[i] as u16),
    decreases bytes.len(),
{
    let expected = Seq::new(bytes.len(), |i: int| bytes[i] as u16);
    if bytes.len() == 0 {
        assert(wide(bytes) =~= expected);
    } else {
        let first = bytes[0];
        assert(first < 128);
        assert((first & 0x7f) as u32 == first) by (bit_vector)
            requires
                first < 128,
        ;
        let rest = pop_first_scalar(bytes);
        assert(rest =~= bytes.skip(1));
        assert forall|i: int| 0 <= i < rest.len() implies (#[trigger] rest[i]) < 128 by {
            assert(rest[i] == bytes[i + 1]);
        }
        plain_text_stays_itself(rest);
        wide_first(bytes);
        assert(wide(bytes) =~= expected);
    }
}

} // verus!
