//! Fixed-width integers as bytes in either byte order.
use vstd::prelude::*;

verus! {

/// The order of an integer's bytes in memory.
#[derive(Clone, Copy, Debug, PartialEq, Eq, Structural)]
pub enum ByteOrder {
    Little,
    Big,
}

/// The two bytes of `value`.
pub open spec fn u16_bytes(order: ByteOrder, value: u16) -> Seq<u8> {
    let low = (value % 256) as u8;
    let high = (value / 256) as u8;
    match order {
        ByteOrder::Little => seq![low, high],
        ByteOrder::Big => seq![high, low],
    }
}

/// The integer whose two bytes stand at `at`.
pub open spec fn u16_at(order: ByteOrder, bytes: Seq<u8>, at: int) -> u16 {
    match order {
        ByteOrder::Little => (bytes[at] + 256 * bytes[at + 1]) as u16,
        ByteOrder::Big => (256 * bytes[at] + bytes[at + 1]) as u16,
    }
}

/// The four bytes of `value`.
pub open spec fn u32_bytes(order: ByteOrder, value: u32) -> Seq<u8> {
    let low = (value % 65536) as u16;
    let high = (value / 65536) as u16;
    match order {
        ByteOrder::Little => u16_bytes(order, low) + u16_bytes(order, high),
        ByteOrder::Big => u16_bytes(order, high) + u16_bytes(order, low),
    }
}

/// The integer whose four bytes stand at `at`.
pub open spec fn u32_at(order: ByteOrder, bytes: Seq<u8>, at: int) -> u32 {
    let first = u16_at(order, bytes, at);
    let second = u16_at(order, bytes, at + 2);
    match order {
        ByteOrder::Little => (first + 65536 * second) as u32,
        ByteOrder::Big => (65536 * first + second) as u32,
    }
}

/// The eight bytes of `value`.
pub open spec fn u64_bytes(order: ByteOrder, value: u64) -> Seq<u8> {
    let low = (value % 0x1_0000_0000) as u32;
    let high = (value / 0x1_0000_0000) as u32;
    match order {
        ByteOrder::Little => u32_bytes(order, low) + u32_bytes(order, high),
        ByteOrder::Big => u32_bytes(order, high) + u32_bytes(order, low),
    }
}

/// The integer whose eight bytes stand at `at`.
pub open spec fn u64_at(order: ByteOrder, bytes: Seq<u8>, at: int) -> u64 {
    let first = u32_at(order, bytes, at);
    let second = u32_at(order, bytes, at + 4);
    match order {
        ByteOrder::Little => (first + 0x1_0000_0000 * second) as u64,
        ByteOrder::Big => (0x1_0000_0000 * first + second) as u64,
    }
}

/// The two's complement representation of a signed integer.
pub open spec fn i32_bits(value: i32) -> u32 {
    if value >= 0 {
        value as u32
    } else {
        (value + 0x1_0000_0000) as u32
    }
}

/// The signed integer with the given two's complement representation.
pub open spec fn i32_of_bits(bits: u32) -> i32 {
    if bits < 0x8000_0000 {
        bits as i32
    } else {
        (bits - 0x1_0000_0000) as i32
    }
}

/// Reading `u16_bytes` gives the integer back.
pub proof fn u16_round_trip(order: ByteOrder, value: u16)
    ensures
        u16_bytes(order, value).len() == 2,
        u16_at(order, u16_bytes(order, value), 0) == value,
{
}

/// Reading `u32_bytes` gives the integer back.
pub proof fn u32_round_trip(order: ByteOrder, value: u32)
    ensures
        u32_bytes(order, value).len() == 4,
        u32_at(order, u32_bytes(order, value), 0) == value,
{
    u16_round_trip(order, (value % 65536) as u16);
    u16_round_trip(order, (value / 65536) as u16);
}

/// Reading `u64_bytes` gives the integer back.
pub proof fn u64_round_trip(order: ByteOrder, value: u64)
    ensures
        u64_bytes(order, value).len() == 8,
        u64_at(order, u64_bytes(order, value), 0) == value,
{
    let low = (value % 0x1_0000_0000) as u32;
    let high = (value / 0x1_0000_0000) as u32;
    u32_round_trip(order, low);
    u32_round_trip(order, high);
    let bytes = u64_bytes(order, value);
    match order {
        ByteOrder::Little => {
            assert(bytes.subrange(0, 4) =~= u32_bytes(order, low));
            assert(bytes.subrange(4, 8) =~= u32_bytes(order, high));
            u32_at_offset(order, bytes, 0, u32_bytes(order, low));
            u32_at_offset(order, bytes, 4, u32_bytes(order, high));
        },
        ByteOrder::Big => {
            assert(bytes.subrange(0, 4) =~= u32_bytes(order, high));
            assert(bytes.subrange(4, 8) =~= u32_bytes(order, low));
            u32_at_offset(order, bytes, 0, u32_bytes(order, high));
            u32_at_offset(order, bytes, 4, u32_bytes(order, low));
        },
    }
}

/// What is read at an offset depends on the four bytes there alone.
pub proof fn u32_at_offset(order: ByteOrder, bytes: Seq<u8>, at: int, part: Seq<u8>)
    requires
        part.len() == 4,
        0 <= at,
        at + 4 <= bytes.len(),
        bytes.subrange(at, at + 4) == part,
    ensures
        u32_at(order, bytes, at) == u32_at(order, part, 0),
{
    assert(part[0] == bytes[at]);
    assert(part[1] == bytes[at + 1]);
    assert(part[2] == bytes[at + 2]);
    assert(part[3] == bytes[at + 3]);
}

/// What is read at an offset depends on the two bytes there alone.
pub proof fn u16_at_offset(order: ByteOrder, bytes: Seq<u8>, at: int, part: Seq<u8>)
    requires
        part.len() == 2,
        0 <= at,
        at + 2 <= bytes.len(),
        bytes.subrange(at, at + 2) == part,
    ensures
        u16_at(order, bytes, at) == u16_at(order, part, 0),
{
    assert(part[0] == bytes[at]);
    assert(part[1] == bytes[at + 1]);
}

/// What is read at an offset depends on the eight bytes there alone.
pub proof fn u64_at_offset(order: ByteOrder, bytes: Seq<u8>, at: int, part: Seq<u8>)
    requires
        part.len() == 8,
        0 <= at,
        at + 8 <= bytes.len(),
        bytes.subrange(at, at + 8) == part,
    ensures
        u64_at(order, bytes, at) == u64_at(order, part, 0),
{
    let first = part.subrange(0, 4);
    let second = part.subrange(4, 8);
    assert(bytes.subrange(at, at + 4) =~= first);
    assert(bytes.subrange(at + 4, at + 8) =~= second);
    u32_at_offset(order, bytes, at, first);
    u32_at_offset(order, part, 0, first);
    u32_at_offset(order, bytes, at + 4, second);
    u32_at_offset(order, part, 4, second);
}

/// The two bytes at an offset are those of the integer read there.
pub proof fn u16_at_bytes(order: ByteOrder, bytes: Seq<u8>, at: int)
    requires
        0 <= at,
        at + 2 <= bytes.len(),
    ensures
        u16_bytes(order, u16_at(order, bytes, at)) == bytes.subrange(at, at + 2),
{
    let value = u16_at(order, bytes, at);
    let first = bytes[at];
    let second = bytes[at + 1];
    match order {
        ByteOrder::Little => {
            assert(value == first + 256 * second);
            assert(value % 256 == first && value / 256 == second);
        },
        ByteOrder::Big => {
            assert(value == 256 * first + second);
            assert(value % 256 == second && value / 256 == first);
        },
    }
    assert(u16_bytes(order, value) =~= bytes.subrange(at, at + 2));
}

/// The four bytes at an offset are those of the integer read there.
pub proof fn u32_at_bytes(order: ByteOrder, bytes: Seq<u8>, at: int)
    requires
        0 <= at,
        at + 4 <= bytes.len(),
    ensures
        u32_bytes(order, u32_at(order, bytes, at)) == bytes.subrange(at, at + 4),
{
    let first = u16_at(order, bytes, at);
    let second = u16_at(order, bytes, at + 2);
    u16_at_bytes(order, bytes, at);
    u16_at_bytes(order, bytes, at + 2);
    assert(bytes.subrange(at, at + 2) + bytes.subrange(at + 2, at + 4) =~= bytes.subrange(
        at,
        at + 4,
    ));
    u32_split(order, first, second);
}

/// How the bytes of a wider integer are made of the bytes of its halves.
proof fn u32_split(order: ByteOrder, first: u16, second: u16)
    ensures
        match order {
            ByteOrder::Little => u32_bytes(order, (first + 65536 * second) as u32),
            ByteOrder::Big => u32_bytes(order, (65536 * first + second) as u32),
        } == u16_bytes(order, first) + u16_bytes(order, second),
{
    let value: int = match order {
        ByteOrder::Little => first + 65536 * second,
        ByteOrder::Big => 65536 * first + second,
    };
    assert(0 <= value <= u32::MAX);
    match order {
        ByteOrder::Little => {
            assert(value % 65536 == first && value / 65536 == second);
        },
        ByteOrder::Big => {
            assert(value % 65536 == second && value / 65536 == first);
        },
    }
}

/// The eight bytes at an offset are those of the integer read there.
pub proof fn u64_at_bytes(order: ByteOrder, bytes: Seq<u8>, at: int)
    requires
        0 <= at,
        at + 8 <= bytes.len(),
    ensures
        u64_bytes(order, u64_at(order, bytes, at)) == bytes.subrange(at, at + 8),
{
    let first = u32_at(order, bytes, at);
    let second = u32_at(order, bytes, at + 4);
    u32_at_bytes(order, bytes, at);
    u32_at_bytes(order, bytes, at + 4);
    assert(bytes.subrange(at, at + 4) + bytes.subrange(at + 4, at + 8) =~= bytes.subrange(
        at,
        at + 8,
    ));
    u64_split(order, first, second);
}

/// How the bytes of a wider integer are made of the bytes of its halves.
proof fn u64_split(order: ByteOrder, first: u32, second: u32)
    ensures
        match order {
            ByteOrder::Little => u64_bytes(order, (first + 0x1_0000_0000 * second) as u64),
            ByteOrder::Big => u64_bytes(order, (0x1_0000_0000 * first + second) as u64),
        } == u32_bytes(order, first) + u32_bytes(order, second),
{
    let value: int = match order {
        ByteOrder::Little => first + 0x1_0000_0000 * second,
        ByteOrder::Big => 0x1_0000_0000 * first + second,
    };
    assert(0 <= value <= u64::MAX);
    match order {
        ByteOrder::Little => {
            assert(value % 0x1_0000_0000 == first && value / 0x1_0000_0000 == second);
        },
        ByteOrder::Big => {
            assert(value % 0x1_0000_0000 == second && value / 0x1_0000_0000 == first);
        },
    }
}

/// The two's complement representation determines the signed integer.
pub proof fn i32_round_trip(value: i32)
    ensures
        i32_of_bits(i32_bits(value)) == value,
{
}

/// Every representation is that of the integer it stands for.
pub proof fn i32_bits_round_trip(bits: u32)
    ensures
        i32_bits(i32_of_bits(bits)) == bits,
{
}

/// `u16::from_ne_bytes` reads two bytes in the machine's own order: the integer
/// is the little-endian or the big-endian reading of them.
#[verifier::external_body]
fn native_u16(bytes: [u8; 2]) -> (value: u16)
    ensures
        value == u16_at(ByteOrder::Little, bytes@, 0) || value == u16_at(
            ByteOrder::Big,
            bytes@,
            0,
        ),
{
    u16::from_ne_bytes(bytes)
}

/// The machine's own byte order. Which of the two it is depends on the machine.
pub fn native_order() -> ByteOrder {
    if native_u16([1, 0]) == 1 {
        ByteOrder::Little
    } else {
        ByteOrder::Big
    }
}

/// Appends the bytes of `value`.
pub fn put_u16(out: &mut Vec<u8>, order: ByteOrder, value: u16)
    ensures
        final(out)@ == old(out)@ + u16_bytes(order, value),
{
    let low: u8 = (value % 256) as u8;
    let high: u8 = (value / 256) as u8;
    match order {
        ByteOrder::Little => {
            out.push(low);
            out.push(high);
        },
        ByteOrder::Big => {
            out.push(high);
            out.push(low);
        },
    }
}

/// Appends the bytes of `value`.
pub fn put_u32(out: &mut Vec<u8>, order: ByteOrder, value: u32)
    ensures
        final(out)@ == old(out)@ + u32_bytes(order, value),
{
    let low: u16 = (value % 65536) as u16;
    let high: u16 = (value / 65536) as u16;
    match order {
        ByteOrder::Little => {
            put_u16(out, order, low);
            put_u16(out, order, high);
        },
        ByteOrder::Big => {
            put_u16(out, order, high);
            put_u16(out, order, low);
        },
    }
}

/// Appends the bytes of `value`.
pub fn put_u64(out: &mut Vec<u8>, order: ByteOrder, value: u64)
    ensures
        final(out)@ == old(out)@ + u64_bytes(order, value),
{
    let low: u32 = (value % 0x1_0000_0000) as u32;
    let high: u32 = (value / 0x1_0000_0000) as u32;
    match order {
        ByteOrder::Little => {
            put_u32(out, order, low);
            put_u32(out, order, high);
        },
        ByteOrder::Big => {
            put_u32(out, order, high);
            put_u32(out, order, low);
        },
    }
}

/// The two's complement representation of a signed integer.
pub fn bits_of_i32(value: i32) -> (bits: u32)
    ensures
        bits == i32_bits(value),
{
    if value >= 0 {
        value as u32
    } else {
        (value as i64 + 0x1_0000_0000) as u32
    }
}

/// Appends the bytes of a signed integer.
pub fn put_i32(out: &mut Vec<u8>, order: ByteOrder, value: i32)
    ensures
        final(out)@ == old(out)@ + u32_bytes(order, i32_bits(value)),
{
    put_u32(out, order, bits_of_i32(value));
}

/// Reads the integer at `at`.
pub fn get_u16(bytes: &[u8], order: ByteOrder, at: usize) -> (value: u16)
    requires
        at + 2 <= bytes@.len(),
    ensures
        value == u16_at(order, bytes@, at as int),
{
    let first: u16 = bytes[at] as u16;
    let second: u16 = bytes[at + 1] as u16;
    match order {
        ByteOrder::Little => first + 256 * second,
        ByteOrder::Big => 256 * first + second,
    }
}

/// Reads the integer at `at`.
pub fn get_u32(bytes: &[u8], order: ByteOrder, at: usize) -> (value: u32)
    requires
        at + 4 <= bytes@.len(),
    ensures
        value == u32_at(order, bytes@, at as int),
{
    assert(at + 4 <= bytes.len());
    let first: u32 = get_u16(bytes, order, at) as u32;
    let second: u32 = get_u16(bytes, order, at + 2) as u32;
    match order {
        ByteOrder::Little => first + 65536 * second,
        ByteOrder::Big => 65536 * first + second,
    }
}

/// Reads the integer at `at`.
pub fn get_u64(bytes: &[u8], order: ByteOrder, at: usize) -> (value: u64)
    requires
        at + 8 <= bytes@.len(),
    ensures
        value == u64_at(order, bytes@, at as int),
{
    assert(at + 8 <= bytes.len());
    let first: u64 = get_u32(bytes, order, at) as u64;
    let second: u64 = get_u32(bytes, order, at + 4) as u64;
    match order {
        ByteOrder::Little => first + 0x1_0000_0000 * second,
        ByteOrder::Big => 0x1_0000_0000 * first + second,
    }
}

/// Reads the signed integer at `at`.
pub fn get_i32(bytes: &[u8], order: ByteOrder, at: usize) -> (value: i32)
    requires
        at + 4 <= bytes@.len(),
    ensures
        value == i32_of_bits(u32_at(order, bytes@, at as int)),
{
    let bits: u32 = get_u32(bytes, order, at);
    if bits < 0x8000_0000 {
        bits as i32
    } else {
        (bits as i64 - 0x1_0000_0000) as i32
    }
}

} // verus!
