//! Generation-checked handles.
//!
//! A handle names a slot and the generation of its occupant: the low half is the
//! slot's index plus one, the high half the generation. A handle with a zero half
//! names nothing.
use vstd::prelude::*;

verus! {

/// The number of values of one half of a handle.
pub const HALF: u64 = 0x1_0000_0000;

/// The handle of a slot in one of its generations.
pub open spec fn handle_of(index: nat, generation: u32) -> u64 {
    (generation * HALF + index + 1) as u64
}

/// The slot and generation that a handle names.
pub open spec fn handle_parts_of(handle: u64) -> Option<(nat, u32)> {
    if handle % HALF == 0 || handle / HALF == 0 {
        None
    } else {
        Some(((handle % HALF - 1) as nat, (handle / HALF) as u32))
    }
}

/// A handle resolves to the slot and generation that it was made of.
pub proof fn handle_round_trip(index: nat, generation: u32)
    requires
        index < u32::MAX,
        generation != 0,
    ensures
        handle_parts_of(handle_of(index, generation)) == Some((index, generation)),
{
    let handle = generation * HALF + index + 1;
    assert(handle % HALF as int == index + 1 && handle / HALF as int == generation);
}

/// A handle that resolves is the handle of what it resolves to.
pub proof fn handle_is_canonical(handle: u64)
    requires
        handle_parts_of(handle) is Some,
    ensures
        ({
            let (index, generation) = handle_parts_of(handle).unwrap();
            handle_of(index, generation) == handle
        }),
{
}

/// Different slots or generations have different handles.
pub proof fn handles_are_distinct(
    first_index: nat,
    first_generation: u32,
    second_index: nat,
    second_generation: u32,
)
    requires
        first_index < u32::MAX,
        second_index < u32::MAX,
        first_generation != 0,
        second_generation != 0,
        first_index != second_index || first_generation != second_generation,
    ensures
        handle_of(first_index, first_generation) != handle_of(second_index, second_generation),
{
    handle_round_trip(first_index, first_generation);
    handle_round_trip(second_index, second_generation);
}

/// The handle of a slot in one of its generations.
pub fn make_session(index: usize, generation: u32) -> (session: u64)
    requires
        index < u32::MAX,
    ensures
        session == handle_of(index as nat, generation),
        generation != 0 ==> handle_parts_of(session) == Some((index as nat, generation)),
{
    proof {
        if generation != 0 {
            handle_round_trip(index as nat, generation);
        }
    }
    generation as u64 * HALF + (index as u64 + 1)
}

/// The slot and generation that a handle names.
pub fn split_session(session: u64) -> (parts: Option<(usize, u32)>)
    ensures
        match (parts, handle_parts_of(session)) {
            (Some((index, generation)), Some(expected)) => index == expected.0 && generation
                == expected.1 && generation != 0 && index < u32::MAX,
            (None, None) => true,
            _ => false,
        },
{
    let low: u32 = (session % HALF) as u32;
    let generation: u32 = (session / HALF) as u32;
    if low == 0 || generation == 0 {
        return None;
    }
    Some((low as usize - 1, generation))
}

/// The handle of a slot in one of its generations.
pub fn encode_handle(index: usize, generation: u32) -> (handle: u64)
    requires
        index < u32::MAX,
    ensures
        handle == handle_of(index as nat, generation),
        generation != 0 ==> handle_parts_of(handle) == Some((index as nat, generation)),
{
    make_session(index, generation)
}

/// The slot and generation that a handle names.
pub fn decode_handle(handle: u64) -> (parts: Option<(usize, u32)>)
    ensures
        match (parts, handle_parts_of(handle)) {
            (Some((index, generation)), Some(expected)) => index == expected.0 && generation
                == expected.1 && generation != 0 && index < u32::MAX,
            (None, None) => true,
            _ => false,
        },
{
    split_session(handle)
}

} // verus!
