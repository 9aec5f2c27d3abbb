//! Registries whose handles never name a later occupant of their slot.
use crate::handle;
use vstd::prelude::*;

verus! {

/// The last generation of a slot in a `GenerationRegistry`: notices carry a handle
/// in the upper bits of a signed number.
pub const MAX_NOTICE_GENERATION: u32 = 0x0fff_ffff;

/// One slot with the generation of its occupant, or of its next one.
#[derive(Clone, Debug, PartialEq, Eq)]
pub struct Slot<T> {
    pub generation: u32,
    pub value: Option<T>,
}

/// What a handle names.
pub open spec fn resolve<T>(slots: Seq<Slot<T>>, handle: u64) -> Option<T> {
    match handle::handle_parts_of(handle) {
        Some((index, generation)) => if index < slots.len() && slots[index as int].generation
            == generation {
            slots[index as int].value
        } else {
            None
        },
        None => None,
    }
}

/// Every slot has a handle and a generation within the limit, and the free list holds
/// slots without occupant, each once.
pub open spec fn table_wf<T>(slots: Seq<Slot<T>>, free: Seq<usize>, limit: u32) -> bool {
    &&& slots.len() <= u32::MAX
    &&& forall|i: int|
        0 <= i < slots.len() ==> 1 <= (#[trigger] slots[i]).generation <= limit
    &&& forall|i: int|
        0 <= i < free.len() ==> (#[trigger] free[i]) < slots.len() && slots[free[i] as int].value
            is None
    &&& forall|i: int, j: int| 0 <= i < j < free.len() ==> #[trigger] free[i] != #[trigger] free[j]
}

/// The slot that the next value takes: the one freed last, or a new one.
pub open spec fn next_slot<T>(slots: Seq<Slot<T>>, free: Seq<usize>) -> nat {
    if free.len() > 0 {
        free.last() as nat
    } else {
        slots.len()
    }
}

/// The handle that the next value gets.
pub open spec fn next_handle<T>(slots: Seq<Slot<T>>, free: Seq<usize>) -> u64 {
    let index = next_slot(slots, free);
    handle::handle_of(
        index,
        if index < slots.len() {
            slots[index as int].generation
        } else {
            1
        },
    )
}

/// The slots after a value was inserted.
pub open spec fn inserted<T>(slots: Seq<Slot<T>>, free: Seq<usize>, value: T) -> Seq<Slot<T>> {
    let index = next_slot(slots, free);
    if index < slots.len() {
        slots.update(
            index as int,
            Slot { generation: slots[index as int].generation, value: Some(value) },
        )
    } else {
        slots.push(Slot { generation: 1, value: Some(value) })
    }
}

/// The slots after what a handle names was replaced.
pub open spec fn replaced<T>(slots: Seq<Slot<T>>, handle: u64, value: T) -> Seq<Slot<T>> {
    match handle::handle_parts_of(handle) {
        Some((index, generation)) => slots.update(
            index as int,
            Slot { generation, value: Some(value) },
        ),
        None => slots,
    }
}

/// A replacement is seen through its handle and through no other.
pub proof fn replace_is_local<T>(slots: Seq<Slot<T>>, handle: u64, value: T, other: u64)
    requires
        resolve(slots, handle) is Some,
    ensures
        resolve(replaced(slots, handle, value), handle) == Some(value),
        other != handle ==> resolve(replaced(slots, handle, value), other) == resolve(
            slots,
            other,
        ),
{
    handle::handle_is_canonical(handle);
    if let Some((index, generation)) = handle::handle_parts_of(other) {
        handle::handle_is_canonical(other);
    }
}

/// The slots after what a handle names was removed. The slot's generation moves on,
/// unless it was the last one.
pub open spec fn removed<T>(slots: Seq<Slot<T>>, handle: u64, limit: u32) -> Seq<Slot<T>> {
    match handle::handle_parts_of(handle) {
        Some((index, generation)) => slots.update(
            index as int,
            Slot {
                generation: if generation < limit {
                    (generation + 1) as u32
                } else {
                    generation
                },
                value: None,
            },
        ),
        None => slots,
    }
}

/// The free list after what a handle names was removed. A slot in its last generation
/// is not used again.
pub open spec fn freed(free: Seq<usize>, handle: u64, limit: u32) -> Seq<usize> {
    match handle::handle_parts_of(handle) {
        Some((index, generation)) => if generation < limit {
            free.push(index as usize)
        } else {
            free
        },
        None => free,
    }
}

/// Whether a handle can never name anything again: its slot's generation moved past
/// it, or its slot is out of use.
pub open spec fn is_retired<T>(
    slots: Seq<Slot<T>>,
    free: Seq<usize>,
    handle: u64,
    limit: u32,
) -> bool {
    match handle::handle_parts_of(handle) {
        Some((index, generation)) => index < slots.len() && (generation
            < slots[index as int].generation || (generation == limit && slots[index as int].value
            is None && !free.contains(index as usize))),
        None => true,
    }
}

/// A retired handle names nothing.
pub proof fn retired_names_nothing<T>(
    slots: Seq<Slot<T>>,
    free: Seq<usize>,
    handle: u64,
    limit: u32,
)
    requires
        table_wf(slots, free, limit),
        is_retired(slots, free, handle, limit),
    ensures
        resolve(slots, handle) is None,
{
}

/// Removal retires the handle, and changes what no other handle names.
pub proof fn remove_retires<T>(
    slots: Seq<Slot<T>>,
    free: Seq<usize>,
    handle: u64,
    limit: u32,
    other: u64,
)
    requires
        table_wf(slots, free, limit),
        resolve(slots, handle) is Some,
    ensures
        table_wf(removed(slots, handle, limit), freed(free, handle, limit), limit),
        is_retired(removed(slots, handle, limit), freed(free, handle, limit), handle, limit),
        other != handle ==> resolve(removed(slots, handle, limit), other) == resolve(slots, other),
{
    let (index, generation) = handle::handle_parts_of(handle).unwrap();
    let after = removed(slots, handle, limit);
    let list = freed(free, handle, limit);
    assert forall|i: int| 0 <= i < list.len() implies (#[trigger] list[i]) < after.len()
        && after[list[i] as int].value is None by {
        if i < free.len() {
            assert(list[i] == free[i]);
        }
    }
    assert forall|i: int, j: int| 0 <= i < j < list.len() implies #[trigger] list[i]
        != #[trigger] list[j] by {
        if j < free.len() {
            assert(free[i] != free[j]);
        } else {
            assert(slots[free[i] as int].value is None);
        }
    }
    if generation == limit {
        if free.contains(index as usize) {
            let i = choose|i: int| 0 <= i < free.len() && free[i] == index as usize;
            assert(slots[free[i] as int].value is None);
        }
    }
    if other != handle {
        handle::handle_is_canonical(handle);
        if let Some((other_index, other_generation)) = handle::handle_parts_of(other) {
            handle::handle_is_canonical(other);
            if other_index == index && other_generation == after[index as int].generation {
                assert(after[index as int].value is None);
            }
        }
    }
}

/// A retired handle stays retired when another is removed.
pub proof fn remove_keeps_retired<T>(
    slots: Seq<Slot<T>>,
    free: Seq<usize>,
    handle: u64,
    limit: u32,
    retired: u64,
)
    requires
        table_wf(slots, free, limit),
        resolve(slots, handle) is Some,
        is_retired(slots, free, retired, limit),
    ensures
        is_retired(removed(slots, handle, limit), freed(free, handle, limit), retired, limit),
{
    let list = freed(free, handle, limit);
    if let Some((index, generation)) = handle::handle_parts_of(retired) {
        let (other, _) = handle::handle_parts_of(handle).unwrap();
        if list.contains(index as usize) && !free.contains(index as usize) {
            let i = choose|i: int| 0 <= i < list.len() && list[i] == index as usize;
            if i < free.len() {
                assert(free[i] == index as usize);
            }
            assert(index == other);
        }
    }
}

/// Insertion names the value by its handle, keeps what every other handle names, and
/// leaves retired handles retired; the new handle is none of them.
pub proof fn insert_keeps_retired<T>(
    slots: Seq<Slot<T>>,
    free: Seq<usize>,
    value: T,
    limit: u32,
    other: u64,
)
    requires
        table_wf(slots, free, limit),
        slots.len() < u32::MAX,
        limit >= 1,
    ensures
        ({
            let after = inserted(slots, free, value);
            let list = if free.len() > 0 {
                free.drop_last()
            } else {
                free
            };
            let handle = next_handle(slots, free);
            &&& table_wf(after, list, limit)
            &&& resolve(slots, handle) is None
            &&& resolve(after, handle) == Some(value)
            &&& !is_retired(slots, free, handle, limit)
            &&& other != handle ==> resolve(after, other) == resolve(slots, other)
            &&& is_retired(slots, free, other, limit) ==> is_retired(after, list, other, limit)
        }),
{
    let after = inserted(slots, free, value);
    let list = if free.len() > 0 {
        free.drop_last()
    } else {
        free
    };
    let index = next_slot(slots, free);
    let generation = after[index as int].generation;
    let handle = next_handle(slots, free);
    if free.len() > 0 {
        assert(free[free.len() - 1] < slots.len());
        assert(free.contains(index as usize));
    }
    handle::handle_round_trip(index, generation);
    assert forall|i: int| 0 <= i < list.len() implies (#[trigger] list[i]) < after.len()
        && after[list[i] as int].value is None by {
        assert(list[i] == free[i]);
        if free.len() > 0 {
            assert(free[i] != free[free.len() - 1]);
        }
    }
    assert forall|i: int, j: int| 0 <= i < j < list.len() implies #[trigger] list[i]
        != #[trigger] list[j] by {
        assert(free[i] != free[j]);
    }
    if let Some((other_index, other_generation)) = handle::handle_parts_of(other) {
        handle::handle_is_canonical(other);
        if list.contains(other_index as usize) {
            let i = choose|i: int| 0 <= i < list.len() && list[i] == other_index as usize;
            assert(free[i] == other_index as usize);
        }
    }
}

/// Puts a value into the slot freed last, or a new one.
fn insert_into<T>(
    slots: &mut Vec<Slot<T>>,
    free: &mut Vec<usize>,
    value: T,
    Ghost(limit): Ghost<u32>,
) -> (handle: u64)
    requires
        table_wf(old(slots)@, old(free)@, limit),
        old(slots)@.len() < u32::MAX,
        limit >= 1,
    ensures
        table_wf(final(slots)@, final(free)@, limit),
        handle == next_handle(old(slots)@, old(free)@),
        final(slots)@ == inserted(old(slots)@, old(free)@, value),
        final(free)@ == if old(free)@.len() > 0 {
            old(free)@.drop_last()
        } else {
            old(free)@
        },
{
    proof {
        insert_keeps_retired(slots@, free@, value, limit, 0);
    }
    match free.pop() {
        Some(index) => {
            assert(old(free)@[old(free)@.len() - 1] == index);
            let generation: u32 = slots[index].generation;
            slots.set(index, Slot { generation, value: Some(value) });
            handle::make_session(index, generation)
        },
        None => {
            slots.push(Slot { generation: 1, value: Some(value) });
            let index: usize = slots.len() - 1;
            assert(free@ =~= old(free)@);
            handle::make_session(index, 1)
        },
    }
}

/// The index of the slot whose occupant a handle names.
fn find<T>(slots: &Vec<Slot<T>>, handle: u64) -> (index: Option<usize>)
    ensures
        match index {
            Some(index) => {
                &&& resolve(slots@, handle) is Some
                &&& index < slots@.len()
                &&& handle::handle_parts_of(handle) == Some(
                    (index as nat, slots@[index as int].generation),
                )
            },
            None => resolve(slots@, handle) is None,
        },
{
    match handle::split_session(handle) {
        Some((index, generation)) => {
            if index < slots.len() && slots[index].generation == generation
                && slots[index].value.is_some() {
                Some(index)
            } else {
                None
            }
        },
        None => None,
    }
}

/// Takes out what a handle names.
fn remove_from<T>(
    slots: &mut Vec<Slot<T>>,
    free: &mut Vec<usize>,
    handle: u64,
    limit: u32,
) -> (value: Option<T>)
    requires
        table_wf(old(slots)@, old(free)@, limit),
    ensures
        table_wf(final(slots)@, final(free)@, limit),
        value == resolve(old(slots)@, handle),
        value is Some ==> final(slots)@ == removed(old(slots)@, handle, limit) && final(free)@
            == freed(old(free)@, handle, limit),
        value is None ==> final(slots)@ == old(slots)@ && final(free)@ == old(free)@,
{
    match find(slots, handle) {
        Some(index) => {
            proof {
                remove_retires(slots@, free@, handle, limit, handle);
            }
            let generation: u32 = slots[index].generation;
            let next: u32 = if generation < limit {
                generation + 1
            } else {
                generation
            };
            let mut slot = Slot { generation: next, value: None };
            std::mem::swap(&mut slot, &mut slots[index]);
            if generation < limit {
                free.push(index);
            }
            slot.value
        },
        None => None,
    }
}

/// The occupants in the order of their slots, with their handles.
pub open spec fn occupants<T>(slots: Seq<Slot<T>>) -> Seq<(u64, T)>
    decreases slots.len(),
{
    if slots.len() == 0 {
        Seq::empty()
    } else {
        let rest = occupants(slots.drop_last());
        match slots.last().value {
            Some(value) => rest.push(
                (handle::handle_of((slots.len() - 1) as nat, slots.last().generation), value),
            ),
            None => rest,
        }
    }
}

/// Every occupant resolves by its handle.
pub proof fn occupants_are_live<T>(slots: Seq<Slot<T>>)
    requires
        slots.len() <= u32::MAX,
        forall|i: int| 0 <= i < slots.len() ==> 1 <= (#[trigger] slots[i]).generation,
    ensures
        forall|i: int|
            0 <= i < occupants(slots).len() ==> resolve(slots, (#[trigger] occupants(slots)[i]).0)
                == Some(occupants(slots)[i].1),
    decreases slots.len(),
{
    if slots.len() > 0 {
        let front = slots.drop_last();
        let last = slots.last();
        assert forall|i: int| 0 <= i < front.len() implies 1 <= (#[trigger] front[i]).generation by {
            assert(front[i] == slots[i]);
        }
        occupants_are_live(front);
        assert(1 <= slots[slots.len() - 1].generation);
        handle::handle_round_trip((slots.len() - 1) as nat, last.generation);
        assert forall|i: int| 0 <= i < occupants(slots).len() implies resolve(
            slots,
            (#[trigger] occupants(slots)[i]).0,
        ) == Some(occupants(slots)[i].1) by {
            if i < occupants(front).len() {
                assert(occupants(slots)[i] == occupants(front)[i]);
                let found = occupants(front)[i].0;
                assert(resolve(front, found) is Some);
                let (index, generation) = handle::handle_parts_of(found).unwrap();
                assert(front[index as int] == slots[index as int]);
            }
        }
    }
}

/// The handles of different occupants differ.
pub proof fn occupants_are_distinct<T>(slots: Seq<Slot<T>>, first: int, second: int)
    requires
        slots.len() <= u32::MAX,
        forall|i: int| 0 <= i < slots.len() ==> 1 <= (#[trigger] slots[i]).generation,
        0 <= first < second < occupants(slots).len(),
    ensures
        occupants(slots)[first].0 != occupants(slots)[second].0,
    decreases slots.len(),
{
    let front = slots.drop_last();
    let last = slots.last();
    assert forall|i: int| 0 <= i < front.len() implies 1 <= (#[trigger] front[i]).generation by {
        assert(front[i] == slots[i]);
    }
    let earlier = occupants(front);
    if second < earlier.len() {
        occupants_are_distinct(front, first, second);
        assert(occupants(slots)[first] == earlier[first]);
        assert(occupants(slots)[second] == earlier[second]);
    } else {
        occupants_are_live(front);
        assert(occupants(slots)[first] == earlier[first]);
        assert(resolve(front, earlier[first].0) is Some);
        assert(1 <= slots[slots.len() - 1].generation);
        handle::handle_round_trip((slots.len() - 1) as nat, last.generation);
    }
}

/// What a handle names is an occupant.
pub proof fn live_is_occupant<T>(slots: Seq<Slot<T>>, handle: u64)
    requires
        resolve(slots, handle) is Some,
    ensures
        exists|i: int|
            0 <= i < occupants(slots).len() && #[trigger] occupants(slots)[i] == (
                handle,
                resolve(slots, handle).unwrap(),
            ),
    decreases slots.len(),
{
    let (index, generation) = handle::handle_parts_of(handle).unwrap();
    let value = resolve(slots, handle).unwrap();
    let front = slots.drop_last();
    handle::handle_is_canonical(handle);
    if index == slots.len() - 1 {
        let place = occupants(front).len() as int;
        assert(occupants(slots)[place] == (handle, value));
    } else {
        assert(front[index as int] == slots[index as int]);
        live_is_occupant(front, handle);
        let place = choose|i: int|
            0 <= i < occupants(front).len() && #[trigger] occupants(front)[i] == (handle, value);
        assert(occupants(slots)[place] == (handle, value));
    }
}

/// A registry of engine sessions.
#[derive(Clone, Debug, PartialEq, Eq)]
pub struct GenerationRegistry<T> {
    pub slots: Vec<Slot<T>>,
    pub free: Vec<usize>,
}

impl<T> GenerationRegistry<T> {
    /// What a handle names.
    pub open spec fn resolve(&self, handle: u64) -> Option<T> {
        resolve(self.slots@, handle)
    }

    /// The registry's invariant.
    pub open spec fn wf(&self) -> bool {
        table_wf(self.slots@, self.free@, MAX_NOTICE_GENERATION)
    }

    /// An empty registry.
    pub fn new() -> (registry: Self)
        ensures
            registry.wf(),
            registry.slots@ == Seq::<Slot<T>>::empty(),
            registry.free@ == Seq::<usize>::empty(),
    {
        GenerationRegistry { slots: Vec::new(), free: Vec::new() }
    }

    /// Adds a value.
    pub fn insert(&mut self, value: T) -> (handle: u64)
        requires
            old(self).wf(),
            old(self).slots@.len() < u32::MAX,
        ensures
            final(self).wf(),
            handle == next_handle(old(self).slots@, old(self).free@),
            final(self).slots@ == inserted(old(self).slots@, old(self).free@, value),
            final(self).free@ == if old(self).free@.len() > 0 {
                old(self).free@.drop_last()
            } else {
                old(self).free@
            },
            old(self).resolve(handle) is None,
            forall|other: u64| #[trigger]
                final(self).resolve(other) == if other == handle {
                    Some(value)
                } else {
                    old(self).resolve(other)
                },
    {
        proof {
            assert forall|other: u64|
                other != next_handle(self.slots@, self.free@) implies #[trigger] resolve(
                inserted(self.slots@, self.free@, value),
                other,
            ) == resolve(self.slots@, other) by {
                insert_keeps_retired(self.slots@, self.free@, value, MAX_NOTICE_GENERATION, other);
            }
            insert_keeps_retired(self.slots@, self.free@, value, MAX_NOTICE_GENERATION, 0);
        }
        insert_into(&mut self.slots, &mut self.free, value, Ghost(MAX_NOTICE_GENERATION))
    }

    /// What a handle names.
    pub fn get(&self, handle: u64) -> (value: Option<&T>)
        ensures
            match value {
                Some(value) => self.resolve(handle) == Some(*value),
                None => self.resolve(handle) is None,
            },
    {
        match find(&self.slots, handle) {
            Some(index) => self.slots[index].value.as_ref(),
            None => None,
        }
    }

    /// What a handle names, to be changed in place.
    pub fn get_mut(&mut self, handle: u64) -> (value: Option<&mut T>)
        requires
            old(self).wf(),
        ensures
            final(self).wf(),
            final(self).free@ == old(self).free@,
            match value {
                Some(value) => {
                    &&& old(self).resolve(handle) == Some(*value)
                    &&& final(self).slots@ == replaced(old(self).slots@, handle, *final(value))
                },
                None => old(self).resolve(handle) is None && *final(self) == *old(self),
            },
            forall|other: u64|
                other != handle ==> #[trigger] final(self).resolve(other) == old(self).resolve(
                    other,
                ),
            value matches Some(value) ==> final(self).resolve(handle) == Some(*final(value)),
    {
        proof {
            if self.resolve(handle) is Some {
                assert forall|other: u64, value: T|
                    other != handle implies #[trigger] resolve(
                    replaced(self.slots@, handle, value),
                    other,
                ) == resolve(self.slots@, other) by {
                    replace_is_local(self.slots@, handle, value, other);
                }
            }
        }
        match find(&self.slots, handle) {
            Some(index) => {
                let slot = &mut self.slots[index];
                slot.value.as_mut()
            },
            None => None,
        }
    }

    /// The handles in the order of their slots.
    pub fn handles(&self) -> (handles: Vec<u64>)
        requires
            self.wf(),
        ensures
            handles@ == occupants(self.slots@).map_values(|item: (u64, T)| item.0),
    {
        let mut handles: Vec<u64> = Vec::new();
        assert(handles@ =~= occupants(self.slots@.take(0)).map_values(|item: (u64, T)| item.0));
        for index in 0..self.slots.len()
            invariant
                self.wf(),
                handles@ == occupants(self.slots@.take(index as int)).map_values(
                    |item: (u64, T)| item.0,
                ),
        {
            proof {
                let taken = self.slots@.take(index + 1);
                assert(taken.drop_last() =~= self.slots@.take(index as int));
                assert(taken.last() == self.slots@[index as int]);
            }
            if self.slots[index].value.is_some() {
                handles.push(handle::make_session(index, self.slots[index].generation));
            }
            assert(handles@ =~= occupants(self.slots@.take(index + 1)).map_values(
                |item: (u64, T)| item.0,
            ));
        }
        assert(self.slots@.take(self.slots@.len() as int) =~= self.slots@);
        handles
    }

    /// Takes out what a handle names.
    pub fn remove(&mut self, handle: u64) -> (value: Option<T>)
        requires
            old(self).wf(),
        ensures
            final(self).wf(),
            value == old(self).resolve(handle),
            value is Some ==> {
                &&& final(self).slots@ == removed(
                    old(self).slots@,
                    handle,
                    MAX_NOTICE_GENERATION,
                )
                &&& final(self).free@ == freed(old(self).free@, handle, MAX_NOTICE_GENERATION)
            },
            value is None ==> final(self).slots@ == old(self).slots@ && final(self).free@ == old(self).free@,
            forall|other: u64| #[trigger]
                final(self).resolve(other) == if other == handle {
                    None
                } else {
                    old(self).resolve(other)
                },
    {
        proof {
            if self.resolve(handle) is Some {
                assert forall|other: u64| other != handle implies #[trigger] resolve(
                    removed(self.slots@, handle, MAX_NOTICE_GENERATION),
                    other,
                ) == resolve(self.slots@, other) by {
                    remove_retires(self.slots@, self.free@, handle, MAX_NOTICE_GENERATION, other);
                }
                remove_retires(self.slots@, self.free@, handle, MAX_NOTICE_GENERATION, handle);
                retired_names_nothing(
                    removed(self.slots@, handle, MAX_NOTICE_GENERATION),
                    freed(self.free@, handle, MAX_NOTICE_GENERATION),
                    handle,
                    MAX_NOTICE_GENERATION,
                );
            }
        }
        remove_from(&mut self.slots, &mut self.free, handle, MAX_NOTICE_GENERATION)
    }
}

/// A registry of objects that callers hold by number.
#[derive(Clone, Debug, PartialEq, Eq)]
pub struct Registry<T> {
    pub slots: Vec<Slot<T>>,
    pub free: Vec<usize>,
}

impl<T> Registry<T> {
    /// What a handle names.
    pub open spec fn resolve(&self, handle: u64) -> Option<T> {
        resolve(self.slots@, handle)
    }

    /// The registry's invariant.
    pub open spec fn wf(&self) -> bool {
        table_wf(self.slots@, self.free@, u32::MAX)
    }

    /// An empty registry.
    pub fn new() -> (registry: Self)
        ensures
            registry.wf(),
            registry.slots@ == Seq::<Slot<T>>::empty(),
            registry.free@ == Seq::<usize>::empty(),
    {
        Registry { slots: Vec::new(), free: Vec::new() }
    }

    /// Adds a value.
    pub fn insert(&mut self, value: T) -> (handle: u64)
        requires
            old(self).wf(),
            old(self).slots@.len() < u32::MAX,
        ensures
            final(self).wf(),
            handle == next_handle(old(self).slots@, old(self).free@),
            final(self).slots@ == inserted(old(self).slots@, old(self).free@, value),
            final(self).free@ == if old(self).free@.len() > 0 {
                old(self).free@.drop_last()
            } else {
                old(self).free@
            },
            old(self).resolve(handle) is None,
            forall|other: u64| #[trigger]
                final(self).resolve(other) == if other == handle {
                    Some(value)
                } else {
                    old(self).resolve(other)
                },
    {
        proof {
            assert forall|other: u64|
                other != next_handle(self.slots@, self.free@) implies #[trigger] resolve(
                inserted(self.slots@, self.free@, value),
                other,
            ) == resolve(self.slots@, other) by {
                insert_keeps_retired(self.slots@, self.free@, value, u32::MAX, other);
            }
            insert_keeps_retired(self.slots@, self.free@, value, u32::MAX, 0);
        }
        insert_into(&mut self.slots, &mut self.free, value, Ghost(u32::MAX))
    }

    /// What a handle names.
    pub fn get(&self, handle: u64) -> (value: Option<&T>)
        ensures
            match value {
                Some(value) => self.resolve(handle) == Some(*value),
                None => self.resolve(handle) is None,
            },
    {
        match find(&self.slots, handle) {
            Some(index) => self.slots[index].value.as_ref(),
            None => None,
        }
    }

    /// What a handle names, to be changed in place.
    pub fn get_mut(&mut self, handle: u64) -> (value: Option<&mut T>)
        requires
            old(self).wf(),
        ensures
            final(self).wf(),
            final(self).free@ == old(self).free@,
            match value {
                Some(value) => {
                    &&& old(self).resolve(handle) == Some(*value)
                    &&& final(self).slots@ == replaced(old(self).slots@, handle, *final(value))
                },
                None => old(self).resolve(handle) is None && *final(self) == *old(self),
            },
            forall|other: u64|
                other != handle ==> #[trigger] final(self).resolve(other) == old(self).resolve(
                    other,
                ),
            value matches Some(value) ==> final(self).resolve(handle) == Some(*final(value)),
    {
        proof {
            if self.resolve(handle) is Some {
                assert forall|other: u64, value: T|
                    other != handle implies #[trigger] resolve(
                    replaced(self.slots@, handle, value),
                    other,
                ) == resolve(self.slots@, other) by {
                    replace_is_local(self.slots@, handle, value, other);
                }
            }
        }
        match find(&self.slots, handle) {
            Some(index) => {
                let slot = &mut self.slots[index];
                slot.value.as_mut()
            },
            None => None,
        }
    }

    /// The values in the order of their slots.
    pub fn values(&self) -> (values: Vec<&T>)
        ensures
            values@.map_values(|value: &T| *value) == occupants(self.slots@).map_values(
                |item: (u64, T)| item.1,
            ),
    {
        let mut values: Vec<&T> = Vec::new();
        assert(values@.map_values(|value: &T| *value) =~= occupants(
            self.slots@.take(0),
        ).map_values(|item: (u64, T)| item.1));
        for index in 0..self.slots.len()
            invariant
                values@.map_values(|value: &T| *value) == occupants(
                    self.slots@.take(index as int),
                ).map_values(|item: (u64, T)| item.1),
        {
            proof {
                let taken = self.slots@.take(index + 1);
                assert(taken.drop_last() =~= self.slots@.take(index as int));
                assert(taken.last() == self.slots@[index as int]);
            }
            match self.slots[index].value.as_ref() {
                Some(value) => {
                    let ghost earlier = values@;
                    values.push(value);
                    assert(values@.map_values(|value: &T| *value) =~= earlier.map_values(
                        |value: &T| *value,
                    ).push(*value));
                },
                None => {},
            }
            assert(values@.map_values(|value: &T| *value) =~= occupants(
                self.slots@.take(index + 1),
            ).map_values(|item: (u64, T)| item.1));
        }
        assert(self.slots@.take(self.slots@.len() as int) =~= self.slots@);
        values
    }

    /// The value of a registry that holds one.
    pub fn sole(&self) -> (value: Option<&T>)
        ensures
            match value {
                Some(value) => occupants(self.slots@).len() == 1 && occupants(
                    self.slots@,
                )[0].1 == *value,
                None => occupants(self.slots@).len() != 1,
            },
    {
        let values = self.values();
        let ghost items = occupants(self.slots@);
        assert(values@.map_values(|value: &T| *value).len() == items.len());
        if values.len() == 1 {
            assert(values@.map_values(|value: &T| *value)[0] == items.map_values(
                |item: (u64, T)| item.1,
            )[0]);
            Some(values[0])
        } else {
            None
        }
    }

    /// How many values there are.
    pub fn live_count(&self) -> (count: usize)
        ensures
            count == occupants(self.slots@).len(),
    {
        let values = self.values();
        assert(values@.map_values(|value: &T| *value).len() == occupants(self.slots@).len());
        values.len()
    }

    /// Takes out what a handle names.
    pub fn remove(&mut self, handle: u64) -> (value: Option<T>)
        requires
            old(self).wf(),
        ensures
            final(self).wf(),
            value == old(self).resolve(handle),
            value is Some ==> {
                &&& final(self).slots@ == removed(old(self).slots@, handle, u32::MAX)
                &&& final(self).free@ == freed(old(self).free@, handle, u32::MAX)
            },
            value is None ==> final(self).slots@ == old(self).slots@ && final(self).free@ == old(self).free@,
            forall|other: u64| #[trigger]
                final(self).resolve(other) == if other == handle {
                    None
                } else {
                    old(self).resolve(other)
                },
    {
        proof {
            if self.resolve(handle) is Some {
                assert forall|other: u64| other != handle implies #[trigger] resolve(
                    removed(self.slots@, handle, u32::MAX),
                    other,
                ) == resolve(self.slots@, other) by {
                    remove_retires(self.slots@, self.free@, handle, u32::MAX, other);
                }
                remove_retires(self.slots@, self.free@, handle, u32::MAX, handle);
                retired_names_nothing(
                    removed(self.slots@, handle, u32::MAX),
                    freed(self.free@, handle, u32::MAX),
                    handle,
                    u32::MAX,
                );
            }
        }
        remove_from(&mut self.slots, &mut self.free, handle, u32::MAX)
    }
}

impl<T> Default for Registry<T> {
    fn default() -> (registry: Self)
        ensures
            registry.wf(),
            registry.slots@ == Seq::<Slot<T>>::empty(),
            registry.free@ == Seq::<usize>::empty(),
    {
        Registry::new()
    }
}

/// How many of the values meet a condition.
pub open spec fn tally<T>(slots: Seq<Slot<T>>, condition: spec_fn(T) -> bool) -> nat
    decreases slots.len(),
{
    if slots.len() == 0 {
        0
    } else {
        tally(slots.drop_last(), condition) + counted(slots.last(), condition)
    }
}

/// What one slot adds to a tally.
pub open spec fn counted<T>(slot: Slot<T>, condition: spec_fn(T) -> bool) -> nat {
    match slot.value {
        Some(value) => if condition(value) {
            1
        } else {
            0
        },
        None => 0,
    }
}

/// A tally changes with the one slot that changes.
pub proof fn tally_update<T>(
    slots: Seq<Slot<T>>,
    index: int,
    slot: Slot<T>,
    condition: spec_fn(T) -> bool,
)
    requires
        0 <= index < slots.len(),
    ensures
        tally(slots.update(index, slot), condition) + counted(slots[index], condition) == tally(
            slots,
            condition,
        ) + counted(slot, condition),
    decreases slots.len(),
{
    let changed = slots.update(index, slot);
    if index == slots.len() - 1 {
        assert(changed.drop_last() =~= slots.drop_last());
    } else {
        assert(changed.drop_last() =~= slots.drop_last().update(index, slot));
        tally_update(slots.drop_last(), index, slot, condition);
    }
}

/// A tally counts slots.
pub proof fn tally_bound<T>(slots: Seq<Slot<T>>, condition: spec_fn(T) -> bool)
    ensures
        tally(slots, condition) <= slots.len(),
    decreases slots.len(),
{
    if slots.len() > 0 {
        tally_bound(slots.drop_last(), condition);
    }
}

/// A value that meets the condition is in the tally.
pub proof fn tally_counts<T>(slots: Seq<Slot<T>>, handle: u64, condition: spec_fn(T) -> bool)
    requires
        resolve(slots, handle) is Some,
        condition(resolve(slots, handle).unwrap()),
    ensures
        tally(slots, condition) > 0,
{
    let (index, generation) = handle::handle_parts_of(handle).unwrap();
    tally_update(
        slots,
        index as int,
        Slot { generation, value: None },
        condition,
    );
}

/// What adding a value does to a tally.
pub proof fn tally_inserted<T>(
    slots: Seq<Slot<T>>,
    free: Seq<usize>,
    limit: u32,
    value: T,
    condition: spec_fn(T) -> bool,
)
    requires
        table_wf(slots, free, limit),
    ensures
        tally(inserted(slots, free, value), condition) == tally(slots, condition) + if condition(
            value,
        ) {
            1nat
        } else {
            0nat
        },
{
    if free.len() > 0 {
        let index = free.last() as int;
        assert(free[free.len() - 1] == index);
        tally_update(slots, index, inserted(slots, free, value)[index], condition);
        assert(inserted(slots, free, value) =~= slots.update(
            index,
            inserted(slots, free, value)[index],
        ));
    } else {
        let grown = inserted(slots, free, value);
        assert(grown.drop_last() =~= slots);
    }
}

/// What taking a value out does to a tally.
pub proof fn tally_removed<T>(
    slots: Seq<Slot<T>>,
    handle: u64,
    limit: u32,
    condition: spec_fn(T) -> bool,
)
    requires
        resolve(slots, handle) is Some,
    ensures
        tally(removed(slots, handle, limit), condition) + if condition(
            resolve(slots, handle).unwrap(),
        ) {
            1nat
        } else {
            0nat
        } == tally(slots, condition),
{
    let index = handle::handle_parts_of(handle).unwrap().0 as int;
    let after = removed(slots, handle, limit);
    tally_update(slots, index, after[index], condition);
    assert(after =~= slots.update(index, after[index]));
}

/// What changing a value does to a tally.
pub proof fn tally_replaced<T>(
    slots: Seq<Slot<T>>,
    handle: u64,
    value: T,
    condition: spec_fn(T) -> bool,
)
    requires
        resolve(slots, handle) is Some,
        condition(value) == condition(resolve(slots, handle).unwrap()),
    ensures
        tally(replaced(slots, handle, value), condition) == tally(slots, condition),
{
    let index = handle::handle_parts_of(handle).unwrap().0 as int;
    let after = replaced(slots, handle, value);
    tally_update(slots, index, after[index], condition);
    assert(after =~= slots.update(index, after[index]));
}

} // verus!
