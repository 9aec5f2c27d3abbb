//! What a session's admission counts: the writes on their way to the reactor, and those
//! that wait for the terminal.
use crate::session::{self, InputAdmission, InputState};
use vstd::prelude::*;

verus! {

/// One step of a session's input.
pub ghost enum Step {
    /// A write of this length was admitted and is on its way.
    Admitted(nat),
    /// The oldest write on its way was queued, whole.
    Queued(Seq<u8>),
    /// The oldest write on its way was not taken.
    Refused,
    /// Some bytes of the oldest waiting write went to the terminal.
    Wrote(usize),
    /// Input failed.
    Failed,
    /// No more writes are admitted.
    Closed,
}

/// The lengths of the writes on their way after a step.
pub open spec fn way_after(way: Seq<nat>, step: Step) -> Seq<nat> {
    match step {
        Step::Admitted(length) => way.push(length),
        Step::Queued(_) | Step::Refused => way.skip(1),
        _ => way,
    }
}

/// The lengths of the writes on their way after steps.
pub open spec fn way_of(steps: Seq<Step>) -> Seq<nat>
    decreases steps.len(),
{
    if steps.len() == 0 {
        Seq::empty()
    } else {
        way_after(way_of(steps.drop_last()), steps.last())
    }
}

/// All bytes on their way.
pub open spec fn total(way: Seq<nat>) -> nat
    decreases way.len(),
{
    if way.len() == 0 {
        0
    } else {
        way[0] + total(way.skip(1))
    }
}

/// Whether a step leads from one state of the input to another, as the operations on
/// admission and input say.
pub open spec fn leads(before: &InputState, after: &InputState, way: Seq<nat>, step: Step) -> bool {
    match step {
        Step::Admitted(length) => {
            &&& length <= usize::MAX
            &&& before.admission.open
            &&& before.admission.has_room(length as usize)
            &&& after.admission == (InputAdmission {
                bytes: (before.admission.bytes + length) as usize,
                entries: (before.admission.entries + 1) as usize,
                ..before.admission
            })
            &&& after.queue == before.queue
        },
        Step::Queued(bytes) => {
            &&& way.len() > 0
            &&& way[0] == bytes.len()
            &&& after.admission == before.admission
            &&& after.pending() == before.pending() + bytes
            &&& after.queue@.len() == before.queue@.len() + 1
        },
        Step::Refused => {
            &&& way.len() > 0
            &&& after.admission == (InputAdmission {
                bytes: if way[0] <= before.admission.bytes {
                    (before.admission.bytes - way[0]) as usize
                } else {
                    0
                },
                entries: if 1 <= before.admission.entries {
                    (before.admission.entries - 1) as usize
                } else {
                    0
                },
                ..before.admission
            })
            &&& after.queue == before.queue
        },
        Step::Wrote(amount) => {
            &&& before.queue@.len() > 0
            &&& 0 < amount <= before.queue@[0].rest().len()
            &&& session::has_written(before, after, amount)
        },
        Step::Failed => {
            &&& after.admission == (InputAdmission { open: false, ..session::released(before) })
            &&& after.queue@.len() == 0
        },
        Step::Closed => {
            &&& after.admission == (InputAdmission { open: false, ..before.admission })
            &&& after.queue == before.queue
        },
    }
}

/// Whether a session's admission counts what is on its way and what waits, and no more.
pub open spec fn accounted(input: &InputState, way: Seq<nat>) -> bool {
    &&& input.admission.bytes == total(way) + input.pending().len()
    &&& input.admission.entries == way.len() + input.queue@.len()
}

/// The total of one write more.
proof fn total_push(way: Seq<nat>, length: nat)
    ensures
        total(way.push(length)) == total(way) + length,
    decreases way.len(),
{
    if way.len() == 0 {
        let one = way.push(length);
        assert(one.skip(1) =~= Seq::<nat>::empty());
        assert(total(one.skip(1)) == 0);
        assert(total(one) == one[0] + total(one.skip(1)));
    } else {
        total_push(way.skip(1), length);
        assert(way.push(length).skip(1) =~= way.skip(1).push(length));
    }
}

/// A step keeps the account.
pub proof fn step_keeps_account(before: &InputState, after: &InputState, way: Seq<nat>, step: Step)
    requires
        before.wf(),
        after.wf(),
        accounted(before, way),
        leads(before, after, way, step),
    ensures
        accounted(after, way_after(way, step)),
{
    match step {
        Step::Admitted(length) => total_push(way, length),
        Step::Wrote(_) => {
            assert(before.pending().len() >= before.queue@[0].rest().len());
        },
        _ => {},
    }
}

/// A session never holds more of its callers' bytes than its capacity: after any number of
/// steps, what is on its way to the reactor and what waits for the terminal are together
/// exactly what the admission counts, which is within the capacity and the number of
/// writes that may wait.
pub proof fn accepted_input_is_bounded(states: Seq<InputState>, steps: Seq<Step>)
    requires
        states.len() == steps.len() + 1,
        states[0].admission.bytes == 0,
        states[0].admission.entries == 0,
        states[0].queue@.len() == 0,
        forall|i: int| 0 <= i < states.len() ==> (#[trigger] states[i]).wf(),
        forall|i: int|
            0 <= i < steps.len() ==> leads(
                &#[trigger] states[i],
                &states[i + 1],
                way_of(steps.take(i)),
                steps[i],
            ),
    ensures
        accounted(&states.last(), way_of(steps)),
        total(way_of(steps)) + states.last().pending().len() <= states.last().admission.capacity,
        way_of(steps).len() + states.last().queue@.len() <= states.last().admission.entry_limit(),
    decreases steps.len(),
{
    if steps.len() == 0 {
        assert(states.last().wf());
        assert(states.last().pending() =~= Seq::<u8>::empty());
    } else {
        let earlier_states = states.drop_last();
        let earlier = steps.drop_last();
        assert forall|i: int| 0 <= i < earlier_states.len() implies (
        #[trigger] earlier_states[i]).wf() by {
            assert(states[i].wf());
        }
        assert forall|i: int| 0 <= i < earlier.len() implies leads(
            &#[trigger] earlier_states[i],
            &earlier_states[i + 1],
            way_of(earlier.take(i)),
            earlier[i],
        ) by {
            assert(earlier.take(i) =~= steps.take(i));
            assert(leads(&states[i], &states[i + 1], way_of(steps.take(i)), steps[i]));
        }
        accepted_input_is_bounded(earlier_states, earlier);
        let last = steps.len() - 1;
        assert(steps.take(last) =~= earlier);
        assert(states[last].wf() && states[last + 1].wf());
        assert(leads(&states[last], &states[last + 1], way_of(steps.take(last)), steps[last]));
        step_keeps_account(&states[last], &states[last + 1], way_of(earlier), steps.last());
    }
}

} // verus!
