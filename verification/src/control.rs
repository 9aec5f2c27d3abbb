//! Asynchronous controls of the reactor, and the flag that coalesces its wakes.
use crate::fault::{ErrorKind, IoError};
use std::collections::VecDeque;
use vstd::prelude::*;

verus! {

pub const MAX_CONTROL_ENTRIES: usize = 4096;

pub const MAX_LIFECYCLE_ENTRIES: usize = 1024;

/// A control that needs no reply.
#[derive(Clone, Copy, Debug, PartialEq, Eq, Structural)]
pub enum Control {
    Credit { handle: u64, bytes: usize },
    Abandon { handle: u64 },
}

impl Control {
    /// The session that the control is for.
    pub fn handle(&self) -> (handle: u64)
        ensures
            handle == match *self {
                Control::Credit { handle, .. } => handle,
                Control::Abandon { handle } => handle,
            },
    {
        match self {
            Control::Credit { handle, .. } => *handle,
            Control::Abandon { handle } => *handle,
        }
    }
}

/// Whether a wake is on its way.
#[derive(Clone, Copy, Debug, PartialEq, Eq, Structural)]
pub struct WakeGate {
    pub pending: bool,
}

impl WakeGate {
    /// No wake on its way.
    pub fn new() -> (gate: Self)
        ensures
            !gate.pending,
    {
        WakeGate { pending: false }
    }

    /// Asks for a wake. The result says whether one has to be sent.
    pub fn request(&mut self) -> (send: bool)
        ensures
            send == !old(self).pending,
            final(self).pending,
    {
        let send = !self.pending;
        self.pending = true;
        send
    }

    /// Forgets the wake that arrived.
    pub fn clear(&mut self)
        ensures
            !final(self).pending,
    {
        self.pending = false;
    }
}

/// What one attempt to send a wake means: nothing yet when it has to be made again, and
/// success also when the descriptor is full, as a full one already holds a wake.
pub fn complete_wake(attempt: Result<(), IoError>) -> (result: Option<Result<(), IoError>>)
    ensures
        result == match attempt {
            Ok(()) => Some(Ok(())),
            Err(error) => match error.kind {
                ErrorKind::Interrupted => None,
                ErrorKind::WouldBlock => Some(Ok(())),
                _ => Some(Err(error)),
            },
        },
{
    match attempt {
        Ok(()) => Some(Ok(())),
        Err(error) => match error.kind {
            ErrorKind::Interrupted => None,
            ErrorKind::WouldBlock => Some(Ok(())),
            _ => Some(Err(error)),
        },
    }
}

/// Controls that wait for the reactor.
pub struct ControlQueue {
    pub values: VecDeque<Control>,
    pub lifecycle: VecDeque<Control>,
}

impl ControlQueue {
    /// Each kind of control waits in its own bounded queue.
    pub open spec fn wf(&self) -> bool {
        &&& self.values@.len() <= MAX_CONTROL_ENTRIES
        &&& self.lifecycle@.len() <= MAX_LIFECYCLE_ENTRIES
        &&& forall|i: int| 0 <= i < self.values@.len() ==> (#[trigger] self.values@[i]) is Credit
        &&& forall|i: int|
            0 <= i < self.lifecycle@.len() ==> (#[trigger] self.lifecycle@[i]) is Abandon
    }

    /// An empty queue.
    pub fn new() -> (queue: Self)
        ensures
            queue.wf(),
            queue.values@ == Seq::<Control>::empty(),
            queue.lifecycle@ == Seq::<Control>::empty(),
    {
        ControlQueue { values: VecDeque::new(), lifecycle: VecDeque::new() }
    }

    /// Adds a control, unless its queue is full.
    pub fn push(&mut self, value: Control) -> (accepted: bool)
        requires
            old(self).wf(),
        ensures
            final(self).wf(),
            match value {
                Control::Abandon { .. } => {
                    &&& accepted == (old(self).lifecycle@.len() < MAX_LIFECYCLE_ENTRIES)
                    &&& final(self).values@ == old(self).values@
                    &&& final(self).lifecycle@ == if accepted {
                        old(self).lifecycle@.push(value)
                    } else {
                        old(self).lifecycle@
                    }
                },
                Control::Credit { .. } => {
                    &&& accepted == (old(self).values@.len() < MAX_CONTROL_ENTRIES)
                    &&& final(self).lifecycle@ == old(self).lifecycle@
                    &&& final(self).values@ == if accepted {
                        old(self).values@.push(value)
                    } else {
                        old(self).values@
                    }
                },
            },
    {
        match value {
            Control::Abandon { .. } => {
                if self.lifecycle.len() >= MAX_LIFECYCLE_ENTRIES {
                    return false;
                }
                self.lifecycle.push_back(value);
                true
            },
            Control::Credit { .. } => {
                if self.values.len() >= MAX_CONTROL_ENTRIES {
                    return false;
                }
                self.values.push_back(value);
                true
            },
        }
    }

    /// Moves everything that waits to the end of a list, lifecycle controls first.
    pub fn swap_into(&mut self, target: &mut VecDeque<Control>)
        ensures
            final(self).wf(),
            final(self).values@ == Seq::<Control>::empty(),
            final(self).lifecycle@ == Seq::<Control>::empty(),
            final(target)@ == old(target)@ + old(self).lifecycle@ + old(self).values@,
    {
        target.append(&mut self.lifecycle);
        target.append(&mut self.values);
    }
}

} // verus!
