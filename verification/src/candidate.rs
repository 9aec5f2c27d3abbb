//! A small synchronous terminal interface, for comparison with the full engine.
//!
//! Sessions are held by number and checked by generation. Transfers are made by the caller,
//! who reports what the platform answered.
use crate::posix::{self, Codes};
use std::collections::HashMap;
use vstd::prelude::*;

verus! {

broadcast use vstd::std_specs::hash::group_hash_axioms;

pub const ABI_VERSION: u32 = 1;

pub const OK: i32 = 0;

pub const INVALID_ARGUMENT: i32 = 1;

pub const OS_ERROR: i32 = 2;

pub const STALE_HANDLE: i32 = 3;

/// What one half of a handle can hold.
pub const HALF: u64 = 0x1_0000_0000;

/// A terminal and its child.
#[derive(Clone, Copy, Debug, PartialEq, Eq, Structural)]
pub struct Session {
    pub master: i32,
    pub pid: i32,
    pub waited: bool,
    pub exit_code: i32,
}

/// What a slot holds.
#[derive(Clone, Copy, Debug, PartialEq, Eq, Structural)]
pub struct Entry {
    pub generation: u32,
    pub session: Session,
}

/// The value of a transfer that is over, and the platform's error to remember.
#[derive(Clone, Copy, Debug, PartialEq, Eq, Structural)]
pub struct Transferred {
    pub value: i64,
    pub remember: Option<i32>,
}

/// What a wait for a child begins with.
#[derive(Clone, Copy, Debug, PartialEq, Eq, Structural)]
pub enum WaitStep {
    /// The child was waited for before.
    Known(i32),
    /// Wait for this session's child.
    Wait(Session),
}

/// What a wait for a child came to.
#[derive(Clone, Copy, Debug, PartialEq, Eq, Structural)]
pub enum Waited {
    /// Wait again.
    Again,
    /// The child exited with this code.
    Exit(i32),
    /// The session was closed meanwhile.
    Stale,
    /// The platform refused, with this error to remember.
    Failed(i32),
}

/// The handle of a slot and generation.
pub open spec fn handle_of(slot: u32, generation: u32) -> u64 {
    (generation * HALF + slot) as u64
}

/// The slot and generation of a handle.
pub open spec fn parts_of(handle: u64) -> (u32, u32) {
    ((handle % HALF) as u32, (handle / HALF) as u32)
}

/// The handle of a slot and generation.
pub fn handle(slot: u32, generation: u32) -> (handle: u64)
    ensures
        handle == handle_of(slot, generation),
{
    generation as u64 * HALF + slot as u64
}

/// The slot and generation of a handle.
pub fn handle_parts(handle: u64) -> (parts: (u32, u32))
    ensures
        parts == parts_of(handle),
{
    ((handle % HALF) as u32, (handle / HALF) as u32)
}

/// A handle gives back the slot and generation that it was made of, and every handle is
/// made of its own parts.
pub proof fn handle_round_trip(slot: u32, generation: u32, handle: u64)
    ensures
        parts_of(handle_of(slot, generation)) == (slot, generation),
        handle_of(parts_of(handle).0, parts_of(handle).1) == handle,
{
    let made = handle_of(slot, generation);
    assert(made / HALF == generation && made % HALF == slot) by (nonlinear_arith)
        requires
            made == generation * 0x1_0000_0000 + slot,
            0 <= slot < 0x1_0000_0000,
            HALF == 0x1_0000_0000,
    ;
}

/// The version of the interface.
pub fn ptyx_candidate_abi() -> (version: u32)
    ensures
        version == ABI_VERSION,
{
    ABI_VERSION
}

/// Whether a script can be handed to the shell: it is not empty and holds no zero.
pub fn check_script(script: &[u8]) -> (result: Result<(), i32>)
    ensures
        result == if script@.len() == 0 || script@.contains(0) {
            Err::<(), i32>(INVALID_ARGUMENT)
        } else {
            Ok(())
        },
{
    if script.len() == 0 {
        return Err(INVALID_ARGUMENT);
    }
    for index in 0..script.len()
        invariant
            forall|i: int| 0 <= i < index ==> script@[i] != 0,
    {
        if script[index] == 0 {
            assert(script@[index as int] == 0);
            return Err(INVALID_ARGUMENT);
        }
    }
    Ok(())
}

/// The code of a child that was waited for: its exit code, 128 more than the signal that
/// ended it, or the bare status.
pub open spec fn exit_code_of(status: i32) -> i32 {
    let signal = status & 0x7f;
    if signal == 0 {
        (status >> 8) & 0xff
    } else if signal != 0x7f {
        (128 + signal) as i32
    } else {
        status
    }
}

/// The code of a child that was waited for.
pub fn exit_code(status: i32) -> (code: i32)
    ensures
        code == exit_code_of(status),
{
    assert(0 <= status & 0x7f <= 0x7f) by (bit_vector);
    if libc::WIFEXITED(status) {
        libc::WEXITSTATUS(status)
    } else if libc::WIFSIGNALED(status) {
        128 + libc::WTERMSIG(status)
    } else {
        status
    }
}

/// The sessions.
pub struct Candidates {
    pub entries: HashMap<u32, Entry>,
    pub next_slot: u32,
    pub next_generation: u32,
    pub codes: Codes,
}

/// The next of a counter that starts over after its greatest value.
pub open spec fn next_of(counter: u32) -> u32 {
    if counter == u32::MAX {
        0
    } else {
        (counter + 1) as u32
    }
}

impl Candidates {
    /// What a handle names.
    pub open spec fn at(&self, handle: u64) -> Option<Session> {
        let (slot, generation) = parts_of(handle);
        if self.entries@.contains_key(slot) && self.entries@[slot].generation == generation {
            Some(self.entries@[slot].session)
        } else {
            None
        }
    }

    /// No sessions, with the given error numbers.
    pub fn with_codes(codes: Codes) -> (candidates: Candidates)
        ensures
            candidates.entries@ == Map::<u32, Entry>::empty(),
            candidates.next_slot == 1,
            candidates.next_generation == 1,
            candidates.codes == codes,
    {
        Candidates { entries: HashMap::new(), next_slot: 1, next_generation: 1, codes }
    }

    /// No sessions, with the error numbers of the platform.
    pub fn new() -> (candidates: Candidates)
        ensures
            candidates.entries@ == Map::<u32, Entry>::empty(),
            candidates.next_slot == 1,
            candidates.next_generation == 1,
    {
        Candidates::with_codes(posix::native_codes())
    }

    /// Takes a session that was started. One whose slot is taken is refused; its child is
    /// to be killed.
    pub fn insert(&mut self, master: i32, pid: i32) -> (result: Result<u64, i32>)
        ensures
            final(self).codes == old(self).codes,
            final(self).next_slot == next_of(old(self).next_slot),
            final(self).next_generation == next_of(old(self).next_generation),
            final(self).entries@ == old(self).entries@.insert(
                old(self).next_slot,
                Entry {
                    generation: old(self).next_generation,
                    session: Session { master, pid, waited: false, exit_code: 0 },
                },
            ),
            result == if old(self).entries@.contains_key(old(self).next_slot) {
                Err::<u64, i32>(OS_ERROR)
            } else {
                Ok(handle_of(old(self).next_slot, old(self).next_generation))
            },
            forall|other: u64|
                (#[trigger] final(self).at(other)) is Some && other != handle_of(
                    old(self).next_slot,
                    old(self).next_generation,
                ) ==> old(self).at(other) == final(self).at(other),
    {
        proof {
            assert forall|other: u64| #[trigger] handle_of(
                parts_of(other).0,
                parts_of(other).1,
            ) == other by {
                handle_round_trip(0, 0, other);
            }
        }
        let slot: u32 = self.next_slot;
        let generation: u32 = self.next_generation;
        self.next_slot = self.next_slot.wrapping_add(1);
        self.next_generation = self.next_generation.wrapping_add(1);
        let session = Session { master, pid, waited: false, exit_code: 0 };
        match self.entries.insert(slot, Entry { generation, session }) {
            Some(_) => Err(OS_ERROR),
            None => Ok(handle(slot, generation)),
        }
    }

    /// What a handle names.
    pub fn lookup(&self, handle: u64) -> (result: Result<Session, i32>)
        ensures
            result == match self.at(handle) {
                Some(session) => Ok::<Session, i32>(session),
                None => Err(STALE_HANDLE),
            },
    {
        let (slot, generation) = handle_parts(handle);
        match self.entries.get(&slot) {
            Some(entry) => {
                if entry.generation != generation {
                    Err(STALE_HANDLE)
                } else {
                    Ok(entry.session)
                }
            },
            None => Err(STALE_HANDLE),
        }
    }

    /// Replaces what a handle names.
    pub fn update(&mut self, handle: u64, session: Session) -> (result: Result<(), i32>)
        ensures
            final(self).codes == old(self).codes,
            final(self).next_slot == old(self).next_slot,
            final(self).next_generation == old(self).next_generation,
            match old(self).at(handle) {
                Some(_) => {
                    &&& result is Ok
                    &&& final(self).entries@ == old(self).entries@.insert(
                        parts_of(handle).0,
                        Entry { generation: parts_of(handle).1, session },
                    )
                },
                None => result == Err::<(), i32>(STALE_HANDLE) && final(self).entries@ == old(self).entries@,
            },
    {
        match self.lookup(handle) {
            Ok(_) => {
                let (slot, generation) = handle_parts(handle);
                let _before = self.entries.insert(slot, Entry { generation, session });
                Ok(())
            },
            Err(status) => Err(status),
        }
    }

    /// The terminal of a transfer, or the value that refuses it.
    pub fn begin_transfer(&self, handle: u64, has_bytes: bool) -> (result: Result<i32, i64>)
        ensures
            result == if !has_bytes {
                Err::<i32, i64>((-1) as i64)
            } else {
                match self.at(handle) {
                    Some(session) => Ok(session.master),
                    None => Err((-3) as i64),
                }
            },
    {
        if !has_bytes {
            return Err(-(INVALID_ARGUMENT as i64));
        }
        match self.lookup(handle) {
            Ok(session) => Ok(session.master),
            Err(status) => Err(-(status as i64)),
        }
    }

    /// What a read came to: nothing when it has to be made again. A terminal without a child
    /// is at its end.
    pub fn after_read(&self, result: i64, errno: i32) -> (done: Option<Transferred>)
        ensures
            done == if result >= 0 {
                Some(Transferred { value: result, remember: None })
            } else if errno == self.codes.eintr {
                None
            } else if errno == self.codes.eio {
                Some(Transferred { value: 0, remember: None })
            } else {
                Some(Transferred { value: (-2) as i64, remember: Some(errno) })
            },
    {
        if result >= 0 {
            return Some(Transferred { value: result, remember: None });
        }
        if errno == self.codes.eintr {
            return None;
        }
        if errno == self.codes.eio {
            return Some(Transferred { value: 0, remember: None });
        }
        Some(Transferred { value: -(OS_ERROR as i64), remember: Some(errno) })
    }

    /// What a write came to: nothing when it has to be made again.
    pub fn after_write(&self, result: i64, errno: i32) -> (done: Option<Transferred>)
        ensures
            done == if result >= 0 {
                Some(Transferred { value: result, remember: None })
            } else if errno == self.codes.eintr {
                None
            } else {
                Some(Transferred { value: (-2) as i64, remember: Some(errno) })
            },
    {
        if result >= 0 {
            return Some(Transferred { value: result, remember: None });
        }
        if errno == self.codes.eintr {
            return None;
        }
        Some(Transferred { value: -(OS_ERROR as i64), remember: Some(errno) })
    }

    /// What a wait for a session's child begins with.
    pub fn begin_wait(&self, handle: u64, has_target: bool) -> (result: Result<WaitStep, i32>)
        ensures
            result == if !has_target {
                Err::<WaitStep, i32>(INVALID_ARGUMENT)
            } else {
                match self.at(handle) {
                    Some(session) => Ok(
                        if session.waited {
                            WaitStep::Known(session.exit_code)
                        } else {
                            WaitStep::Wait(session)
                        },
                    ),
                    None => Err(STALE_HANDLE),
                }
            },
    {
        if !has_target {
            return Err(INVALID_ARGUMENT);
        }
        match self.lookup(handle) {
            Ok(session) => {
                if session.waited {
                    Ok(WaitStep::Known(session.exit_code))
                } else {
                    Ok(WaitStep::Wait(session))
                }
            },
            Err(status) => Err(status),
        }
    }

    /// Takes the platform's answer to a wait: the process it speaks of and its status.
    pub fn after_wait(
        &mut self,
        handle: u64,
        session: Session,
        result: i32,
        status: i32,
        errno: i32,
    ) -> (done: Waited)
        ensures
            final(self).codes == old(self).codes,
            final(self).next_slot == old(self).next_slot,
            final(self).next_generation == old(self).next_generation,
            if result == session.pid {
                match old(self).at(handle) {
                    Some(_) => {
                        &&& done == Waited::Exit(exit_code_of(status))
                        &&& final(self).entries@ == old(self).entries@.insert(
                            parts_of(handle).0,
                            Entry {
                                generation: parts_of(handle).1,
                                session: Session {
                                    waited: true,
                                    exit_code: exit_code_of(status),
                                    ..session
                                },
                            },
                        )
                    },
                    None => done == Waited::Stale && final(self).entries@ == old(self).entries@,
                }
            } else {
                &&& final(self).entries@ == old(self).entries@
                &&& done == if result < 0 && errno == old(self).codes.eintr {
                    Waited::Again
                } else {
                    Waited::Failed(errno)
                }
            },
    {
        if result == session.pid {
            let code: i32 = exit_code(status);
            let waited = Session { waited: true, exit_code: code, ..session };
            return match self.update(handle, waited) {
                Ok(()) => Waited::Exit(code),
                Err(_) => Waited::Stale,
            };
        }
        if result < 0 && errno == self.codes.eintr {
            return Waited::Again;
        }
        Waited::Failed(errno)
    }

    /// Takes a session out. Its terminal is to be closed, and a child that was not waited
    /// for is to be ended and waited for.
    pub fn close(&mut self, handle: u64) -> (result: Result<Session, i32>)
        ensures
            final(self).codes == old(self).codes,
            final(self).next_slot == old(self).next_slot,
            final(self).next_generation == old(self).next_generation,
            match old(self).at(handle) {
                Some(session) => {
                    &&& result == Ok::<Session, i32>(session)
                    &&& final(self).at(handle) is None
                    &&& final(self).entries@ == old(self).entries@.remove(parts_of(handle).0)
                },
                None => result == Err::<Session, i32>(STALE_HANDLE) && final(self).entries@ == old(self).entries@,
            },
    {
        match self.lookup(handle) {
            Ok(session) => {
                let (slot, _generation) = handle_parts(handle);
                let _entry = self.entries.remove(&slot);
                Ok(session)
            },
            Err(status) => Err(status),
        }
    }

    /// What the wait of a close came to: nothing when it has to be made again, else the
    /// status and the error to remember.
    pub fn after_close_wait(&self, pid: i32, result: i32, errno: i32) -> (done: Option<
        (i32, Option<i32>),
    >)
        ensures
            done == if result == pid || (result < 0 && errno == self.codes.echild) {
                Some((OK, None::<i32>))
            } else if result < 0 && errno == self.codes.eintr {
                None
            } else {
                Some((OS_ERROR, Some(errno)))
            },
    {
        if result == pid || (result < 0 && errno == self.codes.echild) {
            return Some((OK, None));
        }
        if result < 0 && errno == self.codes.eintr {
            return None;
        }
        Some((OS_ERROR, Some(errno)))
    }
}

} // verus!
