//! A session's metadata as C callers see it.
use crate::adapter::{self, Adapter, Target};
use crate::c_api::{
    self, Reply, Size, OPERATION_METADATA, SESSION_SNAPSHOT_SIZE, SNAPSHOT_HAS_MODE,
    SNAPSHOT_HAS_TTY_NAME, STATUS_BUFFER_TOO_SMALL,
};
use vstd::prelude::*;

verus! {

/// A session's metadata, with storage for its terminal's name.
#[derive(Clone, Debug, PartialEq, Eq)]
pub struct SessionSnapshot {
    pub struct_size: u32,
    pub flags: u32,
    pub pid: i64,
    pub size: Size,
    pub modes: u32,
    pub reserved0: u32,
    pub tty_name: Option<Vec<u8>>,
    pub tty_name_capacity: u64,
    pub tty_name_required: u64,
    pub reserved: [u64; 4],
}

/// A session's metadata as the engine gives it.
#[derive(Clone, Debug, PartialEq, Eq)]
pub struct Metadata {
    pub pid: i64,
    pub size: [u32; 4],
    pub mode: Option<[bool; 3]>,
    pub tty_name: Option<Vec<u8>>,
}

impl SessionSnapshot {
    /// Whether a caller may pass the snapshot.
    pub open spec fn acceptable(&self) -> bool {
        &&& self.struct_size >= SESSION_SNAPSHOT_SIZE
        &&& self.reserved0 == 0
        &&& c_api::all_zero(self.reserved)
        &&& self.tty_name_capacity == 0 || self.tty_name is Some
    }
}

/// Checks a call for a session's metadata.
pub fn begin_snapshot(
    adapter: &Adapter,
    session: u64,
    snapshot: Option<&SessionSnapshot>,
) -> (result: Result<Target, Reply>)
    ensures
        result == if snapshot is None || !snapshot.unwrap().acceptable() {
            Err(c_api::invalid(OPERATION_METADATA))
        } else {
            adapter::required(adapter, session, OPERATION_METADATA)
        },
{
    match snapshot {
        Some(snapshot) => {
            if snapshot.struct_size < SESSION_SNAPSHOT_SIZE || snapshot.reserved0 != 0
                || !c_api::is_zero(&snapshot.reserved) || (snapshot.tty_name_capacity != 0
                && snapshot.tty_name.is_none()) {
                return Err(Reply::invalid(OPERATION_METADATA));
            }
        },
        None => {
            return Err(Reply::invalid(OPERATION_METADATA));
        },
    }
    adapter.require_active(session, OPERATION_METADATA)
}

/// Copies a name to the front of its storage.
fn store_name(storage: &mut Vec<u8>, name: &Vec<u8>)
    requires
        old(storage)@.len() >= name@.len(),
    ensures
        final(storage)@ == name@ + old(storage)@.skip(name@.len() as int),
{
    let ghost before = storage@;
    let count: usize = name.len();
    for index in 0..count
        invariant
            count == name@.len(),
            storage@.len() == before.len(),
            before.len() >= count,
            forall|i: int| 0 <= i < index ==> storage@[i] == name@[i],
            forall|i: int| index <= i < before.len() ==> storage@[i] == before[i],
    {
        storage.set(index, name[index]);
    }
    assert(storage@ =~= name@ + before.skip(count as int));
}

/// The flags of metadata.
pub open spec fn snapshot_flags(metadata: Metadata) -> u32 {
    match (metadata.mode, metadata.tty_name) {
        (Some(_), Some(_)) => 3,
        (Some(_), None) => SNAPSHOT_HAS_MODE,
        (None, Some(_)) => SNAPSHOT_HAS_TTY_NAME,
        (None, None) => 0,
    }
}

/// Whether the fixed fields of a snapshot are those of metadata, and everything that is
/// the caller's is as it was.
pub open spec fn filled(before: &SessionSnapshot, after: &SessionSnapshot, metadata: Metadata) -> bool {
    &&& after.struct_size == before.struct_size
    &&& after.reserved0 == before.reserved0
    &&& after.reserved == before.reserved
    &&& after.tty_name_capacity == before.tty_name_capacity
    &&& after.flags == snapshot_flags(metadata)
    &&& after.pid == metadata.pid
    &&& after.size == (Size {
        rows: metadata.size[0],
        columns: metadata.size[1],
        pixel_width: metadata.size[2],
        pixel_height: metadata.size[3],
    })
    &&& after.modes == match metadata.mode {
        Some(modes) => c_api::mode_bits_of(modes),
        None => 0,
    }
    &&& after.tty_name_required == match metadata.tty_name {
        Some(name) => name@.len() as u64,
        None => 0,
    }
}

/// Stores the metadata that the engine gave. A terminal's name is stored whole or not at
/// all.
pub fn fill_snapshot(snapshot: &mut SessionSnapshot, metadata: Option<Metadata>) -> (reply: Reply)
    requires
        old(snapshot).tty_name_capacity == 0 || old(snapshot).tty_name is Some,
        old(snapshot).tty_name matches Some(storage) ==> storage@.len() >= old(snapshot).tty_name_capacity,
    ensures
        match metadata {
            None => reply == c_api::refused(OPERATION_METADATA) && *final(snapshot) == *old(snapshot),
            Some(metadata) => {
                &&& filled(old(snapshot), final(snapshot), metadata)
                &&& match metadata.tty_name {
                    None => reply == c_api::done() && final(snapshot).tty_name == old(snapshot).tty_name,
                    Some(name) => if old(snapshot).tty_name_capacity > usize::MAX {
                        reply == c_api::invalid(OPERATION_METADATA) && final(snapshot).tty_name
                            == old(snapshot).tty_name
                    } else if old(snapshot).tty_name_capacity < name@.len() {
                        reply == c_api::plain(STATUS_BUFFER_TOO_SMALL) && final(snapshot).tty_name
                            == old(snapshot).tty_name
                    } else {
                        &&& reply == c_api::done()
                        &&& match (final(snapshot).tty_name, old(snapshot).tty_name) {
                            (Some(after), Some(before)) => after@ == name@ + before@.skip(
                                name@.len() as int,
                            ),
                            (None, None) => name@.len() == 0,
                            _ => false,
                        }
                    },
                }
            },
        },
{
    let metadata = match metadata {
        Some(metadata) => metadata,
        None => {
            return Reply::refused(OPERATION_METADATA);
        },
    };
    snapshot.flags = 0;
    snapshot.pid = metadata.pid;
    snapshot.size = Size {
        rows: metadata.size[0],
        columns: metadata.size[1],
        pixel_width: metadata.size[2],
        pixel_height: metadata.size[3],
    };
    snapshot.modes = 0;
    if let Some(modes) = metadata.mode {
        snapshot.flags = SNAPSHOT_HAS_MODE;
        snapshot.modes = c_api::mode_bits(modes);
    }
    snapshot.tty_name_required = 0;
    let name = match metadata.tty_name {
        Some(name) => name,
        None => {
            return Reply::done();
        },
    };
    snapshot.flags = snapshot.flags + SNAPSHOT_HAS_TTY_NAME;
    snapshot.tty_name_required = name.len() as u64;
    if snapshot.tty_name_capacity > usize::MAX as u64 {
        return Reply::invalid(OPERATION_METADATA);
    }
    let capacity: usize = snapshot.tty_name_capacity as usize;
    if capacity < name.len() {
        return Reply::plain(STATUS_BUFFER_TOO_SMALL);
    }
    if name.len() != 0 {
        match &mut snapshot.tty_name {
            Some(storage) => {
                store_name(storage, &name);
            },
            None => {},
        }
    } else {
        proof {
            if let Some(before) = old(snapshot).tty_name {
                assert(before@ =~= name@ + before@.skip(0));
            }
        }
    }
    Reply::done()
}

} // verus!
