//! Sending and receiving one frame over a nonblocking control socket.
//!
//! The socket's owner makes the system calls and reports what each of them moved;
//! the state here decides what comes next.
use crate::frame::{self, Frame, FrameFault, HEADER, MAX_PAYLOAD};
use crate::wire::{self, ByteOrder};
use crate::fault::ErrorKind;
use vstd::prelude::*;

verus! {

/// How long one frame may take, in nanoseconds.
pub const FRAME_TIMEOUT: u64 = 5_000_000_000;

/// The size of a descriptor in ancillary data.
pub const DESCRIPTOR_SIZE: usize = 4;

/// What one write did.
#[derive(Clone, Copy, Debug, PartialEq, Eq, Structural)]
pub enum Written {
    /// This many bytes went out.
    Moved(usize),
    /// The call failed with this category.
    Failed(ErrorKind),
}

/// What to do after one write.
#[derive(Clone, Copy, Debug, PartialEq, Eq, Structural)]
pub enum SendStep {
    /// Every byte is out.
    Complete,
    /// Write the rest.
    Again,
    /// Wait until the socket accepts more, then write the rest.
    WaitWritable,
    /// Give up with this fault.
    Reject(FrameFault),
    /// Give up with the failure of the call.
    Fail,
}

/// A frame on its way out.
#[derive(Clone, Debug, PartialEq, Eq)]
pub struct FrameWriter {
    bytes: Vec<u8>,
    offset: usize,
    descriptor_pending: bool,
}

impl FrameWriter {
    /// All bytes of the frame.
    pub closed spec fn bytes(&self) -> Seq<u8> {
        self.bytes@
    }

    /// How many of them are out.
    pub closed spec fn sent(&self) -> nat {
        self.offset as nat
    }

    /// Whether the next write also passes the descriptor.
    pub closed spec fn descriptor_pending(&self) -> bool {
        self.descriptor_pending
    }

    /// No more bytes are out than there are.
    pub open spec fn wf(&self) -> bool {
        self.sent() <= self.bytes().len()
    }

    /// Starts sending a frame, with a descriptor or without.
    pub fn start(message: &Frame, order: ByteOrder, with_descriptor: bool) -> (result: Result<
        FrameWriter,
        FrameFault,
    >)
        ensures
            match result {
                Ok(writer) => {
                    &&& message.payload@.len() <= MAX_PAYLOAD
                    &&& writer.wf()
                    &&& writer.bytes() == frame::frame_bytes(order, message@)
                    &&& writer.sent() == 0
                    &&& writer.descriptor_pending() == with_descriptor
                },
                Err(fault) => message.payload@.len() > MAX_PAYLOAD && fault
                    == FrameFault::OversizePayload,
            },
    {
        match message.encode_in(order) {
            Ok(bytes) => Ok(FrameWriter { bytes, offset: 0, descriptor_pending: with_descriptor }),
            Err(fault) => Err(fault),
        }
    }

    /// The bytes that the next write offers, and whether it passes the descriptor.
    pub fn pending(&self) -> (rest: (&[u8], bool))
        requires
            self.wf(),
        ensures
            rest.0@ == self.bytes().skip(self.sent() as int),
            rest.1 == self.descriptor_pending(),
    {
        let rest = vstd::slice::slice_subrange(self.bytes.as_slice(), self.offset, self.bytes.len());
        assert(rest@ =~= self.bytes().skip(self.sent() as int));
        (rest, self.descriptor_pending)
    }

    /// Accounts for one write. The descriptor leaves with the first bytes.
    pub fn after_write(&mut self, written: Written) -> (step: SendStep)
        requires
            old(self).wf(),
            old(self).sent() < old(self).bytes().len(),
            written matches Written::Moved(count) ==> old(self).sent() + count <= old(
                self,
            ).bytes().len(),
        ensures
            final(self).wf(),
            final(self).bytes() == old(self).bytes(),
            match written {
                Written::Moved(count) => if count > 0 {
                    &&& final(self).sent() == old(self).sent() + count
                    &&& !final(self).descriptor_pending()
                    &&& step == if final(self).sent() == final(self).bytes().len() {
                        SendStep::Complete
                    } else {
                        SendStep::Again
                    }
                } else {
                    *final(self) == *old(self) && step == SendStep::Reject(FrameFault::WriteZero)
                },
                Written::Failed(kind) => *final(self) == *old(self) && step == match kind {
                    ErrorKind::Interrupted => SendStep::Again,
                    ErrorKind::WouldBlock => SendStep::WaitWritable,
                    _ => SendStep::Fail,
                },
            },
    {
        match written {
            Written::Moved(count) => {
                if count == 0 {
                    return SendStep::Reject(FrameFault::WriteZero);
                }
                assert(self.offset + count <= self.bytes.len());
                self.offset = self.offset + count;
                self.descriptor_pending = false;
                if self.offset == self.bytes.len() {
                    SendStep::Complete
                } else {
                    SendStep::Again
                }
            },
            Written::Failed(ErrorKind::Interrupted) => SendStep::Again,
            Written::Failed(ErrorKind::WouldBlock) => SendStep::WaitWritable,
            Written::Failed(_) => SendStep::Fail,
        }
    }
}

/// What one read did.
#[derive(Clone, Copy, Debug, PartialEq, Eq, Structural)]
pub enum ReceiveStep {
    /// Every byte of the frame is here.
    Complete,
    /// Read on.
    Again,
    /// Wait for more bytes, then read on.
    WaitReadable,
    /// The stream ended between two frames.
    EndOfStream,
    /// Give up with this fault.
    Reject(FrameFault),
    /// Give up with the failure of the call.
    Fail,
}

/// A frame on its way in.
#[derive(Clone, Debug, PartialEq, Eq)]
pub struct FrameReader {
    order: ByteOrder,
    bytes: Vec<u8>,
    target: usize,
}

impl FrameReader {
    /// The bytes received so far.
    pub closed spec fn received(&self) -> Seq<u8> {
        self.bytes@
    }

    /// How many bytes make up the header, or the frame once the header is here.
    pub closed spec fn target(&self) -> nat {
        self.target as nat
    }

    /// The byte order of the header.
    pub closed spec fn order(&self) -> ByteOrder {
        self.order
    }

    /// Either the header is incomplete, or the target is the length that it
    /// announces, which is within the bound.
    pub open spec fn wf(&self) -> bool {
        &&& self.received().len() <= self.target()
        &&& self.received().len() < HEADER ==> self.target() == HEADER
        &&& self.received().len() >= HEADER ==> {
            &&& wire::u32_at(self.order(), self.received(), 8) <= MAX_PAYLOAD
            &&& self.target() == HEADER + wire::u32_at(self.order(), self.received(), 8)
        }
    }

    /// Starts receiving a frame.
    pub fn start(order: ByteOrder) -> (reader: FrameReader)
        ensures
            reader.wf(),
            reader.order() == order,
            reader.received() == Seq::<u8>::empty(),
            reader.target() == HEADER,
    {
        FrameReader { order, bytes: Vec::new(), target: HEADER }
    }

    /// How many bytes the next read may take.
    pub fn wanted(&self) -> (count: usize)
        requires
            self.wf(),
        ensures
            count == self.target() - self.received().len(),
    {
        self.target - self.bytes.len()
    }

    /// Accounts for bytes that one read took. Once the header is complete, the
    /// payload length that it announces is checked before any more is read.
    pub fn absorb(&mut self, chunk: &[u8]) -> (step: ReceiveStep)
        requires
            old(self).wf(),
            0 < chunk@.len() <= old(self).target() - old(self).received().len(),
        ensures
            final(self).received() == old(self).received() + chunk@,
            final(self).order() == old(self).order(),
            ({
                let received = final(self).received();
                let oversize = received.len() == HEADER && wire::u32_at(
                    old(self).order(),
                    received,
                    8,
                ) > MAX_PAYLOAD;
                if oversize {
                    step == ReceiveStep::Reject(FrameFault::OversizeLength)
                } else {
                    &&& final(self).wf()
                    &&& step == if received.len() == final(self).target() {
                        ReceiveStep::Complete
                    } else {
                        ReceiveStep::Again
                    }
                }
            }),
    {
        proof {
            assert(forall|i: int|
                0 <= i < self.bytes@.len() ==> self.bytes@[i] == (self.bytes@ + chunk@)[i]);
        }
        self.bytes.extend_from_slice(chunk);
        assert(self.bytes@ =~= old(self).bytes@ + chunk@);
        if self.bytes.len() == HEADER {
            let length: usize = wire::get_u32(self.bytes.as_slice(), self.order, 8) as usize;
            if length > MAX_PAYLOAD {
                return ReceiveStep::Reject(FrameFault::OversizeLength);
            }
            self.target = HEADER + length;
        }
        if self.bytes.len() == self.target {
            ReceiveStep::Complete
        } else {
            ReceiveStep::Again
        }
    }

    /// What the end of the stream means here.
    pub fn end_of_stream(&self) -> (step: ReceiveStep)
        ensures
            step == if self.received().len() == 0 {
                ReceiveStep::EndOfStream
            } else {
                ReceiveStep::Reject(FrameFault::Partial)
            },
    {
        if self.bytes.len() == 0 {
            ReceiveStep::EndOfStream
        } else {
            ReceiveStep::Reject(FrameFault::Partial)
        }
    }

    /// What a failed read means here.
    pub fn failed(&self, kind: ErrorKind) -> (step: ReceiveStep)
        ensures
            step == match kind {
                ErrorKind::Interrupted => ReceiveStep::Again,
                ErrorKind::WouldBlock => ReceiveStep::WaitReadable,
                _ => ReceiveStep::Fail,
            },
    {
        match kind {
            ErrorKind::Interrupted => ReceiveStep::Again,
            ErrorKind::WouldBlock => ReceiveStep::WaitReadable,
            _ => ReceiveStep::Fail,
        }
    }

    /// Decodes the complete frame. At most one descriptor may have come with it.
    pub fn finish(&self, descriptors: usize) -> (result: Result<Frame, FrameFault>)
        ensures
            descriptors > 1 ==> result == Err::<Frame, FrameFault>(
                FrameFault::MultipleDescriptors,
            ),
            descriptors <= 1 ==> match (result, frame::frame_parse(
                self.order(),
                self.received(),
            )) {
                (Ok(message), Ok(model)) => message@ == model,
                (Err(fault), Err(expected)) => fault == expected,
                _ => false,
            },
    {
        if descriptors > 1 {
            return Err(FrameFault::MultipleDescriptors);
        }
        Frame::decode_in(self.bytes.as_slice(), self.order)
    }
}

/// A frame that was sent is received complete, and as it was sent, however the
/// stream cut it up: once a reader in the same byte order holds all of its bytes,
/// it wants no more of them and they decode to the frame.
pub proof fn receive_inverts_send(reader: FrameReader, message: frame::FrameModel)
    requires
        message.payload.len() <= MAX_PAYLOAD,
        reader.wf(),
        reader.received() == frame::frame_bytes(reader.order(), message),
    ensures
        reader.received().len() == reader.target(),
        frame::frame_parse(reader.order(), reader.received()) == Ok::<
            frame::FrameModel,
            FrameFault,
        >(message),
{
    frame::decode_inverts_encode(reader.order(), message);
}

/// A reader never asks for bytes beyond the frame: while it holds a proper prefix of
/// a sent frame, what it wants is within the rest of it.
pub proof fn reader_stays_within_frame(
    reader: FrameReader,
    message: frame::FrameModel,
    rest: Seq<u8>,
)
    requires
        message.payload.len() <= MAX_PAYLOAD,
        reader.wf(),
        reader.received() + rest == frame::frame_bytes(reader.order(), message),
    ensures
        reader.target() - reader.received().len() <= rest.len(),
{
    let bytes = frame::frame_bytes(reader.order(), message);
    frame::decode_inverts_encode(reader.order(), message);
    if reader.received().len() >= HEADER {
        assert(reader.received().subrange(8, 12) =~= bytes.subrange(8, 12));
        wire::u32_at_offset(reader.order(), bytes, 8, bytes.subrange(8, 12));
        wire::u32_at_offset(reader.order(), reader.received(), 8, bytes.subrange(8, 12));
    }
}

/// How many descriptors one ancillary record passes. `rights` says whether the
/// record passes descriptors at all; the lengths are the record's and that of a
/// record without data.
pub fn record_descriptors(rights: bool, record_length: usize, empty_length: usize) -> (result:
    Result<usize, FrameFault>)
    ensures
        ({
            let data = if record_length > empty_length {
                record_length - empty_length
            } else {
                0
            };
            match result {
                Ok(count) => rights && data > 0 && data == count * DESCRIPTOR_SIZE,
                Err(FrameFault::UnexpectedAncillary) => !rights,
                Err(fault) => fault == FrameFault::InvalidDescriptors && rights && (data == 0
                    || data % DESCRIPTOR_SIZE as int != 0),
            }
        }),
{
    if !rights {
        return Err(FrameFault::UnexpectedAncillary);
    }
    let data: usize = record_length.saturating_sub(empty_length);
    if data == 0 || data % DESCRIPTOR_SIZE != 0 {
        return Err(FrameFault::InvalidDescriptors);
    }
    Ok(data / DESCRIPTOR_SIZE)
}

/// Whether a message came whole.
pub fn check_truncation(truncated: bool) -> (result: Result<(), FrameFault>)
    ensures
        result == if truncated {
            Err::<(), FrameFault>(FrameFault::Truncated)
        } else {
            Ok(())
        },
{
    if truncated {
        Err(FrameFault::Truncated)
    } else {
        Ok(())
    }
}

/// The poll timeout, in milliseconds, when this many nanoseconds are left.
pub open spec fn poll_timeout_of(remaining: nat) -> int {
    let millis = remaining / 1_000_000;
    if millis < 1 {
        1
    } else if millis > i32::MAX {
        i32::MAX as int
    } else {
        millis as int
    }
}

/// The poll timeout, in milliseconds, when this many nanoseconds of the frame's
/// time are left.
pub fn wait_timeout(remaining: u128) -> (result: Result<i32, FrameFault>)
    ensures
        match result {
            Ok(timeout) => remaining > 0 && timeout == poll_timeout_of(remaining as nat),
            Err(fault) => remaining == 0 && fault == FrameFault::Deadline,
        },
{
    if remaining == 0 {
        return Err(FrameFault::Deadline);
    }
    let millis: u128 = remaining / 1_000_000;
    if millis < 1 {
        Ok(1)
    } else if millis > 0x7fff_ffff {
        Ok(0x7fff_ffff)
    } else {
        Ok(millis as i32)
    }
}

/// What one poll for readiness means.
#[derive(Clone, Copy, Debug, PartialEq, Eq, Structural)]
pub enum WaitStep {
    /// The socket is ready.
    Ready,
    /// Look at the time and poll again.
    Again,
    /// Give up with this fault.
    Reject(FrameFault),
    /// Give up with the failure of the call.
    Fail,
}

/// What one poll means, from the number of ready descriptors, whether the socket
/// reported an error, and the category of the call's own failure.
pub fn after_poll(ready: i32, socket_error: bool, failure: ErrorKind) -> (step: WaitStep)
    ensures
        step == if ready > 0 {
            if socket_error {
                WaitStep::Reject(FrameFault::SocketFailed)
            } else {
                WaitStep::Ready
            }
        } else if ready == 0 || failure == ErrorKind::Interrupted {
            WaitStep::Again
        } else {
            WaitStep::Fail
        },
{
    if ready > 0 {
        if socket_error {
            return WaitStep::Reject(FrameFault::SocketFailed);
        }
        return WaitStep::Ready;
    }
    if ready == 0 {
        return WaitStep::Again;
    }
    match failure {
        ErrorKind::Interrupted => WaitStep::Again,
        _ => WaitStep::Fail,
    }
}

} // verus!
