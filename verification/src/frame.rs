//! Frames of the control socket between a controller and its broker.
//!
//! A frame is a header of fixed length, followed by a bounded payload. The
//! integers of the header are in the machine's own byte order: both ends run on
//! one machine.
use crate::fault::{ErrorKind, IoError};
use crate::wire::{self, ByteOrder};
use vstd::prelude::*;
use vstd::slice::slice_subrange;
use vstd::slice::slice_to_vec;

verus! {

pub const MAGIC: u32 = 0x4258_5450;

pub const VERSION: u16 = 1;

pub const HEADER: usize = 32;

pub const MAX_PAYLOAD: usize = 65536;

pub const HELLO: u16 = 1;

pub const SPAWN: u16 = 2;

pub const SPAWN_OK: u16 = 3;

pub const ERROR: u16 = 4;

pub const CLOSE: u16 = 5;

pub const CLOSE_RESULT: u16 = 6;

pub const EXIT: u16 = 7;

pub const RELEASE: u16 = 8;

pub const RELEASE_RESULT: u16 = 9;

pub const STATS: u16 = 10;

pub const STATS_RESULT: u16 = 11;

pub const SHUTDOWN: u16 = 12;

pub const SHUTDOWN_RESULT: u16 = 13;

pub const SIGNAL: u16 = 14;

pub const SIGNAL_RESULT: u16 = 15;

pub const ERROR_PROTOCOL: u32 = 1;

pub const ERROR_SPAWN: u32 = 2;

pub const ERROR_POST_EXEC: u32 = 3;

pub const CLOSE_KILLED: u32 = 1;

pub const CLOSE_ALREADY_EXITED: u32 = 2;

pub const CLOSE_STALE: u32 = 3;

/// The end of the control socket that reports a fault.
#[derive(Clone, Copy, Debug, PartialEq, Eq, Structural)]
pub enum Side {
    Broker,
    Controller,
}

/// Why a frame was not sent, received or decoded.
#[derive(Clone, Copy, Debug, PartialEq, Eq, Structural)]
pub enum FrameFault {
    /// A payload to send exceeds the bound.
    OversizePayload,
    /// A received header announces a payload over the bound.
    OversizeLength,
    /// Fewer bytes than a header.
    Short,
    /// Wrong magic or version, or a payload length over the bound.
    Header,
    /// The payload length disagrees with the frame's length.
    Length,
    /// The stream ended inside a frame.
    Partial,
    /// A write moved no byte.
    WriteZero,
    /// More than one descriptor came with a frame.
    MultipleDescriptors,
    /// Ancillary data that passes no descriptor.
    UnexpectedAncillary,
    /// Ancillary data that is no sequence of descriptors.
    InvalidDescriptors,
    /// The kernel truncated the message.
    Truncated,
    /// The frame did not complete in time.
    Deadline,
    /// The control socket reported an error.
    SocketFailed,
}

/// The category that goes with a fault.
pub open spec fn fault_kind(fault: FrameFault) -> ErrorKind {
    match fault {
        FrameFault::OversizePayload => ErrorKind::InvalidInput,
        FrameFault::Partial => ErrorKind::UnexpectedEof,
        FrameFault::WriteZero => ErrorKind::WriteZero,
        FrameFault::Deadline => ErrorKind::TimedOut,
        FrameFault::SocketFailed => ErrorKind::BrokenPipe,
        _ => ErrorKind::InvalidData,
    }
}

/// The text that goes with a fault.
pub open spec fn fault_text(fault: FrameFault, side: Side) -> Seq<char> {
    match (fault, side) {
        (FrameFault::OversizePayload | FrameFault::OversizeLength, Side::Broker) =>
            "protocol payload exceeds bound"@,
        (FrameFault::OversizePayload | FrameFault::OversizeLength, Side::Controller) =>
            "broker payload exceeds bound"@,
        (FrameFault::Short, Side::Broker) => "short protocol frame"@,
        (FrameFault::Short, Side::Controller) => "short broker frame"@,
        (FrameFault::Header, Side::Broker) => "protocol header rejected"@,
        (FrameFault::Header, Side::Controller) => "broker header rejected"@,
        (FrameFault::Length, Side::Broker) => "protocol frame length mismatch"@,
        (FrameFault::Length, Side::Controller) => "broker frame length mismatch"@,
        (FrameFault::Partial, Side::Broker) => "partial protocol frame"@,
        (FrameFault::Partial, Side::Controller) => "partial broker frame"@,
        (FrameFault::WriteZero, Side::Broker) => "control write returned zero"@,
        (FrameFault::WriteZero, Side::Controller) => "broker write returned zero"@,
        (FrameFault::MultipleDescriptors, Side::Broker) =>
            "protocol sent multiple file descriptors"@,
        (FrameFault::MultipleDescriptors, Side::Controller) =>
            "broker sent multiple file descriptors"@,
        (FrameFault::UnexpectedAncillary, Side::Broker) => "unexpected protocol ancillary data"@,
        (FrameFault::UnexpectedAncillary, Side::Controller) => "unexpected broker ancillary data"@,
        (FrameFault::InvalidDescriptors, Side::Broker) => "invalid protocol descriptor payload"@,
        (FrameFault::InvalidDescriptors, Side::Controller) => "invalid broker descriptor payload"@,
        (FrameFault::Truncated, Side::Broker) => "truncated protocol frame or ancillary data"@,
        (FrameFault::Truncated, Side::Controller) => "truncated broker frame or ancillary data"@,
        (FrameFault::Deadline, Side::Broker) => "protocol frame deadline exceeded"@,
        (FrameFault::Deadline, Side::Controller) => "broker frame deadline exceeded"@,
        (FrameFault::SocketFailed, Side::Broker) => "protocol control socket failed"@,
        (FrameFault::SocketFailed, Side::Controller) => "broker control socket failed"@,
    }
}

impl FrameFault {
    /// The category of the fault.
    pub fn kind(&self) -> (kind: ErrorKind)
        ensures
            kind == fault_kind(*self),
    {
        match *self {
            FrameFault::OversizePayload => ErrorKind::InvalidInput,
            FrameFault::Partial => ErrorKind::UnexpectedEof,
            FrameFault::WriteZero => ErrorKind::WriteZero,
            FrameFault::Deadline => ErrorKind::TimedOut,
            FrameFault::SocketFailed => ErrorKind::BrokenPipe,
            _ => ErrorKind::InvalidData,
        }
    }

    /// The text of the fault at one end of the socket.
    pub fn message(&self, side: Side) -> (text: &'static str)
        ensures
            text@ == fault_text(*self, side),
    {
        let broker = match side {
            Side::Broker => true,
            Side::Controller => false,
        };
        match *self {
            FrameFault::OversizePayload | FrameFault::OversizeLength => if broker {
                "protocol payload exceeds bound"
            } else {
                "broker payload exceeds bound"
            },
            FrameFault::Short => if broker {
                "short protocol frame"
            } else {
                "short broker frame"
            },
            FrameFault::Header => if broker {
                "protocol header rejected"
            } else {
                "broker header rejected"
            },
            FrameFault::Length => if broker {
                "protocol frame length mismatch"
            } else {
                "broker frame length mismatch"
            },
            FrameFault::Partial => if broker {
                "partial protocol frame"
            } else {
                "partial broker frame"
            },
            FrameFault::WriteZero => if broker {
                "control write returned zero"
            } else {
                "broker write returned zero"
            },
            FrameFault::MultipleDescriptors => if broker {
                "protocol sent multiple file descriptors"
            } else {
                "broker sent multiple file descriptors"
            },
            FrameFault::UnexpectedAncillary => if broker {
                "unexpected protocol ancillary data"
            } else {
                "unexpected broker ancillary data"
            },
            FrameFault::InvalidDescriptors => if broker {
                "invalid protocol descriptor payload"
            } else {
                "invalid broker descriptor payload"
            },
            FrameFault::Truncated => if broker {
                "truncated protocol frame or ancillary data"
            } else {
                "truncated broker frame or ancillary data"
            },
            FrameFault::Deadline => if broker {
                "protocol frame deadline exceeded"
            } else {
                "broker frame deadline exceeded"
            },
            FrameFault::SocketFailed => if broker {
                "protocol control socket failed"
            } else {
                "broker control socket failed"
            },
        }
    }

    /// The fault as an input or output failure.
    pub fn error(&self, side: Side) -> (error: IoError)
        ensures
            error.is_simple(fault_kind(*self), fault_text(*self, side)),
    {
        IoError::new(self.kind(), self.message(side))
    }
}

/// One message of the control protocol.
#[derive(Clone, Debug, PartialEq, Eq)]
pub struct Frame {
    pub kind: u16,
    pub request: u32,
    pub session: u64,
    pub code: i32,
    pub aux: u32,
    pub payload: Vec<u8>,
}

/// A frame with its payload as a sequence.
#[verifier::ext_equal]
pub struct FrameModel {
    pub kind: u16,
    pub request: u32,
    pub session: u64,
    pub code: i32,
    pub aux: u32,
    pub payload: Seq<u8>,
}

impl View for Frame {
    type V = FrameModel;

    open spec fn view(&self) -> FrameModel {
        FrameModel {
            kind: self.kind,
            request: self.request,
            session: self.session,
            code: self.code,
            aux: self.aux,
            payload: self.payload@,
        }
    }
}

/// A frame of the given kind with everything else zero or empty.
pub open spec fn bare(kind: u16) -> FrameModel {
    FrameModel { kind, request: 0, session: 0, code: 0, aux: 0, payload: Seq::empty() }
}

/// The header and payload of a frame as they go over the socket.
pub open spec fn frame_bytes(order: ByteOrder, frame: FrameModel) -> Seq<u8> {
    header_bytes(order, frame) + frame.payload
}

/// The header of a frame.
pub open spec fn header_bytes(order: ByteOrder, frame: FrameModel) -> Seq<u8> {
    wire::u32_bytes(order, MAGIC) + wire::u16_bytes(order, VERSION) + wire::u16_bytes(
        order,
        frame.kind,
    ) + wire::u32_bytes(order, frame.payload.len() as u32) + wire::u32_bytes(order, frame.request)
        + wire::u64_bytes(order, frame.session) + wire::u32_bytes(
        order,
        wire::i32_bits(frame.code),
    ) + wire::u32_bytes(order, frame.aux)
}

/// What a sequence of bytes decodes to.
pub open spec fn frame_parse(order: ByteOrder, bytes: Seq<u8>) -> Result<FrameModel, FrameFault> {
    if bytes.len() < HEADER {
        Err(FrameFault::Short)
    } else if wire::u32_at(order, bytes, 0) != MAGIC || wire::u16_at(order, bytes, 4) != VERSION
        || wire::u32_at(order, bytes, 8) > MAX_PAYLOAD {
        Err(FrameFault::Header)
    } else if bytes.len() != HEADER + wire::u32_at(order, bytes, 8) {
        Err(FrameFault::Length)
    } else {
        Ok(
            FrameModel {
                kind: wire::u16_at(order, bytes, 6),
                request: wire::u32_at(order, bytes, 12),
                session: wire::u64_at(order, bytes, 16),
                code: wire::i32_of_bits(wire::u32_at(order, bytes, 24)),
                aux: wire::u32_at(order, bytes, 28),
                payload: bytes.skip(HEADER as int),
            },
        )
    }
}

impl Frame {
    /// A frame of the given kind with everything else zero or empty.
    pub fn new(kind: u16) -> (frame: Self)
        ensures
            frame@ == bare(kind),
    {
        Frame { kind, request: 0, session: 0, code: 0, aux: 0, payload: Vec::new() }
    }

    /// The bytes of the frame in the given order.
    pub fn encode_in(&self, order: ByteOrder) -> (result: Result<Vec<u8>, FrameFault>)
        ensures
            match result {
                Ok(bytes) => self.payload@.len() <= MAX_PAYLOAD && bytes@ == frame_bytes(
                    order,
                    self@,
                ),
                Err(fault) => self.payload@.len() > MAX_PAYLOAD && fault
                    == FrameFault::OversizePayload,
            },
    {
        if self.payload.len() > MAX_PAYLOAD {
            return Err(FrameFault::OversizePayload);
        }
        let mut bytes: Vec<u8> = Vec::new();
        wire::put_u32(&mut bytes, order, MAGIC);
        wire::put_u16(&mut bytes, order, VERSION);
        wire::put_u16(&mut bytes, order, self.kind);
        wire::put_u32(&mut bytes, order, self.payload.len() as u32);
        wire::put_u32(&mut bytes, order, self.request);
        wire::put_u64(&mut bytes, order, self.session);
        wire::put_i32(&mut bytes, order, self.code);
        wire::put_u32(&mut bytes, order, self.aux);
        assert(bytes@ =~= header_bytes(order, self@));
        bytes.extend_from_slice(self.payload.as_slice());
        assert(bytes@ =~= frame_bytes(order, self@));
        Ok(bytes)
    }

    /// The frame that the given bytes stand for.
    pub fn decode_in(bytes: &[u8], order: ByteOrder) -> (result: Result<Frame, FrameFault>)
        ensures
            match (result, frame_parse(order, bytes@)) {
                (Ok(frame), Ok(model)) => frame@ == model,
                (Err(fault), Err(expected)) => fault == expected,
                _ => false,
            },
    {
        if bytes.len() < HEADER {
            return Err(FrameFault::Short);
        }
        let magic: u32 = wire::get_u32(bytes, order, 0);
        let version: u16 = wire::get_u16(bytes, order, 4);
        let length: usize = wire::get_u32(bytes, order, 8) as usize;
        if magic != MAGIC || version != VERSION || length > MAX_PAYLOAD {
            return Err(FrameFault::Header);
        }
        if bytes.len() != HEADER + length {
            return Err(FrameFault::Length);
        }
        let payload = slice_to_vec(slice_subrange(bytes, HEADER, bytes.len()));
        assert(payload@ =~= bytes@.skip(HEADER as int));
        Ok(
            Frame {
                kind: wire::get_u16(bytes, order, 6),
                request: wire::get_u32(bytes, order, 12),
                session: wire::get_u64(bytes, order, 16),
                code: wire::get_i32(bytes, order, 24),
                aux: wire::get_u32(bytes, order, 28),
                payload,
            },
        )
    }

    /// The bytes of the frame in the machine's own order.
    pub fn encode(&self) -> (result: Result<Vec<u8>, FrameFault>)
        ensures
            match result {
                Ok(bytes) => self.payload@.len() <= MAX_PAYLOAD && exists|order: ByteOrder|
                    bytes@ == frame_bytes(order, self@),
                Err(fault) => self.payload@.len() > MAX_PAYLOAD && fault
                    == FrameFault::OversizePayload,
            },
    {
        self.encode_in(wire::native_order())
    }

    /// The frame that the given bytes stand for in the machine's own order.
    pub fn decode(bytes: &[u8]) -> (result: Result<Frame, FrameFault>)
        ensures
            exists|order: ByteOrder|
                match (result, #[trigger] frame_parse(order, bytes@)) {
                    (Ok(frame), Ok(model)) => frame@ == model,
                    (Err(fault), Err(expected)) => fault == expected,
                    _ => false,
                },
    {
        let order = wire::native_order();
        let result = Frame::decode_in(bytes, order);
        assert(match (result, frame_parse(order, bytes@)) {
            (Ok(frame), Ok(model)) => frame@ == model,
            (Err(fault), Err(expected)) => fault == expected,
            _ => false,
        });
        result
    }
}

/// Every field of the header stands at its place.
proof fn header_layout(order: ByteOrder, frame: FrameModel)
    ensures
        header_bytes(order, frame).len() == HEADER,
        header_bytes(order, frame).subrange(0, 4) == wire::u32_bytes(order, MAGIC),
        header_bytes(order, frame).subrange(4, 6) == wire::u16_bytes(order, VERSION),
        header_bytes(order, frame).subrange(6, 8) == wire::u16_bytes(order, frame.kind),
        header_bytes(order, frame).subrange(8, 12) == wire::u32_bytes(
            order,
            frame.payload.len() as u32,
        ),
        header_bytes(order, frame).subrange(12, 16) == wire::u32_bytes(order, frame.request),
        header_bytes(order, frame).subrange(16, 24) == wire::u64_bytes(order, frame.session),
        header_bytes(order, frame).subrange(24, 28) == wire::u32_bytes(
            order,
            wire::i32_bits(frame.code),
        ),
        header_bytes(order, frame).subrange(28, 32) == wire::u32_bytes(order, frame.aux),
{
    wire::u32_round_trip(order, MAGIC);
    wire::u16_round_trip(order, VERSION);
    wire::u16_round_trip(order, frame.kind);
    wire::u32_round_trip(order, frame.payload.len() as u32);
    wire::u32_round_trip(order, frame.request);
    wire::u64_round_trip(order, frame.session);
    wire::u32_round_trip(order, wire::i32_bits(frame.code));
    wire::u32_round_trip(order, frame.aux);
    eight_parts(
        wire::u32_bytes(order, MAGIC),
        wire::u16_bytes(order, VERSION),
        wire::u16_bytes(order, frame.kind),
        wire::u32_bytes(order, frame.payload.len() as u32),
        wire::u32_bytes(order, frame.request),
        wire::u64_bytes(order, frame.session),
        wire::u32_bytes(order, wire::i32_bits(frame.code)),
        wire::u32_bytes(order, frame.aux),
    );
}

/// Eight parts of a header's lengths stand one behind the other.
proof fn eight_parts(
    a: Seq<u8>,
    b: Seq<u8>,
    c: Seq<u8>,
    d: Seq<u8>,
    e: Seq<u8>,
    f: Seq<u8>,
    g: Seq<u8>,
    h: Seq<u8>,
)
    requires
        a.len() == 4,
        b.len() == 2,
        c.len() == 2,
        d.len() == 4,
        e.len() == 4,
        f.len() == 8,
        g.len() == 4,
        h.len() == 4,
    ensures
        ({
            let whole = a + b + c + d + e + f + g + h;
            &&& whole.len() == 32
            &&& whole.subrange(0, 4) == a
            &&& whole.subrange(4, 6) == b
            &&& whole.subrange(6, 8) == c
            &&& whole.subrange(8, 12) == d
            &&& whole.subrange(12, 16) == e
            &&& whole.subrange(16, 24) == f
            &&& whole.subrange(24, 28) == g
            &&& whole.subrange(28, 32) == h
        }),
{
    let whole = a + b + c + d + e + f + g + h;
    assert(whole.subrange(0, 4) =~= a);
    assert(whole.subrange(4, 6) =~= b);
    assert(whole.subrange(6, 8) =~= c);
    assert(whole.subrange(8, 12) =~= d);
    assert(whole.subrange(12, 16) =~= e);
    assert(whole.subrange(16, 24) =~= f);
    assert(whole.subrange(24, 28) =~= g);
    assert(whole.subrange(28, 32) =~= h);
}

/// Decoding what was encoded gives the frame back.
pub proof fn decode_inverts_encode(order: ByteOrder, frame: FrameModel)
    requires
        frame.payload.len() <= MAX_PAYLOAD,
    ensures
        frame_parse(order, frame_bytes(order, frame)) == Ok::<FrameModel, FrameFault>(frame),
{
    let bytes = frame_bytes(order, frame);
    let header = header_bytes(order, frame);
    header_layout(order, frame);
    assert forall|a: int, b: int| 0 <= a <= b <= HEADER implies #[trigger] bytes.subrange(a, b)
        == header.subrange(a, b) by {
        assert(bytes.subrange(a, b) =~= header.subrange(a, b));
    }
    wire::u32_round_trip(order, MAGIC);
    wire::u16_round_trip(order, VERSION);
    wire::u16_round_trip(order, frame.kind);
    wire::u32_round_trip(order, frame.payload.len() as u32);
    wire::u32_round_trip(order, frame.request);
    wire::u64_round_trip(order, frame.session);
    wire::u32_round_trip(order, wire::i32_bits(frame.code));
    wire::i32_round_trip(frame.code);
    wire::u32_round_trip(order, frame.aux);
    wire::u32_at_offset(order, bytes, 0, wire::u32_bytes(order, MAGIC));
    wire::u16_at_offset(order, bytes, 4, wire::u16_bytes(order, VERSION));
    wire::u16_at_offset(order, bytes, 6, wire::u16_bytes(order, frame.kind));
    wire::u32_at_offset(order, bytes, 8, wire::u32_bytes(order, frame.payload.len() as u32));
    wire::u32_at_offset(order, bytes, 12, wire::u32_bytes(order, frame.request));
    wire::u64_at_offset(order, bytes, 16, wire::u64_bytes(order, frame.session));
    wire::u32_at_offset(order, bytes, 24, wire::u32_bytes(order, wire::i32_bits(frame.code)));
    wire::u32_at_offset(order, bytes, 28, wire::u32_bytes(order, frame.aux));
    assert(bytes.skip(HEADER as int) =~= frame.payload);
}

/// Two sequences that agree on every field of a header agree on the header.
proof fn header_parts(header: Seq<u8>, bytes: Seq<u8>)
    requires
        header.len() == HEADER <= bytes.len(),
        header.subrange(0, 4) == bytes.subrange(0, 4),
        header.subrange(4, 6) == bytes.subrange(4, 6),
        header.subrange(6, 8) == bytes.subrange(6, 8),
        header.subrange(8, 12) == bytes.subrange(8, 12),
        header.subrange(12, 16) == bytes.subrange(12, 16),
        header.subrange(16, 24) == bytes.subrange(16, 24),
        header.subrange(24, 28) == bytes.subrange(24, 28),
        header.subrange(28, 32) == bytes.subrange(28, 32),
    ensures
        header == bytes.take(HEADER as int),
{
    assert(header =~= header.subrange(0, 4) + header.subrange(4, 6) + header.subrange(6, 8)
        + header.subrange(8, 12) + header.subrange(12, 16) + header.subrange(16, 24)
        + header.subrange(24, 28) + header.subrange(28, 32));
    assert(bytes.take(HEADER as int) =~= bytes.subrange(0, 4) + bytes.subrange(4, 6)
        + bytes.subrange(6, 8) + bytes.subrange(8, 12) + bytes.subrange(12, 16)
        + bytes.subrange(16, 24) + bytes.subrange(24, 28) + bytes.subrange(28, 32));
}

/// Only the encoding of a frame decodes to it.
pub proof fn encode_inverts_decode(order: ByteOrder, bytes: Seq<u8>)
    requires
        frame_parse(order, bytes) is Ok,
    ensures
        frame_bytes(order, frame_parse(order, bytes)->Ok_0) == bytes,
{
    let frame = frame_parse(order, bytes)->Ok_0;
    header_layout(order, frame);
    wire::u32_at_bytes(order, bytes, 0);
    wire::u16_at_bytes(order, bytes, 4);
    wire::u16_at_bytes(order, bytes, 6);
    wire::u32_at_bytes(order, bytes, 8);
    wire::u32_at_bytes(order, bytes, 12);
    wire::u64_at_bytes(order, bytes, 16);
    wire::u32_at_bytes(order, bytes, 24);
    wire::i32_bits_round_trip(wire::u32_at(order, bytes, 24));
    wire::u32_at_bytes(order, bytes, 28);
    assert(frame.payload.len() as u32 == wire::u32_at(order, bytes, 8));
    header_parts(header_bytes(order, frame), bytes);
    assert(bytes.take(HEADER as int) + bytes.skip(HEADER as int) =~= bytes);
}

/// Decodes whatever bytes come, and forgets the result: no frame stops the decoder.
pub fn broker_protocol_frame(bytes: &[u8]) {
    let _result = Frame::decode(bytes);
}

} // verus!
