//! What holds of frames and texts on their way: a frame arrives as it was sent, however the
//! socket cuts it up, and numbers and wide texts can be read back.
use crate::fault::ErrorKind;
use crate::frame::{self, Frame, FrameFault};
use crate::text;
use crate::transfer::{
    self, FrameReader, FrameWriter, ReceiveStep, SendStep, Written,
};
use crate::wide_text;
use crate::wire::ByteOrder;
use vstd::prelude::*;

verus! {

/// A frame is decoded as it was encoded, field for field; one whose payload is over 64 KiB is
/// not encoded.
pub proof fn frame_arrives_as_sent(
    message: &Frame,
    order: ByteOrder,
    encoded: Result<Vec<u8>, FrameFault>,
    bytes: &[u8],
    decoded: Result<Frame, FrameFault>,
)
    requires
        call_ensures(Frame::encode_in, (message, order), encoded),
        encoded is Ok ==> bytes@ == encoded->Ok_0@,
        call_ensures(Frame::decode_in, (bytes, order), decoded),
    ensures
        encoded is Ok <==> message.payload@.len() <= 65536,
        encoded matches Ok(sent) ==> sent@.len() == 32 + message.payload@.len() && (
        decoded matches Ok(received) && received.kind == message.kind && received.request
            == message.request && received.session == message.session && received.code
            == message.code && received.aux == message.aux && received.payload@
            == message.payload@),
{
    if encoded is Ok {
        frame::decode_inverts_encode(order, message@);
    }
}

/// Bytes that are no frame are refused: too few for a header, or not as many as the header
/// says.
pub proof fn broken_frames_are_refused(
    bytes: &[u8],
    order: ByteOrder,
    decoded: Result<Frame, FrameFault>,
)
    requires
        call_ensures(Frame::decode_in, (bytes, order), decoded),
    ensures
        bytes@.len() < 32 ==> decoded is Err,
        bytes@.len() > 32 + 65536 ==> decoded is Err,
        decoded matches Ok(message) ==> message.payload@ == bytes@.skip(32) && message.payload@.len()
            <= 65536,
{
}

/// What a writer offers and what went out are together the frame: every byte goes out once, in
/// order, and the descriptor goes with the first of them.
pub proof fn writer_sends_every_byte_once(
    writer: &mut FrameWriter,
    offered: (&[u8], bool),
    count: usize,
    step: SendStep,
    rest: (&[u8], bool),
)
    requires
        old(writer).wf(),
        call_ensures(FrameWriter::pending, (&*old(writer),), offered),
        0 < count <= offered.0@.len(),
        call_ensures(FrameWriter::after_write, (writer, Written::Moved(count)), step),
        call_ensures(FrameWriter::pending, (&*final(writer),), rest),
    ensures
        offered.0@ == offered.0@.take(count as int) + rest.0@,
        !rest.1,
        step is Complete <==> rest.0@.len() == 0,
        step is Again <==> rest.0@.len() > 0,
{
    assert(offered.0@.skip(count as int) =~= rest.0@);
    assert(offered.0@ =~= offered.0@.take(count as int) + offered.0@.skip(count as int));
}

/// A frame starts whole, with its descriptor.
pub proof fn writer_starts_with_the_frame(
    message: &Frame,
    order: ByteOrder,
    with_descriptor: bool,
    writer: FrameWriter,
    offered: (&[u8], bool),
    encoded: Vec<u8>,
)
    requires
        call_ensures(
            FrameWriter::start,
            (message, order, with_descriptor),
            Ok::<FrameWriter, FrameFault>(writer),
        ),
        call_ensures(FrameWriter::pending, (&writer,), offered),
        call_ensures(Frame::encode_in, (message, order), Ok::<Vec<u8>, FrameFault>(encoded)),
    ensures
        offered.0@ == encoded@,
        offered.1 == with_descriptor,
{
    assert(offered.0@ =~= encoded@);
}

/// A call that was interrupted or could not go on loses nothing; nothing written is a fault.
pub proof fn writer_survives_interruptions(
    writer: &mut FrameWriter,
    written: Written,
    step: SendStep,
)
    requires
        call_ensures(FrameWriter::after_write, (writer, written), step),
        written is Failed || written == Written::Moved(0),
    ensures
        *final(writer) == *old(writer),
        written == Written::Failed(ErrorKind::Interrupted) ==> step is Again,
        written == Written::Failed(ErrorKind::WouldBlock) ==> step is WaitWritable,
        written matches Written::Failed(kind) && kind != ErrorKind::Interrupted && kind
            != ErrorKind::WouldBlock ==> step is Fail,
        written == Written::Moved(0) ==> step is Reject,
{
}

/// A reader that got all bytes of a frame, in whatever pieces, gives the frame that was sent.
pub proof fn reader_gives_the_sent_frame(
    message: &Frame,
    order: ByteOrder,
    encoded: Vec<u8>,
    reader: &mut FrameReader,
    chunk: &[u8],
    step: ReceiveStep,
    result: Result<Frame, FrameFault>,
)
    requires
        call_ensures(Frame::encode_in, (message, order), Ok::<Vec<u8>, FrameFault>(encoded)),
        old(reader).wf(),
        old(reader).order() == order,
        old(reader).received() + chunk@ == encoded@,
        0 < chunk@.len() <= old(reader).target() - old(reader).received().len(),
        call_ensures(FrameReader::absorb, (reader, chunk), step),
        call_ensures(FrameReader::finish, (&*final(reader), 1usize), result),
    ensures
        step is Complete,
        result matches Ok(received) && received.kind == message.kind && received.request
            == message.request && received.session == message.session && received.code
            == message.code && received.aux == message.aux && received.payload@
            == message.payload@,
{
    frame::decode_inverts_encode(order, message@);
    assert(final(reader).received() == frame::frame_bytes(order, message@));
    transfer::receive_inverts_send(*final(reader), message@);
}

/// The end of the stream is clean only between two frames.
pub proof fn cut_frames_are_told(reader: &FrameReader, step: ReceiveStep)
    requires
        call_ensures(FrameReader::end_of_stream, (reader,), step),
    ensures
        reader.received().len() == 0 <==> step is EndOfStream,
        reader.received().len() > 0 ==> step == ReceiveStep::Reject(FrameFault::Partial),
{
}

/// A wait ends with the frame's time: it is never longer than what is left of it, but for the
/// least that a wait can be.
pub proof fn waits_end_with_the_frame(remaining: u128, result: Result<i32, FrameFault>)
    requires
        call_ensures(transfer::wait_timeout, (remaining,), result),
    ensures
        remaining == 0 <==> result == Err::<i32, FrameFault>(FrameFault::Deadline),
        result matches Ok(timeout) ==> timeout >= 1 && (timeout * 1_000_000 <= remaining
            || timeout == 1),
{
    if remaining > 0 {
        let millis = remaining as nat / 1_000_000;
        assert(millis * 1_000_000 <= remaining);
    }
}

/// The number that digits stand for.
pub open spec fn value_of(digits: Seq<char>, base: nat) -> int
    decreases digits.len(),
{
    if digits.len() == 0 {
        0
    } else {
        let code = digits.last() as u32 as int;
        base * value_of(digits.drop_last(), base) + if code >= 97 {
            code - 87
        } else {
            code - 48
        }
    }
}

/// Digits stand for the number that they were made of.
proof fn digits_stand_for_the_number(value: nat, base: nat)
    requires
        2 <= base <= 16,
    ensures
        value_of(text::digits_of(value, base), base) == value,
        text::digits_of(value, base).len() > 0,
        value > 0 ==> text::digits_of(value, base)[0] != '0',
    decreases value,
{
    let digits = text::digits_of(value, base);
    if value < base {
        assert(digits.drop_last() =~= Seq::<char>::empty());
        assert(digits.last() == text::digit_of(value));
        assert(value_of(Seq::<char>::empty(), base) == 0);
        assert(value_of(digits, base) == base * 0 + value);
    } else {
        assert(value / base < value) by (nonlinear_arith)
            requires
                value >= base,
                base >= 2,
        ;
        assert(value / base > 0) by (nonlinear_arith)
            requires
                value >= base,
                base >= 2,
        ;
        digits_stand_for_the_number(value / base, base);
        assert(digits.drop_last() =~= text::digits_of(value / base, base));
        assert(digits.last() == text::digit_of(value % base));
        assert(value % base < base) by (nonlinear_arith)
            requires
                base >= 2,
        ;
        assert(value == base * (value / base) + value % base) by (nonlinear_arith)
            requires
                base >= 2,
        ;
        assert(digits[0] == digits.drop_last()[0]);
    }
}

/// A number as text can be read back, without a zero in front.
pub proof fn numbers_can_be_read_back(value: i64, shown: String)
    requires
        call_ensures(text::decimal, (value,), shown),
    ensures
        value >= 0 ==> value_of(shown@, 10) == value,
        value < 0 ==> shown@.len() > 1 && shown@[0] == '-' && value_of(shown@.skip(1), 10)
            == -value,
        value > 0 ==> shown@[0] != '0',
{
    if value < 0 {
        digits_stand_for_the_number((-value) as nat, 10);
        assert(shown@.skip(1) =~= text::digits_of((-value) as nat, 10));
    } else {
        digits_stand_for_the_number(value as nat, 10);
    }
}

/// The units of a character give it back: one unit that is no surrogate is the character's
/// number, and a pair is a high surrogate before a low one, ten bits in each.
pub proof fn wide_units_give_the_character_back(scalar: u32)
    requires
        scalar <= 0x10ffff,
        !(0xd800 <= scalar <= 0xdfff),
    ensures
        ({
            let units = wide_text::units_of(scalar);
            &&& units.len() == 1 || units.len() == 2
            &&& units.len() == 1 ==> units[0] == scalar && !(0xd800 <= units[0] <= 0xdfff)
            &&& units.len() == 2 ==> {
                &&& 0xd800 <= units[0] <= 0xdbff
                &&& 0xdc00 <= units[1] <= 0xdfff
                &&& 0x10000 + (units[0] - 0xd800) * 0x400 + (units[1] - 0xdc00) == scalar
            }
        }),
{
}

/// Whatever a text is recoded to, an ASCII text is recoded unit by unit, and bytes that are no
/// text are not recoded.
pub proof fn plain_texts_are_recoded(bytes: Vec<u8>, result: Option<Vec<u16>>)
    requires
        call_ensures(wide_text::wide_text, (&bytes,), result),
    ensures
        result is Some <==> vstd::utf8::valid_utf8(bytes@),
        (forall|i: int| 0 <= i < bytes@.len() ==> (#[trigger] bytes@[i]) < 128) ==> (
        result matches Some(units) && units@.len() == bytes@.len() && forall|i: int|
            0 <= i < bytes@.len() ==> (#[trigger] units@[i]) == bytes@[i]),
{
    if forall|i: int| 0 <= i < bytes@.len() ==> (#[trigger] bytes@[i]) < 128 {
        wide_text::plain_text_stays_itself(bytes@);
    }
}

/// A frame comes with at most one descriptor, and ancillary data of another kind or size is
/// refused.
pub proof fn descriptors_are_counted(
    rights: bool,
    record_length: usize,
    empty_length: usize,
    result: Result<usize, FrameFault>,
)
    requires
        call_ensures(
            transfer::record_descriptors,
            (rights, record_length, empty_length),
            result,
        ),
        record_length >= empty_length,
    ensures
        result matches Ok(count) ==> rights && count > 0 && record_length == empty_length + 4
            * count,
        !rights <==> result == Err::<usize, FrameFault>(FrameFault::UnexpectedAncillary),
        rights && record_length > empty_length && (record_length - empty_length) % 4 == 0
            ==> result is Ok,
{
}

/// A frame with more than one descriptor is refused, whatever it holds.
pub proof fn second_descriptor_is_refused(
    reader: &FrameReader,
    descriptors: usize,
    result: Result<Frame, FrameFault>,
)
    requires
        call_ensures(FrameReader::finish, (reader, descriptors), result),
        descriptors > 1,
    ensures
        result == Err::<Frame, FrameFault>(FrameFault::MultipleDescriptors),
{
}

/// A socket is used when it is ready and sound; without readiness or after an interruption it
/// is looked at again.
pub proof fn sockets_are_used_when_ready(
    ready: i32,
    socket_error: bool,
    failure: ErrorKind,
    step: transfer::WaitStep,
)
    requires
        call_ensures(transfer::after_poll, (ready, socket_error, failure), step),
    ensures
        step is Ready <==> ready > 0 && !socket_error,
        step is Reject <==> ready > 0 && socket_error,
        step is Again <==> ready == 0 || ready < 0 && failure == ErrorKind::Interrupted,
{
}

} // verus!
