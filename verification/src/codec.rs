//! Reading frames out of a buffer of bytes.

use crate::message::{
    from_le16, le16, lemma_le16_round_trip, MessageView, ProtocolMessage, START1, START2,
};
use actix_web::web::BytesMut;
use tokio_util::codec::Decoder;
use vstd::prelude::*;

verus! {

/// Why bytes are no frame.
#[derive(Debug, PartialEq, Eq)]
pub enum ParseError {
    /// The bytes do not begin with the two start bytes.
    InvalidStartByte,
    /// The frame is complete but carries another message's checksum.
    ChecksumError(ProtocolMessage),
}

/// Why reading a frame failed.
#[derive(Debug, PartialEq, Eq)]
pub enum PingError {
    ParseError(ParseError),
    /// Any other failure, as text.
    Other(String),
}

/// What a [`PingError`] holds.
pub enum PingErrorView {
    InvalidStartByte,
    ChecksumError(MessageView),
    Other(Seq<char>),
}

impl View for PingError {
    type V = PingErrorView;

    open spec fn view(&self) -> PingErrorView {
        match *self {
            PingError::ParseError(ParseError::InvalidStartByte) => PingErrorView::InvalidStartByte,
            PingError::ParseError(ParseError::ChecksumError(message)) => {
                PingErrorView::ChecksumError(message@)
            },
            PingError::Other(text) => PingErrorView::Other(text@),
        }
    }
}

/// What reading one frame comes to.
pub enum Decoded {
    /// A frame with the right checksum.
    Frame(MessageView),
    /// The bytes end before the frame does.
    Incomplete,
    /// The bytes are no frame.
    Failed(PingErrorView),
}

/// The length of the frame whose first eight bytes `bytes` begins with.
pub open spec fn frame_length(bytes: Seq<u8>) -> int {
    10 + from_le16(bytes[2], bytes[3])
}

/// The message in the complete frame that `bytes` begins with.
pub open spec fn frame_message(bytes: Seq<u8>) -> MessageView {
    let end = frame_length(bytes) - 2;
    MessageView {
        payload_length: from_le16(bytes[2], bytes[3]),
        message_id: from_le16(bytes[4], bytes[5]),
        src_device_id: bytes[6],
        dst_device_id: bytes[7],
        payload: bytes.subrange(8, end),
        checksum: from_le16(bytes[end], bytes[end + 1]),
    }
}

/// Whether `bytes` begins with the two start bytes, as far as it goes.
pub open spec fn starts_frame(bytes: Seq<u8>) -> bool {
    &&& bytes.len() > 0 ==> bytes[0] == START1
    &&& bytes.len() > 1 ==> bytes[1] == START2
}

/// Whether `bytes` begins with a complete frame.
pub open spec fn has_frame(bytes: Seq<u8>) -> bool {
    &&& starts_frame(bytes)
    &&& bytes.len() >= 8
    &&& bytes.len() >= frame_length(bytes)
}

/// What reading one frame out of `bytes` comes to.
pub open spec fn decoded(bytes: Seq<u8>) -> Decoded {
    if !starts_frame(bytes) {
        Decoded::Failed(PingErrorView::InvalidStartByte)
    } else if !has_frame(bytes) {
        Decoded::Incomplete
    } else if !frame_message(bytes).has_valid_crc() {
        Decoded::Failed(PingErrorView::ChecksumError(frame_message(bytes)))
    } else {
        Decoded::Frame(frame_message(bytes))
    }
}

/// What reading one frame leaves of `bytes`: all that stands behind the frame,
/// or behind the first wrong start byte. An incomplete frame is dropped whole.
pub open spec fn left_over(bytes: Seq<u8>) -> Seq<u8> {
    if !starts_frame(bytes) {
        bytes.skip(if bytes[0] != START1 { 1 } else { 2 })
    } else if !has_frame(bytes) {
        Seq::empty()
    } else {
        bytes.skip(frame_length(bytes))
    }
}

/// What came back from [`decode`].
pub open spec fn decode_outcome(result: Result<Option<ProtocolMessage>, PingError>) -> Decoded {
    match result {
        Ok(Some(message)) => Decoded::Frame(message@),
        Ok(None) => Decoded::Incomplete,
        Err(error) => Decoded::Failed(error@),
    }
}

/// The growable byte buffer of the `bytes` crate.
#[verifier::external_type_specification]
#[verifier::external_body]
pub struct ExBytesMut(actix_web::web::BytesMut);

/// The bytes that a buffer holds, in order.
pub uninterp spec fn buffered(buffer: BytesMut) -> Seq<u8>;

/// Calls `BytesMut::with_capacity`: the new buffer holds nothing.
#[verifier::external_body]
pub(crate) fn new_buffer(capacity: usize) -> (buffer: BytesMut)
    requires
        capacity <= isize::MAX,
    ensures
        buffered(buffer) == Seq::<u8>::empty(),
{
    BytesMut::with_capacity(capacity)
}

/// Calls `BytesMut::extend_from_slice`: the bytes are added behind those that
/// the buffer holds. No buffer holds more than `isize::MAX` bytes.
#[verifier::external_body]
pub(crate) fn append(buffer: &mut BytesMut, bytes: &[u8])
    requires
        buffered(*old(buffer)).len() + bytes@.len() <= isize::MAX,
    ensures
        buffered(*final(buffer)) == buffered(*old(buffer)) + bytes@,
{
    buffer.extend_from_slice(bytes)
}

/// Calls `decode` of a new `bluerobotics_ping::codec::PingCodec`: it reads at
/// most one frame off the front of the buffer, and takes out of the buffer what
/// it has read. Bytes of an incomplete frame are taken out too: they are kept in
/// the codec alone, which ends here. A codec that has handed out a frame is
/// again as it was when new, so reading frame by frame with one codec comes to
/// the same.
#[verifier::external_body]
pub(crate) fn decode(buffer: &mut BytesMut) -> (result: Result<Option<ProtocolMessage>, PingError>)
    ensures
        decode_outcome(result) == decoded(buffered(*old(buffer))),
        buffered(*final(buffer)) == left_over(buffered(*old(buffer))),
{
    let moved = |m: bluerobotics_ping::message::ProtocolMessage| ProtocolMessage {
        payload_length: m.payload_length, message_id: m.message_id,
        src_device_id: m.src_device_id, dst_device_id: m.dst_device_id,
        payload: m.payload, checksum: m.checksum,
    };
    match bluerobotics_ping::codec::PingCodec::new().decode(buffer) {
        Ok(message) => Ok(message.map(moved)),
        Err(bluerobotics_ping::error::PingError::ParseError(error)) => Err(match error {
            bluerobotics_ping::decoder::ParseError::InvalidStartByte => PingError::ParseError(ParseError::InvalidStartByte),
            bluerobotics_ping::decoder::ParseError::ChecksumError(m) => PingError::ParseError(ParseError::ChecksumError(moved(m))),
            other => PingError::Other(format!("{:?}", other)),
        }),
        Err(other) => Err(PingError::Other(format!("{:?}", other))),
    }
}

/// The messages that reading frame after frame takes out of `bytes`, up to the
/// first incomplete frame or the first failure.
pub open spec fn frames(bytes: Seq<u8>) -> Seq<MessageView>
    decreases bytes.len(),
{
    match decoded(bytes) {
        Decoded::Frame(message) => seq![message] + frames(left_over(bytes)),
        _ => Seq::empty(),
    }
}

/// The frames of `messages`, one behind the other.
pub open spec fn wire_of(messages: Seq<MessageView>) -> Seq<u8>
    decreases messages.len(),
{
    if messages.len() == 0 {
        Seq::empty()
    } else {
        messages.first().wire() + wire_of(messages.drop_first())
    }
}

/// The frame of a message that announces its payload's length is complete, holds
/// that message, and ends where what stands behind it begins.
proof fn lemma_frame_of_message(message: MessageView, tail: Seq<u8>)
    requires
        message.payload_length == message.payload.len(),
    ensures
        has_frame(message.wire() + tail),
        frame_message(message.wire() + tail) == message,
        left_over(message.wire() + tail) == tail,
{
    let bytes = message.wire() + tail;
    let n = message.payload.len() as int;
    lemma_le16_round_trip(message.payload_length);
    lemma_le16_round_trip(message.message_id);
    lemma_le16_round_trip(message.checksum);
    assert(message.wire().len() == 10 + n);
    assert(bytes[2] == le16(message.payload_length)[0]);
    assert(bytes[3] == le16(message.payload_length)[1]);
    assert(bytes[4] == le16(message.message_id)[0]);
    assert(bytes[5] == le16(message.message_id)[1]);
    assert(bytes[8 + n] == le16(message.checksum)[0]);
    assert(bytes[9 + n] == le16(message.checksum)[1]);
    assert(bytes.subrange(8, 8 + n) =~= message.payload);
    assert(bytes.skip(10 + n) =~= tail);
}

/// Reading a frame gives back the message that was written, and leaves what
/// stands behind the frame.
pub proof fn law_frame_round_trip(message: MessageView, tail: Seq<u8>)
    requires
        message.well_formed(),
    ensures
        decoded(message.wire() + tail) == Decoded::Frame(message),
        left_over(message.wire() + tail) == tail,
{
    lemma_frame_of_message(message, tail);
}

/// Reading frame after frame gives back, in order, every message that was
/// written, whatever may stand behind them.
pub proof fn law_frames_round_trip(messages: Seq<MessageView>, tail: Seq<u8>)
    requires
        forall|i: int| 0 <= i < messages.len() ==> (#[trigger] messages[i]).well_formed(),
    ensures
        frames(wire_of(messages) + tail) == messages + frames(tail),
    decreases messages.len(),
{
    if messages.len() == 0 {
        assert(wire_of(messages) + tail =~= tail);
        assert(messages + frames(tail) =~= frames(tail));
    } else {
        let first = messages.first();
        let rest = messages.drop_first();
        let behind = wire_of(rest) + tail;
        assert(wire_of(messages) + tail =~= first.wire() + behind);
        law_frame_round_trip(first, behind);
        law_frames_round_trip(rest, tail);
        assert(messages + frames(tail) =~= seq![first] + (rest + frames(tail)));
    }
}

/// A frame with a wrong checksum is refused with the message that it holds, and
/// what stands behind it is left.
pub proof fn law_wrong_checksum_is_refused(message: MessageView, tail: Seq<u8>)
    requires
        message.payload_length == message.payload.len(),
        !message.has_valid_crc(),
    ensures
        decoded(message.wire() + tail) == Decoded::Failed(PingErrorView::ChecksumError(message)),
        left_over(message.wire() + tail) == tail,
{
    lemma_frame_of_message(message, tail);
}

/// Bytes that do not begin with the start bytes are refused, and what stands
/// behind the first wrong byte is left.
pub proof fn law_wrong_start_is_refused(bytes: Seq<u8>)
    ensures
        bytes.len() > 0 && bytes[0] != 66 ==> {
            &&& decoded(bytes) == Decoded::Failed(PingErrorView::InvalidStartByte)
            &&& left_over(bytes) == bytes.skip(1)
        },
        bytes.len() > 1 && bytes[0] == 66 && bytes[1] != 82 ==> {
            &&& decoded(bytes) == Decoded::Failed(PingErrorView::InvalidStartByte)
            &&& left_over(bytes) == bytes.skip(2)
        },
{
}

/// A frame that is cut short anywhere is no frame yet, and nothing of it is left.
pub proof fn law_cut_frame_is_incomplete(message: MessageView, count: int)
    requires
        message.payload_length == message.payload.len(),
        0 <= count < message.wire().len(),
    ensures
        decoded(message.wire().take(count)) == Decoded::Incomplete,
        left_over(message.wire().take(count)) == Seq::<u8>::empty(),
{
    let cut = message.wire().take(count);
    lemma_le16_round_trip(message.payload_length);
    assert(message.wire().len() == 10 + message.payload.len());
    assert(message.wire()[0] == START1);
    assert(message.wire()[1] == START2);
    if count >= 8 {
        assert(cut[2] == le16(message.payload_length)[0]);
        assert(cut[3] == le16(message.payload_length)[1]);
    }
}

/// Frames are read one by one: where a message can be read it comes first, and
/// those behind it follow; where none can be read there is none.
pub proof fn law_frames_are_read_one_by_one(bytes: Seq<u8>)
    ensures
        match decoded(bytes) {
            Decoded::Frame(message) => frames(bytes) == seq![message] + frames(left_over(bytes)),
            _ => frames(bytes).len() == 0,
        },
{
}

/// Frames stand on the wire one behind the other.
pub proof fn law_frames_follow_each_other(message: MessageView, messages: Seq<MessageView>)
    ensures
        wire_of(Seq::empty()) == Seq::<u8>::empty(),
        wire_of(seq![message] + messages) == message.wire() + wire_of(messages),
{
    assert((seq![message] + messages).drop_first() =~= messages);
}

/// An error's view tells its kind, and the message that it holds.
pub proof fn law_error_view(message: ProtocolMessage)
    ensures
        PingError::ParseError(ParseError::InvalidStartByte)@ == PingErrorView::InvalidStartByte,
        PingError::ParseError(ParseError::ChecksumError(message))@ == PingErrorView::ChecksumError(
            message@,
        ),
{
}

} // verus!
