//! Messages of the Ping protocol and their wire form.

use vstd::prelude::*;

verus! {

/// First byte of every frame, ASCII `B`.
pub const START1: u8 = 66;

/// Second byte of every frame, ASCII `R`.
pub const START2: u8 = 82;

/// The two bytes of `value`, low byte first.
pub open spec fn le16(value: u16) -> Seq<u8> {
    seq![(value % 256) as u8, (value / 256) as u8]
}

/// The four bytes of `value`, low byte first.
pub open spec fn le32(value: u32) -> Seq<u8> {
    seq![
        (value % 256) as u8,
        ((value / 256) % 256) as u8,
        ((value / 65536) % 256) as u8,
        (value / 16777216) as u8,
    ]
}

/// The number whose low byte is `low` and whose high byte is `high`.
pub open spec fn from_le16(low: u8, high: u8) -> u16 {
    (low + 256 * high) as u16
}

/// The sum of all bytes of `bytes`.
pub open spec fn byte_sum(bytes: Seq<u8>) -> nat
    decreases bytes.len(),
{
    if bytes.len() == 0 {
        0
    } else {
        byte_sum(bytes.drop_last()) + bytes.last() as nat
    }
}

/// What a [`ProtocolMessage`] holds.
pub struct MessageView {
    pub payload_length: u16,
    pub message_id: u16,
    pub src_device_id: u8,
    pub dst_device_id: u8,
    pub payload: Seq<u8>,
    pub checksum: u16,
}

impl MessageView {
    /// All bytes of the frame in front of its checksum.
    pub open spec fn summed_bytes(self) -> Seq<u8> {
        seq![START1, START2] + le16(self.payload_length) + le16(self.message_id) + seq![
            self.src_device_id,
            self.dst_device_id,
        ] + self.payload
    }

    /// The checksum that belongs to the message: the sum of all its other
    /// bytes, modulo 2^16.
    pub open spec fn crc(self) -> u16 {
        (byte_sum(self.summed_bytes()) % 65536) as u16
    }

    /// Whether the message carries the checksum that belongs to it.
    pub open spec fn has_valid_crc(self) -> bool {
        self.checksum == self.crc()
    }

    /// The frame that stands for the message on the wire.
    pub open spec fn wire(self) -> Seq<u8> {
        self.summed_bytes() + le16(self.checksum)
    }

    /// Whether the announced payload length is the payload's length, and the
    /// checksum is the one that belongs to the message.
    pub open spec fn well_formed(self) -> bool {
        &&& self.payload_length == self.payload.len()
        &&& self.has_valid_crc()
    }
}

/// The message that carries `payload` under `message_id`, from device 0 to
/// device 0. A payload of 2^16 bytes or more wraps the announced length.
pub open spec fn packed(message_id: u16, payload: Seq<u8>) -> MessageView {
    let unsigned = MessageView {
        payload_length: (payload.len() % 65536) as u16,
        message_id,
        src_device_id: 0,
        dst_device_id: 0,
        payload,
        checksum: 0,
    };
    MessageView { checksum: unsigned.crc(), ..unsigned }
}

/// One message of the Ping protocol.
#[derive(Debug, PartialEq, Eq)]
pub struct ProtocolMessage {
    pub payload_length: u16,
    pub message_id: u16,
    pub src_device_id: u8,
    pub dst_device_id: u8,
    pub payload: Vec<u8>,
    pub checksum: u16,
}

impl View for ProtocolMessage {
    type V = MessageView;

    open spec fn view(&self) -> MessageView {
        MessageView {
            payload_length: self.payload_length,
            message_id: self.message_id,
            src_device_id: self.src_device_id,
            dst_device_id: self.dst_device_id,
            payload: self.payload@,
            checksum: self.checksum,
        }
    }
}

impl ProtocolMessage {
    /// Calls `bluerobotics_ping::message::ProtocolMessage::has_valid_crc`:
    /// whether the checksum is the sum of all other bytes of the frame, in 16
    /// bits that wrap.
    #[verifier::external_body]
    pub(crate) fn has_valid_crc(&self) -> (valid: bool)
        ensures
            valid == self@.has_valid_crc(),
    {
        bluerobotics_ping::message::ProtocolMessage {
            payload_length: self.payload_length,
            message_id: self.message_id,
            src_device_id: self.src_device_id,
            dst_device_id: self.dst_device_id,
            payload: self.payload.clone(),
            checksum: self.checksum,
        }.has_valid_crc()
    }

    /// Calls `bluerobotics_ping::message::ProtocolMessage::serialized`: the
    /// start bytes, the announced payload length and the message id low byte
    /// first, the two device ids, the payload, and the checksum low byte first.
    #[verifier::external_body]
    pub(crate) fn serialized(self) -> (bytes: Vec<u8>)
        ensures
            bytes@ == self@.wire(),
    {
        bluerobotics_ping::message::ProtocolMessage {
            payload_length: self.payload_length,
            message_id: self.message_id,
            src_device_id: self.src_device_id,
            dst_device_id: self.dst_device_id,
            payload: self.payload,
            checksum: self.checksum,
        }.serialized()
    }

    /// The number that the first two payload bytes stand for, low byte first,
    /// or `None` for a payload of fewer bytes.
    pub fn leading_u16(&self) -> (value: Option<u16>)
        ensures
            self@.payload.len() < 2 ==> value is None,
            self@.payload.len() >= 2 ==> value == Some(
                from_le16(self@.payload[0], self@.payload[1]),
            ),
            value is Some <==> self.payload@.len() >= 2,
            value matches Some(number) ==> number == self.payload@[0] + 256 * self.payload@[1],
    {
        if self.payload.len() < 2 {
            None
        } else {
            Some(self.payload[0] as u16 + 256 * self.payload[1] as u16)
        }
    }
}

/// Two bytes give back the number that they were made from.
pub proof fn lemma_le16_round_trip(value: u16)
    ensures
        le16(value).len() == 2,
        from_le16(le16(value)[0], le16(value)[1]) == value,
{
}

/// A packed message carries the right checksum, and announces the right length
/// as long as its payload fits the length field.
pub proof fn lemma_packed_well_formed(message_id: u16, payload: Seq<u8>)
    ensures
        packed(message_id, payload).has_valid_crc(),
        payload.len() < 65536 ==> packed(message_id, payload).well_formed(),
{
    let unsigned = MessageView {
        payload_length: (payload.len() % 65536) as u16,
        message_id,
        src_device_id: 0,
        dst_device_id: 0,
        payload,
        checksum: 0,
    };
    assert(packed(message_id, payload).summed_bytes() == unsigned.summed_bytes());
}

/// The bytes of a number, each weighted by its place, add up to the number, and
/// two bytes stand for the number that they add up to.
pub proof fn law_bytes_add_up_to_the_number(short: u16, long: u32, low: u8, high: u8)
    ensures
        le16(short).len() == 2,
        le16(short)[0] + 256 * le16(short)[1] == short,
        le32(long).len() == 4,
        le32(long)[0] + 256 * le32(long)[1] + 65536 * le32(long)[2] + 16777216 * le32(long)[3]
            == long,
        from_le16(low, high) == low + 256 * high,
{
}

/// The sum of no bytes is 0, and one more byte adds its value.
pub proof fn law_byte_sum_adds_up(bytes: Seq<u8>, byte: u8)
    ensures
        byte_sum(Seq::empty()) == 0,
        byte_sum(bytes.push(byte)) == byte_sum(bytes) + byte,
{
    assert(bytes.push(byte).drop_last() =~= bytes);
}

/// Where each part of a message stands in its frame.
pub proof fn law_frame_layout(message: MessageView)
    ensures
        ({
            let wire = message.wire();
            let end = 8 + message.payload.len() as int;
            &&& wire.len() == end + 2
            &&& wire[0] == 66
            &&& wire[1] == 82
            &&& wire[2] + 256 * wire[3] == message.payload_length
            &&& wire[4] + 256 * wire[5] == message.message_id
            &&& wire[6] == message.src_device_id
            &&& wire[7] == message.dst_device_id
            &&& wire.subrange(8, end) == message.payload
            &&& wire[end] + 256 * wire[end + 1] == message.checksum
        }),
{
    let wire = message.wire();
    let end = 8 + message.payload.len() as int;
    assert(wire[2] == le16(message.payload_length)[0]);
    assert(wire[3] == le16(message.payload_length)[1]);
    assert(wire[4] == le16(message.message_id)[0]);
    assert(wire[5] == le16(message.message_id)[1]);
    assert(wire[end] == le16(message.checksum)[0]);
    assert(wire[end + 1] == le16(message.checksum)[1]);
    assert(wire.subrange(8, end) =~= message.payload);
}

/// A checksum is right where it is the sum of all bytes of the frame in front of
/// it, modulo 2^16. A message is well-formed where its checksum is right and it
/// announces the length of its payload.
pub proof fn law_checksum_sums_the_frame(message: MessageView)
    ensures
        ({
            let end = 8 + message.payload.len() as int;
            let sum = byte_sum(message.wire().take(end)) % 65536;
            &&& message.crc() == sum
            &&& message.has_valid_crc() <==> message.checksum == sum
            &&& message.well_formed() <==> message.checksum == sum && message.payload_length
                == message.payload.len()
        }),
{
    let end = 8 + message.payload.len() as int;
    assert(message.wire().take(end) =~= message.summed_bytes());
}

/// A packed message carries its payload and its id as they are, from device 0 to
/// device 0, under the right checksum and with the payload's length modulo 2^16.
pub proof fn law_packed_message(message_id: u16, payload: Seq<u8>)
    ensures
        ({
            let message = packed(message_id, payload);
            &&& message.message_id == message_id
            &&& message.payload == payload
            &&& message.payload_length == payload.len() % 65536
            &&& message.src_device_id == 0
            &&& message.dst_device_id == 0
            &&& message.has_valid_crc()
        }),
{
    lemma_packed_well_formed(message_id, payload);
}

/// A message's view holds the message's own fields.
pub proof fn law_message_view(message: ProtocolMessage)
    ensures
        message@.payload_length == message.payload_length,
        message@.message_id == message.message_id,
        message@.src_device_id == message.src_device_id,
        message@.dst_device_id == message.dst_device_id,
        message@.payload == message.payload@,
        message@.checksum == message.checksum,
{
}

} // verus!
