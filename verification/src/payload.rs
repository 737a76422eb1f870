//! The payloads that the device sends and reads, and their packing into
//! messages.

use crate::message::{
    from_le16, law_bytes_add_up_to_the_number, le16, le32, packed, ProtocolMessage,
};
use bluerobotics_ping::message::DeserializePayload;
use vstd::prelude::*;

verus! {

/// Message id of [`Ack`].
pub const ACK: u16 = 1;

/// Message id of [`DeviceInformation`].
pub const DEVICE_INFORMATION: u16 = 4;

/// Message id of [`ProtocolVersion`].
pub const PROTOCOL_VERSION: u16 = 5;

/// Message id of a request for one message.
pub const GENERAL_REQUEST: u16 = 6;

/// Message id of [`Profile`].
pub const PROFILE: u16 = 1300;

/// Message id of a request to start a stream.
pub const CONTINUOUS_START: u16 = 1400;

/// Message id of a request to stop a stream.
pub const CONTINUOUS_STOP: u16 = 1401;

/// Message id of [`DeviceData`].
pub const DEVICE_DATA: u16 = 2300;

/// Message id of [`AutoDeviceData`].
pub const AUTO_DEVICE_DATA: u16 = 2301;

/// Message id of [`AutoTransmit`].
pub const AUTO_TRANSMIT: u16 = 2602;

/// Message id of a request to stop the transducer's motor.
pub const MOTOR_OFF: u16 = 2903;

/// Acknowledges a message.
#[derive(Clone, Copy, Debug, PartialEq, Eq)]
pub struct Ack {
    pub acked_id: u16,
}

impl Ack {
    /// The payload bytes.
    pub open spec fn bytes(self) -> Seq<u8> {
        le16(self.acked_id)
    }

    /// Packs the payload with `ProtocolMessage::set_message` of
    /// `bluerobotics_ping`: the fields in order, low byte first, under the
    /// message's id.
    #[verifier::external_body]
    pub(crate) fn pack(self) -> (message: ProtocolMessage)
        ensures
            message@ == packed(ACK, self.bytes()),
    {
        let mut m = bluerobotics_ping::message::ProtocolMessage::new();
        m.set_message(&bluerobotics_ping::common::Messages::Ack(
            bluerobotics_ping::common::AckStruct { acked_id: self.acked_id },
        ));
        ProtocolMessage {
            payload_length: m.payload_length, message_id: m.message_id,
            src_device_id: m.src_device_id, dst_device_id: m.dst_device_id,
            payload: m.payload, checksum: m.checksum,
        }
    }
}

/// What kind of device answers, and its firmware.
#[derive(Clone, Copy, Debug, PartialEq, Eq)]
pub struct DeviceInformation {
    pub device_type: u8,
    pub device_revision: u8,
    pub firmware_version_major: u8,
    pub firmware_version_minor: u8,
    pub firmware_version_patch: u8,
    pub reserved: u8,
}

impl DeviceInformation {
    /// The payload bytes.
    pub open spec fn bytes(self) -> Seq<u8> {
        seq![
            self.device_type,
            self.device_revision,
            self.firmware_version_major,
            self.firmware_version_minor,
            self.firmware_version_patch,
            self.reserved,
        ]
    }

    /// Packs the payload with `ProtocolMessage::set_message` of
    /// `bluerobotics_ping`: the fields in order, one byte each, under the
    /// message's id.
    #[verifier::external_body]
    pub(crate) fn pack(self) -> (message: ProtocolMessage)
        ensures
            message@ == packed(DEVICE_INFORMATION, self.bytes()),
    {
        let mut m = bluerobotics_ping::message::ProtocolMessage::new();
        m.set_message(&bluerobotics_ping::common::Messages::DeviceInformation(
            bluerobotics_ping::common::DeviceInformationStruct {
                device_type: self.device_type, device_revision: self.device_revision,
                firmware_version_major: self.firmware_version_major, firmware_version_minor: self.firmware_version_minor,
                firmware_version_patch: self.firmware_version_patch, reserved: self.reserved,
            },
        ));
        ProtocolMessage {
            payload_length: m.payload_length, message_id: m.message_id,
            src_device_id: m.src_device_id, dst_device_id: m.dst_device_id,
            payload: m.payload, checksum: m.checksum,
        }
    }
}

/// The protocol version that the device speaks.
#[derive(Clone, Copy, Debug, PartialEq, Eq)]
pub struct ProtocolVersion {
    pub version_major: u8,
    pub version_minor: u8,
    pub version_patch: u8,
    pub reserved: u8,
}

impl ProtocolVersion {
    /// The payload bytes.
    pub open spec fn bytes(self) -> Seq<u8> {
        seq![self.version_major, self.version_minor, self.version_patch, self.reserved]
    }

    /// Packs the payload with `ProtocolMessage::set_message` of
    /// `bluerobotics_ping`: the fields in order, one byte each, under the
    /// message's id.
    #[verifier::external_body]
    pub(crate) fn pack(self) -> (message: ProtocolMessage)
        ensures
            message@ == packed(PROTOCOL_VERSION, self.bytes()),
    {
        let mut m = bluerobotics_ping::message::ProtocolMessage::new();
        m.set_message(&bluerobotics_ping::common::Messages::ProtocolVersion(
            bluerobotics_ping::common::ProtocolVersionStruct {
                version_major: self.version_major, version_minor: self.version_minor,
                version_patch: self.version_patch, reserved: self.reserved,
            },
        ));
        ProtocolMessage {
            payload_length: m.payload_length, message_id: m.message_id,
            src_device_id: m.src_device_id, dst_device_id: m.dst_device_id,
            payload: m.payload, checksum: m.checksum,
        }
    }
}

/// One echo profile of a Ping1D.
#[derive(Debug, PartialEq, Eq)]
pub struct Profile {
    pub distance: u32,
    pub confidence: u16,
    pub transmit_duration: u16,
    pub ping_number: u32,
    pub scan_start: u32,
    pub scan_length: u32,
    pub gain_setting: u32,
    pub profile_data_length: u16,
    pub profile_data: Vec<u8>,
}

/// What a [`Profile`] holds.
pub struct ProfileView {
    pub distance: u32,
    pub confidence: u16,
    pub transmit_duration: u16,
    pub ping_number: u32,
    pub scan_start: u32,
    pub scan_length: u32,
    pub gain_setting: u32,
    pub profile_data_length: u16,
    pub profile_data: Seq<u8>,
}

impl ProfileView {
    /// The payload bytes.
    pub open spec fn bytes(self) -> Seq<u8> {
        le32(self.distance) + le16(self.confidence) + le16(self.transmit_duration) + le32(
            self.ping_number,
        ) + le32(self.scan_start) + le32(self.scan_length) + le32(self.gain_setting) + le16(
            self.profile_data_length,
        ) + self.profile_data
    }
}

impl View for Profile {
    type V = ProfileView;

    open spec fn view(&self) -> ProfileView {
        ProfileView {
            distance: self.distance,
            confidence: self.confidence,
            transmit_duration: self.transmit_duration,
            ping_number: self.ping_number,
            scan_start: self.scan_start,
            scan_length: self.scan_length,
            gain_setting: self.gain_setting,
            profile_data_length: self.profile_data_length,
            profile_data: self.profile_data@,
        }
    }
}

impl Profile {
    /// Packs the payload with `ProtocolMessage::set_message` of
    /// `bluerobotics_ping`: the fields in order, low byte first, the data last,
    /// under the message's id.
    #[verifier::external_body]
    pub(crate) fn pack(self) -> (message: ProtocolMessage)
        ensures
            message@ == packed(PROFILE, self@.bytes()),
    {
        let mut m = bluerobotics_ping::message::ProtocolMessage::new();
        m.set_message(&bluerobotics_ping::ping1d::Messages::Profile(
            bluerobotics_ping::ping1d::ProfileStruct {
                distance: self.distance, confidence: self.confidence, transmit_duration: self.transmit_duration,
                ping_number: self.ping_number, scan_start: self.scan_start, scan_length: self.scan_length,
                gain_setting: self.gain_setting, profile_data_length: self.profile_data_length, profile_data: self.profile_data,
            },
        ));
        ProtocolMessage {
            payload_length: m.payload_length, message_id: m.message_id,
            src_device_id: m.src_device_id, dst_device_id: m.dst_device_id,
            payload: m.payload, checksum: m.checksum,
        }
    }
}

/// One echo of a Ping360, on request.
#[derive(Debug, PartialEq, Eq)]
pub struct DeviceData {
    pub mode: u8,
    pub gain_setting: u8,
    pub angle: u16,
    pub transmit_duration: u16,
    pub sample_period: u16,
    pub transmit_frequency: u16,
    pub number_of_samples: u16,
    pub data_length: u16,
    pub data: Vec<u8>,
}

/// What a [`DeviceData`] holds.
pub struct DeviceDataView {
    pub mode: u8,
    pub gain_setting: u8,
    pub angle: u16,
    pub transmit_duration: u16,
    pub sample_period: u16,
    pub transmit_frequency: u16,
    pub number_of_samples: u16,
    pub data_length: u16,
    pub data: Seq<u8>,
}

impl DeviceDataView {
    /// The payload bytes.
    pub open spec fn bytes(self) -> Seq<u8> {
        seq![self.mode, self.gain_setting] + le16(self.angle) + le16(self.transmit_duration)
            + le16(self.sample_period) + le16(self.transmit_frequency) + le16(
            self.number_of_samples,
        ) + le16(self.data_length) + self.data
    }
}

impl View for DeviceData {
    type V = DeviceDataView;

    open spec fn view(&self) -> DeviceDataView {
        DeviceDataView {
            mode: self.mode,
            gain_setting: self.gain_setting,
            angle: self.angle,
            transmit_duration: self.transmit_duration,
            sample_period: self.sample_period,
            transmit_frequency: self.transmit_frequency,
            number_of_samples: self.number_of_samples,
            data_length: self.data_length,
            data: self.data@,
        }
    }
}

impl DeviceData {
    /// Packs the payload with `ProtocolMessage::set_message` of
    /// `bluerobotics_ping`: the fields in order, low byte first, the data last,
    /// under the message's id.
    #[verifier::external_body]
    pub(crate) fn pack(self) -> (message: ProtocolMessage)
        ensures
            message@ == packed(DEVICE_DATA, self@.bytes()),
    {
        let mut m = bluerobotics_ping::message::ProtocolMessage::new();
        m.set_message(&bluerobotics_ping::ping360::Messages::DeviceData(
            bluerobotics_ping::ping360::DeviceDataStruct {
                mode: self.mode, gain_setting: self.gain_setting, angle: self.angle,
                transmit_duration: self.transmit_duration, sample_period: self.sample_period, transmit_frequency: self.transmit_frequency,
                number_of_samples: self.number_of_samples, data_length: self.data_length, data: self.data,
            },
        ));
        ProtocolMessage {
            payload_length: m.payload_length, message_id: m.message_id,
            src_device_id: m.src_device_id, dst_device_id: m.dst_device_id,
            payload: m.payload, checksum: m.checksum,
        }
    }
}

/// One echo of a Ping360 that transmits on its own.
#[derive(Debug, PartialEq, Eq)]
pub struct AutoDeviceData {
    pub mode: u8,
    pub gain_setting: u8,
    pub angle: u16,
    pub transmit_duration: u16,
    pub sample_period: u16,
    pub transmit_frequency: u16,
    pub start_angle: u16,
    pub stop_angle: u16,
    pub num_steps: u8,
    pub delay: u8,
    pub number_of_samples: u16,
    pub data_length: u16,
    pub data: Vec<u8>,
}

/// What a [`AutoDeviceData`] holds.
pub struct AutoDeviceDataView {
    pub mode: u8,
    pub gain_setting: u8,
    pub angle: u16,
    pub transmit_duration: u16,
    pub sample_period: u16,
    pub transmit_frequency: u16,
    pub start_angle: u16,
    pub stop_angle: u16,
    pub num_steps: u8,
    pub delay: u8,
    pub number_of_samples: u16,
    pub data_length: u16,
    pub data: Seq<u8>,
}

impl AutoDeviceDataView {
    /// The payload bytes.
    pub open spec fn bytes(self) -> Seq<u8> {
        seq![self.mode, self.gain_setting] + le16(self.angle) + le16(self.transmit_duration)
            + le16(self.sample_period) + le16(self.transmit_frequency) + le16(self.start_angle)
            + le16(self.stop_angle) + seq![self.num_steps, self.delay] + le16(
            self.number_of_samples,
        ) + le16(self.data_length) + self.data
    }
}

impl View for AutoDeviceData {
    type V = AutoDeviceDataView;

    open spec fn view(&self) -> AutoDeviceDataView {
        AutoDeviceDataView {
            mode: self.mode,
            gain_setting: self.gain_setting,
            angle: self.angle,
            transmit_duration: self.transmit_duration,
            sample_period: self.sample_period,
            transmit_frequency: self.transmit_frequency,
            start_angle: self.start_angle,
            stop_angle: self.stop_angle,
            num_steps: self.num_steps,
            delay: self.delay,
            number_of_samples: self.number_of_samples,
            data_length: self.data_length,
            data: self.data@,
        }
    }
}

impl AutoDeviceData {
    /// Packs the payload with `ProtocolMessage::set_message` of
    /// `bluerobotics_ping`: the fields in order, low byte first, the data last,
    /// under the message's id.
    #[verifier::external_body]
    pub(crate) fn pack(self) -> (message: ProtocolMessage)
        ensures
            message@ == packed(AUTO_DEVICE_DATA, self@.bytes()),
    {
        let mut m = bluerobotics_ping::message::ProtocolMessage::new();
        m.set_message(&bluerobotics_ping::ping360::Messages::AutoDeviceData(
            bluerobotics_ping::ping360::AutoDeviceDataStruct {
                mode: self.mode, gain_setting: self.gain_setting, angle: self.angle, transmit_duration: self.transmit_duration,
                sample_period: self.sample_period, transmit_frequency: self.transmit_frequency, start_angle: self.start_angle, stop_angle: self.stop_angle,
                num_steps: self.num_steps, delay: self.delay, number_of_samples: self.number_of_samples, data_length: self.data_length, data: self.data,
            },
        ));
        ProtocolMessage {
            payload_length: m.payload_length, message_id: m.message_id,
            src_device_id: m.src_device_id, dst_device_id: m.dst_device_id,
            payload: m.payload, checksum: m.checksum,
        }
    }
}

/// A request to a Ping360 to transmit on its own.
#[derive(Clone, Copy, Debug, PartialEq, Eq)]
pub struct AutoTransmit {
    pub mode: u8,
    pub gain_setting: u8,
    pub transmit_duration: u16,
    pub sample_period: u16,
    pub transmit_frequency: u16,
    pub number_of_samples: u16,
    pub start_angle: u16,
    pub stop_angle: u16,
    pub num_steps: u8,
    pub delay: u8,
}

/// The number of payload bytes that hold the fields of an [`AutoTransmit`].
pub const AUTO_TRANSMIT_LENGTH: usize = 16;

/// The request that `payload` holds, whatever may stand behind its fields.
pub open spec fn auto_transmit(payload: Seq<u8>) -> AutoTransmit
    recommends
        payload.len() >= AUTO_TRANSMIT_LENGTH,
{
    AutoTransmit {
        mode: payload[0],
        gain_setting: payload[1],
        transmit_duration: from_le16(payload[2], payload[3]),
        sample_period: from_le16(payload[4], payload[5]),
        transmit_frequency: from_le16(payload[6], payload[7]),
        number_of_samples: from_le16(payload[8], payload[9]),
        start_angle: from_le16(payload[10], payload[11]),
        stop_angle: from_le16(payload[12], payload[13]),
        num_steps: payload[14],
        delay: payload[15],
    }
}

impl AutoTransmit {
    /// Calls `AutoTransmitStruct::deserialize` of `bluerobotics_ping`: the
    /// fields in order, low byte first. It panics on fewer bytes than the
    /// fields take, and ignores any bytes behind them.
    #[verifier::external_body]
    pub(crate) fn deserialize(payload: &Vec<u8>) -> (request: AutoTransmit)
        requires
            payload@.len() >= AUTO_TRANSMIT_LENGTH,
        ensures
            request == auto_transmit(payload@),
    {
        let p = bluerobotics_ping::ping360::AutoTransmitStruct::deserialize(payload);
        AutoTransmit {
            mode: p.mode, gain_setting: p.gain_setting,
            transmit_duration: p.transmit_duration, sample_period: p.sample_period,
            transmit_frequency: p.transmit_frequency, number_of_samples: p.number_of_samples,
            start_angle: p.start_angle, stop_angle: p.stop_angle,
            num_steps: p.num_steps, delay: p.delay,
        }
    }
}

/// Where each field of an [`Ack`] stands in its payload.
pub proof fn law_ack_layout(ack: Ack)
    ensures
        ack.bytes().len() == 2,
        ack.bytes()[0] + 256 * ack.bytes()[1] == ack.acked_id,
{
}

/// Where each field of a [`DeviceInformation`] stands in its payload.
pub proof fn law_device_information_layout(information: DeviceInformation)
    ensures
        information.bytes().len() == 6,
        information.bytes()[0] == information.device_type,
        information.bytes()[1] == information.device_revision,
        information.bytes()[2] == information.firmware_version_major,
        information.bytes()[3] == information.firmware_version_minor,
        information.bytes()[4] == information.firmware_version_patch,
        information.bytes()[5] == information.reserved,
{
}

/// Where each field of a [`ProtocolVersion`] stands in its payload.
pub proof fn law_protocol_version_layout(version: ProtocolVersion)
    ensures
        version.bytes().len() == 4,
        version.bytes()[0] == version.version_major,
        version.bytes()[1] == version.version_minor,
        version.bytes()[2] == version.version_patch,
        version.bytes()[3] == version.reserved,
{
}

/// Four bytes that are those of a number add up to it.
proof fn lemma_le32_at(bytes: Seq<u8>, at: int, value: u32)
    requires
        0 <= at <= bytes.len() - 4,
        forall|i: int| 0 <= i < 4 ==> bytes[at + i] == #[trigger] le32(value)[i],
    ensures
        bytes[at] + 256 * bytes[at + 1] + 65536 * bytes[at + 2] + 16777216 * bytes[at + 3] == value,
{
    assert(bytes[at + 0] == le32(value)[0]);
    assert(bytes[at + 1] == le32(value)[1]);
    assert(bytes[at + 2] == le32(value)[2]);
    assert(bytes[at + 3] == le32(value)[3]);
    law_bytes_add_up_to_the_number(0, value, 0, 0);
}

/// Where each field of a [`Profile`] stands in its payload.
pub proof fn law_profile_layout(profile: ProfileView)
    ensures
        ({
            let bytes = profile.bytes();
            &&& bytes.len() == 26 + profile.profile_data.len()
            &&& bytes[0] + 256 * bytes[1] + 65536 * bytes[2] + 16777216 * bytes[3] == profile.distance
            &&& bytes[4] + 256 * bytes[5] == profile.confidence
            &&& bytes[6] + 256 * bytes[7] == profile.transmit_duration
            &&& bytes[8] + 256 * bytes[9] + 65536 * bytes[10] + 16777216 * bytes[11] == profile.ping_number
            &&& bytes[12] + 256 * bytes[13] + 65536 * bytes[14] + 16777216 * bytes[15] == profile.scan_start
            &&& bytes[16] + 256 * bytes[17] + 65536 * bytes[18] + 16777216 * bytes[19] == profile.scan_length
            &&& bytes[20] + 256 * bytes[21] + 65536 * bytes[22] + 16777216 * bytes[23] == profile.gain_setting
            &&& bytes[24] + 256 * bytes[25] == profile.profile_data_length
            &&& bytes.skip(26) == profile.profile_data
        }),
{
    let bytes = profile.bytes();
    lemma_le32_at(bytes, 0, profile.distance);
    lemma_le32_at(bytes, 8, profile.ping_number);
    lemma_le32_at(bytes, 12, profile.scan_start);
    lemma_le32_at(bytes, 16, profile.scan_length);
    lemma_le32_at(bytes, 20, profile.gain_setting);
    assert(bytes.skip(26) =~= profile.profile_data);
}

/// Where each field of a [`DeviceData`] stands in its payload.
pub proof fn law_device_data_layout(echo: DeviceDataView)
    ensures
        ({
            let bytes = echo.bytes();
            &&& bytes.len() == 14 + echo.data.len()
            &&& bytes[0] == echo.mode
            &&& bytes[1] == echo.gain_setting
            &&& bytes[2] + 256 * bytes[3] == echo.angle
            &&& bytes[4] + 256 * bytes[5] == echo.transmit_duration
            &&& bytes[6] + 256 * bytes[7] == echo.sample_period
            &&& bytes[8] + 256 * bytes[9] == echo.transmit_frequency
            &&& bytes[10] + 256 * bytes[11] == echo.number_of_samples
            &&& bytes[12] + 256 * bytes[13] == echo.data_length
            &&& bytes.skip(14) == echo.data
        }),
{
    assert(echo.bytes().skip(14) =~= echo.data);
}

/// Where each field of an [`AutoDeviceData`] stands in its payload.
pub proof fn law_auto_device_data_layout(echo: AutoDeviceDataView)
    ensures
        ({
            let bytes = echo.bytes();
            &&& bytes.len() == 20 + echo.data.len()
            &&& bytes[0] == echo.mode
            &&& bytes[1] == echo.gain_setting
            &&& bytes[2] + 256 * bytes[3] == echo.angle
            &&& bytes[4] + 256 * bytes[5] == echo.transmit_duration
            &&& bytes[6] + 256 * bytes[7] == echo.sample_period
            &&& bytes[8] + 256 * bytes[9] == echo.transmit_frequency
            &&& bytes[10] + 256 * bytes[11] == echo.start_angle
            &&& bytes[12] + 256 * bytes[13] == echo.stop_angle
            &&& bytes[14] == echo.num_steps
            &&& bytes[15] == echo.delay
            &&& bytes[16] + 256 * bytes[17] == echo.number_of_samples
            &&& bytes[18] + 256 * bytes[19] == echo.data_length
            &&& bytes.skip(20) == echo.data
        }),
{
    assert(echo.bytes().skip(20) =~= echo.data);
}

/// Where each field of an [`AutoTransmit`] is read from.
pub proof fn law_auto_transmit_layout(payload: Seq<u8>)
    requires
        payload.len() >= 16,
    ensures
        ({
            let request = auto_transmit(payload);
            &&& request.mode == payload[0]
            &&& request.gain_setting == payload[1]
            &&& request.transmit_duration == payload[2] + 256 * payload[3]
            &&& request.sample_period == payload[4] + 256 * payload[5]
            &&& request.transmit_frequency == payload[6] + 256 * payload[7]
            &&& request.number_of_samples == payload[8] + 256 * payload[9]
            &&& request.start_angle == payload[10] + 256 * payload[11]
            &&& request.stop_angle == payload[12] + 256 * payload[13]
            &&& request.num_steps == payload[14]
            &&& request.delay == payload[15]
        }),
{
}

/// The views of the payloads with data hold the payloads' own fields.
pub proof fn law_payload_views(profile: Profile, echo: DeviceData, auto_echo: AutoDeviceData)
    ensures
        profile@.distance == profile.distance,
        profile@.confidence == profile.confidence,
        profile@.transmit_duration == profile.transmit_duration,
        profile@.ping_number == profile.ping_number,
        profile@.scan_start == profile.scan_start,
        profile@.scan_length == profile.scan_length,
        profile@.gain_setting == profile.gain_setting,
        profile@.profile_data_length == profile.profile_data_length,
        profile@.profile_data == profile.profile_data@,
        echo@.mode == echo.mode,
        echo@.gain_setting == echo.gain_setting,
        echo@.angle == echo.angle,
        echo@.transmit_duration == echo.transmit_duration,
        echo@.sample_period == echo.sample_period,
        echo@.transmit_frequency == echo.transmit_frequency,
        echo@.number_of_samples == echo.number_of_samples,
        echo@.data_length == echo.data_length,
        echo@.data == echo.data@,
        auto_echo@.mode == auto_echo.mode,
        auto_echo@.gain_setting == auto_echo.gain_setting,
        auto_echo@.angle == auto_echo.angle,
        auto_echo@.transmit_duration == auto_echo.transmit_duration,
        auto_echo@.sample_period == auto_echo.sample_period,
        auto_echo@.transmit_frequency == auto_echo.transmit_frequency,
        auto_echo@.start_angle == auto_echo.start_angle,
        auto_echo@.stop_angle == auto_echo.stop_angle,
        auto_echo@.num_steps == auto_echo.num_steps,
        auto_echo@.delay == auto_echo.delay,
        auto_echo@.number_of_samples == auto_echo.number_of_samples,
        auto_echo@.data_length == auto_echo.data_length,
        auto_echo@.data == auto_echo.data@,
{
}

} // verus!
