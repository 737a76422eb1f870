use bluerobotics_ping::message::{DeserializeGenericMessage, PingMessage};
use bluerobotics_ping::{common, ping1d, ping360};
use ping_fake_device::message::ProtocolMessage;
use ping_fake_device::payload::AutoTransmit;
use ping_fake_device::run_loop::{
    DeviceSelection, LoopStep, Reaction, RunLoop, Start, StreamKind, Verdict,
};

const SELECTIONS: [DeviceSelection; 4] = [
    DeviceSelection::Common,
    DeviceSelection::Ping1D,
    DeviceSelection::Ping360,
    DeviceSelection::Auto,
];

fn message(content: &impl PingMessage) -> ProtocolMessage {
    let mut packed = bluerobotics_ping::message::ProtocolMessage::new();
    packed.set_message(content);
    ProtocolMessage {
        payload_length: packed.payload_length,
        message_id: packed.message_id,
        src_device_id: packed.src_device_id,
        dst_device_id: packed.dst_device_id,
        payload: packed.payload,
        checksum: packed.checksum,
    }
}

fn raw(message_id: u16, payload: Vec<u8>) -> ProtocolMessage {
    let mut packed = bluerobotics_ping::message::ProtocolMessage::new();
    packed.message_id = message_id;
    packed.payload_length = payload.len() as u16;
    packed.payload = payload;
    packed.update_checksum();
    ProtocolMessage {
        payload_length: packed.payload_length,
        message_id: packed.message_id,
        src_device_id: packed.src_device_id,
        dst_device_id: packed.dst_device_id,
        payload: packed.payload,
        checksum: packed.checksum,
    }
}

fn general_request(id: u16) -> ProtocolMessage {
    message(&common::Messages::GeneralRequest(
        common::GeneralRequestStruct { requested_id: id },
    ))
}

fn continuous_start(id: u16) -> ProtocolMessage {
    message(&ping1d::Messages::ContinuousStart(
        ping1d::ContinuousStartStruct { id },
    ))
}

fn continuous_stop(id: u16) -> ProtocolMessage {
    message(&ping1d::Messages::ContinuousStop(
        ping1d::ContinuousStopStruct { id },
    ))
}

fn auto_transmit() -> ProtocolMessage {
    message(&ping360::Messages::AutoTransmit(
        ping360::AutoTransmitStruct {
            mode: 1,
            gain_setting: 2,
            transmit_duration: 0x0304,
            sample_period: 0x0506,
            transmit_frequency: 0x0708,
            number_of_samples: 0x090a,
            start_angle: 0x0b0c,
            stop_angle: 0x0d0e,
            num_steps: 15,
            delay: 16,
        },
    ))
}

fn requested_echo() -> AutoTransmit {
    AutoTransmit {
        mode: 1,
        gain_setting: 2,
        transmit_duration: 0x0304,
        sample_period: 0x0506,
        transmit_frequency: 0x0708,
        number_of_samples: 0x090a,
        start_angle: 0x0b0c,
        stop_angle: 0x0d0e,
        num_steps: 15,
        delay: 16,
    }
}

fn motor_off() -> ProtocolMessage {
    message(&ping360::Messages::MotorOff(ping360::MotorOffStruct {}))
}

fn nothing(verdict: Verdict) -> Reaction {
    Reaction {
        start: None,
        abort: None,
        reply: None,
        verdict,
    }
}

fn common_reply(reaction: Reaction) -> common::Messages {
    let reply = reaction.reply.unwrap();
    common::Messages::deserialize(reply.message_id, &reply.payload).unwrap()
}

#[test]
fn device_information_names_the_device() {
    for selection in SELECTIONS {
        let mut device = RunLoop::new(selection);
        let device_type = if selection == DeviceSelection::Ping360 {
            2
        } else {
            1
        };
        assert_eq!(
            common_reply(device.on_message(&general_request(4))),
            common::Messages::DeviceInformation(common::DeviceInformationStruct {
                device_type,
                device_revision: 1,
                firmware_version_major: 3,
                firmware_version_minor: 3,
                firmware_version_patch: 0,
                reserved: 0,
            })
        );
    }
}

#[test]
fn device_information_is_this_message() {
    let mut device = RunLoop::new(DeviceSelection::Ping360);
    assert_eq!(
        device.on_message(&general_request(4)).reply,
        Some(ProtocolMessage {
            payload_length: 6,
            message_id: 4,
            src_device_id: 0,
            dst_device_id: 0,
            payload: vec![2, 1, 3, 3, 0, 0],
            checksum: 167,
        })
    );
}

#[test]
fn protocol_version_is_answered() {
    for selection in SELECTIONS {
        let mut device = RunLoop::new(selection);
        let reaction = device.on_message(&general_request(5));
        assert_eq!(reaction.verdict, Verdict::Handled);
        assert_eq!(
            common_reply(reaction),
            common::Messages::ProtocolVersion(common::ProtocolVersionStruct {
                version_major: 1,
                version_minor: 1,
                version_patch: 0,
                reserved: 0,
            })
        );
    }
}

#[test]
fn device_data_is_answered() {
    for selection in SELECTIONS {
        let mut device = RunLoop::new(selection);
        let reply = device.on_message(&general_request(2300)).reply.unwrap();
        assert_eq!(reply.payload_length, 14);
        assert_eq!(
            ping360::Messages::deserialize(reply.message_id, &reply.payload).unwrap(),
            ping360::Messages::DeviceData(ping360::DeviceDataStruct {
                mode: 1,
                gain_setting: 1,
                angle: 0,
                transmit_duration: 1_000,
                sample_period: 80,
                transmit_frequency: 650,
                number_of_samples: 1_200,
                data_length: 0,
                data: vec![],
            })
        );
    }
}

#[test]
fn replies_carry_the_right_checksum() {
    let mut device = RunLoop::new(DeviceSelection::Ping360);
    for request in [
        general_request(4),
        general_request(5),
        general_request(2300),
        motor_off(),
    ] {
        let reply = device.on_message(&request).reply.unwrap();
        let outside = bluerobotics_ping::message::ProtocolMessage {
            payload_length: reply.payload_length,
            message_id: reply.message_id,
            src_device_id: reply.src_device_id,
            dst_device_id: reply.dst_device_id,
            payload: reply.payload.clone(),
            checksum: reply.checksum,
        };
        assert!(outside.has_valid_crc());
        assert_eq!(reply.payload_length as usize, reply.payload.len());
    }
}

#[test]
fn other_requests_get_no_answer() {
    for id in [0, 1, 6, 1300, 2301, 65535] {
        let mut device = RunLoop::new(DeviceSelection::Auto);
        assert_eq!(
            device.on_message(&general_request(id)),
            nothing(Verdict::Unhandled)
        );
    }
}

#[test]
fn short_requests_are_invalid() {
    let mut device = RunLoop::new(DeviceSelection::Ping1D);
    for id in [6, 1400, 1401] {
        for payload in [vec![], vec![5]] {
            assert_eq!(
                device.on_message(&raw(id, payload)),
                nothing(Verdict::InvalidPayload)
            );
        }
    }
}

#[test]
fn long_requests_are_read_by_their_first_bytes() {
    let mut device = RunLoop::new(DeviceSelection::Ping1D);
    let reaction = device.on_message(&raw(6, vec![5, 0, 9, 9, 9]));
    assert_eq!(reaction.reply.unwrap().message_id, 5);
}

#[test]
fn wrong_checksum_is_ignored() {
    let mut device = RunLoop::new(DeviceSelection::Ping1D);
    device.on_message(&continuous_start(1300));
    let before = device;
    let mut message = continuous_stop(1300);
    message.checksum = message.checksum.wrapping_add(1);
    assert_eq!(
        device.on_message(&message),
        nothing(Verdict::InvalidChecksum)
    );
    assert_eq!(device, before);
}

#[test]
fn profiles_start_and_stop() {
    for selection in [
        DeviceSelection::Common,
        DeviceSelection::Ping1D,
        DeviceSelection::Auto,
    ] {
        let mut device = RunLoop::new(selection);
        let started = device.on_message(&continuous_start(1300));
        assert_eq!(started.start, Some(Start::Profile));
        assert_eq!(started.abort, None);
        assert_eq!(started.reply, None);
        assert!(device.profile_running);

        let stopped = device.on_message(&continuous_stop(1300));
        assert_eq!(stopped.start, None);
        assert_eq!(stopped.abort, Some(StreamKind::Profile));
        assert_eq!(stopped.reply, None);
        assert!(!device.profile_running);

        assert_eq!(
            device.on_message(&continuous_stop(1300)),
            nothing(Verdict::Handled)
        );
    }
}

#[test]
fn second_start_takes_the_place_of_the_first() {
    let mut device = RunLoop::new(DeviceSelection::Auto);
    device.on_message(&continuous_start(1300));
    let again = device.on_message(&continuous_start(1300));
    assert_eq!(again.start, Some(Start::Profile));
    assert_eq!(again.abort, Some(StreamKind::Profile));
    assert!(device.profile_running);
}

#[test]
fn other_streams_are_not_started() {
    let mut device = RunLoop::new(DeviceSelection::Auto);
    assert_eq!(
        device.on_message(&continuous_start(1301)),
        nothing(Verdict::Unhandled)
    );
    assert_eq!(
        device.on_message(&continuous_stop(1301)),
        nothing(Verdict::Unhandled)
    );
    assert!(!device.profile_running);
}

#[test]
fn auto_transmit_starts_and_motor_off_ends_and_is_acknowledged() {
    let mut device = RunLoop::new(DeviceSelection::Ping360);
    let started = device.on_message(&auto_transmit());
    assert_eq!(started.start, Some(Start::AutoDeviceData(requested_echo())));
    assert_eq!(started.abort, None);
    assert_eq!(started.reply, None);

    let again = device.on_message(&auto_transmit());
    assert_eq!(again.abort, Some(StreamKind::AutoDeviceData));
    assert!(device.auto_device_data_running);

    let stopped = device.on_message(&motor_off());
    assert_eq!(stopped.start, None);
    assert_eq!(stopped.abort, Some(StreamKind::AutoDeviceData));
    assert_eq!(
        common_reply(stopped),
        common::Messages::Ack(common::AckStruct { acked_id: 2903 })
    );
    assert!(!device.auto_device_data_running);

    let idle = device.on_message(&motor_off());
    assert_eq!(idle.abort, None);
    assert_eq!(
        common_reply(idle),
        common::Messages::Ack(common::AckStruct { acked_id: 2903 })
    );
}

#[test]
fn devices_leave_the_other_devices_messages_alone() {
    let mut ping360 = RunLoop::new(DeviceSelection::Ping360);
    for message in [continuous_start(1300), continuous_stop(1300), raw(1400, vec![])] {
        assert_eq!(ping360.on_message(&message), nothing(Verdict::Unhandled));
    }
    let mut ping1d = RunLoop::new(DeviceSelection::Ping1D);
    for message in [auto_transmit(), motor_off(), raw(2602, vec![])] {
        assert_eq!(ping1d.on_message(&message), nothing(Verdict::Unhandled));
    }
    assert_eq!(ping360, RunLoop::new(DeviceSelection::Ping360));
    assert_eq!(ping1d, RunLoop::new(DeviceSelection::Ping1D));
}

#[test]
fn unknown_messages_are_unhandled() {
    let mut device = RunLoop::new(DeviceSelection::Common);
    assert_eq!(
        device.on_message(&raw(9999, vec![1, 2, 3])),
        nothing(Verdict::Unhandled)
    );
}

#[test]
fn only_short_auto_transmits_to_a_ping360_are_out() {
    let ping360 = RunLoop::new(DeviceSelection::Ping360);
    let ping1d = RunLoop::new(DeviceSelection::Ping1D);
    assert!(ping360.accepts(&auto_transmit()));
    assert!(ping360.accepts(&raw(2602, vec![0; 17])));
    assert!(!ping360.accepts(&raw(2602, vec![0; 15])));
    assert!(ping1d.accepts(&raw(2602, vec![0; 15])));
    assert!(ping360.accepts(&raw(2603, vec![])));
    let mut damaged = raw(2602, vec![0; 15]);
    damaged.checksum = damaged.checksum.wrapping_add(1);
    assert!(ping360.accepts(&damaged));
}

fn end(abort_profile: bool, abort_auto_device_data: bool) -> LoopStep {
    LoopStep::End {
        abort_profile,
        abort_auto_device_data,
    }
}

#[test]
fn device_ends_with_its_channel_and_names_the_streams_that_run() {
    let mut ping1d = RunLoop::new(DeviceSelection::Ping1D);
    assert_eq!(ping1d.on_received(None), end(false, false));
    ping1d.on_message(&continuous_start(1300));
    assert_eq!(ping1d.on_received(None), end(true, false));
    assert_eq!(ping1d.on_received(None), end(false, false));

    let mut ping360 = RunLoop::new(DeviceSelection::Ping360);
    ping360.on_message(&auto_transmit());
    assert_eq!(ping360.on_received(None), end(false, true));
    assert_eq!(ping360, RunLoop::new(DeviceSelection::Ping360));
}

#[test]
fn no_message_ends_the_device() {
    let mut device = RunLoop::new(DeviceSelection::Ping360);
    let mut same = device;
    for message in [
        general_request(4),
        general_request(9),
        auto_transmit(),
        raw(6, vec![]),
        motor_off(),
        raw(9999, vec![]),
    ] {
        assert_eq!(
            device.on_received(Some(&message)),
            LoopStep::React(same.on_message(&message))
        );
        assert_eq!(device, same);
    }
}
