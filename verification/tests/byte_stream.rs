use actix_web::web::BytesMut;
use bluerobotics_ping::codec::PingCodec;
use bluerobotics_ping::common::{GeneralRequestStruct, Messages};
use ping_fake_device::codec::{ParseError, PingError};
use ping_fake_device::message::ProtocolMessage;
use ping_fake_device::run_loop::DeviceSelection;
use ping_fake_device::stream::{Delivery, FakeStream, ReadStep, Slot, WriteStep};
use tokio_util::codec::Decoder;

/// A request for the protocol version.
const REQUEST: [u8; 12] = [0x42, 0x52, 2, 0, 6, 0, 0, 0, 5, 0, 0xa1, 0];

fn stream() -> FakeStream {
    FakeStream::new(DeviceSelection::Auto)
}

fn request(id: u8) -> ProtocolMessage {
    ProtocolMessage {
        payload_length: 2,
        message_id: 6,
        src_device_id: 0,
        dst_device_id: 0,
        payload: vec![id, 0],
        checksum: 0x9c + id as u16,
    }
}

fn request_bytes(id: u16) -> Vec<u8> {
    let mut message = bluerobotics_ping::message::ProtocolMessage::new();
    message.set_message(&Messages::GeneralRequest(GeneralRequestStruct {
        requested_id: id,
    }));
    message.serialized()
}

fn outside_error_text(bytes: &[u8]) -> String {
    let mut buffer = BytesMut::new();
    buffer.extend_from_slice(bytes);
    format!("{:?}", PingCodec::new().decode(&mut buffer).unwrap_err())
}

fn failure_text(step: WriteStep) -> String {
    match step {
        WriteStep::Failed(error) => format!("{:?}", error),
        other => panic!("{:?}", other),
    }
}

#[test]
fn written_frame_is_sent() {
    let mut stream = stream();
    assert_eq!(stream.poll_write(&REQUEST), WriteStep::Send(request(5)));
    assert_eq!(
        stream.poll_send_message(request(5), Slot::Reserved),
        Delivery::Send(request(5))
    );
    assert_eq!(stream.poll_write_sent(12), WriteStep::Done(12));
}

#[test]
fn request_bytes_are_what_the_protocol_says() {
    assert_eq!(request_bytes(5), REQUEST.to_vec());
}

#[test]
fn frames_of_one_write_are_sent_in_order() {
    let mut stream = stream();
    let mut bytes = request_bytes(4);
    bytes.extend(request_bytes(5));
    assert_eq!(stream.poll_write(&bytes), WriteStep::Send(request(4)));
    assert_eq!(stream.poll_write_sent(24), WriteStep::Send(request(5)));
    assert_eq!(stream.poll_write_sent(24), WriteStep::Done(24));
}

#[test]
fn empty_write_is_done_at_once() {
    assert_eq!(stream().poll_write(&[]), WriteStep::Done(0));
}

#[test]
fn frame_without_payload_is_sent() {
    let mut stream = stream();
    let bytes = [0x42, 0x52, 0, 0, 0x57, 0x0b, 7, 9, 0x06, 0x01];
    assert_eq!(
        stream.poll_write(&bytes),
        WriteStep::Send(ProtocolMessage {
            payload_length: 0,
            message_id: 2903,
            src_device_id: 7,
            dst_device_id: 9,
            payload: vec![],
            checksum: 0x106,
        })
    );
}

#[test]
fn wrong_first_byte_fails() {
    let mut stream = stream();
    assert_eq!(
        stream.poll_write(&[0x41, 0x52]),
        WriteStep::Failed(PingError::ParseError(ParseError::InvalidStartByte))
    );
}

#[test]
fn wrong_second_byte_fails() {
    let mut stream = stream();
    assert_eq!(
        stream.poll_write(&[0x42, 0x42, 0x52]),
        WriteStep::Failed(PingError::ParseError(ParseError::InvalidStartByte))
    );
}

#[test]
fn wrong_checksum_fails() {
    let mut bytes = REQUEST;
    bytes[11] = 1;
    let message = ProtocolMessage {
        checksum: 0x1a1,
        ..request(5)
    };
    assert_eq!(
        stream().poll_write(&bytes),
        WriteStep::Failed(PingError::ParseError(ParseError::ChecksumError(message)))
    );
}

#[test]
fn failures_read_like_those_of_the_protocol_crate() {
    let mut wrong = REQUEST;
    wrong[10] = 0xa2;
    for bytes in [&wrong[..], &[0x41][..], &[0x42, 0x41][..]] {
        assert_eq!(
            failure_text(stream().poll_write(bytes)),
            outside_error_text(bytes)
        );
    }
    assert_eq!(
        outside_error_text(&[0x41]),
        "ParseError(InvalidStartByte)".to_string()
    );
}

#[test]
fn write_behind_a_failure_goes_on_with_the_rest() {
    let mut stream = stream();
    let mut bytes = vec![0x41];
    bytes.extend(REQUEST);
    assert!(matches!(stream.poll_write(&bytes), WriteStep::Failed(_)));
    assert_eq!(
        stream.poll_write(&[0x41, 0x41]),
        WriteStep::Send(request(5))
    );
    assert_eq!(stream.poll_write_sent(2), WriteStep::Done(2));
    assert!(matches!(stream.poll_write(&[0x41]), WriteStep::Failed(_)));
}

#[test]
fn incomplete_frame_is_dropped_with_its_write() {
    let mut stream = stream();
    assert_eq!(stream.poll_write(&REQUEST[..5]), WriteStep::Done(5));
    assert_eq!(
        stream.poll_write(&REQUEST[5..]),
        WriteStep::Failed(PingError::ParseError(ParseError::InvalidStartByte))
    );
}

#[test]
fn incomplete_frames_of_every_length_are_done() {
    for length in 0..12 {
        assert_eq!(
            stream().poll_write(&REQUEST[..length]),
            WriteStep::Done(length)
        );
    }
}

#[test]
fn full_channel_keeps_the_message_and_takes_no_bytes_twice() {
    let mut stream = stream();
    let mut bytes = request_bytes(4);
    bytes.extend(request_bytes(5));
    assert_eq!(stream.poll_write(&bytes), WriteStep::Send(request(4)));
    assert_eq!(
        stream.poll_send_message(request(4), Slot::Full),
        Delivery::Pending
    );
    assert_eq!(stream.poll_write(&bytes), WriteStep::Send(request(4)));
    assert_eq!(
        stream.poll_send_message(request(4), Slot::Full),
        Delivery::Pending
    );
    assert_eq!(stream.poll_write(&bytes), WriteStep::Send(request(4)));
    assert_eq!(stream.poll_write_sent(24), WriteStep::Send(request(5)));
    assert_eq!(stream.poll_write_sent(24), WriteStep::Done(24));
    assert_eq!(stream.poll_write(&[]), WriteStep::Done(0));
}

#[test]
fn write_over_many_turns_and_flushes_sends_everything_once() {
    let mut stream = stream();
    let mut bytes = request_bytes(4);
    bytes.extend(request_bytes(5));
    bytes.extend(request_bytes(7));
    let mut sent = vec![];

    for (flush, room) in [(false, 0), (true, 0), (true, 1), (false, 1), (true, 1), (false, 3)] {
        let mut room = room;
        let mut step = if flush {
            match stream.poll_flush() {
                Some(message) => WriteStep::Send(message),
                None => continue,
            }
        } else {
            stream.poll_write(&bytes)
        };
        while let WriteStep::Send(message) = step {
            let slot = if room > 0 { Slot::Reserved } else { Slot::Full };
            match stream.poll_send_message(message, slot) {
                Delivery::Send(message) => sent.push(message),
                _ => break,
            }
            room -= 1;
            if flush {
                break;
            }
            step = stream.poll_write_sent(bytes.len());
        }
    }
    assert_eq!(sent, vec![request(4), request(5), request(7)]);
    assert_eq!(stream.poll_write(&[]), WriteStep::Done(0));
}

#[test]
fn kept_message_gives_way_to_a_later_one() {
    let mut stream = stream();
    assert_eq!(stream.poll_write(&REQUEST), WriteStep::Send(request(5)));
    stream.poll_send_message(request(5), Slot::Full);
    stream.poll_send_message(request(4), Slot::Full);
    assert_eq!(stream.poll_flush(), Some(request(4)));
    assert_eq!(stream.poll_flush(), None);
}

#[test]
fn flush_takes_the_waiting_message_once() {
    let mut stream = stream();
    assert_eq!(stream.poll_flush(), None);
    assert_eq!(stream.poll_write(&REQUEST), WriteStep::Send(request(5)));
    assert_eq!(
        stream.poll_send_message(request(5), Slot::Full),
        Delivery::Pending
    );
    assert_eq!(stream.poll_flush(), Some(request(5)));
    assert_eq!(stream.poll_flush(), None);
    assert_eq!(stream.poll_write(&REQUEST), WriteStep::Done(12));
}

#[test]
fn closed_channel_breaks_the_pipe() {
    let mut stream = stream();
    assert_eq!(stream.poll_write(&REQUEST), WriteStep::Send(request(5)));
    assert_eq!(
        stream.poll_send_message(request(5), Slot::Closed),
        Delivery::BrokenPipe
    );
    assert_eq!(stream.poll_flush(), None);
}

#[test]
fn read_gets_the_whole_frame_where_there_is_room() {
    let mut stream = stream();
    assert_eq!(stream.poll_read(64), ReadStep::Receive);
    assert_eq!(
        stream.poll_read_received(Some(request(5)), 64),
        REQUEST.to_vec()
    );
    assert_eq!(stream.poll_read(64), ReadStep::Receive);
}

#[test]
fn read_gets_the_frame_piece_by_piece() {
    let mut stream = stream();
    assert_eq!(stream.poll_read(5), ReadStep::Receive);
    let mut bytes = stream.poll_read_received(Some(request(5)), 5);
    assert_eq!(bytes, REQUEST[..5].to_vec());
    for room in [1, 4, 2] {
        match stream.poll_read(room) {
            ReadStep::Deliver(piece) => {
                assert_eq!(piece.len(), room);
                bytes.extend(piece);
            }
            ReadStep::Receive => panic!("bytes are left"),
        }
    }
    assert_eq!(bytes, REQUEST.to_vec());
    assert_eq!(stream.poll_read(1), ReadStep::Receive);
}

#[test]
fn read_without_room_keeps_everything() {
    let mut stream = stream();
    assert_eq!(
        stream.poll_read_received(Some(request(5)), 0),
        Vec::<u8>::new()
    );
    assert_eq!(stream.poll_read(0), ReadStep::Deliver(vec![]));
    assert_eq!(stream.poll_read(12), ReadStep::Deliver(REQUEST.to_vec()));
    assert_eq!(stream.poll_read(12), ReadStep::Receive);
}

#[test]
fn read_from_a_gone_device_gets_nothing() {
    let mut stream = stream();
    assert_eq!(stream.poll_read(12), ReadStep::Receive);
    assert_eq!(stream.poll_read_received(None, 12), Vec::<u8>::new());
}

#[test]
fn request_written_and_reply_read() {
    let mut stream = FakeStream::new(DeviceSelection::Ping360);
    let mut device = stream.run_loop();
    let message = match stream.poll_write(&REQUEST) {
        WriteStep::Send(message) => message,
        other => panic!("{:?}", other),
    };
    let reply = device.on_message(&message).reply;
    let bytes = stream.poll_read_received(reply, 4096);
    assert_eq!(
        bytes,
        vec![0x42, 0x52, 4, 0, 5, 0, 0, 0, 1, 1, 0, 0, 0x9f, 0]
    );
}
