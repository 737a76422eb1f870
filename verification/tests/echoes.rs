use bluerobotics_ping::message::DeserializeGenericMessage;
use bluerobotics_ping::{ping1d, ping360};
use ping_fake_device::echo::{
    fake_device_data_ping360, fake_profile_ping1d, heading, samples, AutoDeviceDataStream,
    ProfileStream, Sweep,
};
use ping_fake_device::message::ProtocolMessage;
use ping_fake_device::noise::{far_noise, fake_echo_profile, near_noise, Bump, NOISE_SEED};
use ping_fake_device::payload::AutoTransmit;
use rand::rngs::StdRng;
use rand::{Rng, SeedableRng};

fn rng() -> StdRng {
    StdRng::seed_from_u64(NOISE_SEED)
}

fn words(count: usize) -> Vec<u32> {
    let mut rng = rng();
    (0..count).map(|_| rng.next_u32()).collect()
}

fn request(number_of_samples: u16) -> AutoTransmit {
    AutoTransmit {
        mode: 1,
        gain_setting: 2,
        transmit_duration: 300,
        sample_period: 400,
        transmit_frequency: 500,
        number_of_samples,
        start_angle: 6,
        stop_angle: 399,
        num_steps: 7,
        delay: 8,
    }
}

fn bump(start: usize, heights: &[u8]) -> Bump {
    Bump {
        start,
        heights: heights.to_vec(),
    }
}

fn has_valid_crc(message: &ProtocolMessage) -> bool {
    bluerobotics_ping::message::ProtocolMessage {
        payload_length: message.payload_length,
        message_id: message.message_id,
        src_device_id: message.src_device_id,
        dst_device_id: message.dst_device_id,
        payload: message.payload.clone(),
        checksum: message.checksum,
    }
    .has_valid_crc()
}

/// A profile point by point, in floating point.
fn float_profile(points: usize, bump_start: f32, bump_stop: f32, rng: &mut StdRng) -> Vec<u8> {
    let bump_width = bump_stop - bump_start;
    (0..points)
        .map(|index| {
            let index = index as f32;
            let point = if index < bump_start {
                0.1 * ((rng.next_u32() >> 24) as f32)
            } else if index < bump_stop {
                255.0
                    * ((-4.0 / bump_width.powi(2))
                        * (index - bump_start - bump_width / 2.0).powi(2)
                        + 1.0)
            } else {
                0.45 * ((rng.next_u32() >> 24) as f32)
            };
            point as u8
        })
        .collect()
}

fn float_bump(points: usize, bump_start: f32, bump_stop: f32) -> Bump {
    let bump_width = bump_stop - bump_start;
    let start = bump_start.ceil() as usize;
    let stop = (bump_stop.ceil() as usize).min(points);
    Bump {
        start,
        heights: (start..stop)
            .map(|index| {
                let offset = index as f32 - bump_start - bump_width / 2.0;
                (255.0 * ((-4.0 / bump_width.powi(2)) * offset.powi(2) + 1.0)) as u8
            })
            .collect(),
    }
}

#[test]
fn noise_is_a_fixed_share_of_the_high_byte() {
    for byte in 0..256u32 {
        let word = (byte << 24) | 0x00ab_cdef;
        assert_eq!(near_noise(word), (0.1 * (byte as f32)) as u8);
        assert_eq!(far_noise(word), (0.45 * (byte as f32)) as u8);
    }
    assert_eq!(near_noise(u32::MAX), 25);
    assert_eq!(far_noise(u32::MAX), 114);
    assert_eq!(near_noise(100 << 24), 10);
    assert_eq!(far_noise(100 << 24), 45);
    assert_eq!(far_noise(20 << 24), 9);
}

#[test]
fn profile_is_noise_bump_noise() {
    let words = words(5);
    let data = fake_echo_profile(8, &bump(2, &[10, 255, 20]), &mut rng());
    assert_eq!(
        data,
        vec![
            near_noise(words[0]),
            near_noise(words[1]),
            10,
            255,
            20,
            far_noise(words[2]),
            far_noise(words[3]),
            far_noise(words[4]),
        ]
    );
}

#[test]
fn profile_draws_one_word_for_each_point_of_noise() {
    let words = words(6);
    let mut rng = rng();
    fake_echo_profile(8, &bump(2, &[10, 255, 20]), &mut rng);
    assert_eq!(rng.next_u32(), words[5]);
}

#[test]
fn profile_without_points_is_empty() {
    let mut rng = rng();
    assert_eq!(
        fake_echo_profile(0, &bump(2, &[1]), &mut rng),
        Vec::<u8>::new()
    );
    assert_eq!(rng.next_u32(), words(1)[0]);
}

#[test]
fn bump_may_reach_over_the_end() {
    let words = words(2);
    assert_eq!(
        fake_echo_profile(3, &bump(2, &[7, 8, 9]), &mut rng()),
        vec![near_noise(words[0]), near_noise(words[1]), 7]
    );
    assert_eq!(
        fake_echo_profile(2, &bump(5, &[7]), &mut rng()),
        vec![near_noise(words[0]), near_noise(words[1])]
    );
}

#[test]
fn profiles_agree_with_floating_point() {
    for (points, start, stop) in [
        (200usize, 100.0f32, 126.0f32),
        (200, 90.3, 125.99),
        (200, 109.99, 114.01),
        (1200, 790.2, 850.7),
        (1, 0.675, 0.725),
        (40, -3.5, 7.25),
        (40, 35.5, 60.0),
        (40, 50.0, 60.0),
        (10, 4.0, 4.0),
    ] {
        let mut expected_rng = rng();
        let mut actual_rng = rng();
        assert_eq!(
            fake_echo_profile(points, &float_bump(points, start, stop), &mut actual_rng),
            float_profile(points, start, stop, &mut expected_rng)
        );
        assert_eq!(actual_rng.next_u32(), expected_rng.next_u32());
    }
}

fn sweep() -> Sweep {
    Sweep {
        distance: 0x0102_0304,
        confidence: 0x0506,
        scan_length: 0x0708_090a,
        bump: bump(100, &[50, 100, 50]),
    }
}

#[test]
fn ping1d_profile_holds_what_was_measured() {
    let profile = fake_profile_ping1d(9, &sweep(), &mut rng());
    assert_eq!(profile.distance, 0x0102_0304);
    assert_eq!(profile.confidence, 0x0506);
    assert_eq!(profile.transmit_duration, 200);
    assert_eq!(profile.ping_number, 9);
    assert_eq!(profile.scan_start, 0);
    assert_eq!(profile.scan_length, 0x0708_090a);
    assert_eq!(profile.gain_setting, 4);
    assert_eq!(profile.profile_data_length, 200);
    assert_eq!(
        profile.profile_data,
        fake_echo_profile(200, &sweep().bump, &mut rng())
    );
}

#[test]
fn profiles_of_a_ping_agree_but_for_the_noise() {
    let wide = Sweep {
        bump: bump(110, &[60, 70, 80, 90]),
        ..sweep()
    };
    let mut other_rng = StdRng::seed_from_u64(1);
    let mut first = fake_profile_ping1d(9, &wide, &mut rng());
    let mut other = fake_profile_ping1d(9, &wide, &mut other_rng);
    assert_eq!(first, fake_profile_ping1d(9, &wide, &mut rng()));
    assert_ne!(first, other);
    assert_eq!(first.profile_data[110..114], [60, 70, 80, 90]);
    assert_eq!(other.profile_data[110..114], [60, 70, 80, 90]);
    first.profile_data.clear();
    other.profile_data.clear();
    assert_eq!(first, other);
}

#[test]
fn ping1d_stream_numbers_its_pings_and_goes_on_with_its_noise() {
    let mut stream = ProfileStream::new();
    let mut rng = rng();
    for ping_number in 0..3 {
        assert_eq!(stream.ping_number(), ping_number);
        let message = stream.next_message(&sweep());
        assert_eq!(message.message_id, 1300);
        assert_eq!(message.payload_length, 226);
        assert!(has_valid_crc(&message));
        assert_eq!(
            ping1d::Messages::deserialize(1300, &message.payload).unwrap(),
            ping1d::Messages::Profile(ping1d::ProfileStruct {
                distance: 0x0102_0304,
                confidence: 0x0506,
                transmit_duration: 200,
                ping_number,
                scan_start: 0,
                scan_length: 0x0708_090a,
                gain_setting: 4,
                profile_data_length: 200,
                profile_data: fake_echo_profile(200, &sweep().bump, &mut rng),
            })
        );
    }
}

#[test]
fn ping1d_profile_begins_with_these_bytes() {
    let message = ProfileStream::new().next_message(&sweep());
    assert_eq!(
        message.payload[..26],
        [
            4, 3, 2, 1, 6, 5, 200, 0, 0, 0, 0, 0, 0, 0, 0, 0, 10, 9, 8, 7, 4, 0, 0, 0, 200, 0
        ]
    );
}

#[test]
fn streams_start_alike() {
    let mut first = ProfileStream::new();
    let mut second = ProfileStream::new();
    for _ in 0..3 {
        assert_eq!(first.next_message(&sweep()), second.next_message(&sweep()));
    }
}

#[test]
fn heading_wraps_every_400_gradians() {
    assert_eq!(heading(0), 0);
    assert_eq!(heading(399), 399);
    assert_eq!(heading(400), 0);
    assert_eq!(heading(1203), 3);
    assert_eq!(heading(u32::MAX), 95);
}

#[test]
fn there_is_at_least_one_sample() {
    assert_eq!(samples(0), 1);
    assert_eq!(samples(1), 1);
    assert_eq!(samples(65535), 65535);
}

#[test]
fn ping360_echo_holds_what_was_requested() {
    let echo = fake_device_data_ping360(&request(5), 401, 5, &bump(1, &[9]), &mut rng());
    assert_eq!(echo.mode, 1);
    assert_eq!(echo.gain_setting, 2);
    assert_eq!(echo.angle, 1);
    assert_eq!(echo.transmit_duration, 300);
    assert_eq!(echo.sample_period, 400);
    assert_eq!(echo.transmit_frequency, 500);
    assert_eq!(echo.start_angle, 6);
    assert_eq!(echo.stop_angle, 399);
    assert_eq!(echo.num_steps, 7);
    assert_eq!(echo.delay, 8);
    assert_eq!(echo.number_of_samples, 5);
    assert_eq!(echo.data_length, 5);
    assert_eq!(
        echo.data,
        fake_echo_profile(5, &bump(1, &[9]), &mut rng())
    );
}

#[test]
fn ping360_echo_without_samples_has_one() {
    let echo = fake_device_data_ping360(&request(0), 0, 0, &bump(0, &[9]), &mut rng());
    assert_eq!(echo.number_of_samples, 0);
    assert_eq!(echo.data_length, 1);
    assert_eq!(echo.data, vec![9]);
}

#[test]
fn ping360_stream_turns_and_goes_on_with_its_noise() {
    let mut stream = AutoDeviceDataStream::new(request(30));
    let mut rng = rng();
    for counter in 0..402u32 {
        assert_eq!(stream.counter(), counter);
        assert_eq!(stream.number_of_samples(), 30);
        let message = stream.next_message(&bump(20, &[1, 2, 3]));
        assert!(has_valid_crc(&message));
        assert_eq!(message.payload_length, 50);
        assert_eq!(message.message_id, 2301);
        assert_eq!(
            ping360::Messages::deserialize(2301, &message.payload).unwrap(),
            ping360::Messages::AutoDeviceData(ping360::AutoDeviceDataStruct {
                mode: 1,
                gain_setting: 2,
                angle: (counter % 400) as u16,
                transmit_duration: 300,
                sample_period: 400,
                transmit_frequency: 500,
                start_angle: 6,
                stop_angle: 399,
                num_steps: 7,
                delay: 8,
                number_of_samples: 30,
                data_length: 30,
                data: fake_echo_profile(30, &bump(20, &[1, 2, 3]), &mut rng),
            })
        );
    }
}

#[test]
fn ping360_stream_counts_no_samples_as_one() {
    let mut stream = AutoDeviceDataStream::new(request(0));
    assert_eq!(stream.number_of_samples(), 1);
    let message = stream.next_message(&bump(0, &[77]));
    assert_eq!(message.payload[16..], [1, 0, 1, 0, 77]);
}

#[test]
fn largest_echo_that_fits_announces_its_length() {
    let mut stream = AutoDeviceDataStream::new(request(65515));
    let message = stream.next_message(&bump(0, &[]));
    assert_eq!(message.payload_length, 65535);
    assert_eq!(message.payload.len(), 65535);
}

#[test]
fn larger_echoes_wrap_the_announced_length() {
    let mut stream = AutoDeviceDataStream::new(request(65535));
    let message = stream.next_message(&bump(0, &[]));
    assert_eq!(message.payload_length, 19);
    assert_eq!(message.payload.len(), 65555);
    assert!(has_valid_crc(&message));
}
