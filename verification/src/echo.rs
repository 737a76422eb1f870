//! The echoes that a simulated sonar streams.

use crate::codec::{decoded, law_frame_round_trip, left_over, Decoded};
use crate::message::{
    law_packed_message, lemma_packed_well_formed, packed, MessageView, ProtocolMessage,
};
use crate::noise::{
    fake_echo_profile, law_points_of_a_profile, lemma_profile_shift, seeded, seeded_words, upcoming_words, Bump, BumpView,
    NOISE_SEED,
};
use crate::payload::{
    law_auto_device_data_layout, law_profile_layout,
    AutoDeviceData, AutoDeviceDataView, AutoTransmit, Profile, ProfileView, AUTO_DEVICE_DATA, PROFILE,
};
use rand::rngs::StdRng;
use vstd::prelude::*;

verus! {

/// The number of points of a Ping1D profile.
pub const PROFILE_POINTS: usize = 200;

/// The number of headings of a Ping360 in one turn, in gradians.
pub const ANGULAR_RESOLUTION: u32 = 400;

/// The time between two profiles of a Ping1D, in milliseconds.
pub const PROFILE_PERIOD: u64 = 50;

/// The time between two echoes of a Ping360, in milliseconds.
pub const AUTO_DEVICE_DATA_PERIOD: u64 = 7;

/// What one ping of a Ping1D measures.
#[derive(Debug, PartialEq, Eq)]
pub struct Sweep {
    pub distance: u32,
    pub confidence: u16,
    pub scan_length: u32,
    pub bump: Bump,
}

/// What a [`Sweep`] holds.
pub struct SweepView {
    pub distance: u32,
    pub confidence: u16,
    pub scan_length: u32,
    pub bump: BumpView,
}

impl View for Sweep {
    type V = SweepView;

    open spec fn view(&self) -> SweepView {
        SweepView {
            distance: self.distance,
            confidence: self.confidence,
            scan_length: self.scan_length,
            bump: self.bump@,
        }
    }
}

/// The profile of ping `ping_number`, with its noise drawn from `words` from
/// position `from` on.
pub open spec fn ping1d_profile(
    ping_number: u32,
    sweep: SweepView,
    words: Map<nat, u32>,
    from: nat,
) -> ProfileView {
    ProfileView {
        distance: sweep.distance,
        confidence: sweep.confidence,
        transmit_duration: 200,
        ping_number,
        scan_start: 0,
        scan_length: sweep.scan_length,
        gain_setting: 4,
        profile_data_length: PROFILE_POINTS as u16,
        profile_data: sweep.bump.profile(PROFILE_POINTS as nat, words, from),
    }
}

/// The profile of ping `ping_number`.
pub fn fake_profile_ping1d(ping_number: u32, sweep: &Sweep, rng: &mut StdRng) -> (profile: Profile)
    ensures
        profile@ == ping1d_profile(ping_number, sweep@, upcoming_words(*old(rng)), 0),
        profile.distance == sweep.distance,
        profile.confidence == sweep.confidence,
        profile.scan_length == sweep.scan_length,
        profile.ping_number == ping_number,
        profile.profile_data@.len() == 200,
        forall|k: nat| #[trigger]
            upcoming_words(*final(rng))[k] == upcoming_words(
                *old(rng),
            )[k + sweep@.bump.noise_points(PROFILE_POINTS as nat)],
{
    let profile_data = fake_echo_profile(PROFILE_POINTS, &sweep.bump, rng);
    Profile {
        distance: sweep.distance,
        confidence: sweep.confidence,
        transmit_duration: 200,
        ping_number,
        scan_start: 0,
        scan_length: sweep.scan_length,
        gain_setting: 4,
        profile_data_length: profile_data.len() as u16,
        profile_data,
    }
}

/// The heading of a Ping360 at its echo `counter`, in gradians.
pub open spec fn heading_of(counter: u32) -> u16 {
    (counter % ANGULAR_RESOLUTION) as u16
}

/// The heading of a Ping360 at its echo `counter`, in gradians.
pub fn heading(counter: u32) -> (angle: u16)
    ensures
        angle == heading_of(counter),
        angle < ANGULAR_RESOLUTION,
        angle == counter % 400,
{
    (counter % ANGULAR_RESOLUTION) as u16
}

/// The number of samples that a request comes to: at least one.
pub open spec fn samples_of(number_of_samples: u16) -> u16 {
    if number_of_samples == 0 {
        1
    } else {
        number_of_samples
    }
}

/// The number of samples that a request comes to: at least one.
pub fn samples(number_of_samples: u16) -> (count: u16)
    ensures
        count == samples_of(number_of_samples),
        count >= 1,
        number_of_samples >= 1 ==> count == number_of_samples,
{
    if number_of_samples == 0 {
        1
    } else {
        number_of_samples
    }
}

/// The echo `counter` that `request` gets, with its noise drawn from `words`
/// from position `from` on.
pub open spec fn ping360_device_data(
    request: AutoTransmit,
    counter: u32,
    number_of_samples: u16,
    bump: BumpView,
    words: Map<nat, u32>,
    from: nat,
) -> AutoDeviceDataView {
    AutoDeviceDataView {
        mode: request.mode,
        gain_setting: request.gain_setting,
        angle: heading_of(counter),
        transmit_duration: request.transmit_duration,
        sample_period: request.sample_period,
        transmit_frequency: request.transmit_frequency,
        start_angle: request.start_angle,
        stop_angle: request.stop_angle,
        num_steps: request.num_steps,
        delay: request.delay,
        number_of_samples,
        data_length: samples_of(number_of_samples),
        data: bump.profile(samples_of(number_of_samples) as nat, words, from),
    }
}

/// The echo `counter` that the request `payload` gets.
pub fn fake_device_data_ping360(
    payload: &AutoTransmit,
    counter: u32,
    number_of_samples: u16,
    bump: &Bump,
    rng: &mut StdRng,
) -> (device_data: AutoDeviceData)
    ensures
        device_data.angle == counter % 400,
        device_data.mode == payload.mode,
        device_data.gain_setting == payload.gain_setting,
        device_data.transmit_duration == payload.transmit_duration,
        device_data.sample_period == payload.sample_period,
        device_data.transmit_frequency == payload.transmit_frequency,
        device_data.start_angle == payload.start_angle,
        device_data.stop_angle == payload.stop_angle,
        device_data.num_steps == payload.num_steps,
        device_data.delay == payload.delay,
        device_data.number_of_samples == number_of_samples,
        device_data.data_length == device_data.data@.len(),
        device_data@ == ping360_device_data(
            *payload,
            counter,
            number_of_samples,
            bump@,
            upcoming_words(*old(rng)),
            0,
        ),
        forall|k: nat| #[trigger]
            upcoming_words(*final(rng))[k] == upcoming_words(*old(rng))[k + bump@.noise_points(
                samples_of(number_of_samples) as nat,
            )],
{
    let points: usize = samples(number_of_samples) as usize;
    let angle = heading(counter);
    let data = fake_echo_profile(points, bump, rng);
    AutoDeviceData {
        mode: payload.mode,
        gain_setting: payload.gain_setting,
        angle,
        transmit_duration: payload.transmit_duration,
        sample_period: payload.sample_period,
        transmit_frequency: payload.transmit_frequency,
        start_angle: payload.start_angle,
        stop_angle: payload.stop_angle,
        num_steps: payload.num_steps,
        delay: payload.delay,
        number_of_samples,
        data_length: data.len() as u16,
        data,
    }
}

/// The stream of profiles of a Ping1D.
pub struct ProfileStream {
    ping_number: u32,
    rng: StdRng,
    drawn: Ghost<nat>,
}

impl ProfileStream {
    /// The number of the ping that comes next.
    pub closed spec fn next_ping(self) -> u32 {
        self.ping_number
    }

    /// How many words the stream has drawn for its noise.
    pub closed spec fn drawn(self) -> nat {
        self.drawn@
    }

    /// The stream's noise goes on where its pings so far have left it.
    pub closed spec fn wf(self) -> bool {
        forall|k: nat| #[trigger]
            upcoming_words(self.rng)[k] == seeded_words(NOISE_SEED)[k + self.drawn@]
    }

    /// A stream in front of its first ping.
    pub fn new() -> (stream: Self)
        ensures
            stream.wf(),
            stream.next_ping() == 0,
            stream.drawn() == 0,
    {
        ProfileStream { ping_number: 0, rng: seeded(NOISE_SEED), drawn: Ghost(0nat) }
    }

    /// The number of the ping that comes next.
    pub fn ping_number(&self) -> (ping_number: u32)
        ensures
            ping_number == self.next_ping(),
    {
        self.ping_number
    }

    /// The message of the next ping. The last number that a ping can have is
    /// never given out.
    pub fn next_message(&mut self, sweep: &Sweep) -> (message: ProtocolMessage)
        requires
            old(self).wf(),
            old(self).next_ping() < u32::MAX,
        ensures
            final(self).wf(),
            final(self).next_ping() == old(self).next_ping() + 1,
            final(self).drawn() == old(self).drawn() + sweep@.bump.noise_points(
                PROFILE_POINTS as nat,
            ),
            message@ == profile_message(old(self).next_ping(), sweep@, old(self).drawn()),
    {
        let profile = fake_profile_ping1d(self.ping_number, sweep, &mut self.rng);
        proof {
            let words = upcoming_words(old(self).rng);
            let from = old(self).drawn@;
            let count = sweep@.bump.noise_points(PROFILE_POINTS as nat);
            lemma_profile_shift(
                sweep@.bump,
                PROFILE_POINTS as nat,
                words,
                seeded_words(NOISE_SEED),
                from,
            );
            self.drawn@ = from + count;
            assert forall|k: nat| #[trigger]
                upcoming_words(self.rng)[k] == seeded_words(NOISE_SEED)[k + self.drawn@] by {
                assert(words[k + count] == seeded_words(NOISE_SEED)[(k + count) + from]);
            }
        }
        self.ping_number = self.ping_number + 1;
        profile.pack()
    }
}

/// The message of ping `ping_number` of a stream that has drawn `drawn` words
/// before.
pub open spec fn profile_message(ping_number: u32, sweep: SweepView, drawn: nat) -> MessageView {
    packed(PROFILE, ping1d_profile(ping_number, sweep, seeded_words(NOISE_SEED), drawn).bytes())
}

/// The stream of echoes of a Ping360 that transmits on its own.
pub struct AutoDeviceDataStream {
    request: AutoTransmit,
    number_of_samples: u16,
    counter: u32,
    rng: StdRng,
    drawn: Ghost<nat>,
}

impl AutoDeviceDataStream {
    /// The request that the stream answers.
    pub closed spec fn request(self) -> AutoTransmit {
        self.request
    }

    /// The number of the echo that comes next.
    pub closed spec fn next_echo(self) -> u32 {
        self.counter
    }

    /// How many words the stream has drawn for its noise.
    pub closed spec fn drawn(self) -> nat {
        self.drawn@
    }

    /// Every echo has the number of samples that the request comes to, and the
    /// stream's noise goes on where its echoes so far have left it.
    pub closed spec fn wf(self) -> bool {
        &&& self.number_of_samples == samples_of(self.request.number_of_samples)
        &&& forall|k: nat| #[trigger]
            upcoming_words(self.rng)[k] == seeded_words(NOISE_SEED)[k + self.drawn@]
    }

    /// A stream in front of its first echo.
    pub fn new(request: AutoTransmit) -> (stream: Self)
        ensures
            stream.wf(),
            stream.request() == request,
            stream.next_echo() == 0,
            stream.drawn() == 0,
    {
        AutoDeviceDataStream {
            request,
            number_of_samples: samples(request.number_of_samples),
            counter: 0,
            rng: seeded(NOISE_SEED),
            drawn: Ghost(0nat),
        }
    }

    /// The number of the echo that comes next.
    pub fn counter(&self) -> (counter: u32)
        ensures
            counter == self.next_echo(),
    {
        self.counter
    }

    /// The number of samples of every echo.
    pub fn number_of_samples(&self) -> (number_of_samples: u16)
        requires
            self.wf(),
        ensures
            number_of_samples == samples_of(self.request().number_of_samples),
    {
        self.number_of_samples
    }

    /// The message of the next echo. The last number that an echo can have is
    /// never given out.
    pub fn next_message(&mut self, bump: &Bump) -> (message: ProtocolMessage)
        requires
            old(self).wf(),
            old(self).next_echo() < u32::MAX,
        ensures
            final(self).wf(),
            final(self).request() == old(self).request(),
            final(self).next_echo() == old(self).next_echo() + 1,
            final(self).drawn() == old(self).drawn() + bump@.noise_points(
                samples_of(old(self).request().number_of_samples) as nat,
            ),
            message@ == auto_device_data_message(
                old(self).request(),
                old(self).next_echo(),
                bump@,
                old(self).drawn(),
            ),
    {
        let device_data = fake_device_data_ping360(
            &self.request,
            self.counter,
            self.number_of_samples,
            bump,
            &mut self.rng,
        );
        proof {
            let words = upcoming_words(old(self).rng);
            let from = old(self).drawn@;
            let points = self.number_of_samples as nat;
            let count = bump@.noise_points(points);
            lemma_profile_shift(bump@, points, words, seeded_words(NOISE_SEED), from);
            self.drawn@ = from + count;
            assert forall|k: nat| #[trigger]
                upcoming_words(self.rng)[k] == seeded_words(NOISE_SEED)[k + self.drawn@] by {
                assert(words[k + count] == seeded_words(NOISE_SEED)[(k + count) + from]);
            }
        }
        self.counter = self.counter + 1;
        device_data.pack()
    }
}

/// The message of echo `counter` that `request` gets from a stream that has
/// drawn `drawn` words before.
pub open spec fn auto_device_data_message(
    request: AutoTransmit,
    counter: u32,
    bump: BumpView,
    drawn: nat,
) -> MessageView {
    packed(
        AUTO_DEVICE_DATA,
        ping360_device_data(
            request,
            counter,
            samples_of(request.number_of_samples),
            bump,
            seeded_words(NOISE_SEED),
            drawn,
        ).bytes(),
    )
}

/// The heading wraps every 400 gradians.
pub proof fn law_heading_wraps(counter: u32, turns: nat)
    requires
        counter + turns * 400 <= u32::MAX,
    ensures
        heading_of((counter + turns * 400) as u32) == heading_of(counter),
        heading_of(counter) < 400,
{
    vstd::arithmetic::div_mod::lemma_mod_multiples_vanish(turns as int, counter as int, 400);
}

/// Within one turn, no two echoes have the same heading.
pub proof fn law_headings_differ_within_a_turn(first: u32, second: u32)
    requires
        first < second < first + 400,
    ensures
        heading_of(first) != heading_of(second),
{
}

/// From one echo to the next the heading goes on by one gradian, or back to 0.
pub proof fn law_heading_advances(counter: u32)
    requires
        counter < u32::MAX,
    ensures
        heading_of((counter + 1) as u32) == if heading_of(counter) == 399 {
            0int
        } else {
            heading_of(counter) + 1
        },
{
}

/// Two profiles of the same ping agree in every field but the data, and in all
/// points of the bump, whatever words they draw. Where they draw the same words
/// they agree in everything.
pub proof fn law_profiles_of_a_ping_agree(
    ping_number: u32,
    sweep: SweepView,
    words: Map<nat, u32>,
    from: nat,
    other_words: Map<nat, u32>,
    other_from: nat,
)
    ensures
        ({
            let profile = ping1d_profile(ping_number, sweep, words, from);
            let other = ping1d_profile(ping_number, sweep, other_words, other_from);
            &&& profile == ProfileView { profile_data: profile.profile_data, ..other }
            &&& forall|i: int|
                sweep.bump.start <= i < sweep.bump.stop() && i < PROFILE_POINTS
                    ==> #[trigger] profile.profile_data[i] == other.profile_data[i]
            &&& (forall|k: nat| #[trigger] words[from + k] == other_words[other_from + k])
                ==> profile == other
        }),
{
    let profile = ping1d_profile(ping_number, sweep, words, from);
    let other = ping1d_profile(ping_number, sweep, other_words, other_from);
    if forall|k: nat| #[trigger] words[from + k] == other_words[other_from + k] {
        assert forall|i: int| 0 <= i < PROFILE_POINTS implies #[trigger] profile.profile_data[i]
            == other.profile_data[i] by {
            let k = sweep.bump.noise_points(i as nat);
            assert(words[from + k] == other_words[other_from + k]);
        }
        assert(profile.profile_data =~= other.profile_data);
    }
}

/// Every message that a Ping1D streams is a well-formed frame, and whoever reads
/// its bytes reads the message.
pub proof fn law_profiles_can_be_read(
    ping_number: u32,
    sweep: SweepView,
    drawn: nat,
    tail: Seq<u8>,
)
    ensures
        ({
            let message = profile_message(ping_number, sweep, drawn);
            &&& message.well_formed()
            &&& message.payload.len() == 26 + PROFILE_POINTS
            &&& decoded(message.wire() + tail) == Decoded::Frame(message)
            &&& left_over(message.wire() + tail) == tail
        }),
{
    let profile = ping1d_profile(ping_number, sweep, seeded_words(NOISE_SEED), drawn);
    assert(profile.bytes().len() == 26 + PROFILE_POINTS);
    lemma_packed_well_formed(PROFILE, profile.bytes());
    law_frame_round_trip(profile_message(ping_number, sweep, drawn), tail);
}

/// Every message that a Ping360 streams is a well-formed frame, and whoever reads
/// its bytes reads the message, as long as the samples and the fields in front of
/// them fit one payload.
pub proof fn law_auto_device_data_can_be_read(
    request: AutoTransmit,
    counter: u32,
    bump: BumpView,
    drawn: nat,
    tail: Seq<u8>,
)
    requires
        samples_of(request.number_of_samples) <= 65515,
    ensures
        ({
            let message = auto_device_data_message(request, counter, bump, drawn);
            &&& message.well_formed()
            &&& message.payload.len() == 20 + samples_of(request.number_of_samples)
            &&& decoded(message.wire() + tail) == Decoded::Frame(message)
            &&& left_over(message.wire() + tail) == tail
        }),
{
    let echo = ping360_device_data(
        request,
        counter,
        samples_of(request.number_of_samples),
        bump,
        seeded_words(NOISE_SEED),
        drawn,
    );
    assert(echo.bytes().len() == 20 + samples_of(request.number_of_samples));
    lemma_packed_well_formed(AUTO_DEVICE_DATA, echo.bytes());
    law_frame_round_trip(auto_device_data_message(request, counter, bump, drawn), tail);
}

/// A profile reports what its ping measured, under the ping's number, with the
/// bump that was measured, and with the settings that all profiles have.
pub proof fn law_profile_reports_the_sweep(
    ping_number: u32,
    sweep: SweepView,
    words: Map<nat, u32>,
    from: nat,
)
    ensures
        ({
            let profile = ping1d_profile(ping_number, sweep, words, from);
            &&& profile.distance == sweep.distance
            &&& profile.confidence == sweep.confidence
            &&& profile.scan_length == sweep.scan_length
            &&& profile.ping_number == ping_number
            &&& profile.transmit_duration == 200
            &&& profile.scan_start == 0
            &&& profile.gain_setting == 4
            &&& profile.profile_data_length == 200
            &&& profile.profile_data == sweep.bump.profile(200, words, from)
        }),
{
}

/// What stands at each place of the message of a ping: the ping's number, what it
/// measured, and the points of its profile, whose noise is drawn from the one
/// seed that all streams start from, behind the words drawn before.
pub proof fn law_bytes_of_a_profile_message(
    ping_number: u32,
    sweep: SweepView,
    drawn: nat,
    index: int,
)
    requires
        0 <= index < 200,
    ensures
        ({
            let message = profile_message(ping_number, sweep, drawn);
            let bytes = message.payload;
            let bump = sweep.bump;
            let words = seeded_words(0x426c7565);
            let point = bytes[26 + index];
            &&& message.message_id == 1300
            &&& message.src_device_id == 0
            &&& message.dst_device_id == 0
            &&& message.payload_length == 226
            &&& message.has_valid_crc()
            &&& bytes.len() == 226
            &&& bytes[0] + 256 * bytes[1] + 65536 * bytes[2] + 16777216 * bytes[3] == sweep.distance
            &&& bytes[4] + 256 * bytes[5] == sweep.confidence
            &&& bytes[6] + 256 * bytes[7] == 200
            &&& bytes[8] + 256 * bytes[9] + 65536 * bytes[10] + 16777216 * bytes[11] == ping_number
            &&& bytes[12] + 256 * bytes[13] + 65536 * bytes[14] + 16777216 * bytes[15] == 0
            &&& bytes[16] + 256 * bytes[17] + 65536 * bytes[18] + 16777216 * bytes[19] == sweep.scan_length
            &&& bytes[20] + 256 * bytes[21] + 65536 * bytes[22] + 16777216 * bytes[23] == 4
            &&& bytes[24] + 256 * bytes[25] == 200
            &&& if index < bump.start {
                let byte = words[(drawn + index) as nat] / 16777216;
                10 * point <= byte < 10 * point + 10
            } else if index < bump.start + bump.heights.len() {
                point == bump.heights[index - bump.start]
            } else {
                let byte = words[(drawn + index - bump.heights.len()) as nat] / 16777216;
                20 * point <= 9 * byte < 20 * point + 20
            }
        }),
{
    let profile = ping1d_profile(ping_number, sweep, seeded_words(NOISE_SEED), drawn);
    law_profile_layout(profile);
    law_packed_message(PROFILE, profile.bytes());
    law_points_of_a_profile(sweep.bump, 200, seeded_words(NOISE_SEED), drawn, index);
    assert(profile.bytes().skip(26)[index] == profile.bytes()[26 + index]);
}

/// An echo reports the heading that its number gives, everything that was
/// requested as it was requested, and as many samples as it says, at least one.
pub proof fn law_echo_reports_heading_and_request(
    request: AutoTransmit,
    counter: u32,
    number_of_samples: u16,
    bump: BumpView,
    words: Map<nat, u32>,
    from: nat,
)
    ensures
        ({
            let echo = ping360_device_data(request, counter, number_of_samples, bump, words, from);
            let count: int = if number_of_samples == 0 {
                1
            } else {
                number_of_samples as int
            };
            &&& echo.angle == counter % 400
            &&& echo.mode == request.mode
            &&& echo.gain_setting == request.gain_setting
            &&& echo.transmit_duration == request.transmit_duration
            &&& echo.sample_period == request.sample_period
            &&& echo.transmit_frequency == request.transmit_frequency
            &&& echo.start_angle == request.start_angle
            &&& echo.stop_angle == request.stop_angle
            &&& echo.num_steps == request.num_steps
            &&& echo.delay == request.delay
            &&& echo.number_of_samples == number_of_samples
            &&& echo.data_length == count
            &&& echo.data == bump.profile(count as nat, words, from)
        }),
{
}

/// What stands at each place of the message of an echo: the heading that its
/// number gives, the fields of the request, and the samples, whose noise is drawn
/// from the one seed that all streams start from, behind the words drawn before.
pub proof fn law_bytes_of_an_echo_message(
    request: AutoTransmit,
    counter: u32,
    bump: BumpView,
    drawn: nat,
    index: int,
)
    requires
        0 <= index < if request.number_of_samples == 0 {
            1int
        } else {
            request.number_of_samples as int
        },
    ensures
        ({
            let message = auto_device_data_message(request, counter, bump, drawn);
            let bytes = message.payload;
            let words = seeded_words(0x426c7565);
            let count: int = if request.number_of_samples == 0 {
                1
            } else {
                request.number_of_samples as int
            };
            let point = bytes[20 + index];
            &&& message.message_id == 2301
            &&& message.src_device_id == 0
            &&& message.dst_device_id == 0
            &&& message.payload_length == (20 + count) % 65536
            &&& message.has_valid_crc()
            &&& bytes.len() == 20 + count
            &&& bytes[0] == request.mode
            &&& bytes[1] == request.gain_setting
            &&& bytes[2] + 256 * bytes[3] == counter % 400
            &&& bytes[4] + 256 * bytes[5] == request.transmit_duration
            &&& bytes[6] + 256 * bytes[7] == request.sample_period
            &&& bytes[8] + 256 * bytes[9] == request.transmit_frequency
            &&& bytes[10] + 256 * bytes[11] == request.start_angle
            &&& bytes[12] + 256 * bytes[13] == request.stop_angle
            &&& bytes[14] == request.num_steps
            &&& bytes[15] == request.delay
            &&& bytes[16] + 256 * bytes[17] == count
            &&& bytes[18] + 256 * bytes[19] == count
            &&& if index < bump.start {
                let byte = words[(drawn + index) as nat] / 16777216;
                10 * point <= byte < 10 * point + 10
            } else if index < bump.start + bump.heights.len() {
                point == bump.heights[index - bump.start]
            } else {
                let byte = words[(drawn + index - bump.heights.len()) as nat] / 16777216;
                20 * point <= 9 * byte < 20 * point + 20
            }
        }),
{
    let count = samples_of(request.number_of_samples);
    let words = seeded_words(NOISE_SEED);
    let echo = ping360_device_data(request, counter, count, bump, words, drawn);
    law_auto_device_data_layout(echo);
    law_packed_message(AUTO_DEVICE_DATA, echo.bytes());
    law_points_of_a_profile(bump, count as nat, words, drawn, index);
    assert(echo.bytes().skip(20)[index] == echo.bytes()[20 + index]);
}

/// The numbers of samples and of the heading, in terms of what they are taken
/// from.
pub proof fn law_samples_and_heading(number_of_samples: u16, counter: u32)
    ensures
        samples_of(number_of_samples) >= 1,
        number_of_samples >= 1 ==> samples_of(number_of_samples) == number_of_samples,
        number_of_samples == 0 ==> samples_of(number_of_samples) == 1,
        heading_of(counter) == counter % 400,
{
}

/// A sweep's view holds the sweep's own fields.
pub proof fn law_sweep_view(sweep: Sweep)
    ensures
        sweep@.distance == sweep.distance,
        sweep@.confidence == sweep.confidence,
        sweep@.scan_length == sweep.scan_length,
        sweep@.bump == sweep.bump@,
{
}

/// A Ping1D pings every 50 ms, 200 points at a time, and a Ping360 every 7 ms, 400
/// times in a turn. Both draw their noise from the same seed.
pub proof fn law_pace_of_the_streams()
    ensures
        PROFILE_PERIOD == 50,
        PROFILE_POINTS == 200,
        AUTO_DEVICE_DATA_PERIOD == 7,
        ANGULAR_RESOLUTION == 400,
        NOISE_SEED == 0x426c7565,
{
}

} // verus!
