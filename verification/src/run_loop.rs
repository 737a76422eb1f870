//! What the simulated device does on each message that it receives.

use crate::codec::{decoded, law_frame_round_trip, left_over, Decoded};
use crate::message::{
    from_le16, law_packed_message, le16, lemma_packed_well_formed, packed, MessageView, ProtocolMessage,
};
use crate::payload::{
    auto_transmit, law_ack_layout, law_auto_transmit_layout, Ack, AutoTransmit, DeviceData, DeviceDataView, DeviceInformation,
    ProtocolVersion, ACK, AUTO_TRANSMIT, AUTO_TRANSMIT_LENGTH, CONTINUOUS_START, CONTINUOUS_STOP,
    DEVICE_DATA, DEVICE_INFORMATION, GENERAL_REQUEST, MOTOR_OFF, PROFILE, PROTOCOL_VERSION,
};
use vstd::prelude::*;

verus! {

/// Which device is simulated. Whatever is no Ping360 is simulated as a Ping1D.
#[derive(Clone, Copy, Debug, PartialEq, Eq, Structural)]
pub enum DeviceSelection {
    Common,
    Ping1D,
    Ping360,
    Auto,
}

impl DeviceSelection {
    /// The device type that the device reports of itself.
    pub open spec fn device_type(self) -> u8 {
        match self {
            DeviceSelection::Common | DeviceSelection::Ping1D | DeviceSelection::Auto => 1,
            DeviceSelection::Ping360 => 2,
        }
    }
}

/// A stream of echoes that the device can run.
#[derive(Clone, Copy, Debug, PartialEq, Eq, Structural)]
pub enum StreamKind {
    Profile,
    AutoDeviceData,
}

/// A stream to start.
#[derive(Clone, Copy, Debug, PartialEq, Eq)]
pub enum Start {
    Profile,
    AutoDeviceData(AutoTransmit),
}

impl Start {
    /// The kind of the stream.
    pub open spec fn kind(self) -> StreamKind {
        match self {
            Start::Profile => StreamKind::Profile,
            Start::AutoDeviceData(_) => StreamKind::AutoDeviceData,
        }
    }
}

/// How the device took a message.
#[derive(Clone, Copy, Debug, PartialEq, Eq, Structural)]
pub enum Verdict {
    /// The device does what the message asks for.
    Handled,
    /// The device has no answer to the message.
    Unhandled,
    /// The message is too short to say what it asks for.
    InvalidPayload,
    /// The message carries a wrong checksum.
    InvalidChecksum,
}

/// What the device does on a message: it starts a stream, aborts the stream of
/// a kind that ran before the message, and sends a reply, in this order.
#[derive(Debug, PartialEq, Eq)]
pub struct Reaction {
    pub start: Option<Start>,
    pub abort: Option<StreamKind>,
    pub reply: Option<ProtocolMessage>,
    pub verdict: Verdict,
}

/// What a [`Reaction`] holds.
pub struct ReactionView {
    pub start: Option<Start>,
    pub abort: Option<StreamKind>,
    pub reply: Option<MessageView>,
    pub verdict: Verdict,
}

impl View for Reaction {
    type V = ReactionView;

    open spec fn view(&self) -> ReactionView {
        ReactionView {
            start: self.start,
            abort: self.abort,
            reply: match self.reply {
                Some(message) => Some(message@),
                None => None,
            },
            verdict: self.verdict,
        }
    }
}

impl ReactionView {
    /// Nothing is done.
    pub open spec fn nothing(verdict: Verdict) -> ReactionView {
        ReactionView { start: None, abort: None, reply: None, verdict }
    }

    /// How many streams of `kind` run behind the reaction, where `live` ran in
    /// front of it.
    pub open spec fn live_after(self, kind: StreamKind, live: int) -> int {
        let started: int = match self.start {
            Some(start) => if start.kind() == kind { 1 } else { 0 },
            None => 0,
        };
        let aborted: int = if self.abort == Some(kind) { 1 } else { 0 };
        live + started - aborted
    }
}

/// What the device does on what its channel gives it.
#[derive(Debug, PartialEq, Eq)]
pub enum LoopStep {
    /// It reacts to a message, and goes on.
    React(Reaction),
    /// It aborts these streams, and ends.
    End { abort_profile: bool, abort_auto_device_data: bool },
}

/// What a [`LoopStep`] holds.
pub enum LoopStepView {
    React(ReactionView),
    End { abort_profile: bool, abort_auto_device_data: bool },
}

impl View for LoopStep {
    type V = LoopStepView;

    open spec fn view(&self) -> LoopStepView {
        match *self {
            LoopStep::React(reaction) => LoopStepView::React(reaction@),
            LoopStep::End { abort_profile, abort_auto_device_data } => LoopStepView::End {
                abort_profile,
                abort_auto_device_data,
            },
        }
    }
}

impl LoopStepView {
    /// How many streams of `kind` run behind the step, where `live` ran in front
    /// of it.
    pub open spec fn live_after(self, kind: StreamKind, live: int) -> int {
        match self {
            LoopStepView::React(reaction) => reaction.live_after(kind, live),
            LoopStepView::End { abort_profile, abort_auto_device_data } => {
                let aborted = match kind {
                    StreamKind::Profile => abort_profile,
                    StreamKind::AutoDeviceData => abort_auto_device_data,
                };
                if aborted {
                    live - 1
                } else {
                    live
                }
            },
        }
    }
}

impl Reaction {
    fn nothing(verdict: Verdict) -> (reaction: Reaction)
        ensures
            reaction@ == ReactionView::nothing(verdict),
    {
        Reaction { start: None, abort: None, reply: None, verdict }
    }
}

/// The number that the first two bytes of a payload ask for.
pub open spec fn requested(message: MessageView) -> Option<u16> {
    if message.payload.len() < 2 {
        None
    } else {
        Some(from_le16(message.payload[0], message.payload[1]))
    }
}

/// The device's information about itself.
pub open spec fn device_information(selection: DeviceSelection) -> DeviceInformation {
    DeviceInformation {
        device_type: selection.device_type(),
        device_revision: 1,
        firmware_version_major: 3,
        firmware_version_minor: 3,
        firmware_version_patch: 0,
        reserved: 0,
    }
}

/// The protocol version that the device speaks.
pub open spec fn protocol_version() -> ProtocolVersion {
    ProtocolVersion { version_major: 1, version_minor: 1, version_patch: 0, reserved: 0 }
}

/// The echo, without samples, that a Ping360 gives on request.
pub open spec fn device_data() -> DeviceDataView {
    DeviceDataView {
        mode: 1,
        gain_setting: 1,
        angle: 0,
        transmit_duration: 1000,
        sample_period: 80,
        transmit_frequency: 650,
        number_of_samples: 1200,
        data_length: 0,
        data: Seq::empty(),
    }
}

/// The answer to a request for the message `id`, where there is one.
pub open spec fn answer(selection: DeviceSelection, id: u16) -> Option<MessageView> {
    if id == DEVICE_INFORMATION {
        Some(packed(DEVICE_INFORMATION, device_information(selection).bytes()))
    } else if id == PROTOCOL_VERSION {
        Some(packed(PROTOCOL_VERSION, protocol_version().bytes()))
    } else if id == DEVICE_DATA {
        Some(packed(DEVICE_DATA, device_data().bytes()))
    } else {
        None
    }
}

/// The device between two messages: which device it is, and which streams run.
#[derive(Clone, Copy, Debug, PartialEq, Eq)]
pub struct RunLoop {
    pub selection: DeviceSelection,
    pub profile_running: bool,
    pub auto_device_data_running: bool,
}

impl RunLoop {
    /// Whether a stream of `kind` runs.
    pub open spec fn running(self, kind: StreamKind) -> bool {
        match kind {
            StreamKind::Profile => self.profile_running,
            StreamKind::AutoDeviceData => self.auto_device_data_running,
        }
    }

    /// Whether the device simulates a Ping360.
    pub open spec fn is_ping360(self) -> bool {
        self.selection == DeviceSelection::Ping360
    }

    /// A Ping1D runs no stream of a Ping360, nor a Ping360 one of a Ping1D.
    pub open spec fn wf(self) -> bool {
        &&& self.profile_running ==> !self.is_ping360()
        &&& self.auto_device_data_running ==> self.is_ping360()
    }

    /// Whether the device can take the message. Only a request to a Ping360 to
    /// transmit that does not hold all fields of such a request is out.
    pub open spec fn accepts_view(self, message: MessageView) -> bool {
        message.has_valid_crc() && message.message_id == AUTO_TRANSMIT && self.is_ping360()
            ==> message.payload.len() >= AUTO_TRANSMIT_LENGTH
    }

    /// What the device does on a message.
    pub open spec fn reaction(self, message: MessageView) -> ReactionView {
        let id = message.message_id;
        if !message.has_valid_crc() {
            ReactionView::nothing(Verdict::InvalidChecksum)
        } else if id == GENERAL_REQUEST {
            match requested(message) {
                None => ReactionView::nothing(Verdict::InvalidPayload),
                Some(wanted) => ReactionView {
                    start: None,
                    abort: None,
                    reply: answer(self.selection, wanted),
                    verdict: if answer(self.selection, wanted) is Some {
                        Verdict::Handled
                    } else {
                        Verdict::Unhandled
                    },
                },
            }
        } else if (id == CONTINUOUS_START || id == CONTINUOUS_STOP) && !self.is_ping360() {
            match requested(message) {
                None => ReactionView::nothing(Verdict::InvalidPayload),
                Some(wanted) => if wanted != PROFILE {
                    ReactionView::nothing(Verdict::Unhandled)
                } else {
                    ReactionView {
                        start: if id == CONTINUOUS_START {
                            Some(Start::Profile)
                        } else {
                            None
                        },
                        abort: if self.profile_running {
                            Some(StreamKind::Profile)
                        } else {
                            None
                        },
                        reply: None,
                        verdict: Verdict::Handled,
                    }
                },
            }
        } else if (id == AUTO_TRANSMIT || id == MOTOR_OFF) && self.is_ping360() {
            ReactionView {
                start: if id == AUTO_TRANSMIT {
                    Some(Start::AutoDeviceData(auto_transmit(message.payload)))
                } else {
                    None
                },
                abort: if self.auto_device_data_running {
                    Some(StreamKind::AutoDeviceData)
                } else {
                    None
                },
                reply: if id == MOTOR_OFF {
                    Some(packed(ACK, (Ack { acked_id: MOTOR_OFF }).bytes()))
                } else {
                    None
                },
                verdict: Verdict::Handled,
            }
        } else {
            ReactionView::nothing(Verdict::Unhandled)
        }
    }

    /// The device behind a reaction: a stream runs that was started, or that ran
    /// before and was not aborted.
    pub open spec fn after(self, reaction: ReactionView) -> RunLoop {
        RunLoop {
            selection: self.selection,
            profile_running: match reaction.start {
                Some(Start::Profile) => true,
                _ => self.profile_running && reaction.abort != Some(StreamKind::Profile),
            },
            auto_device_data_running: match reaction.start {
                Some(Start::AutoDeviceData(_)) => true,
                _ => self.auto_device_data_running && reaction.abort != Some(
                    StreamKind::AutoDeviceData,
                ),
            },
        }
    }

    /// What the device does on what its channel gives it: a message, or nothing
    /// once the channel is closed and empty.
    pub open spec fn step(self, received: Option<MessageView>) -> LoopStepView {
        match received {
            Some(message) => LoopStepView::React(self.reaction(message)),
            None => LoopStepView::End {
                abort_profile: self.profile_running,
                abort_auto_device_data: self.auto_device_data_running,
            },
        }
    }

    /// The device behind a step. Behind its end no stream runs.
    pub open spec fn after_step(self, step: LoopStepView) -> RunLoop {
        match step {
            LoopStepView::React(reaction) => self.after(reaction),
            LoopStepView::End { .. } => RunLoop {
                selection: self.selection,
                profile_running: false,
                auto_device_data_running: false,
            },
        }
    }

    /// A device that runs no stream.
    pub fn new(selection: DeviceSelection) -> (run_loop: Self)
        ensures
            run_loop.selection == selection,
            !run_loop.profile_running,
            !run_loop.auto_device_data_running,
            run_loop.wf(),
    {
        RunLoop { selection, profile_running: false, auto_device_data_running: false }
    }

    /// Whether the device can take the message.
    pub fn accepts(&self, message: &ProtocolMessage) -> (accepted: bool)
        ensures
            accepted == self.accepts_view(message@),
            !accepted <==> message@.has_valid_crc() && message.message_id == 2602
                && self.selection == DeviceSelection::Ping360 && message.payload@.len() < 16,
    {
        message.payload.len() >= AUTO_TRANSMIT_LENGTH || message.message_id != AUTO_TRANSMIT
            || self.selection != DeviceSelection::Ping360 || !message.has_valid_crc()
    }

    /// Takes one message.
    pub fn on_message(&mut self, message: &ProtocolMessage) -> (reaction: Reaction)
        requires
            old(self).accepts_view(message@),
        ensures
            reaction@ == old(self).reaction(message@),
            *final(self) == old(self).after(reaction@),
            final(self).selection == old(self).selection,
            old(self).wf() ==> final(self).wf(),
    {
        if !message.has_valid_crc() {
            return Reaction::nothing(Verdict::InvalidChecksum);
        }
        let id = message.message_id;
        let ping360 = self.selection == DeviceSelection::Ping360;
        if id == GENERAL_REQUEST {
            match message.leading_u16() {
                Some(wanted) => self.on_general_request(wanted),
                None => Reaction::nothing(Verdict::InvalidPayload),
            }
        } else if (id == CONTINUOUS_START || id == CONTINUOUS_STOP) && !ping360 {
            match message.leading_u16() {
                Some(wanted) => {
                    if wanted == PROFILE {
                        self.on_profile_stream(id == CONTINUOUS_START)
                    } else {
                        Reaction::nothing(Verdict::Unhandled)
                    }
                },
                None => Reaction::nothing(Verdict::InvalidPayload),
            }
        } else if id == AUTO_TRANSMIT && ping360 {
            let request = AutoTransmit::deserialize(&message.payload);
            let abort = self.take_auto_device_data();
            self.auto_device_data_running = true;
            Reaction {
                start: Some(Start::AutoDeviceData(request)),
                abort,
                reply: None,
                verdict: Verdict::Handled,
            }
        } else if id == MOTOR_OFF && ping360 {
            let abort = self.take_auto_device_data();
            let reply = Ack { acked_id: message.message_id }.pack();
            Reaction { start: None, abort, reply: Some(reply), verdict: Verdict::Handled }
        } else {
            Reaction::nothing(Verdict::Unhandled)
        }
    }

    /// Answers a request for the message `wanted`.
    fn on_general_request(&self, wanted: u16) -> (reaction: Reaction)
        ensures
            reaction@ == (ReactionView {
                start: None,
                abort: None,
                reply: answer(self.selection, wanted),
                verdict: if answer(self.selection, wanted) is Some {
                    Verdict::Handled
                } else {
                    Verdict::Unhandled
                },
            }),
    {
        let reply = if wanted == DEVICE_INFORMATION {
            DeviceInformation {
                device_type: match self.selection {
                    DeviceSelection::Common | DeviceSelection::Ping1D | DeviceSelection::Auto => 1,
                    DeviceSelection::Ping360 => 2,
                },
                device_revision: 1,
                firmware_version_major: 3,
                firmware_version_minor: 3,
                firmware_version_patch: 0,
                reserved: 0,
            }.pack()
        } else if wanted == PROTOCOL_VERSION {
            ProtocolVersion { version_major: 1, version_minor: 1, version_patch: 0, reserved: 0 }.pack()
        } else if wanted == DEVICE_DATA {
            let data: Vec<u8> = Vec::new();
            assert(data@ =~= Seq::empty());
            DeviceData {
                mode: 1,
                gain_setting: 1,
                angle: 0,
                transmit_duration: 1000,
                sample_period: 80,
                transmit_frequency: 650,
                number_of_samples: 1200,
                data_length: 0,
                data,
            }.pack()
        } else {
            return Reaction::nothing(Verdict::Unhandled);
        };
        Reaction { start: None, abort: None, reply: Some(reply), verdict: Verdict::Handled }
    }

    /// Starts the stream of profiles, or stops it. A stream that runs is aborted
    /// either way.
    fn on_profile_stream(&mut self, start: bool) -> (reaction: Reaction)
        ensures
            final(self).selection == old(self).selection,
            final(self).profile_running == start,
            final(self).auto_device_data_running == old(self).auto_device_data_running,
            reaction@ == (ReactionView {
                start: if start {
                    Some(Start::Profile)
                } else {
                    None
                },
                abort: if old(self).profile_running {
                    Some(StreamKind::Profile)
                } else {
                    None
                },
                reply: None,
                verdict: Verdict::Handled,
            }),
    {
        let abort = if self.profile_running {
            Some(StreamKind::Profile)
        } else {
            None
        };
        self.profile_running = start;
        Reaction {
            start: if start {
                Some(Start::Profile)
            } else {
                None
            },
            abort,
            reply: None,
            verdict: Verdict::Handled,
        }
    }

    /// Marks the stream of a Ping360 as stopped, and says whether it ran.
    fn take_auto_device_data(&mut self) -> (abort: Option<StreamKind>)
        ensures
            final(self).selection == old(self).selection,
            final(self).profile_running == old(self).profile_running,
            !final(self).auto_device_data_running,
            abort == if old(self).auto_device_data_running {
                Some(StreamKind::AutoDeviceData)
            } else {
                None
            },
    {
        if self.auto_device_data_running {
            self.auto_device_data_running = false;
            Some(StreamKind::AutoDeviceData)
        } else {
            None
        }
    }

    /// Takes what the channel gives: a message, or nothing once the channel is
    /// closed and empty. The device ends then, and only then.
    pub fn on_received(&mut self, received: Option<&ProtocolMessage>) -> (step: LoopStep)
        requires
            received matches Some(message) ==> old(self).accepts_view(message@),
        ensures
            step is End <==> received is None,
            received is None ==> step == (LoopStep::End {
                abort_profile: old(self).profile_running,
                abort_auto_device_data: old(self).auto_device_data_running,
            }),
            received is None ==> !final(self).profile_running
                && !final(self).auto_device_data_running,
            step@ == old(self).step(
                match received {
                    Some(message) => Some(message@),
                    None => None,
                },
            ),
            *final(self) == old(self).after_step(step@),
            old(self).wf() ==> final(self).wf(),
    {
        match received {
            Some(message) => LoopStep::React(self.on_message(message)),
            None => {
                let (abort_profile, abort_auto_device_data) = self.close();
                LoopStep::End { abort_profile, abort_auto_device_data }
            },
        }
    }

    /// Ends the device: says which streams to abort, those of profiles first,
    /// and leaves none running.
    fn close(&mut self) -> (aborted: (bool, bool))
        ensures
            aborted == (old(self).profile_running, old(self).auto_device_data_running),
            final(self).selection == old(self).selection,
            !final(self).profile_running,
            !final(self).auto_device_data_running,
    {
        let aborted = (self.profile_running, self.auto_device_data_running);
        self.profile_running = false;
        self.auto_device_data_running = false;
        aborted
    }
}

/// A message with a wrong checksum changes nothing and is not answered.
pub proof fn law_wrong_checksum_is_ignored(device: RunLoop, message: MessageView)
    requires
        !message.has_valid_crc(),
    ensures
        device.reaction(message) == ReactionView::nothing(Verdict::InvalidChecksum),
        device.after(device.reaction(message)) == device,
{
}

/// Of each kind, as many streams run as the device takes to be running: one or
/// none. A stream that takes another's place is the only one left.
pub proof fn law_one_stream_of_a_kind(device: RunLoop, message: MessageView, kind: StreamKind)
    ensures
        ({
            let reaction = device.reaction(message);
            let live: int = if device.running(kind) { 1 } else { 0 };
            reaction.live_after(kind, live) == if device.after(reaction).running(kind) {
                1int
            } else {
                0int
            }
        }),
{
}

/// A device runs streams of its own kind alone, whatever it receives.
pub proof fn law_streams_match_the_device(device: RunLoop, message: MessageView)
    requires
        device.wf(),
    ensures
        device.after(device.reaction(message)).wf(),
        device.after(device.reaction(message)).selection == device.selection,
{
}

/// A device in the course of a session.
pub struct Session {
    pub device: RunLoop,
    /// Whether the device has ended.
    pub ended: bool,
    /// How many streams of profiles run.
    pub live_profiles: int,
    /// How many streams of a Ping360 run.
    pub live_auto_device_data: int,
}

impl Session {
    /// How many streams of `kind` run.
    pub open spec fn live(self, kind: StreamKind) -> int {
        match kind {
            StreamKind::Profile => self.live_profiles,
            StreamKind::AutoDeviceData => self.live_auto_device_data,
        }
    }
}

/// The session of a new device behind what its channel has given it so far. What
/// becomes of the device's replies has no part in it.
pub open spec fn session(
    selection: DeviceSelection,
    received: Seq<Option<MessageView>>,
) -> Session
    decreases received.len(),
{
    if received.len() == 0 {
        Session {
            device: RunLoop { selection, profile_running: false, auto_device_data_running: false },
            ended: false,
            live_profiles: 0,
            live_auto_device_data: 0,
        }
    } else {
        let before = session(selection, received.drop_last());
        if before.ended {
            before
        } else {
            let step = before.device.step(received.last());
            Session {
                device: before.device.after_step(step),
                ended: step is End,
                live_profiles: step.live_after(StreamKind::Profile, before.live_profiles),
                live_auto_device_data: step.live_after(
                    StreamKind::AutoDeviceData,
                    before.live_auto_device_data,
                ),
            }
        }
    }
}

/// Whatever a device receives, it runs streams of its own kind alone, never two
/// of them, and it knows which.
pub proof fn law_streams_of_a_session(
    selection: DeviceSelection,
    received: Seq<Option<MessageView>>,
    kind: StreamKind,
)
    ensures
        session(selection, received).device.wf(),
        session(selection, received).device.selection == selection,
        session(selection, received).live(kind) == if session(
            selection,
            received,
        ).device.running(kind) {
            1int
        } else {
            0int
        },
    decreases received.len(),
{
    if received.len() > 0 {
        let before = session(selection, received.drop_last());
        law_streams_of_a_session(selection, received.drop_last(), kind);
        if !before.ended {
            if let Some(message) = received.last() {
                law_one_stream_of_a_kind(before.device, message, kind);
                law_streams_match_the_device(before.device, message);
            }
        }
    }
}

/// A device ends exactly when its channel does, whatever it receives before and
/// whatever becomes of its replies. Every stream that ran has been aborted then.
pub proof fn law_device_ends_with_its_channel(
    selection: DeviceSelection,
    received: Seq<Option<MessageView>>,
)
    ensures
        session(selection, received).ended <==> received.contains(None),
        session(selection, received).ended ==> session(selection, received).live_profiles == 0
            && session(selection, received).live_auto_device_data == 0,
    decreases received.len(),
{
    if received.len() > 0 {
        let rest = received.drop_last();
        let before = session(selection, rest);
        law_device_ends_with_its_channel(selection, rest);
        law_streams_of_a_session(selection, rest, StreamKind::Profile);
        law_streams_of_a_session(selection, rest, StreamKind::AutoDeviceData);
        if before.ended {
            let i = rest.index_of(None);
            assert(received[i] is None);
        } else if received.last() is None {
            assert(received[received.len() - 1] is None);
        } else if received.contains(None) {
            let i = received.index_of(None);
            assert(rest[i] is None);
        }
    }
}

/// Every device answers a request for its information, its protocol version or
/// one echo with that very message, at once, and no stream is touched.
pub proof fn law_general_request_is_answered(device: RunLoop, message: MessageView)
    requires
        message.has_valid_crc(),
        message.message_id == GENERAL_REQUEST,
        requested(message) == Some(DEVICE_INFORMATION) || requested(message) == Some(
            PROTOCOL_VERSION,
        ) || requested(message) == Some(DEVICE_DATA),
    ensures
        device.reaction(message).reply is Some,
        Some(device.reaction(message).reply->0.message_id) == requested(message),
        device.after(device.reaction(message)) == device,
        device.reaction(message).start is None,
        device.reaction(message).abort is None,
{
}

/// A request to start the profiles of a Ping1D starts them, and the request to
/// stop them ends the stream, with nothing left running.
pub proof fn law_profiles_start_and_stop(device: RunLoop, start: MessageView, stop: MessageView)
    requires
        device.wf(),
        !device.is_ping360(),
        start.has_valid_crc(),
        start.message_id == CONTINUOUS_START,
        requested(start) == Some(PROFILE),
        stop.has_valid_crc(),
        stop.message_id == CONTINUOUS_STOP,
        requested(stop) == Some(PROFILE),
    ensures
        ({
            let started = device.after(device.reaction(start));
            let stopped = started.after(started.reaction(stop));
            &&& device.reaction(start).start == Some(Start::Profile)
            &&& started.profile_running
            &&& started.reaction(stop).abort == Some(StreamKind::Profile)
            &&& stopped == RunLoop {
                selection: device.selection,
                profile_running: false,
                auto_device_data_running: false,
            }
        }),
{
}

/// A request to transmit starts the echoes of a Ping360, and turning its motor
/// off ends the stream and is acknowledged.
pub proof fn law_motor_off_ends_the_echoes(device: RunLoop, start: MessageView, stop: MessageView)
    requires
        device.wf(),
        device.is_ping360(),
        start.has_valid_crc(),
        start.message_id == AUTO_TRANSMIT,
        start.payload.len() >= AUTO_TRANSMIT_LENGTH,
        stop.has_valid_crc(),
        stop.message_id == MOTOR_OFF,
    ensures
        ({
            let started = device.after(device.reaction(start));
            let stopped = started.after(started.reaction(stop));
            &&& device.reaction(start).start == Some(
                Start::AutoDeviceData(auto_transmit(start.payload)),
            )
            &&& started.auto_device_data_running
            &&& started.reaction(stop).abort == Some(StreamKind::AutoDeviceData)
            &&& started.reaction(stop).reply == Some(packed(ACK, le16(MOTOR_OFF)))
            &&& stopped == RunLoop {
                selection: device.selection,
                profile_running: false,
                auto_device_data_running: false,
            }
        }),
{
}

/// Every reply is a well-formed frame, and whoever reads its bytes reads the
/// reply.
pub proof fn law_replies_can_be_read(device: RunLoop, message: MessageView, tail: Seq<u8>)
    requires
        device.reaction(message).reply is Some,
    ensures
        device.reaction(message).reply->0.well_formed(),
        decoded(device.reaction(message).reply->0.wire() + tail) == Decoded::Frame(
            device.reaction(message).reply->0,
        ),
        left_over(device.reaction(message).reply->0.wire() + tail) == tail,
{
    lemma_packed_well_formed(DEVICE_INFORMATION, device_information(device.selection).bytes());
    lemma_packed_well_formed(PROTOCOL_VERSION, protocol_version().bytes());
    lemma_packed_well_formed(DEVICE_DATA, device_data().bytes());
    lemma_packed_well_formed(ACK, (Ack { acked_id: MOTOR_OFF }).bytes());
    law_frame_round_trip(device.reaction(message).reply->0, tail);
}

/// What a general request is answered, whatever streams run: the reply depends on
/// the device and on the requested id alone. A device reports type 2 exactly where
/// it is a Ping360. Any other id gets no reply, and no stream is touched.
pub proof fn law_reply_to_a_general_request(device: RunLoop, message: MessageView)
    requires
        message.has_valid_crc(),
        message.message_id == 6,
        message.payload.len() >= 2,
    ensures
        ({
            let wanted = message.payload[0] + 256 * message.payload[1];
            let device_type: u8 = if device.selection == DeviceSelection::Ping360 {
                2
            } else {
                1
            };
            let reaction = device.reaction(message);
            &&& reaction.start is None
            &&& reaction.abort is None
            &&& device.after(reaction) == device
            &&& reaction.reply is Some <==> wanted == 4 || wanted == 5 || wanted == 2300
            &&& reaction.verdict == if reaction.reply is Some {
                Verdict::Handled
            } else {
                Verdict::Unhandled
            }
            &&& reaction.reply matches Some(reply) ==> {
                &&& reply.message_id == wanted
                &&& reply.src_device_id == 0
                &&& reply.dst_device_id == 0
                &&& reply.well_formed()
                &&& wanted == 4 ==> reply.payload == seq![device_type, 1u8, 3u8, 3u8, 0u8, 0u8]
                &&& wanted == 5 ==> reply.payload == seq![1u8, 1u8, 0u8, 0u8]
                &&& wanted == 2300 ==> reply.payload == seq![
                    1u8, 1u8, 0u8, 0u8, 232u8, 3u8, 80u8, 0u8, 138u8, 2u8, 176u8, 4u8, 0u8, 0u8,
                ]
            }
        }),
{
    let information = device_information(device.selection).bytes();
    let version = protocol_version().bytes();
    let echo = device_data().bytes();
    lemma_packed_well_formed(DEVICE_INFORMATION, information);
    lemma_packed_well_formed(PROTOCOL_VERSION, version);
    lemma_packed_well_formed(DEVICE_DATA, echo);
    law_packed_message(DEVICE_INFORMATION, information);
    law_packed_message(PROTOCOL_VERSION, version);
    law_packed_message(DEVICE_DATA, echo);
    assert(echo =~= seq![
        1u8, 1u8, 0u8, 0u8, 232u8, 3u8, 80u8, 0u8, 138u8, 2u8, 176u8, 4u8, 0u8, 0u8,
    ]);
}

/// Two devices of the same selection answer the same general request alike,
/// whatever streams they run.
pub proof fn law_replies_do_not_depend_on_streams(
    device: RunLoop,
    other: RunLoop,
    message: MessageView,
)
    requires
        device.selection == other.selection,
        message.message_id == 6,
    ensures
        device.reaction(message) == other.reaction(message),
{
}

/// A request too short for the id that it should hold gets nothing done, by any
/// device that takes such a request.
pub proof fn law_short_request_gets_nothing(device: RunLoop, message: MessageView)
    requires
        message.has_valid_crc(),
        message.payload.len() < 2,
        message.message_id == 6 || (device.selection != DeviceSelection::Ping360 && (
        message.message_id == 1400 || message.message_id == 1401)),
    ensures
        ({
            let reaction = device.reaction(message);
            &&& reaction.start is None
            &&& reaction.abort is None
            &&& reaction.reply is None
            &&& reaction.verdict == Verdict::InvalidPayload
            &&& device.after(reaction) == device
        }),
{
}

/// A Ping1D that is asked to start or stop its profiles does so, without a reply:
/// a stream that ran is aborted either way, one runs afterwards exactly where it
/// was to be started, and the other stream is left alone. Asked for another
/// stream, it does nothing.
pub proof fn law_ping1d_streams_on_request(device: RunLoop, message: MessageView)
    requires
        message.has_valid_crc(),
        device.selection != DeviceSelection::Ping360,
        message.message_id == 1400 || message.message_id == 1401,
        message.payload.len() >= 2,
    ensures
        ({
            let wanted = message.payload[0] + 256 * message.payload[1];
            let reaction = device.reaction(message);
            let after = device.after(reaction);
            &&& reaction.reply is None
            &&& after.selection == device.selection
            &&& after.auto_device_data_running == device.auto_device_data_running
            &&& if wanted == 1300 {
                &&& reaction.start is Some <==> message.message_id == 1400
                &&& reaction.start is Some ==> reaction.start == Some(Start::Profile)
                &&& reaction.abort is Some <==> device.profile_running
                &&& reaction.abort is Some ==> reaction.abort == Some(StreamKind::Profile)
                &&& after.profile_running <==> message.message_id == 1400
                &&& reaction.verdict == Verdict::Handled
            } else {
                &&& reaction.start is None
                &&& reaction.abort is None
                &&& after == device
                &&& reaction.verdict == Verdict::Unhandled
            }
        }),
{
}

/// A Ping360 that is asked to transmit starts a stream with what was requested,
/// field by field, in place of one that ran, without a reply.
pub proof fn law_ping360_transmits_on_request(device: RunLoop, message: MessageView)
    requires
        message.has_valid_crc(),
        device.selection == DeviceSelection::Ping360,
        message.message_id == 2602,
        message.payload.len() >= 16,
    ensures
        ({
            let payload = message.payload;
            let reaction = device.reaction(message);
            let after = device.after(reaction);
            &&& reaction.reply is None
            &&& reaction.abort is Some <==> device.auto_device_data_running
            &&& reaction.abort is Some ==> reaction.abort == Some(StreamKind::AutoDeviceData)
            &&& reaction.verdict == Verdict::Handled
            &&& after.selection == device.selection
            &&& after.auto_device_data_running
            &&& after.profile_running == device.profile_running
            &&& reaction.start matches Some(Start::AutoDeviceData(request)) && {
                &&& request.mode == payload[0]
                &&& request.gain_setting == payload[1]
                &&& request.transmit_duration == payload[2] + 256 * payload[3]
                &&& request.sample_period == payload[4] + 256 * payload[5]
                &&& request.transmit_frequency == payload[6] + 256 * payload[7]
                &&& request.number_of_samples == payload[8] + 256 * payload[9]
                &&& request.start_angle == payload[10] + 256 * payload[11]
                &&& request.stop_angle == payload[12] + 256 * payload[13]
                &&& request.num_steps == payload[14]
                &&& request.delay == payload[15]
            }
        }),
{
    law_auto_transmit_layout(message.payload);
}

/// A Ping360 whose motor is turned off aborts its stream where one runs, leaves
/// none of its own running, and acknowledges the request by its id in any case.
pub proof fn law_ping360_acknowledges_motor_off(device: RunLoop, message: MessageView)
    requires
        message.has_valid_crc(),
        device.selection == DeviceSelection::Ping360,
        message.message_id == 2903,
    ensures
        ({
            let reaction = device.reaction(message);
            let after = device.after(reaction);
            &&& reaction.start is None
            &&& reaction.abort is Some <==> device.auto_device_data_running
            &&& reaction.abort is Some ==> reaction.abort == Some(StreamKind::AutoDeviceData)
            &&& reaction.verdict == Verdict::Handled
            &&& after.selection == device.selection
            &&& !after.auto_device_data_running
            &&& after.profile_running == device.profile_running
            &&& reaction.reply matches Some(reply) && {
                &&& reply.message_id == 1
                &&& reply.src_device_id == 0
                &&& reply.dst_device_id == 0
                &&& reply.payload.len() == 2
                &&& reply.payload[0] + 256 * reply.payload[1] == 2903
                &&& reply.well_formed()
            }
        }),
{
    let ack = (Ack { acked_id: MOTOR_OFF }).bytes();
    lemma_packed_well_formed(ACK, ack);
    law_packed_message(ACK, ack);
    law_ack_layout(Ack { acked_id: MOTOR_OFF });
}

/// A message that is not meant for the device, and any message that it does not
/// know, gets nothing done.
pub proof fn law_other_messages_get_nothing(device: RunLoop, message: MessageView)
    requires
        message.has_valid_crc(),
        message.message_id != 6,
        device.selection == DeviceSelection::Ping360 ==> message.message_id != 2602
            && message.message_id != 2903,
        device.selection != DeviceSelection::Ping360 ==> message.message_id != 1400
            && message.message_id != 1401,
    ensures
        ({
            let reaction = device.reaction(message);
            &&& reaction.start is None
            &&& reaction.abort is None
            &&& reaction.reply is None
            &&& reaction.verdict == Verdict::Unhandled
            &&& device.after(reaction) == device
        }),
{
}

/// A message with a wrong checksum gets nothing done, whatever it asks for.
pub proof fn law_damaged_messages_get_nothing(device: RunLoop, message: MessageView)
    requires
        !message.has_valid_crc(),
    ensures
        ({
            let reaction = device.reaction(message);
            &&& reaction.start is None
            &&& reaction.abort is None
            &&& reaction.reply is None
            &&& reaction.verdict == Verdict::InvalidChecksum
            &&& device.after(reaction) == device
        }),
{
}

/// A device takes every message but a request to a Ping360 to transmit, with the
/// right checksum, of fewer bytes than its fields need.
pub proof fn law_messages_that_are_taken(device: RunLoop, message: MessageView)
    ensures
        !device.accepts_view(message) <==> {
            &&& message.has_valid_crc()
            &&& message.message_id == 2602
            &&& device.selection == DeviceSelection::Ping360
            &&& message.payload.len() < 16
        },
{
}

/// A message is reacted to, and the device goes on. Without one it ends, aborts
/// exactly the streams that run, and leaves none running.
pub proof fn law_steps_of_a_device(device: RunLoop, message: MessageView)
    ensures
        device.step(Some(message)) == LoopStepView::React(device.reaction(message)),
        device.after_step(device.step(Some(message))) == device.after(device.reaction(message)),
        device.step(None) matches LoopStepView::End { abort_profile, abort_auto_device_data }
            && abort_profile == device.profile_running && abort_auto_device_data
            == device.auto_device_data_running,
        device.after_step(device.step(None)).selection == device.selection,
        !device.after_step(device.step(None)).profile_running,
        !device.after_step(device.step(None)).auto_device_data_running,
{
}

/// The views of what the device does hold the very same.
pub proof fn law_reaction_views(reaction: Reaction, step: LoopStep)
    ensures
        reaction@.start == reaction.start,
        reaction@.abort == reaction.abort,
        reaction@.verdict == reaction.verdict,
        reaction.reply is None <==> reaction@.reply is None,
        reaction.reply matches Some(reply) ==> reaction@.reply == Some(reply@),
        step is End <==> step@ is End,
        step matches LoopStep::React(inner) ==> step@ == LoopStepView::React(inner@),
        step matches LoopStep::End { abort_profile, abort_auto_device_data } ==> step@
            == (LoopStepView::End { abort_profile, abort_auto_device_data }),
{
}

} // verus!
