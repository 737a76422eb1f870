//! The byte stream in front of the simulated device.

use crate::codec::{
    append, buffered, decode, decoded, frames, law_frame_round_trip, law_frames_round_trip,
    left_over, new_buffer, wire_of, Decoded, PingError, PingErrorView,
};
use crate::message::{MessageView, ProtocolMessage};
use crate::run_loop::{law_replies_can_be_read, DeviceSelection, RunLoop};
use actix_web::web::BytesMut;
use vstd::prelude::*;

verus! {

/// The number of messages that wait between the stream and the device, in each
/// direction.
pub const CHANNEL_CAPACITY: usize = 64;

/// The capacity that the buffer for written bytes is made with.
pub const WRITER_CAPACITY: usize = 4096;

/// What came of asking for room for one message on the way to the device.
#[derive(Clone, Copy, Debug, PartialEq, Eq)]
pub enum Slot {
    /// There is room, and it is kept free.
    Reserved,
    /// There is no room yet.
    Full,
    /// The device is gone.
    Closed,
}

/// What to do with a message on its way to the device.
#[derive(Debug, PartialEq, Eq)]
pub enum Delivery {
    /// Hand the message over.
    Send(ProtocolMessage),
    /// Wait: the stream keeps the message.
    Pending,
    /// Fail: there is no one to take the message.
    BrokenPipe,
}

/// What a write does next.
#[derive(Debug, PartialEq, Eq)]
pub enum WriteStep {
    /// Ask for room for the message.
    Send(ProtocolMessage),
    /// All of the caller's bytes are taken, this many.
    Done(usize),
    /// The bytes hold no frame where one should stand.
    Failed(PingError),
}

/// What a read does next.
#[derive(Debug, PartialEq, Eq)]
pub enum ReadStep {
    /// Ask for the device's next message.
    Receive,
    /// Hand the bytes to the caller.
    Deliver(Vec<u8>),
}

/// What a [`FakeStream`] holds.
#[verifier::ext_equal]
pub struct StreamView {
    pub selection: DeviceSelection,
    /// The written bytes that are still to be read as frames.
    pub unread: Seq<u8>,
    /// Whether a write is under way whose bytes are in the buffer already.
    pub consumed: bool,
    /// A message that still waits for room.
    pub waiting: Option<MessageView>,
    /// Bytes of the device that the caller had no room for.
    pub kept: Option<Seq<u8>>,
}

impl StreamView {
    /// Between two writes nothing is left over from the last one, and no empty
    /// rest is kept for the caller.
    pub open spec fn wf(self) -> bool {
        &&& !self.consumed ==> self.unread.len() == 0 && self.waiting is None
        &&& self.kept is Some ==> self.kept->0.len() > 0
    }

    /// The stream with `bytes` taken in, unless the write is one that took its
    /// bytes in before.
    pub open spec fn with_bytes(self, bytes: Seq<u8>) -> StreamView {
        StreamView {
            unread: if self.consumed {
                self.unread
            } else {
                self.unread + bytes
            },
            consumed: true,
            ..self
        }
    }

    /// The messages still on their way to the device, in order: the one that
    /// waits, and those in the buffer.
    pub open spec fn owed(self) -> Seq<MessageView> {
        match self.waiting {
            Some(message) => seq![message] + frames(self.unread),
            None => frames(self.unread),
        }
    }

    /// The stream behind the next frame in its buffer.
    pub open spec fn behind_frame(self) -> StreamView {
        StreamView {
            unread: left_over(self.unread),
            consumed: !(decoded(self.unread) is Incomplete),
            ..self
        }
    }

    /// The bytes still on their way to the caller: those that were kept, and the
    /// frames of the messages that the device has sent.
    pub open spec fn undelivered(self, sent: Seq<MessageView>) -> Seq<u8> {
        match self.kept {
            Some(bytes) => bytes + wire_of(sent),
            None => wire_of(sent),
        }
    }
}

/// The message that a write hands out next, and the stream without it.
pub open spec fn next_out(stream: StreamView) -> Option<(MessageView, StreamView)> {
    match stream.waiting {
        Some(message) => Some((message, StreamView { waiting: None, ..stream })),
        None => match decoded(stream.unread) {
            Decoded::Frame(message) => Some((message, stream.behind_frame())),
            _ => None,
        },
    }
}

/// Whether `step` is what a write of `length` bytes does next, and `after` is the
/// stream behind it: the next message is to be sent; or, where there is none,
/// the write ends at an incomplete frame or at bytes that are no frame.
pub open spec fn is_write_step(
    stream: StreamView,
    length: nat,
    step: WriteStep,
    after: StreamView,
) -> bool {
    match next_out(stream) {
        Some((message, rest)) => {
            &&& step matches WriteStep::Send(sent)
            &&& sent@ == message
            &&& after == rest
        },
        None => {
            &&& match decoded(stream.unread) {
                Decoded::Failed(error) => step matches WriteStep::Failed(found) && found@ == error,
                _ => step matches WriteStep::Done(count) && count == length,
            }
            &&& after == stream.behind_frame()
        },
    }
}

/// The part of `bytes` that goes to a caller with room for `room` bytes.
pub open spec fn delivered(bytes: Seq<u8>, room: nat) -> Seq<u8> {
    if bytes.len() <= room {
        bytes
    } else {
        bytes.take(room as int)
    }
}

/// The part of `bytes` that is kept for a later read, where a caller has room
/// for `room` bytes.
pub open spec fn kept_back(bytes: Seq<u8>, room: nat) -> Option<Seq<u8>> {
    if room == 0 {
        Some(bytes)
    } else if bytes.len() <= room {
        None
    } else {
        Some(bytes.skip(room as int))
    }
}

/// The caller's end of the byte stream to a simulated device.
pub struct FakeStream {
    device_selection: DeviceSelection,
    writer_buf: BytesMut,
    /// Whether the bytes of the current write are in the buffer already.
    writer_buf_consumed: bool,
    /// The message that had no room at the last attempt.
    writer_pending: Option<ProtocolMessage>,
    /// The bytes that the caller had no room for at the last attempt.
    reader_pending: Option<Vec<u8>>,
}

impl View for FakeStream {
    type V = StreamView;

    closed spec fn view(&self) -> StreamView {
        StreamView {
            selection: self.device_selection,
            unread: buffered(self.writer_buf),
            consumed: self.writer_buf_consumed,
            waiting: match self.writer_pending {
                Some(message) => Some(message@),
                None => None,
            },
            kept: match self.reader_pending {
                Some(bytes) => Some(bytes@),
                None => None,
            },
        }
    }
}

impl FakeStream {
    /// A stream to the selected device, with nothing on its way.
    pub fn new(device_selection: DeviceSelection) -> (stream: Self)
        ensures
            stream@ == (StreamView {
                selection: device_selection,
                unread: Seq::empty(),
                consumed: false,
                waiting: None,
                kept: None,
            }),
            stream@.wf(),
    {
        FakeStream {
            device_selection,
            writer_buf: new_buffer(WRITER_CAPACITY),
            writer_buf_consumed: false,
            writer_pending: None,
            reader_pending: None,
        }
    }

    /// The device behind the stream, as it is in front of its first message.
    pub fn run_loop(&self) -> (run_loop: RunLoop)
        ensures
            run_loop.selection == self@.selection,
            !run_loop.profile_running,
            !run_loop.auto_device_data_running,
            run_loop.wf(),
    {
        RunLoop::new(self.device_selection)
    }

    /// Starts a write of `buf`, or takes up the one that had to wait: its bytes
    /// are taken in once only, and the message that waits goes first. No slice of
    /// bytes is longer than `isize::MAX`.
    pub fn poll_write(&mut self, buf: &[u8]) -> (step: WriteStep)
        requires
            old(self)@.wf(),
            buf@.len() <= isize::MAX,
        ensures
            final(self)@.wf(),
            is_write_step(old(self)@.with_bytes(buf@), buf@.len(), step, final(self)@),
            step is Send <==> old(self)@.with_bytes(buf@).owed().len() > 0,
            step matches WriteStep::Send(sent) ==> old(self)@.with_bytes(buf@).owed()
                == seq![sent@] + final(self)@.owed(),
            old(self)@.waiting matches Some(message) ==> step matches WriteStep::Send(sent)
                && sent@ == message,
            step matches WriteStep::Done(count) ==> count == buf@.len() && !final(self)@.consumed,
            final(self)@.kept == old(self)@.kept,
            final(self)@.selection == old(self)@.selection,
    {
        proof {
            law_write_hands_out_in_order(self@.with_bytes(buf@));
        }
        let length = buf.len();
        if !self.writer_buf_consumed {
            append(&mut self.writer_buf, buf);
            self.writer_buf_consumed = true;
        }
        if let Some(message) = self.writer_pending.take() {
            return WriteStep::Send(message);
        }
        self.poll_write_sent(length)
    }

    /// Goes on with a write of `length` bytes whose last message was handed
    /// over.
    pub fn poll_write_sent(&mut self, length: usize) -> (step: WriteStep)
        requires
            old(self)@.wf(),
            old(self)@.consumed,
            old(self)@.waiting is None,
        ensures
            final(self)@.wf(),
            is_write_step(old(self)@, length as nat, step, final(self)@),
            step is Send <==> frames(old(self)@.unread).len() > 0,
            step matches WriteStep::Send(sent) ==> frames(old(self)@.unread) == seq![sent@]
                + frames(final(self)@.unread),
            step matches WriteStep::Done(count) ==> count == length && !final(self)@.consumed,
            final(self)@.waiting is None,
            final(self)@.kept == old(self)@.kept,
            final(self)@.selection == old(self)@.selection,
    {
        proof {
            law_write_hands_out_in_order(self@);
        }
        match decode(&mut self.writer_buf) {
            Err(error) => WriteStep::Failed(error),
            Ok(None) => {
                self.writer_buf_consumed = false;
                WriteStep::Done(length)
            },
            Ok(Some(message)) => WriteStep::Send(message),
        }
    }

    /// Sends a message to the device, or keeps it until there is room, in place of
    /// any message that the stream kept before.
    pub fn poll_send_message(&mut self, message: ProtocolMessage, slot: Slot) -> (delivery: Delivery)
        requires
            old(self)@.wf(),
            old(self)@.consumed,
        ensures
            final(self)@.wf(),
            match slot {
                Slot::Reserved => {
                    &&& delivery == Delivery::Send(message)
                    &&& final(self)@ == old(self)@
                },
                Slot::Full => {
                    &&& delivery == Delivery::Pending
                    &&& final(self)@ == StreamView { waiting: Some(message@), ..old(self)@ }
                },
                Slot::Closed => {
                    &&& delivery == Delivery::BrokenPipe
                    &&& final(self)@ == old(self)@
                },
            },
    {
        match slot {
            Slot::Reserved => Delivery::Send(message),
            Slot::Full => {
                self.writer_pending = Some(message);
                Delivery::Pending
            },
            Slot::Closed => Delivery::BrokenPipe,
        }
    }

    /// Takes out the message that waits for room, to be sent now.
    pub fn poll_flush(&mut self) -> (message: Option<ProtocolMessage>)
        requires
            old(self)@.wf(),
        ensures
            final(self)@.wf(),
            final(self)@ == (StreamView { waiting: None, ..old(self)@ }),
            match old(self)@.waiting {
                Some(expected) => message matches Some(taken) && taken@ == expected,
                None => message is None,
            },
    {
        self.writer_pending.take()
    }

    /// Starts a read into a buffer with `room` bytes left: what was kept for the
    /// caller goes first.
    pub fn poll_read(&mut self, room: usize) -> (step: ReadStep)
        requires
            old(self)@.wf(),
        ensures
            final(self)@.wf(),
            match old(self)@.kept {
                Some(bytes) => {
                    &&& step matches ReadStep::Deliver(data) && data@ == delivered(
                        bytes,
                        room as nat,
                    ) && data@.len() <= room && data@ == bytes.take(data@.len() as int)
                    &&& final(self)@ == StreamView {
                        kept: kept_back(bytes, room as nat),
                        ..old(self)@
                    }
                },
                None => {
                    &&& step is Receive
                    &&& final(self)@ == old(self)@
                },
            },
    {
        match self.reader_pending.take() {
            Some(data) => ReadStep::Deliver(self.deliver(data, room)),
            None => ReadStep::Receive,
        }
    }

    /// Goes on with a read into a buffer with `room` bytes left, for which the
    /// device has sent `message`, or has gone. Gives the bytes for the caller.
    pub fn poll_read_received(&mut self, message: Option<ProtocolMessage>, room: usize) -> (data:
        Vec<u8>)
        requires
            old(self)@.wf(),
            old(self)@.kept is None,
        ensures
            final(self)@.wf(),
            match message {
                Some(message) => {
                    &&& data@ == delivered(message@.wire(), room as nat)
                    &&& data@.len() <= room
                    &&& data@ == message@.wire().take(data@.len() as int)
                    &&& final(self)@ == StreamView {
                        kept: kept_back(message@.wire(), room as nat),
                        ..old(self)@
                    }
                },
                None => {
                    &&& data@ == Seq::<u8>::empty()
                    &&& final(self)@ == old(self)@
                },
            },
    {
        match message {
            Some(message) => {
                let data = message.serialized();
                self.deliver(data, room)
            },
            None => Vec::new(),
        }
    }

    /// Splits `data` into what goes to the caller and what is kept.
    fn deliver(&mut self, data: Vec<u8>, room: usize) -> (given: Vec<u8>)
        requires
            old(self)@.kept is None,
        ensures
            given@ == delivered(data@, room as nat),
            given@.len() <= room,
            given@ == data@.take(given@.len() as int),
            final(self)@ == (StreamView { kept: kept_back(data@, room as nat), ..old(self)@ }),
    {
        let mut data = data;
        if room == 0 {
            assert(data@.len() > 0 ==> data@.take(0) =~= Seq::empty());
            self.reader_pending = Some(data);
            return Vec::new();
        }
        if room < data.len() {
            let ghost whole = data@;
            let rest = data.split_off(room);
            assert(data@ =~= whole.take(room as int));
            assert(rest@ =~= whole.skip(room as int));
            self.reader_pending = Some(rest);
        }
        data
    }
}

/// How far a write got.
pub enum WriteEnd {
    /// It took all of its bytes.
    Done,
    /// Its bytes hold no frame where one should stand.
    Failed(PingErrorView),
    /// There was no room for its next message.
    Pending,
    /// The device was gone, and the message was lost.
    BrokenPipe(MessageView),
    /// It still has to ask for room.
    Unasked,
}

/// The course of a write.
pub struct WriteRun {
    /// The messages that reached the device.
    pub sent: Seq<MessageView>,
    /// The stream that is left.
    pub stream: StreamView,
    /// How far the write got.
    pub end: WriteEnd,
}

/// The course of a write under way that asks for room as often as `slots` goes,
/// with these outcomes.
pub open spec fn write_run(stream: StreamView, slots: Seq<Slot>) -> WriteRun
    decreases slots.len(),
{
    match next_out(stream) {
        None => WriteRun {
            sent: Seq::empty(),
            stream: stream.behind_frame(),
            end: match decoded(stream.unread) {
                Decoded::Failed(error) => WriteEnd::Failed(error),
                _ => WriteEnd::Done,
            },
        },
        Some((message, rest)) => if slots.len() == 0 {
            WriteRun { sent: Seq::empty(), stream, end: WriteEnd::Unasked }
        } else {
            match slots.first() {
                Slot::Reserved => {
                    let run = write_run(rest, slots.drop_first());
                    WriteRun { sent: seq![message] + run.sent, ..run }
                },
                Slot::Full => WriteRun {
                    sent: Seq::empty(),
                    stream: StreamView { waiting: Some(message), ..rest },
                    end: WriteEnd::Pending,
                },
                Slot::Closed => WriteRun {
                    sent: Seq::empty(),
                    stream: rest,
                    end: WriteEnd::BrokenPipe(message),
                },
            }
        },
    }
}

/// One call on a stream with a write under way.
pub enum Turn {
    /// The write is taken up with `bytes`, and asks for room as often as `slots`
    /// goes, with these outcomes.
    Write { bytes: Seq<u8>, slots: Seq<Slot> },
    /// The stream is flushed, and asks for room for the message that waits, with
    /// this outcome.
    Flush { slot: Slot },
}

/// The course of one call.
pub open spec fn turn_run(stream: StreamView, turn: Turn) -> WriteRun {
    match turn {
        Turn::Write { bytes, slots } => write_run(stream.with_bytes(bytes), slots),
        Turn::Flush { slot } => {
            let flushed = StreamView { waiting: None, ..stream };
            match (stream.waiting, slot) {
                (None, _) => WriteRun { sent: Seq::empty(), stream, end: WriteEnd::Unasked },
                (Some(message), Slot::Reserved) => WriteRun {
                    sent: seq![message],
                    stream: flushed,
                    end: WriteEnd::Unasked,
                },
                (Some(message), Slot::Full) => WriteRun {
                    sent: Seq::empty(),
                    stream,
                    end: WriteEnd::Pending,
                },
                (Some(message), Slot::Closed) => WriteRun {
                    sent: Seq::empty(),
                    stream: flushed,
                    end: WriteEnd::BrokenPipe(message),
                },
            }
        },
    }
}

/// The course of a write over `turns`, up to the first that ends it.
pub open spec fn turns_run(stream: StreamView, turns: Seq<Turn>) -> WriteRun
    decreases turns.len(),
{
    if turns.len() == 0 {
        WriteRun { sent: Seq::empty(), stream, end: WriteEnd::Unasked }
    } else {
        let run = turn_run(stream, turns.first());
        match run.end {
            WriteEnd::Pending | WriteEnd::Unasked => {
                let later = turns_run(run.stream, turns.drop_first());
                WriteRun { sent: run.sent + later.sent, ..later }
            },
            _ => run,
        }
    }
}

/// The bytes that reach the caller, the messages that are not asked for yet, and
/// the stream that is left, when the caller reads into buffers with `rooms`
/// bytes left while the device sends `sent`.
pub open spec fn read_run(stream: StreamView, rooms: Seq<nat>, sent: Seq<MessageView>) -> (
    Seq<u8>,
    Seq<MessageView>,
    StreamView,
)
    decreases rooms.len(),
{
    if rooms.len() == 0 {
        (Seq::empty(), sent, stream)
    } else {
        let room = rooms.first();
        match stream.kept {
            Some(bytes) => {
                let next = StreamView { kept: kept_back(bytes, room), ..stream };
                let (read, left, end) = read_run(next, rooms.drop_first(), sent);
                (delivered(bytes, room) + read, left, end)
            },
            None => if sent.len() == 0 {
                (Seq::empty(), sent, stream)
            } else {
                let bytes = sent.first().wire();
                let next = StreamView { kept: kept_back(bytes, room), ..stream };
                let (read, left, end) = read_run(next, rooms.drop_first(), sent.drop_first());
                (delivered(bytes, room) + read, left, end)
            },
        }
    }
}

/// A write hands its messages out in order, each once: what it owes is the next
/// message, and then what it owes behind it. Where there is no next message it
/// owes none.
pub proof fn law_write_hands_out_in_order(stream: StreamView)
    ensures
        match next_out(stream) {
            Some((message, rest)) => stream.owed() == seq![message] + rest.owed(),
            None => stream.owed().len() == 0,
        },
{
    match stream.waiting {
        Some(message) => {
            assert((StreamView { waiting: None, ..stream }).owed() == frames(stream.unread));
        },
        None => {},
    }
}

/// Whether a course lost and doubled no message of those that `stream` owed, and
/// kept their order: those that were sent, and then those still owed, are those
/// that were owed before. A course that came to the write's end, or to bytes that
/// are no frame, has sent all of them. Only a device that is gone costs a message.
pub open spec fn keeps_account(stream: StreamView, run: WriteRun) -> bool {
    match run.end {
        WriteEnd::Done | WriteEnd::Failed(_) => run.sent == stream.owed(),
        WriteEnd::Pending | WriteEnd::Unasked => run.sent + run.stream.owed() == stream.owed(),
        WriteEnd::BrokenPipe(lost) => {
            run.sent + seq![lost] + run.stream.owed() == stream.owed()
        },
    }
}

/// Whatever room there is for its messages, a write loses none of them as long
/// as the device is there, sends none twice, and keeps their order.
pub proof fn law_write_loses_nothing(stream: StreamView, slots: Seq<Slot>)
    ensures
        keeps_account(stream, write_run(stream, slots)),
    decreases slots.len(),
{
    let run = write_run(stream, slots);
    law_write_hands_out_in_order(stream);
    match next_out(stream) {
        None => {
            assert(run.sent =~= stream.owed());
        },
        Some((message, rest)) => {
            if slots.len() == 0 {
                assert(run.sent + run.stream.owed() =~= stream.owed());
            } else {
                match slots.first() {
                    Slot::Reserved => {
                        let after = write_run(rest, slots.drop_first());
                        law_write_loses_nothing(rest, slots.drop_first());
                        match run.end {
                            WriteEnd::Done | WriteEnd::Failed(_) => {},
                            WriteEnd::Pending | WriteEnd::Unasked => {
                                assert(run.sent + run.stream.owed() =~= seq![message] + (after.sent
                                    + after.stream.owed()));
                            },
                            WriteEnd::BrokenPipe(lost) => {
                                assert(run.sent + seq![lost] + run.stream.owed() =~= seq![message]
                                    + (after.sent + seq![lost] + after.stream.owed()));
                            },
                        }
                    },
                    Slot::Full => {
                        assert(rest.waiting is None);
                        assert(run.sent + run.stream.owed() =~= seq![message] + rest.owed());
                    },
                    Slot::Closed => {
                        assert(run.sent + seq![message] + run.stream.owed() =~= seq![message]
                            + rest.owed());
                    },
                }
            }
        },
    }
}

/// A write that takes up one that had to wait adds no bytes, whatever it is
/// called with.
pub proof fn law_retry_adds_nothing(stream: StreamView, bytes: Seq<u8>, again: Seq<u8>)
    ensures
        stream.with_bytes(bytes).with_bytes(again) == stream.with_bytes(bytes),
{
}

/// However often a write has to wait and is taken up, with whatever bytes, and
/// however often the stream is flushed in between, no message is lost as long as
/// the device is there, none is sent twice, and their order is kept. Over all
/// turns up to the one in which the write is done, exactly what was owed is sent.
pub proof fn law_interrupted_write_sends_everything_once(stream: StreamView, turns: Seq<Turn>)
    requires
        stream.consumed,
    ensures
        keeps_account(stream, turns_run(stream, turns)),
    decreases turns.len(),
{
    let all = turns_run(stream, turns);
    if turns.len() == 0 {
        assert(all.sent + all.stream.owed() =~= stream.owed());
    } else {
        let run = turn_run(stream, turns.first());
        lemma_turn_keeps_account(stream, turns.first());
        if run.end is Pending || run.end is Unasked {
            let later = turns_run(run.stream, turns.drop_first());
            law_interrupted_write_sends_everything_once(run.stream, turns.drop_first());
            match later.end {
                WriteEnd::Done | WriteEnd::Failed(_) => {},
                WriteEnd::Pending | WriteEnd::Unasked => {
                    assert(all.sent + all.stream.owed() =~= run.sent + (later.sent
                        + later.stream.owed()));
                },
                WriteEnd::BrokenPipe(lost) => {
                    assert(all.sent + seq![lost] + all.stream.owed() =~= run.sent + (later.sent
                        + seq![lost] + later.stream.owed()));
                },
            }
        }
    }
}

proof fn lemma_turn_keeps_account(stream: StreamView, turn: Turn)
    requires
        stream.consumed,
    ensures
        keeps_account(stream, turn_run(stream, turn)),
        turn_run(stream, turn).end is Pending || turn_run(stream, turn).end is Unasked
            ==> turn_run(stream, turn).stream.consumed,
{
    let run = turn_run(stream, turn);
    match turn {
        Turn::Write { bytes, slots } => {
            assert(stream.with_bytes(bytes) =~= stream);
            law_write_loses_nothing(stream, slots);
            lemma_unfinished_write_stays_consumed(stream, slots);
        },
        Turn::Flush { slot } => {
            match stream.waiting {
                None => {
                    assert(run.sent + run.stream.owed() =~= stream.owed());
                },
                Some(message) => match slot {
                    Slot::Reserved => {},
                    Slot::Full => {
                        assert(run.sent + run.stream.owed() =~= stream.owed());
                    },
                    Slot::Closed => {
                        assert(run.sent + seq![message] =~= seq![message]);
                    },
                },
            }
        },
    }
}

proof fn lemma_unfinished_write_stays_consumed(stream: StreamView, slots: Seq<Slot>)
    requires
        stream.consumed,
    ensures
        write_run(stream, slots).end is Pending || write_run(stream, slots).end is Unasked
            ==> write_run(stream, slots).stream.consumed,
    decreases slots.len(),
{
    if let Some((_, rest)) = next_out(stream) {
        if slots.len() > 0 && slots.first() == Slot::Reserved {
            lemma_unfinished_write_stays_consumed(rest, slots.drop_first());
        }
    }
}

/// Whoever writes frames to a stream between two writes has every message reach
/// the device, in order and nothing else, by the turn in which the write is done,
/// however often it had to wait and the stream was flushed in between.
pub proof fn law_interrupted_messages_arrive(
    stream: StreamView,
    messages: Seq<MessageView>,
    turns: Seq<Turn>,
)
    requires
        stream.wf(),
        !stream.consumed,
        forall|i: int| 0 <= i < messages.len() ==> (#[trigger] messages[i]).well_formed(),
        turns_run(stream.with_bytes(wire_of(messages)), turns).end is Done,
    ensures
        turns_run(stream.with_bytes(wire_of(messages)), turns).sent == messages,
{
    let begun = stream.with_bytes(wire_of(messages));
    let nothing = Seq::<u8>::empty();
    law_interrupted_write_sends_everything_once(begun, turns);
    law_frames_round_trip(messages, nothing);
    assert(begun.unread =~= wire_of(messages) + nothing);
    assert(messages + frames(nothing) =~= messages);
}

/// Whoever writes frames, to a stream between two writes and with room for all
/// of them, has every message reach the device, in order and nothing else, and
/// the stream is again between two writes.
pub proof fn law_written_messages_arrive(
    stream: StreamView,
    messages: Seq<MessageView>,
    slots: Seq<Slot>,
)
    requires
        stream.wf(),
        !stream.consumed,
        forall|i: int| 0 <= i < messages.len() ==> (#[trigger] messages[i]).well_formed(),
        slots.len() >= messages.len(),
        forall|i: int| 0 <= i < slots.len() ==> slots[i] == Slot::Reserved,
    ensures
        ({
            let run = write_run(stream.with_bytes(wire_of(messages)), slots);
            &&& run.sent == messages
            &&& run.end == WriteEnd::Done
            &&& run.stream == stream
        }),
{
    let begun = stream.with_bytes(wire_of(messages));
    assert(begun.unread =~= wire_of(messages));
    lemma_written_messages_arrive(begun, messages, slots);
    assert(write_run(begun, slots).stream =~= stream);
}

/// The first message of a write of frames is sent next, and the frames of the
/// others are left.
proof fn lemma_first_message_is_next(begun: StreamView, messages: Seq<MessageView>)
    requires
        begun.consumed,
        begun.waiting is None,
        begun.unread == wire_of(messages),
        messages.len() > 0,
        messages[0].well_formed(),
    ensures
        next_out(begun) == Some(
            (
                messages[0],
                StreamView { unread: wire_of(messages.drop_first()), ..begun },
            ),
        ),
{
    law_frame_round_trip(messages[0], wire_of(messages.drop_first()));
    assert(begun.unread == messages[0].wire() + wire_of(messages.drop_first()));
    assert(begun.behind_frame() =~= StreamView {
        unread: wire_of(messages.drop_first()),
        ..begun
    });
}

/// A write without bytes is done.
proof fn lemma_empty_write_is_done(begun: StreamView, slots: Seq<Slot>)
    requires
        begun.waiting is None,
        begun.unread == Seq::<u8>::empty(),
    ensures
        write_run(begun, slots) == (WriteRun {
            sent: Seq::empty(),
            stream: StreamView { consumed: false, ..begun },
            end: WriteEnd::Done,
        }),
{
    assert(decoded(begun.unread) is Incomplete);
    assert(begun.behind_frame() =~= StreamView { consumed: false, ..begun });
}

proof fn lemma_written_messages_arrive(
    begun: StreamView,
    messages: Seq<MessageView>,
    slots: Seq<Slot>,
)
    requires
        begun.consumed,
        begun.waiting is None,
        begun.unread == wire_of(messages),
        forall|i: int| 0 <= i < messages.len() ==> (#[trigger] messages[i]).well_formed(),
        slots.len() >= messages.len(),
        forall|i: int| 0 <= i < slots.len() ==> slots[i] == Slot::Reserved,
    ensures
        write_run(begun, slots) == (WriteRun {
            sent: messages,
            stream: StreamView { unread: Seq::empty(), consumed: false, ..begun },
            end: WriteEnd::Done,
        }),
    decreases messages.len(),
{
    if messages.len() == 0 {
        lemma_empty_write_is_done(begun, slots);
        assert(messages =~= Seq::empty());
    } else {
        let rest = messages.drop_first();
        let behind = StreamView { unread: wire_of(rest), ..begun };
        lemma_first_message_is_next(begun, messages);
        assert(slots.first() == Slot::Reserved);
        assert forall|i: int| 0 <= i < rest.len() implies (#[trigger] rest[i]).well_formed() by {
            assert(rest[i] == messages[i + 1]);
        }
        lemma_written_messages_arrive(behind, rest, slots.drop_first());
        assert(seq![messages[0]] + rest =~= messages);
    }
}

/// However much room a caller has from read to read, the bytes that it reads,
/// and then those still on their way to it, are those that were on their way
/// before: no byte of the device is lost, doubled or out of order.
pub proof fn law_read_loses_nothing(stream: StreamView, rooms: Seq<nat>, sent: Seq<MessageView>)
    ensures
        ({
            let (read, left, end) = read_run(stream, rooms, sent);
            read + end.undelivered(left) == stream.undelivered(sent)
        }),
    decreases rooms.len(),
{
    let (read, left, end) = read_run(stream, rooms, sent);
    if rooms.len() == 0 || (stream.kept is None && sent.len() == 0) {
        assert(read + end.undelivered(left) =~= stream.undelivered(sent));
    } else {
        let room = rooms.first();
        let (bytes, behind) = match stream.kept {
            Some(bytes) => (bytes, sent),
            None => (sent.first().wire(), sent.drop_first()),
        };
        let next = StreamView { kept: kept_back(bytes, room), ..stream };
        law_read_loses_nothing(next, rooms.drop_first(), behind);
        let (later, _, _) = read_run(next, rooms.drop_first(), behind);
        assert(delivered(bytes, room) + next.undelivered(behind) =~= bytes + wire_of(behind));
        assert(read + end.undelivered(left) =~= delivered(bytes, room) + (later
            + end.undelivered(left)));
    }
}

/// A read with room for a byte gets one, where bytes are kept or a message has
/// been sent.
pub proof fn law_read_makes_progress(stream: StreamView, room: nat, sent: Seq<MessageView>)
    requires
        stream.wf(),
        room > 0,
        stream.kept is Some || sent.len() > 0,
    ensures
        read_run(stream, seq![room], sent).0.len() > 0,
{
    reveal_with_fuel(read_run, 2);
    assert(seq![room].drop_first() =~= Seq::empty());
}

/// A request that is written to a stream between two writes reaches the device,
/// and where the device replies to it, a caller with enough room reads bytes in
/// which the reply can be read.
pub proof fn law_request_and_reply(
    stream: StreamView,
    device: RunLoop,
    request: MessageView,
    reply: MessageView,
    room: nat,
)
    requires
        stream.wf(),
        !stream.consumed,
        stream.kept is None,
        request.well_formed(),
        device.reaction(request).reply == Some(reply),
        room >= reply.wire().len(),
    ensures
        write_run(stream.with_bytes(request.wire()), seq![Slot::Reserved]).sent == seq![request],
        decoded(read_run(stream, seq![room], seq![reply]).0) == Decoded::Frame(reply),
        read_run(stream, seq![room], seq![reply]).2 == stream,
{
    let requests = seq![request];
    assert(requests.drop_first() =~= Seq::empty());
    reveal_with_fuel(wire_of, 2);
    assert(wire_of(requests) =~= request.wire());
    law_written_messages_arrive(stream, requests, seq![Slot::Reserved]);
    reveal_with_fuel(read_run, 2);
    assert(seq![room].drop_first() =~= Seq::empty());
    let read = read_run(stream, seq![room], seq![reply]).0;
    assert(read =~= reply.wire() + Seq::empty());
    law_replies_can_be_read(device, request, Seq::empty());
    assert(read_run(stream, seq![room], seq![reply]).2 =~= stream);
}

/// What a step of a write does to the messages that the stream owes: where there
/// is one the first is sent, and the others are owed behind it. A write ends, well
/// or not, only where no message is owed.
pub proof fn law_write_step_sends_what_is_owed(
    stream: StreamView,
    length: nat,
    step: WriteStep,
    after: StreamView,
)
    requires
        is_write_step(stream, length, step, after),
    ensures
        step is Send <==> stream.owed().len() > 0,
        step matches WriteStep::Send(sent) ==> stream.owed() == seq![sent@] + after.owed(),
        step matches WriteStep::Done(count) ==> count == length,
        step is Done ==> after.owed().len() == 0,
        stream.waiting is Some || frames(stream.unread).len() > 0 ==> step is Send,
{
    law_write_hands_out_in_order(stream);
    if next_out(stream) is None && decoded(stream.unread) is Incomplete {
        assert(after.unread.len() == 0);
    }
}

/// What a step of a write does, by what the stream holds: a message that waits is
/// sent, and the bytes stay as they are. Without one, a frame at the front is taken
/// off and sent, bytes that are no frame are reported, and an incomplete frame ends
/// the write. No step touches what is kept for the caller, and only the end of a
/// write lets the next one take its bytes in.
pub proof fn law_write_step_by_what_the_stream_holds(
    stream: StreamView,
    length: nat,
    step: WriteStep,
    after: StreamView,
)
    requires
        is_write_step(stream, length, step, after),
    ensures
        after.selection == stream.selection,
        after.kept == stream.kept,
        after.waiting is None,
        match stream.waiting {
            Some(message) => {
                &&& step matches WriteStep::Send(sent) && sent@ == message
                &&& after.unread == stream.unread
                &&& after.consumed == stream.consumed
            },
            None => {
                &&& after.unread == left_over(stream.unread)
                &&& after.consumed <==> !(decoded(stream.unread) is Incomplete)
                &&& match decoded(stream.unread) {
                    Decoded::Frame(message) => {
                        step matches WriteStep::Send(sent) && sent@ == message
                    },
                    Decoded::Failed(error) => {
                        step matches WriteStep::Failed(found) && found@ == error
                    },
                    Decoded::Incomplete => step matches WriteStep::Done(count) && count == length,
                }
            },
        },
{
}

/// A write that begins puts its bytes behind those of the stream. One that is
/// taken up puts in none. Nothing else of the stream changes.
pub proof fn law_bytes_are_taken_in_once(stream: StreamView, bytes: Seq<u8>)
    ensures
        stream.consumed ==> stream.with_bytes(bytes).unread == stream.unread,
        !stream.consumed ==> stream.with_bytes(bytes).unread == stream.unread + bytes,
        stream.with_bytes(bytes).consumed,
        stream.with_bytes(bytes).selection == stream.selection,
        stream.with_bytes(bytes).waiting == stream.waiting,
        stream.with_bytes(bytes).kept == stream.kept,
{
}

/// A stream owes the message that waits, and then those whose frames are in its
/// buffer.
pub proof fn law_messages_that_are_owed(stream: StreamView)
    ensures
        stream.waiting is None ==> stream.owed() == frames(stream.unread),
        stream.waiting matches Some(message) ==> {
            &&& stream.owed().len() == frames(stream.unread).len() + 1
            &&& stream.owed()[0] == message
            &&& stream.owed().drop_first() == frames(stream.unread)
        },
{
    if let Some(message) = stream.waiting {
        assert(stream.owed().drop_first() =~= frames(stream.unread));
    }
}

/// A stream is well formed exactly where a write that is not under way left
/// nothing behind, and what is kept for the caller is not empty.
pub proof fn law_well_formed_streams(stream: StreamView)
    ensures
        stream.wf() <==> {
            &&& stream.consumed || (stream.unread.len() == 0 && stream.waiting is None)
            &&& stream.kept is None || stream.kept->0.len() > 0
        },
{
}

/// A read gives the caller no more bytes than it has room for, and no fewer where
/// there are as many: the first of them. The others are kept, in order.
pub proof fn law_read_fills_the_room(bytes: Seq<u8>, room: nat)
    ensures
        delivered(bytes, room).len() <= room,
        delivered(bytes, room).len() == if bytes.len() <= room {
            bytes.len()
        } else {
            room
        },
        forall|i: int|
            0 <= i < delivered(bytes, room).len() ==> delivered(bytes, room)[i] == bytes[i],
        room > 0 ==> (kept_back(bytes, room) is None <==> bytes.len() <= room),
        kept_back(bytes, room) matches Some(rest) ==> delivered(bytes, room) + rest == bytes,
        kept_back(bytes, room) is None ==> delivered(bytes, room) == bytes,
        room == 0 ==> kept_back(bytes, room) == Some(bytes),
{
    assert(bytes.take(room as int) + bytes.skip(room as int) =~= bytes || room > bytes.len());
    if room == 0 {
        assert(delivered(bytes, room) + bytes =~= bytes);
    }
}

/// The bytes on their way to the caller are those that are kept, and then the
/// frames of the messages that were sent.
pub proof fn law_bytes_on_their_way(stream: StreamView, sent: Seq<MessageView>)
    ensures
        stream.kept is None ==> stream.undelivered(sent) == wire_of(sent),
        stream.kept matches Some(bytes) ==> {
            &&& stream.undelivered(sent).len() == bytes.len() + wire_of(sent).len()
            &&& stream.undelivered(sent).take(bytes.len() as int) == bytes
            &&& stream.undelivered(sent).skip(bytes.len() as int) == wire_of(sent)
        },
{
    if let Some(bytes) = stream.kept {
        assert(stream.undelivered(sent).take(bytes.len() as int) =~= bytes);
        assert(stream.undelivered(sent).skip(bytes.len() as int) =~= wire_of(sent));
    }
}

/// Each direction of the channel holds 64 messages, and the buffer for written
/// bytes is made for 4096.
pub proof fn law_capacities()
    ensures
        CHANNEL_CAPACITY == 64,
        WRITER_CAPACITY == 4096,
{
}

} // verus!
