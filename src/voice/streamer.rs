//! Audio packet streamer.
//!
//! Most of the time audio arrives faster than it plays. The streamer paces
//! packets to one per frame period, keeps the pace with a deadline that moves
//! on by exactly one period per packet, and marks every break in the stream
//! with silence frames and a `Stopped` status.
//!
//! The streamer decides; the caller waits, reads and sends. All state lives
//! in the streamer between two calls, so a caller that drops a pending wait
//! or read and comes back loses nothing.

use vstd::prelude::*;
use crate::constants::{
    silence_frame, silence_frame_bytes, SILENCE_FRAME_COUNT, TIMESTEP_MILLIS, VOICE_PACKET_MAX,
};
use crate::voice::crypto::{key_ok, lemma_suffix_len_bound};
use crate::voice::rtp::{self, Packet, PacketView, Socket, HEADER_LEN};
use crate::voice::ws::saturating_add;

verus! {

/// The largest frame a source may hand over: what fits in a packet with the
/// longest nonce suffix.
pub const MAX_FRAME_LEN: usize = 1408;

/// An event that is returned from the streamer that is informative on the
/// status of the streamer.
#[derive(Clone, Copy, Debug, PartialEq, Eq, Structural)]
pub enum Status {
    /// Packets have begun streaming, with the first packet's `ssrc`.
    Started(u32),
    /// There is a break in transmission, packets have stopped streaming,
    /// with the last packet's `ssrc`.
    Stopped(u32),
}

/// What the caller is to do next.
#[derive(Clone, Copy, Debug, PartialEq, Eq, Structural)]
pub enum Step {
    /// Wait until `at`, then call `send_packet`.
    Send { at: u64 },
    /// Report the status; the streamer goes on at the next call.
    Status(Status),
    /// Call `next_step` again.
    Continue,
    /// Read a frame from the source and hand it to `on_read`; when the
    /// deadline passes first, call `on_timeout`. No deadline: wait as long
    /// as it takes.
    Read { deadline: Option<u64> },
    /// No source: nothing to do until one is installed.
    Idle,
}

/// What a streamer holds.
pub ghost struct StreamerView {
    pub patience: u64,
    pub has_source: bool,
    pub waiting_for_source: bool,
    pub packet: PacketView,
    pub next_packet: u64,
    pub ready: bool,
    pub silence_frames: u32,
}

impl StreamerView {
    /// The streamer's own invariant.
    pub open spec fn wf(self) -> bool {
        &&& self.packet.wf()
        &&& self.packet.buf.len() == VOICE_PACKET_MAX
        &&& self.packet.payload_len <= MAX_FRAME_LEN
        &&& self.ready ==> self.packet.payload_len > 0
        &&& self.silence_frames > 0 ==> self.waiting_for_source
        &&& self.silence_frames <= SILENCE_FRAME_COUNT
    }

    /// Packets are flowing: audio is playing, or the silence that ends it
    /// has not run out yet. `Started` and `Stopped` report the changes of
    /// this flag.
    pub open spec fn streaming(self) -> bool {
        !self.waiting_for_source || self.silence_frames > 0
    }

    /// The result of a break in the stream: from streaming audio, the
    /// streamer starts waiting for a source, with a burst of silence frames
    /// owed; when already waiting, nothing changes.
    pub open spec fn after_break(self) -> StreamerView {
        if !self.waiting_for_source {
            StreamerView {
                waiting_for_source: true,
                silence_frames: (self.silence_frames + SILENCE_FRAME_COUNT) as u32,
                ..self
            }
        } else {
            self
        }
    }
}

/// A status is reported exactly when the streaming flag changes: `Started`
/// when it turns on, `Stopped` when it turns off.
pub open spec fn status_step(before: bool, after: bool, status: Option<Status>) -> bool {
    match status {
        None => before == after,
        Some(Status::Started(_)) => !before && after,
        Some(Status::Stopped(_)) => before && !after,
    }
}

/// One call's effect on the silence owed: a silence frame taken (one less,
/// the streamer still waiting for a source), a break from streaming audio
/// (`SILENCE_FRAME_COUNT` more owed), or no change.
pub open spec fn silence_step(before: StreamerView, after: StreamerView, frame: bool) -> bool {
    if frame {
        &&& before.silence_frames > 0
        &&& after.silence_frames == before.silence_frames - 1
        &&& after.waiting_for_source == before.waiting_for_source
    } else {
        ||| after.silence_frames == before.silence_frames
        ||| (!before.waiting_for_source && after.waiting_for_source && after.silence_frames
            == before.silence_frames + SILENCE_FRAME_COUNT)
    }
}

/// One call's effect on the pace: a packet sent moves the deadline on by
/// one period; otherwise the deadline stays, unless the stream restarts
/// after a break.
pub open spec fn pace_step(before: StreamerView, after: StreamerView, sent: bool) -> bool {
    if sent {
        after.next_packet == saturating_add(before.next_packet, TIMESTEP_MILLIS)
            && after.waiting_for_source == before.waiting_for_source
    } else {
        ||| after.next_packet == before.next_packet
        ||| (before.waiting_for_source && !after.waiting_for_source)
    }
}

/// The step put a silence frame in the packet.
pub open spec fn takes_silence(before: StreamerView) -> bool {
    !before.ready && before.silence_frames > 0
}

/// The status a step reports, if any.
pub open spec fn step_status(step: Step) -> Option<Status> {
    match step {
        Step::Status(s) => Some(s),
        _ => None,
    }
}

/// Audio packet streamer.
pub struct PacketStreamer {
    patience: u64,
    has_source: bool,
    waiting_for_source: bool,
    packet: Packet,
    next_packet: u64,
    ready: bool,
    silence_frames: u32,
}

impl View for PacketStreamer {
    type V = StreamerView;

    closed spec fn view(&self) -> StreamerView {
        StreamerView {
            patience: self.patience,
            has_source: self.has_source,
            waiting_for_source: self.waiting_for_source,
            packet: self.packet@,
            next_packet: self.next_packet,
            ready: self.ready,
            silence_frames: self.silence_frames,
        }
    }
}

impl PacketStreamer {
    /// Creates a new, empty streamer at `now`.
    ///
    /// `patience` is how many milliseconds past a packet's deadline the
    /// source may take before the streamer takes it for a break in the
    /// stream.
    pub fn new(patience: u64, now: u64) -> (r: PacketStreamer)
        ensures
            r@.wf(),
            r@.patience == patience,
            !r@.has_source,
            r@.waiting_for_source,
            !r@.ready,
            r@.silence_frames == 0,
            r@.next_packet == now,
            r@.packet.payload_len == 0,
            !r@.streaming(),
    {
        PacketStreamer {
            patience,
            has_source: false,
            waiting_for_source: true,
            packet: Packet::default(),
            next_packet: now,
            ready: false,
            silence_frames: 0,
        }
    }

    fn wait_for_source(&mut self)
        requires
            old(self)@.wf(),
        ensures
            final(self)@ == old(self)@.after_break(),
            final(self)@.wf(),
    {
        if !self.waiting_for_source {
            self.waiting_for_source = true;
            self.silence_frames = self.silence_frames + SILENCE_FRAME_COUNT;
        }
    }

    /// Gives the streamer a new source to play.
    ///
    /// A source that replaces one that was playing ends its stream: the
    /// silence frames and the `Stopped` status come first.
    pub fn source(&mut self)
        requires
            old(self)@.wf(),
        ensures
            final(self)@ == (StreamerView { has_source: true, ..old(self)@.after_break() }),
            final(self)@.wf(),
            status_step(old(self)@.streaming(), final(self)@.streaming(), None),
            silence_step(old(self)@, final(self)@, false),
            pace_step(old(self)@, final(self)@, false),
    {
        self.wait_for_source();
        self.has_source = true;
    }

    /// Checks if a source is present in the streamer.
    pub fn has_source(&self) -> (r: bool)
        ensures
            r == self@.has_source,
    {
        self.has_source
    }

    /// Removes the source; returns whether there was one. The stream ends
    /// with silence frames and a `Stopped` status.
    pub fn take_source(&mut self) -> (r: bool)
        requires
            old(self)@.wf(),
        ensures
            r == old(self)@.has_source,
            final(self)@ == (StreamerView { has_source: false, ..old(self)@.after_break() }),
            final(self)@.wf(),
            status_step(old(self)@.streaming(), final(self)@.streaming(), None),
            silence_step(old(self)@, final(self)@, false),
            pace_step(old(self)@, final(self)@, false),
    {
        self.wait_for_source();
        let had = self.has_source;
        self.has_source = false;
        had
    }

    /// Packets are flowing: between a `Started` and the next `Stopped`.
    pub fn is_streaming(&self) -> (r: bool)
        ensures
            r == self@.streaming(),
    {
        !self.waiting_for_source || self.silence_frames > 0
    }

    /// A packet is prepared and waits for its deadline.
    pub fn is_ready(&self) -> (r: bool)
        ensures
            r == self@.ready,
    {
        self.ready
    }

    /// The deadline of the next packet.
    pub fn next_packet_deadline(&self) -> (r: u64)
        ensures
            r == self@.next_packet,
    {
        self.next_packet
    }

    /// The silence frames still owed.
    pub fn silence_frames(&self) -> (r: u32)
        ensures
            r == self@.silence_frames,
    {
        self.silence_frames
    }

    /// The packet being prepared.
    pub fn packet(&self) -> (r: &Packet)
        ensures
            r@ == self@.packet,
    {
        &self.packet
    }

    /// Decides the next step.
    ///
    /// With a packet ready, it is to be sent at its deadline. Else, an owed
    /// silence frame is put in the packet; the last one of a burst reports
    /// `Stopped` when the streamer waits for a source. Else the source is to
    /// be read: without a time limit after a break, else until the packet's
    /// deadline plus the patience.
    pub fn next_step(&mut self, ssrc: u32) -> (r: Step)
        requires
            old(self)@.wf(),
        ensures
            final(self)@.wf(),
            status_step(old(self)@.streaming(), final(self)@.streaming(), step_status(r)),
            silence_step(old(self)@, final(self)@, takes_silence(old(self)@)),
            pace_step(old(self)@, final(self)@, false),
            old(self)@.ready ==> r == (Step::Send { at: old(self)@.next_packet }) && final(self)@
                == old(self)@,
            !old(self)@.ready && old(self)@.silence_frames > 0 ==> {
                &&& final(self)@.ready
                &&& final(self)@.silence_frames == old(self)@.silence_frames - 1
                &&& final(self)@.packet.payload() == silence_frame()
                &&& final(self)@.packet.buf.subrange(0, HEADER_LEN as int)
                    == old(self)@.packet.buf.subrange(0, HEADER_LEN as int)
                &&& final(self)@.waiting_for_source == old(self)@.waiting_for_source
                &&& final(self)@.has_source == old(self)@.has_source
                &&& final(self)@.next_packet == old(self)@.next_packet
                &&& (final(self)@.silence_frames == 0 ==> r == Step::Status(Status::Stopped(ssrc)))
                &&& (final(self)@.silence_frames > 0 ==> r == Step::Continue)
            },
            !old(self)@.ready && old(self)@.silence_frames == 0 ==> final(self)@ == old(self)@
                && (!old(self)@.has_source ==> r == Step::Idle) && (old(self)@.has_source
                ==> r == (Step::Read {
                deadline: if old(self)@.waiting_for_source {
                    None
                } else {
                    Some(saturating_add(old(self)@.next_packet, old(self)@.patience))
                },
            })),
    {
        if self.ready {
            return Step::Send { at: self.next_packet };
        }
        if self.silence_frames > 0 {
            self.silence_frames = self.silence_frames - 1;
            let silence = silence_frame_bytes();
            self.packet.set_payload(silence.as_slice());
            self.ready = true;
            if self.silence_frames == 0 && self.waiting_for_source {
                Step::Status(Status::Stopped(ssrc))
            } else {
                Step::Continue
            }
        } else if !self.has_source {
            Step::Idle
        } else if self.waiting_for_source {
            Step::Read { deadline: None }
        } else {
            Step::Read { deadline: Some(self.next_packet.saturating_add(self.patience)) }
        }
    }

    /// A frame was read from the source at `now`; an empty frame is the end
    /// of the source, which the caller then closes.
    ///
    /// A frame after a break restarts the pace at `now` plus one period and
    /// reports `Started`. The end of the source breaks the stream.
    pub fn on_read(&mut self, frame: &[u8], now: u64, ssrc: u32) -> (r: Option<Status>)
        requires
            old(self)@.wf(),
            old(self)@.has_source,
            !old(self)@.ready,
            old(self)@.silence_frames == 0,
            frame@.len() <= MAX_FRAME_LEN,
        ensures
            final(self)@.wf(),
            status_step(old(self)@.streaming(), final(self)@.streaming(), r),
            silence_step(old(self)@, final(self)@, false),
            pace_step(old(self)@, final(self)@, false),
            frame@.len() > 0 ==> {
                &&& final(self)@.ready
                &&& final(self)@.packet.payload() == frame@
                &&& final(self)@.packet.buf.subrange(0, HEADER_LEN as int)
                    == old(self)@.packet.buf.subrange(0, HEADER_LEN as int)
                &&& final(self)@.has_source
                &&& !final(self)@.waiting_for_source
                &&& final(self)@.silence_frames == 0
                &&& (old(self)@.waiting_for_source ==> r == Some(Status::Started(ssrc))
                    && final(self)@.next_packet == saturating_add(now, TIMESTEP_MILLIS))
                &&& (!old(self)@.waiting_for_source ==> r is None && final(self)@.next_packet
                    == old(self)@.next_packet)
            },
            frame@.len() == 0 ==> r is None && final(self)@ == (StreamerView {
                has_source: false,
                ..old(self)@.after_break()
            }),
    {
        let was_waiting = self.waiting_for_source;
        if frame.len() > 0 {
            self.packet.set_payload(frame);
            self.ready = true;
            if was_waiting {
                self.next_packet = now.saturating_add(TIMESTEP_MILLIS);
                self.waiting_for_source = false;
                Some(Status::Started(ssrc))
            } else {
                None
            }
        } else {
            self.has_source = false;
            self.wait_for_source();
            None
        }
    }

    /// The source took longer than its deadline: the stream breaks, with
    /// silence frames and then `Stopped`.
    pub fn on_timeout(&mut self)
        requires
            old(self)@.wf(),
        ensures
            final(self)@ == old(self)@.after_break(),
            final(self)@.wf(),
            status_step(old(self)@.streaming(), final(self)@.streaming(), None),
            silence_step(old(self)@, final(self)@, false),
            pace_step(old(self)@, final(self)@, false),
    {
        self.wait_for_source();
    }

    /// Seals the ready packet through the socket, and returns the datagram
    /// to send. The next packet starts empty and its deadline is one period
    /// later.
    pub fn send_packet(&mut self, rtp: &mut Socket) -> (r: Result<Vec<u8>, rtp::Error>)
        requires
            old(self)@.wf(),
            old(self)@.ready,
            key_ok(old(rtp)@.encryptor),
        ensures
            final(self)@.wf(),
            status_step(old(self)@.streaming(), final(self)@.streaming(), None),
            silence_step(old(self)@, final(self)@, false),
            pace_step(old(self)@, final(self)@, true),
            r matches Ok(d) ==> rtp::sent(old(rtp)@, final(rtp)@, old(self)@.packet.payload(), d@),
            r is Ok,
            !final(self)@.ready,
            final(self)@.packet.payload_len == 0,
            final(self)@.next_packet == saturating_add(old(self)@.next_packet, TIMESTEP_MILLIS),
            final(self)@.waiting_for_source == old(self)@.waiting_for_source,
            final(self)@.silence_frames == old(self)@.silence_frames,
            final(self)@.has_source == old(self)@.has_source,
            final(self)@.patience == old(self)@.patience,
    {
        proof {
            lemma_suffix_len_bound(rtp@.encryptor.mode);
        }
        let res = rtp.send(&mut self.packet);
        match res {
            Ok(()) => {},
            Err(e) => {
                return Err(e);
            },
        }
        let wire = self.packet.as_bytes();
        let datagram = crate::voice::crypto::copy_range(wire, 0, wire.len());
        assert(datagram@ =~= wire@);
        self.packet = Packet::default();
        self.next_packet = self.next_packet.saturating_add(TIMESTEP_MILLIS);
        self.ready = false;
        Ok(datagram)
    }
}

/// A break in a stream of audio owes exactly `SILENCE_FRAME_COUNT` silence
/// frames, and the streamer then waits for a source.
pub proof fn lemma_break_owes_silence(v: StreamerView)
    requires
        v.wf(),
        !v.waiting_for_source,
    ensures
        v.after_break().silence_frames == SILENCE_FRAME_COUNT,
        v.after_break().waiting_for_source,
        v.after_break().streaming(),
{
}

/// The number of calls of a run that sent a packet.
pub open spec fn packets_sent(sent: Seq<bool>) -> int
    decreases sent.len(),
{
    if sent.len() == 0 {
        0
    } else {
        (if sent[0] {
            1int
        } else {
            0int
        }) + packets_sent(sent.subrange(1, sent.len() as int))
    }
}

/// Packets keep their pace: over a run of calls in which the stream does
/// not restart after a break, the deadline moves on by exactly one period
/// per packet sent, whatever the clock did meanwhile, so no drift builds up.
///
/// `views[i]` is the streamer before call `i` and `sent[i]` whether that
/// call sent a packet, as each call's contract relates them.
pub proof fn lemma_paced_run(views: Seq<StreamerView>, sent: Seq<bool>)
    requires
        views.len() == sent.len() + 1,
        forall|i: int| 0 <= i < sent.len() ==> pace_step(views[i], views[i + 1], #[trigger] sent[i]),
        forall|i: int|
            0 <= i < sent.len() ==> !((#[trigger] views[i]).waiting_for_source && !views[i
                + 1].waiting_for_source),
        views[0].next_packet + TIMESTEP_MILLIS * packets_sent(sent) <= u64::MAX,
    ensures
        views.last().next_packet == views[0].next_packet + TIMESTEP_MILLIS * packets_sent(sent),
    decreases sent.len(),
{
    if sent.len() > 0 {
        let v2 = views.subrange(1, views.len() as int);
        let s2 = sent.subrange(1, sent.len() as int);
        assert forall|i: int| 0 <= i < s2.len() implies pace_step(v2[i], v2[i + 1], #[trigger] s2[i]) by {
            assert(pace_step(views[i + 1], views[i + 2], sent[i + 1]));
        }
        assert forall|i: int| 0 <= i < s2.len() implies !((#[trigger] v2[i]).waiting_for_source
            && !v2[i + 1].waiting_for_source) by {
            assert(!(views[i + 1].waiting_for_source && !views[i + 2].waiting_for_source));
        }
        assert(pace_step(views[0], views[1], sent[0]));
        assert(!(views[0].waiting_for_source && !views[1].waiting_for_source));
        assert(packets_sent(s2) >= 0) by {
            lemma_packets_sent_nonneg(s2);
        }
        lemma_paced_run(v2, s2);
        assert(v2.last() == views.last());
    }
}

proof fn lemma_packets_sent_nonneg(sent: Seq<bool>)
    ensures
        packets_sent(sent) >= 0,
    decreases sent.len(),
{
    if sent.len() > 0 {
        lemma_packets_sent_nonneg(sent.subrange(1, sent.len() as int));
    }
}

/// The number of steps of a run that took a silence frame.
pub open spec fn silence_taken(frames: Seq<bool>) -> int
    decreases frames.len(),
{
    if frames.len() == 0 {
        0
    } else {
        (if frames[0] {
            1int
        } else {
            0int
        }) + silence_taken(frames.subrange(1, frames.len() as int))
    }
}

/// A burst of silence sends exactly the frames that were owed: over a run
/// of calls during which some silence stays owed, each call takes one frame
/// or none and nothing is added, so from a break (`SILENCE_FRAME_COUNT`
/// owed) to the end of the burst exactly `SILENCE_FRAME_COUNT` frames go
/// out.
///
/// `views[i]` is the streamer before call `i`, and `frames[i]` whether that
/// call took a silence frame, as each call's contract relates them.
pub proof fn lemma_silence_burst(views: Seq<StreamerView>, frames: Seq<bool>)
    requires
        views.len() == frames.len() + 1,
        forall|i: int| 0 <= i < views.len() ==> (#[trigger] views[i]).wf(),
        forall|i: int| 0 <= i < frames.len() ==> (#[trigger] views[i]).silence_frames > 0,
        forall|i: int|
            0 <= i < frames.len() ==> silence_step(views[i], views[i + 1], #[trigger] frames[i]),
    ensures
        silence_taken(frames) == views[0].silence_frames - views.last().silence_frames,
    decreases frames.len(),
{
    if frames.len() > 0 {
        let v2 = views.subrange(1, views.len() as int);
        let f2 = frames.subrange(1, frames.len() as int);
        assert forall|i: int| 0 <= i < v2.len() implies (#[trigger] v2[i]).wf() by {
            assert(views[i + 1].wf());
        }
        assert forall|i: int| 0 <= i < f2.len() implies (#[trigger] v2[i]).silence_frames > 0 by {
            assert(views[i + 1].silence_frames > 0);
        }
        assert forall|i: int| 0 <= i < f2.len() implies silence_step(v2[i], v2[i + 1], #[trigger] f2[i]) by {
            assert(silence_step(views[i + 1], views[i + 2], frames[i + 1]));
        }
        lemma_silence_burst(v2, f2);
        assert(views[0].wf());
        assert(silence_step(views[0], views[1], frames[0]));
        assert(v2.last() == views.last());
    }
}

/// Each status in a run of steps flips the streaming flag, starting from
/// `on`: `Started` only when it is off, `Stopped` only when it is on.
pub open spec fn alternating_from(statuses: Seq<Option<Status>>, on: bool) -> bool
    decreases statuses.len(),
{
    if statuses.len() == 0 {
        true
    } else {
        let rest = statuses.subrange(1, statuses.len() as int);
        match statuses[0] {
            None => alternating_from(rest, on),
            Some(Status::Started(_)) => !on && alternating_from(rest, true),
            Some(Status::Stopped(_)) => on && alternating_from(rest, false),
        }
    }
}

/// The number of `Started` statuses minus the number of `Stopped` ones.
pub open spec fn started_minus_stopped(statuses: Seq<Option<Status>>) -> int
    decreases statuses.len(),
{
    if statuses.len() == 0 {
        0
    } else {
        let rest = statuses.subrange(1, statuses.len() as int);
        match statuses[0] {
            None => started_minus_stopped(rest),
            Some(Status::Started(_)) => 1 + started_minus_stopped(rest),
            Some(Status::Stopped(_)) => started_minus_stopped(rest) - 1,
        }
    }
}

/// Over any run of streamer calls, the statuses reported strictly alternate
/// and start with `Started`; there are as many `Started` as `Stopped`, plus
/// one while packets are still flowing at the end.
///
/// `flags[i]` is the streaming flag before call `i` and `statuses[i]` what
/// that call reported, as each call's contract relates them.
pub proof fn lemma_statuses_alternate(flags: Seq<bool>, statuses: Seq<Option<Status>>)
    requires
        flags.len() == statuses.len() + 1,
        !flags[0],
        forall|i: int|
            0 <= i < statuses.len() ==> status_step(flags[i], flags[i + 1], #[trigger] statuses[i]),
    ensures
        alternating_from(statuses, false),
        started_minus_stopped(statuses) == (if flags.last() {
            1int
        } else {
            0int
        }),
{
    lemma_run_alternates(flags, statuses);
}

proof fn lemma_run_alternates(flags: Seq<bool>, statuses: Seq<Option<Status>>)
    requires
        flags.len() == statuses.len() + 1,
        forall|i: int|
            0 <= i < statuses.len() ==> status_step(flags[i], flags[i + 1], #[trigger] statuses[i]),
    ensures
        alternating_from(statuses, flags[0]),
        started_minus_stopped(statuses) == (if flags.last() {
            1int
        } else {
            0int
        }) - (if flags[0] {
            1int
        } else {
            0int
        }),
    decreases statuses.len(),
{
    if statuses.len() > 0 {
        let f2 = flags.subrange(1, flags.len() as int);
        let s2 = statuses.subrange(1, statuses.len() as int);
        assert forall|i: int| 0 <= i < s2.len() implies status_step(f2[i], f2[i + 1], #[trigger] s2[i]) by {
            assert(status_step(flags[i + 1], flags[i + 2], statuses[i + 1]));
        }
        lemma_run_alternates(f2, s2);
        assert(status_step(flags[0], flags[1], statuses[0]));
        assert(f2.last() == flags.last());
    }
}

} // verus!
