//! The decisions of one elementary-stream streamer: routing packets, keeping
//! the stream's elapsed time from packet timestamps, pulling packets until the
//! decoder yields a frame, and seeking.
//!
//! The decoder and the container are driven by the caller, which reports each
//! outcome and performs the action handed back.
use vstd::prelude::*;
use crate::clock::{checked_timestamp_to_millisec, millis_of, TimeBase, MICROS_PER_MILLI};

verus! {

/// Seeking closer than this to the current position does nothing, and a seek
/// lands within it of its target.
pub const SEEK_TOLERANCE_MS: i64 = 50;

/// What one attempt to take a frame out of the decoder gave.
#[derive(Clone, Copy, Debug, PartialEq, Eq, Structural)]
pub enum DecodeOutcome {
    /// A frame was decoded.
    Frame,
    /// The decoder needs another packet.
    Incomplete,
    /// The stream is exhausted.
    Eof,
    /// Any other codec or container error.
    Failed,
}

/// What the pull loop does next.
#[derive(Clone, Copy, Debug, PartialEq, Eq, Structural)]
pub enum PullStep {
    /// Read one more packet of this stream, feed it, and decode again.
    ReadPacket,
    /// Hand the decoded frame on; the loop is over.
    Deliver,
    /// The stream is exhausted; the loop is over.
    EndOfStream,
    /// Report the error; the loop is over.
    Fail,
}

/// The step that follows a decode outcome.
pub open spec fn pull_next(o: DecodeOutcome) -> PullStep {
    match o {
        DecodeOutcome::Frame => PullStep::Deliver,
        DecodeOutcome::Incomplete => PullStep::ReadPacket,
        DecodeOutcome::Eof => PullStep::EndOfStream,
        DecodeOutcome::Failed => PullStep::Fail,
    }
}

/// The model of a `FramePull`: the packets read so far, and whether the loop
/// is over.
pub struct PullView {
    pub packets: nat,
    pub finished: bool,
}

/// The loop after one decode attempt gave `o`: `Incomplete` costs one more
/// packet, any other outcome ends the loop, and a finished loop stays as it
/// is.
pub open spec fn pull_advance(v: PullView, o: DecodeOutcome) -> PullView {
    if v.finished {
        v
    } else if o == DecodeOutcome::Incomplete {
        PullView { packets: v.packets + 1, finished: false }
    } else {
        PullView { packets: v.packets, finished: true }
    }
}

/// The loop after the decoder answered with `outcomes`, one per attempt.
pub open spec fn pull_run(v: PullView, outcomes: Seq<DecodeOutcome>) -> PullView
    decreases outcomes.len(),
{
    if outcomes.len() == 0 {
        v
    } else {
        pull_run(pull_advance(v, outcomes[0]), outcomes.drop_first())
    }
}

/// One run of the loop that pulls packets until the decoder yields a frame.
pub struct FramePull {
    packets: u64,
    finished: bool,
}

impl View for FramePull {
    type V = PullView;

    closed spec fn view(&self) -> PullView {
        PullView { packets: self.packets as nat, finished: self.finished }
    }
}

impl FramePull {
    /// A loop that has read nothing yet.
    pub fn new() -> (p: FramePull)
        ensures
            p@ == (PullView { packets: 0, finished: false }),
    {
        FramePull { packets: 0, finished: false }
    }

    /// The number of packets read so far.
    pub fn packets(&self) -> (n: u64)
        ensures
            n == self@.packets,
    {
        self.packets
    }

    pub fn finished(&self) -> (b: bool)
        ensures
            b == self@.finished,
    {
        self.finished
    }

    /// Takes the outcome of one decode attempt and says what comes next: on
    /// `Incomplete` one more packet is read, and any other outcome ends the
    /// loop. A finished loop reads nothing more and answers `Fail`.
    pub fn on_decode(&mut self, outcome: DecodeOutcome) -> (step: PullStep)
        requires
            old(self)@.packets < u64::MAX,
        ensures
            final(self)@ == pull_advance(old(self)@, outcome),
            step == if old(self)@.finished {
                PullStep::Fail
            } else {
                pull_next(outcome)
            },
    {
        if self.finished {
            return PullStep::Fail;
        }
        match outcome {
            DecodeOutcome::Incomplete => {
                self.packets = self.packets + 1;
                PullStep::ReadPacket
            },
            DecodeOutcome::Frame => {
                self.finished = true;
                PullStep::Deliver
            },
            DecodeOutcome::Eof => {
                self.finished = true;
                PullStep::EndOfStream
            },
            DecodeOutcome::Failed => {
                self.finished = true;
                PullStep::Fail
            },
        }
    }
}

/// A decoder that needs `k` more packets before it yields a frame makes the
/// pull loop read exactly `k` packets, each attempt before the frame asking
/// for one, and deliver that one frame; whatever the decoder would answer
/// afterwards, no packet more is read.
pub proof fn lemma_pull_exact(k: nat, after: Seq<DecodeOutcome>)
    ensures
        ({
            let outcomes = Seq::new(k, |i: int| DecodeOutcome::Incomplete).push(
                DecodeOutcome::Frame,
            );
            &&& pull_run(PullView { packets: 0, finished: false }, outcomes + after) == (PullView {
                packets: k,
                finished: true,
            })
            &&& pull_next(outcomes[k as int]) == PullStep::Deliver
            &&& forall|i: int|
                0 <= i < k ==> pull_next(#[trigger] outcomes[i]) == PullStep::ReadPacket
        }),
{
    lemma_pull_incompletes(k, 0, after);
}

proof fn lemma_pull_incompletes(k: nat, start: nat, after: Seq<DecodeOutcome>)
    ensures
        pull_run(
            PullView { packets: start, finished: false },
            Seq::new(k, |i: int| DecodeOutcome::Incomplete).push(DecodeOutcome::Frame) + after,
        ) == (PullView { packets: start + k, finished: true }),
    decreases k,
{
    let outcomes = Seq::new(k, |i: int| DecodeOutcome::Incomplete).push(DecodeOutcome::Frame)
        + after;
    if k == 0 {
        assert(outcomes[0] == DecodeOutcome::Frame);
        assert(outcomes.drop_first() =~= after);
        lemma_finished_stays(PullView { packets: start, finished: true }, after);
    } else {
        lemma_pull_incompletes((k - 1) as nat, start + 1, after);
        let rest = Seq::new((k - 1) as nat, |i: int| DecodeOutcome::Incomplete).push(
            DecodeOutcome::Frame,
        ) + after;
        assert(outcomes[0] == DecodeOutcome::Incomplete);
        assert(outcomes.drop_first() =~= rest);
    }
}

proof fn lemma_finished_stays(v: PullView, outcomes: Seq<DecodeOutcome>)
    requires
        v.finished,
    ensures
        pull_run(v, outcomes) == v,
    decreases outcomes.len(),
{
    if outcomes.len() > 0 {
        lemma_finished_stays(v, outcomes.drop_first());
    }
}

/// Which streamer a packet goes to.
#[derive(Clone, Copy, Debug, PartialEq, Eq, Structural)]
pub enum Route {
    Video,
    Audio,
    Discard,
}

/// Routes a packet of stream `stream` to the video streamer, the audio
/// streamer, or nowhere. Video wins should both claim the same stream.
pub fn route_packet(stream: usize, video: Option<usize>, audio: Option<usize>) -> (r: Route)
    ensures
        r == if video == Some(stream) {
            Route::Video
        } else if audio == Some(stream) {
            Route::Audio
        } else {
            Route::Discard
        },
{
    match video {
        Some(v) if v == stream => Route::Video,
        _ => match audio {
            Some(a) if a == stream => Route::Audio,
            _ => Route::Discard,
        },
    }
}

/// The model of a `StreamClock`.
pub struct StreamClockView {
    pub index: usize,
    pub time_base: TimeBase,
    pub primary: bool,
    pub elapsed: int,
}

/// The elapsed time of one streamer, kept from the decode timestamps of the
/// packets it is fed.
pub struct StreamClock {
    index: usize,
    time_base: TimeBase,
    primary: bool,
    elapsed_ms: i64,
}

impl View for StreamClock {
    type V = StreamClockView;

    closed spec fn view(&self) -> StreamClockView {
        StreamClockView {
            index: self.index,
            time_base: self.time_base,
            primary: self.primary,
            elapsed: self.elapsed_ms as int,
        }
    }
}

impl StreamClockView {
    pub open spec fn wf(self) -> bool {
        &&& self.time_base.den > 0
        &&& i64::MIN <= self.elapsed <= i64::MAX
    }
}

impl StreamClock {
    /// The clock of stream `index`, whose packets count time in `time_base`,
    /// at time zero.
    pub fn new(index: usize, time_base: TimeBase, primary: bool) -> (c: StreamClock)
        requires
            time_base.den > 0,
        ensures
            c@.wf(),
            c@ == (StreamClockView { index, time_base, primary, elapsed: 0 }),
    {
        StreamClock { index, time_base, primary, elapsed_ms: 0 }
    }

    pub fn index(&self) -> (i: usize)
        ensures
            i == self@.index,
    {
        self.index
    }

    pub fn is_primary(&self) -> (b: bool)
        ensures
            b == self@.primary,
    {
        self.primary
    }

    pub fn elapsed_ms(&self) -> (ms: i64)
        ensures
            ms == self@.elapsed,
    {
        self.elapsed_ms
    }

    /// Takes a packet of stream `stream` with decode timestamp `dts`. It
    /// belongs to this streamer exactly when the indices agree; then a defined
    /// timestamp that fits in milliseconds becomes the elapsed time.
    pub fn on_packet(&mut self, stream: usize, dts: Option<i64>) -> (mine: bool)
        requires
            old(self)@.wf(),
        ensures
            final(self)@.wf(),
            mine == (stream == old(self)@.index),
            final(self)@ == (match dts {
                Some(ts) if mine && i64::MIN <= millis_of(ts as int, old(self)@.time_base)
                    <= i64::MAX => StreamClockView {
                    elapsed: millis_of(ts as int, old(self)@.time_base),
                    ..old(self)@
                },
                _ => old(self)@,
            }),
    {
        if stream != self.index {
            return false;
        }
        match dts {
            Some(ts) => {
                match checked_timestamp_to_millisec(ts, self.time_base) {
                    Some(ms) => {
                        self.elapsed_ms = ms;
                    },
                    None => {},
                }
            },
            None => {},
        }
        true
    }

    /// Back to time zero, for a restart or a loop.
    pub fn reset(&mut self)
        requires
            old(self)@.wf(),
        ensures
            final(self)@.wf(),
            final(self)@ == (StreamClockView { elapsed: 0, ..old(self)@ }),
    {
        self.elapsed_ms = 0;
    }
}

/// The phase of a seek.
#[derive(Clone, Copy, Debug, PartialEq, Eq, Structural)]
pub enum SeekPhase {
    /// Dropping frames while elapsed time still decreases, after a seek
    /// backward landed on an earlier keyframe.
    Backward,
    /// Dropping frames until elapsed time reaches the target.
    Forward,
    /// Waiting for the preview frame of the primary streamer.
    Preview,
    Done,
}

/// What the caller does next for a seek.
#[derive(Clone, Copy, Debug, PartialEq, Eq, Structural)]
pub enum SeekAction {
    /// Already within tolerance of the target: nothing to do.
    AlreadyThere,
    /// Seek the container to the nearest timestamp at or before this one, in
    /// microseconds, and flush the decoder.
    SeekInput(i64),
    /// Decode one frame, pulling packets as needed, and discard it.
    DropFrame,
    /// Decode one frame and present it as a preview.
    Preview,
    /// The seek is over; the elapsed time reached is given.
    Finish(i64),
}

/// What the caller reports to a seek in progress.
#[derive(Clone, Copy, Debug, PartialEq, Eq, Structural)]
pub enum SeekEvent {
    /// A frame was decoded; the streamer's elapsed time is now the value.
    Decoded(i64),
    /// The stream ended.
    Eof,
}

/// The model of a `SeekRun`.
pub struct SeekRunView {
    pub target: int,
    /// The elapsed time last seen.
    pub last: int,
    pub phase: SeekPhase,
    pub primary: bool,
}

/// A seek of one streamer in progress.
pub struct SeekRun {
    target: i64,
    last: i64,
    phase: SeekPhase,
    primary: bool,
}

impl View for SeekRun {
    type V = SeekRunView;

    closed spec fn view(&self) -> SeekRunView {
        SeekRunView {
            target: self.target as int,
            last: self.last as int,
            phase: self.phase,
            primary: self.primary,
        }
    }
}

pub open spec fn within_tolerance(a: int, b: int) -> bool {
    -SEEK_TOLERANCE_MS <= a - b <= SEEK_TOLERANCE_MS
}

/// The start of a seek to `target` from elapsed time `elapsed`.
pub open spec fn seek_begin(target: int, elapsed: int, primary: bool) -> (SeekRunView, SeekAction) {
    if within_tolerance(elapsed, target) {
        (SeekRunView { target, last: elapsed, phase: SeekPhase::Done, primary }, SeekAction::AlreadyThere)
    } else {
        (
            SeekRunView {
                target,
                last: elapsed,
                phase: if target < elapsed {
                    SeekPhase::Backward
                } else {
                    SeekPhase::Forward
                },
                primary,
            },
            SeekAction::SeekInput((target * MICROS_PER_MILLI) as i64),
        )
    }
}

/// After a frame at `e` in the forward phase: the target is reached when `e`
/// is at or past it; the primary streamer then previews one frame.
pub open spec fn seek_forward(v: SeekRunView, e: int) -> (SeekRunView, SeekAction) {
    if e >= v.target {
        if v.primary {
            (SeekRunView { last: e, phase: SeekPhase::Preview, ..v }, SeekAction::Preview)
        } else {
            (SeekRunView { last: e, phase: SeekPhase::Done, ..v }, SeekAction::Finish(e as i64))
        }
    } else {
        (SeekRunView { last: e, phase: SeekPhase::Forward, ..v }, SeekAction::DropFrame)
    }
}

/// One step of a seek. The time reached is that of the frame that ended the
/// forward phase; the preview frame does not move it. The end of the stream
/// ends the seek where it stands.
pub open spec fn seek_step(v: SeekRunView, ev: SeekEvent) -> (SeekRunView, SeekAction) {
    match v.phase {
        SeekPhase::Done => (v, SeekAction::Finish(v.last as i64)),
        _ => match ev {
            SeekEvent::Eof => (SeekRunView { phase: SeekPhase::Done, ..v }, SeekAction::Finish(v.last as i64)),
            SeekEvent::Decoded(e) => match v.phase {
                SeekPhase::Backward => if (e as int) < v.last {
                    (SeekRunView { last: e as int, ..v }, SeekAction::DropFrame)
                } else {
                    seek_forward(v, e as int)
                },
                SeekPhase::Forward => seek_forward(v, e as int),
                _ => (SeekRunView { phase: SeekPhase::Done, ..v }, SeekAction::Finish(v.last as i64)),
            },
        },
    }
}

impl SeekRunView {
    pub open spec fn wf(self) -> bool {
        &&& 0 <= self.target <= i64::MAX / MICROS_PER_MILLI
        &&& i64::MIN <= self.last <= i64::MAX
    }
}

impl SeekRun {
    /// Starts a seek to `target_ms` from elapsed time `elapsed_ms`: nothing
    /// to do within tolerance of the target, else a seek of the container
    /// followed by frames dropped backward, then forward.
    pub fn begin(target_ms: i64, elapsed_ms: i64, primary: bool) -> (r: (SeekRun, SeekAction))
        requires
            0 <= target_ms <= i64::MAX / MICROS_PER_MILLI,
        ensures
            r.0@.wf(),
            (r.0@, r.1) == seek_begin(target_ms as int, elapsed_ms as int, primary),
    {
        let near = target_ms - SEEK_TOLERANCE_MS <= elapsed_ms && elapsed_ms <= target_ms
            + SEEK_TOLERANCE_MS;
        if near {
            (SeekRun { target: target_ms, last: elapsed_ms, phase: SeekPhase::Done, primary }, SeekAction::AlreadyThere)
        } else {
            let phase = if target_ms < elapsed_ms {
                SeekPhase::Backward
            } else {
                SeekPhase::Forward
            };
            (
                SeekRun { target: target_ms, last: elapsed_ms, phase, primary },
                SeekAction::SeekInput(target_ms * MICROS_PER_MILLI),
            )
        }
    }

    pub fn phase(&self) -> (p: SeekPhase)
        ensures
            p == self@.phase,
    {
        self.phase
    }

    /// The elapsed time reached so far.
    pub fn reached_ms(&self) -> (ms: i64)
        ensures
            ms == self@.last,
    {
        self.last
    }

    fn forward(&mut self, e: i64) -> (a: SeekAction)
        requires
            old(self)@.wf(),
        ensures
            final(self)@.wf(),
            (final(self)@, a) == seek_forward(old(self)@, e as int),
    {
        self.last = e;
        if e >= self.target {
            if self.primary {
                self.phase = SeekPhase::Preview;
                SeekAction::Preview
            } else {
                self.phase = SeekPhase::Done;
                SeekAction::Finish(e)
            }
        } else {
            self.phase = SeekPhase::Forward;
            SeekAction::DropFrame
        }
    }

    /// Takes what the last action gave and says what comes next.
    pub fn step(&mut self, ev: SeekEvent) -> (a: SeekAction)
        requires
            old(self)@.wf(),
        ensures
            final(self)@.wf(),
            (final(self)@, a) == seek_step(old(self)@, ev),
    {
        match self.phase {
            SeekPhase::Done => SeekAction::Finish(self.last),
            _ => match ev {
                SeekEvent::Eof => {
                    self.phase = SeekPhase::Done;
                    SeekAction::Finish(self.last)
                },
                SeekEvent::Decoded(e) => match self.phase {
                    SeekPhase::Backward => {
                        if e < self.last {
                            self.last = e;
                            SeekAction::DropFrame
                        } else {
                            self.forward(e)
                        }
                    },
                    SeekPhase::Forward => self.forward(e),
                    _ => {
                        self.phase = SeekPhase::Done;
                        SeekAction::Finish(self.last)
                    },
                },
            },
        }
    }
}

/// A seek lands within tolerance of its target: at once when it starts
/// within tolerance, and otherwise when the frame that reaches the target
/// follows the frame before it by no more than the tolerance. Nothing stays
/// to be done after it but the primary streamer's preview.
pub proof fn lemma_seek_lands_near_target(v: SeekRunView, target: int, elapsed: int, e: int)
    requires
        0 <= target <= i64::MAX / MICROS_PER_MILLI,
        i64::MIN <= e <= i64::MAX,
        v.wf(),
        v.phase == SeekPhase::Backward || v.phase == SeekPhase::Forward,
        v.last < v.target <= e <= v.last + SEEK_TOLERANCE_MS,
    ensures
        within_tolerance(elapsed, target) ==> seek_begin(target, elapsed, false).1
            == SeekAction::AlreadyThere && seek_begin(target, elapsed, true).1
            == SeekAction::AlreadyThere,
        ({
            let (w, a) = seek_step(v, SeekEvent::Decoded(e as i64));
            &&& w.last == e
            &&& within_tolerance(w.last, w.target)
            &&& (if v.primary {
                w.phase == SeekPhase::Preview && a == SeekAction::Preview
            } else {
                w.phase == SeekPhase::Done && a == SeekAction::Finish(e as i64)
            })
        }),
{
}

/// A seek presents at most one preview: only a step out of a dropping phase
/// asks for one, and no step after it asks for another frame.
pub proof fn lemma_single_preview(v: SeekRunView, ev: SeekEvent, ev2: SeekEvent)
    requires
        v.wf(),
    ensures
        seek_step(v, ev).1 == SeekAction::Preview ==> (v.phase == SeekPhase::Backward || v.phase
            == SeekPhase::Forward) && seek_step(v, ev).0.phase == SeekPhase::Preview,
        v.phase == SeekPhase::Preview ==> seek_step(v, ev).0.phase == SeekPhase::Done,
        v.phase == SeekPhase::Done ==> seek_step(v, ev2).0 == v && seek_step(v, ev2).1
            == SeekAction::Finish(v.last as i64),
{
}

} // verus!
