//! The playback controller: the authoritative player state, the primary
//! stream's elapsed time and the transitions of the public control surface.
//!
//! Outside work (tearing decode threads down, re-seeking decoders, running the
//! seek itself) is done by the caller; the controller decides, and reports each
//! outcome back through the methods below.
use vstd::prelude::*;

verus! {

/// Parts per million of a fraction: a seek position of `PPM_WHOLE` is the end.
pub const PPM_WHOLE: u32 = 1_000_000;

/// The state of one playback session.
#[derive(Clone, Copy, Debug, PartialEq, Eq, Structural)]
pub enum PlayerState {
    Stopped,
    EndOfFile,
    SeekingInProgress,
    SeekingFinished,
    Paused,
    Playing,
    Restarting,
}

/// A command sent to the decode side when playback is paused or resumed.
#[derive(Clone, Copy, Debug, PartialEq, Eq, Structural)]
pub enum ControlCommand {
    Play,
    Pause,
}

/// What the caller does after a scheduler tick resolved the state.
#[derive(Clone, Copy, Debug, PartialEq, Eq, Structural)]
pub enum TickAction {
    /// Nothing to do.
    Idle,
    /// A seek was resolved into the state it started from.
    SeekResolved,
    /// The stream ended while looping: reset every streamer to time zero, then
    /// call `restart_complete`.
    ResetStreams,
    /// The stream ended without looping: playback stopped.
    Halt,
}

/// The model of a `Player`.
pub struct PlayerView {
    pub state: PlayerState,
    /// The state a seek resolves into: Playing or Paused.
    pub resume_to: PlayerState,
    pub looping: bool,
    /// The primary stream's elapsed time, in milliseconds.
    pub elapsed: int,
    /// The seek target shown as elapsed time while a seek is under way.
    pub override_ms: Option<int>,
    /// The playback pass; it changes whenever playback starts again from zero,
    /// so that frames decoded before cannot be presented after.
    pub pass: u64,
    pub duration: nat,
}

/// The pass that follows `p`.
pub open spec fn next_pass(p: u64) -> u64 {
    if p == u64::MAX {
        0
    } else {
        (p + 1) as u64
    }
}

/// The seek target of a fraction `ppm / PPM_WHOLE` of `duration` milliseconds.
pub open spec fn seek_target(ppm: int, duration: int) -> int {
    ppm * duration / (PPM_WHOLE as int)
}

/// The elapsed time shown by the control surface.
pub open spec fn shown_elapsed(v: PlayerView) -> int {
    match v.override_ms {
        Some(t) => t,
        None => v.elapsed,
    }
}

/// The model after `stop`.
pub open spec fn stopped(v: PlayerView) -> PlayerView {
    PlayerView { state: PlayerState::Stopped, elapsed: 0, override_ms: None, ..v }
}

/// The model after playback starts again from time zero.
pub open spec fn restarted(v: PlayerView) -> PlayerView {
    PlayerView {
        state: PlayerState::Playing,
        elapsed: 0,
        override_ms: None,
        pass: next_pass(v.pass),
        ..v
    }
}

pub open spec fn seeking(s: PlayerState) -> bool {
    s == PlayerState::SeekingInProgress || s == PlayerState::SeekingFinished
}

/// A frame of pass `pass` is presented only while playing, and only if it
/// belongs to the current pass.
pub open spec fn frame_accepted(v: PlayerView, pass: u64) -> bool {
    v.state == PlayerState::Playing && pass == v.pass
}

/// The seek target in milliseconds: `ppm * duration_ms / PPM_WHOLE`, floored.
pub fn seek_target_ms(ppm: u32, duration_ms: u64) -> (t: u64)
    requires
        ppm <= PPM_WHOLE,
    ensures
        t == seek_target(ppm as int, duration_ms as int),
        t <= duration_ms,
{
    proof {
        assert(ppm as int * duration_ms as int <= 0x1_0000_0000 * 0x1_0000_0000_0000_0000)
            by (nonlinear_arith)
            requires
                ppm <= PPM_WHOLE,
                duration_ms < 0x1_0000_0000_0000_0000,
        ;
    }
    let p: u128 = ppm as u128 * duration_ms as u128;
    proof {
        assert(ppm as int * duration_ms as int <= PPM_WHOLE as int * duration_ms as int)
            by (nonlinear_arith)
            requires
                ppm <= PPM_WHOLE,
                duration_ms >= 0,
        ;
        assert((PPM_WHOLE as int * duration_ms as int) / (PPM_WHOLE as int) == duration_ms)
            by (nonlinear_arith);
        vstd::arithmetic::div_mod::lemma_div_is_ordered(
            ppm as int * duration_ms as int,
            PPM_WHOLE as int * duration_ms as int,
            PPM_WHOLE as int,
        );
    }
    (p / (PPM_WHOLE as u128)) as u64
}

/// The playback controller of one session.
pub struct Player {
    state: PlayerState,
    resume_to: PlayerState,
    looping: bool,
    elapsed_ms: i64,
    override_ms: Option<i64>,
    pass: u64,
    duration_ms: u64,
}

impl View for Player {
    type V = PlayerView;

    closed spec fn view(&self) -> PlayerView {
        PlayerView {
            state: self.state,
            resume_to: self.resume_to,
            looping: self.looping,
            elapsed: self.elapsed_ms as int,
            override_ms: match self.override_ms {
                Some(t) => Some(t as int),
                None => None,
            },
            pass: self.pass,
            duration: self.duration_ms as nat,
        }
    }
}

impl PlayerView {
    /// The override is set exactly while seeking, a seek resolves into Playing
    /// or Paused, and times fit the machine.
    pub open spec fn wf(self) -> bool {
        &&& (self.override_ms is Some <==> seeking(self.state))
        &&& (self.resume_to == PlayerState::Playing || self.resume_to == PlayerState::Paused)
        &&& i64::MIN <= self.elapsed <= i64::MAX
        &&& self.duration <= i64::MAX
        &&& match self.override_ms {
            Some(t) => 0 <= t <= self.duration,
            None => true,
        }
    }
}

impl Player {
    /// A stopped session over a stream of `duration_ms` milliseconds.
    pub fn new(duration_ms: u64, looping: bool) -> (p: Player)
        requires
            duration_ms <= i64::MAX,
        ensures
            p@.wf(),
            p@ == (PlayerView {
                state: PlayerState::Stopped,
                resume_to: PlayerState::Paused,
                looping,
                elapsed: 0,
                override_ms: None,
                pass: 0,
                duration: duration_ms as nat,
            }),
    {
        Player {
            state: PlayerState::Stopped,
            resume_to: PlayerState::Paused,
            looping,
            elapsed_ms: 0,
            override_ms: None,
            pass: 0,
            duration_ms,
        }
    }

    pub fn state(&self) -> (s: PlayerState)
        ensures
            s == self@.state,
    {
        self.state
    }

    pub fn is_looping(&self) -> (b: bool)
        ensures
            b == self@.looping,
    {
        self.looping
    }

    pub fn pass(&self) -> (p: u64)
        ensures
            p == self@.pass,
    {
        self.pass
    }

    pub fn duration_ms(&self) -> (d: u64)
        ensures
            d == self@.duration,
    {
        self.duration_ms
    }

    /// The elapsed time shown: the seek target while seeking, else the
    /// primary stream's elapsed time.
    pub fn elapsed_ms(&self) -> (ms: i64)
        requires
            self@.wf(),
        ensures
            ms == shown_elapsed(self@),
    {
        match self.override_ms {
            Some(t) => t,
            None => self.elapsed_ms,
        }
    }

    fn restart(&mut self)
        ensures
            final(self)@ == restarted(old(self)@),
    {
        self.state = PlayerState::Playing;
        self.elapsed_ms = 0;
        self.override_ms = None;
        self.pass = if self.pass == u64::MAX {
            0
        } else {
            self.pass + 1
        };
    }

    /// Starts playback from time zero when stopped or at the end of the
    /// stream; otherwise changes nothing. The caller resets the streamers when
    /// it returns true.
    pub fn start(&mut self) -> (started: bool)
        requires
            old(self)@.wf(),
        ensures
            final(self)@.wf(),
            started == (old(self)@.state == PlayerState::Stopped || old(self)@.state
                == PlayerState::EndOfFile),
            started ==> final(self)@ == restarted(old(self)@),
            !started ==> final(self)@ == old(self)@,
    {
        match self.state {
            PlayerState::Stopped | PlayerState::EndOfFile => {
                self.restart();
                true
            },
            _ => false,
        }
    }

    /// Pauses when playing; otherwise changes nothing.
    pub fn pause(&mut self) -> (paused: bool)
        requires
            old(self)@.wf(),
        ensures
            final(self)@.wf(),
            paused == (old(self)@.state == PlayerState::Playing),
            paused ==> final(self)@ == (PlayerView { state: PlayerState::Paused, ..old(self)@ }),
            !paused ==> final(self)@ == old(self)@,
    {
        match self.state {
            PlayerState::Playing => {
                self.state = PlayerState::Paused;
                true
            },
            _ => false,
        }
    }

    /// Resumes when paused; otherwise changes nothing.
    pub fn resume(&mut self) -> (resumed: bool)
        requires
            old(self)@.wf(),
        ensures
            final(self)@.wf(),
            resumed == (old(self)@.state == PlayerState::Paused),
            resumed ==> final(self)@ == (PlayerView { state: PlayerState::Playing, ..old(self)@ }),
            !resumed ==> final(self)@ == old(self)@,
    {
        match self.state {
            PlayerState::Paused => {
                self.state = PlayerState::Playing;
                true
            },
            _ => false,
        }
    }

    /// Flips between playing and paused, starting playback when stopped or at
    /// the end of the stream, and returns the command for the decode side.
    /// While seeking or restarting it changes nothing and returns `None`.
    pub fn toggle_pause_playing(&mut self) -> (cmd: Option<ControlCommand>)
        requires
            old(self)@.wf(),
        ensures
            final(self)@.wf(),
            old(self)@.state == PlayerState::Playing ==> cmd == Some(ControlCommand::Pause)
                && final(self)@ == (PlayerView { state: PlayerState::Paused, ..old(self)@ }),
            old(self)@.state == PlayerState::Paused ==> cmd == Some(ControlCommand::Play)
                && final(self)@ == (PlayerView { state: PlayerState::Playing, ..old(self)@ }),
            (old(self)@.state == PlayerState::Stopped || old(self)@.state == PlayerState::EndOfFile)
                ==> cmd == Some(ControlCommand::Play) && final(self)@ == restarted(old(self)@),
            (seeking(old(self)@.state) || old(self)@.state == PlayerState::Restarting) ==> cmd
                is None && final(self)@ == old(self)@,
    {
        match self.state {
            PlayerState::Playing => {
                self.state = PlayerState::Paused;
                Some(ControlCommand::Pause)
            },
            PlayerState::Paused => {
                self.state = PlayerState::Playing;
                Some(ControlCommand::Play)
            },
            PlayerState::Stopped | PlayerState::EndOfFile => {
                self.restart();
                Some(ControlCommand::Play)
            },
            _ => None,
        }
    }

    /// Stops playback from any state: clears the seek override and zeroes the
    /// elapsed time. The caller tears the decode threads down and resets the
    /// streamers.
    pub fn stop(&mut self)
        requires
            old(self)@.wf(),
        ensures
            final(self)@.wf(),
            final(self)@ == stopped(old(self)@),
    {
        self.state = PlayerState::Stopped;
        self.elapsed_ms = 0;
        self.override_ms = None;
    }

    /// Switches looping on or off.
    pub fn toggle_looping(&mut self)
        requires
            old(self)@.wf(),
        ensures
            final(self)@.wf(),
            final(self)@ == (PlayerView { looping: !old(self)@.looping, ..old(self)@ }),
    {
        self.looping = !self.looping;
    }
    /// Begins a seek to the fraction `ppm / PPM_WHOLE` of the duration, from
    /// Playing, Paused, Stopped or EndOfFile: records the state to resume into
    /// (Playing if playing, else Paused), shows the target as elapsed time and
    /// returns it. The caller then runs the seek and reports its end through
    /// `seek_finished`. In any other state it changes nothing.
    pub fn seek(&mut self, ppm: u32) -> (target: Option<i64>)
        requires
            old(self)@.wf(),
            ppm <= PPM_WHOLE,
        ensures
            final(self)@.wf(),
            match old(self)@.state {
                PlayerState::Playing | PlayerState::Paused | PlayerState::Stopped
                | PlayerState::EndOfFile => {
                    &&& target == Some(seek_target(ppm as int, old(self)@.duration as int) as i64)
                    &&& final(self)@ == (PlayerView {
                        state: PlayerState::SeekingInProgress,
                        resume_to: if old(self)@.state == PlayerState::Playing {
                            PlayerState::Playing
                        } else {
                            PlayerState::Paused
                        },
                        override_ms: Some(seek_target(ppm as int, old(self)@.duration as int)),
                        ..old(self)@
                    })
                },
                _ => target is None && final(self)@ == old(self)@,
            },
    {
        match self.state {
            PlayerState::Playing | PlayerState::Paused | PlayerState::Stopped
            | PlayerState::EndOfFile => {
                let t: u64 = seek_target_ms(ppm, self.duration_ms);
                self.resume_to = match self.state {
                    PlayerState::Playing => PlayerState::Playing,
                    _ => PlayerState::Paused,
                };
                self.state = PlayerState::SeekingInProgress;
                self.override_ms = Some(t as i64);
                Some(t as i64)
            },
            _ => None,
        }
    }

    /// Records the end of a seek under way and the elapsed time it reached.
    /// In any other state it changes nothing.
    pub fn seek_finished(&mut self, elapsed_ms: i64) -> (done: bool)
        requires
            old(self)@.wf(),
        ensures
            final(self)@.wf(),
            done == (old(self)@.state == PlayerState::SeekingInProgress),
            done ==> final(self)@ == (PlayerView {
                state: PlayerState::SeekingFinished,
                elapsed: elapsed_ms as int,
                ..old(self)@
            }),
            !done ==> final(self)@ == old(self)@,
    {
        match self.state {
            PlayerState::SeekingInProgress => {
                self.state = PlayerState::SeekingFinished;
                self.elapsed_ms = elapsed_ms;
                true
            },
            _ => false,
        }
    }

    /// The primary stream ran out while playing: the state becomes EndOfFile.
    /// In any other state it changes nothing.
    pub fn end_of_stream(&mut self) -> (ended: bool)
        requires
            old(self)@.wf(),
        ensures
            final(self)@.wf(),
            ended == (old(self)@.state == PlayerState::Playing),
            ended ==> final(self)@ == (PlayerView { state: PlayerState::EndOfFile, ..old(self)@ }),
            !ended ==> final(self)@ == old(self)@,
    {
        match self.state {
            PlayerState::Playing => {
                self.state = PlayerState::EndOfFile;
                true
            },
            _ => false,
        }
    }

    /// Advances the primary stream's elapsed time to `ms`, read from a packet
    /// of playback pass `pass`. Only a later time of the current pass, while
    /// playing, is taken: elapsed time never goes back during playback.
    pub fn record_elapsed(&mut self, pass: u64, ms: i64) -> (taken: bool)
        requires
            old(self)@.wf(),
        ensures
            final(self)@.wf(),
            taken == (old(self)@.state == PlayerState::Playing && pass == old(self)@.pass && ms
                > old(self)@.elapsed),
            taken ==> final(self)@ == (PlayerView { elapsed: ms as int, ..old(self)@ }),
            !taken ==> final(self)@ == old(self)@,
    {
        match self.state {
            PlayerState::Playing => {
                if pass == self.pass && ms > self.elapsed_ms {
                    self.elapsed_ms = ms;
                    true
                } else {
                    false
                }
            },
            _ => false,
        }
    }

    /// The state resolution of one scheduler tick. A finished seek resumes
    /// the state it started from and drops the override; the end of the stream
    /// leads to Restarting when looping and to Stopped otherwise.
    pub fn tick(&mut self) -> (action: TickAction)
        requires
            old(self)@.wf(),
        ensures
            final(self)@.wf(),
            match old(self)@.state {
                PlayerState::SeekingFinished => action == TickAction::SeekResolved
                    && final(self)@ == (PlayerView {
                    state: old(self)@.resume_to,
                    override_ms: None,
                    ..old(self)@
                }),
                PlayerState::EndOfFile => if old(self)@.looping {
                    action == TickAction::ResetStreams && final(self)@ == (PlayerView {
                        state: PlayerState::Restarting,
                        ..old(self)@
                    })
                } else {
                    action == TickAction::Halt && final(self)@ == stopped(old(self)@)
                },
                _ => action == TickAction::Idle && final(self)@ == old(self)@,
            },
    {
        match self.state {
            PlayerState::SeekingFinished => {
                self.state = self.resume_to;
                self.override_ms = None;
                TickAction::SeekResolved
            },
            PlayerState::EndOfFile => {
                if self.looping {
                    self.state = PlayerState::Restarting;
                    TickAction::ResetStreams
                } else {
                    self.stop();
                    TickAction::Halt
                }
            },
            _ => TickAction::Idle,
        }
    }

    /// The streamers were reset after Restarting: playback goes on from time
    /// zero in a new pass. In any other state it changes nothing.
    pub fn restart_complete(&mut self) -> (restarted_now: bool)
        requires
            old(self)@.wf(),
        ensures
            final(self)@.wf(),
            restarted_now == (old(self)@.state == PlayerState::Restarting),
            restarted_now ==> final(self)@ == restarted(old(self)@),
            !restarted_now ==> final(self)@ == old(self)@,
    {
        match self.state {
            PlayerState::Restarting => {
                self.restart();
                true
            },
            _ => false,
        }
    }

    /// Whether a frame decoded in pass `pass` may be presented now.
    pub fn accepts_frame(&self, pass: u64) -> (ok: bool)
        ensures
            ok == frame_accepted(self@, pass),
    {
        match self.state {
            PlayerState::Playing => pass == self.pass,
            _ => false,
        }
    }

    /// Whether, at a scheduler tick, a streamer whose elapsed time is
    /// `streamer_ms` presents its next frame, of pass `pass`: the primary
    /// streamer presents while it is behind the playback clock `clock_ms`, a
    /// secondary one while it is behind the primary's elapsed time.
    pub fn should_present(&self, pass: u64, streamer_ms: i64, primary: bool, clock_ms: i64) -> (go: bool)
        requires
            self@.wf(),
        ensures
            go == (frame_accepted(self@, pass) && if primary {
                streamer_ms < clock_ms
            } else {
                streamer_ms < shown_elapsed(self@)
            }),
    {
        if !self.accepts_frame(pass) {
            false
        } else if primary {
            streamer_ms < clock_ms
        } else {
            streamer_ms < self.elapsed_ms()
        }
    }
}


/// Stopping twice leaves the same state as stopping once: Stopped, with no
/// elapsed time shown.
pub proof fn lemma_stop_idempotent(v: PlayerView)
    requires
        v.wf(),
    ensures
        stopped(stopped(v)) == stopped(v),
        stopped(v).wf(),
        stopped(v).state == PlayerState::Stopped,
        shown_elapsed(stopped(v)) == 0,
{
}

/// When looping, the end of the stream leads through Restarting back to
/// Playing from time zero, in a new pass: a frame decoded before the reset is
/// never presented after it, and nothing is presented while restarting.
pub proof fn lemma_loop_restart(v: PlayerView, stale_pass: u64)
    requires
        v.wf(),
        v.state == PlayerState::EndOfFile,
        v.looping,
        stale_pass == v.pass,
    ensures
        ({
            let r = PlayerView { state: PlayerState::Restarting, ..v };
            &&& r.wf()
            &&& forall|p: u64| !frame_accepted(r, p)
            &&& restarted(r).wf()
            &&& restarted(r).state == PlayerState::Playing
            &&& shown_elapsed(restarted(r)) == 0
            &&& !frame_accepted(restarted(r), stale_pass)
        }),
{
}

/// A seek begun from Playing, Paused, Stopped or EndOfFile shows its target
/// until it finishes, and the next tick resolves it into Playing when it began
/// while playing and into Paused otherwise, with the reached time shown and
/// the override cleared: it never stays in a seeking state.
pub proof fn lemma_seek_resolves(v: PlayerView, ppm: int, reached: int)
    requires
        v.wf(),
        v.state == PlayerState::Playing || v.state == PlayerState::Paused || v.state
            == PlayerState::Stopped || v.state == PlayerState::EndOfFile,
        0 <= ppm <= PPM_WHOLE,
        i64::MIN <= reached <= i64::MAX,
    ensures
        ({
            let target = seek_target(ppm, v.duration as int);
            let s = PlayerView {
                state: PlayerState::SeekingInProgress,
                resume_to: if v.state == PlayerState::Playing {
                    PlayerState::Playing
                } else {
                    PlayerState::Paused
                },
                override_ms: Some(target),
                ..v
            };
            let f = PlayerView { state: PlayerState::SeekingFinished, elapsed: reached, ..s };
            let t = PlayerView { state: f.resume_to, override_ms: None, ..f };
            &&& shown_elapsed(s) == target
            &&& t.wf()
            &&& (t.state == PlayerState::Playing <==> v.state == PlayerState::Playing)
            &&& (t.state == PlayerState::Paused <==> v.state != PlayerState::Playing)
            &&& shown_elapsed(t) == reached
        }),
{
}

} // verus!
