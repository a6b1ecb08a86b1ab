use avplay::clock::TimeBase;
use avplay::streamer::{
    route_packet, DecodeOutcome, FramePull, PullStep, Route, SeekAction, SeekEvent, SeekPhase,
    SeekRun, StreamClock,
};

// The decoder answers `Incomplete` three times, then yields a frame: the loop
// reads exactly three more packets and delivers the one frame.
#[test]
fn pull_reads_one_packet_per_incomplete() {
    let answers = [
        DecodeOutcome::Incomplete,
        DecodeOutcome::Incomplete,
        DecodeOutcome::Incomplete,
        DecodeOutcome::Frame,
    ];
    let mut pull = FramePull::new();
    let mut steps = Vec::new();
    for a in answers {
        steps.push(pull.on_decode(a));
    }
    assert_eq!(pull.packets(), 3);
    assert!(pull.finished());
    assert_eq!(
        steps,
        vec![PullStep::ReadPacket, PullStep::ReadPacket, PullStep::ReadPacket, PullStep::Deliver]
    );
    assert_eq!(steps.iter().filter(|s| **s == PullStep::Deliver).count(), 1);
}

#[test]
fn pull_ends_on_eof_and_errors() {
    let mut pull = FramePull::new();
    assert_eq!(pull.on_decode(DecodeOutcome::Eof), PullStep::EndOfStream);
    assert!(pull.finished());
    assert_eq!(pull.on_decode(DecodeOutcome::Incomplete), PullStep::Fail);
    assert_eq!(pull.packets(), 0);
    let mut other = FramePull::new();
    assert_eq!(other.on_decode(DecodeOutcome::Incomplete), PullStep::ReadPacket);
    assert_eq!(other.on_decode(DecodeOutcome::Failed), PullStep::Fail);
    assert_eq!(other.packets(), 1);
}

#[test]
fn routing_by_stream_index() {
    assert_eq!(route_packet(0, Some(0), Some(1)), Route::Video);
    assert_eq!(route_packet(1, Some(0), Some(1)), Route::Audio);
    assert_eq!(route_packet(2, Some(0), Some(1)), Route::Discard);
    assert_eq!(route_packet(1, None, Some(1)), Route::Audio);
    assert_eq!(route_packet(0, None, None), Route::Discard);
    assert_eq!(route_packet(3, Some(3), Some(3)), Route::Video);
}

#[test]
fn clock_follows_packet_timestamps() {
    let mut c = StreamClock::new(1, TimeBase { num: 1, den: 90000 }, false);
    assert_eq!(c.elapsed_ms(), 0);
    assert!(c.on_packet(1, Some(180_000)));
    assert_eq!(c.elapsed_ms(), 2000);
    assert!(c.on_packet(1, None));
    assert_eq!(c.elapsed_ms(), 2000);
    assert!(!c.on_packet(0, Some(900_000)));
    assert_eq!(c.elapsed_ms(), 2000);
    assert!(c.on_packet(1, Some(i64::MAX)));
    assert_eq!(c.elapsed_ms(), i64::MAX / 90);
    c.reset();
    assert_eq!(c.elapsed_ms(), 0);
    assert_eq!(c.index(), 1);
    assert!(!c.is_primary());
}

#[test]
fn clock_skips_timestamps_out_of_range() {
    let mut c = StreamClock::new(0, TimeBase { num: 1000, den: 1 }, true);
    assert!(c.on_packet(0, Some(7)));
    assert_eq!(c.elapsed_ms(), 7_000_000);
    assert!(c.on_packet(0, Some(i64::MAX)));
    assert_eq!(c.elapsed_ms(), 7_000_000);
}

#[test]
fn seek_within_tolerance_does_nothing() {
    let (run, a) = SeekRun::begin(5_000, 4_960, true);
    assert_eq!(a, SeekAction::AlreadyThere);
    assert_eq!(run.phase(), SeekPhase::Done);
    let (_, b) = SeekRun::begin(5_000, 5_050, false);
    assert_eq!(b, SeekAction::AlreadyThere);
    let (_, c) = SeekRun::begin(5_000, 5_051, false);
    assert_eq!(c, SeekAction::SeekInput(5_000_000));
}

#[test]
fn seek_backward_drops_until_time_stops_falling() {
    let (mut run, a) = SeekRun::begin(3_000, 8_000, false);
    assert_eq!(a, SeekAction::SeekInput(3_000_000));
    assert_eq!(run.phase(), SeekPhase::Backward);
    // Frames still queued from before the seek, then the keyframe at 2,000 ms.
    assert_eq!(run.step(SeekEvent::Decoded(7_960)), SeekAction::DropFrame);
    assert_eq!(run.step(SeekEvent::Decoded(2_000)), SeekAction::DropFrame);
    assert_eq!(run.phase(), SeekPhase::Backward);
    let mut t = 2_000;
    let mut last = SeekAction::DropFrame;
    while last == SeekAction::DropFrame {
        t += 40;
        last = run.step(SeekEvent::Decoded(t));
    }
    assert_eq!(last, SeekAction::Finish(3_000));
    assert_eq!(run.reached_ms(), 3_000);
    assert_eq!(run.phase(), SeekPhase::Done);
    assert_eq!(run.step(SeekEvent::Decoded(9_999)), SeekAction::Finish(3_000));
}

#[test]
fn seek_stops_at_end_of_stream() {
    let (mut run, _) = SeekRun::begin(9_990, 1_000, true);
    assert_eq!(run.step(SeekEvent::Decoded(9_000)), SeekAction::DropFrame);
    assert_eq!(run.step(SeekEvent::Eof), SeekAction::Finish(9_000));
    assert_eq!(run.phase(), SeekPhase::Done);
}

#[test]
fn primary_seek_previews_once() {
    let (mut run, _) = SeekRun::begin(1_000, 0, true);
    assert_eq!(run.step(SeekEvent::Decoded(1_000)), SeekAction::Preview);
    assert_eq!(run.phase(), SeekPhase::Preview);
    assert_eq!(run.step(SeekEvent::Decoded(1_040)), SeekAction::Finish(1_000));
    assert_eq!(run.step(SeekEvent::Decoded(1_080)), SeekAction::Finish(1_000));
}
