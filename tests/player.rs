use avplay::player::{seek_target_ms, ControlCommand, Player, PlayerState, TickAction};
use avplay::streamer::{SeekAction, SeekEvent, SeekPhase, SeekRun};

#[test]
fn new_player_is_stopped() {
    let p = Player::new(10_000, false);
    assert_eq!(p.state(), PlayerState::Stopped);
    assert_eq!(p.elapsed_ms(), 0);
    assert_eq!(p.duration_ms(), 10_000);
    assert!(!p.is_looping());
}

#[test]
fn start_pause_resume() {
    let mut p = Player::new(10_000, false);
    assert!(!p.pause());
    assert!(p.start());
    assert_eq!(p.state(), PlayerState::Playing);
    assert!(!p.start());
    assert!(!p.resume());
    assert!(p.pause());
    assert_eq!(p.state(), PlayerState::Paused);
    assert!(p.resume());
    assert_eq!(p.state(), PlayerState::Playing);
}

#[test]
fn toggle_sends_commands() {
    let mut p = Player::new(10_000, false);
    assert_eq!(p.toggle_pause_playing(), Some(ControlCommand::Play));
    assert_eq!(p.state(), PlayerState::Playing);
    assert_eq!(p.toggle_pause_playing(), Some(ControlCommand::Pause));
    assert_eq!(p.state(), PlayerState::Paused);
    assert_eq!(p.toggle_pause_playing(), Some(ControlCommand::Play));
    assert_eq!(p.state(), PlayerState::Playing);
    p.seek(0);
    assert_eq!(p.toggle_pause_playing(), None);
    assert_eq!(p.state(), PlayerState::SeekingInProgress);
}

#[test]
fn stop_twice_equals_stop_once() {
    let mut p = Player::new(10_000, true);
    p.start();
    assert!(p.record_elapsed(p.pass(), 1500));
    p.stop();
    let once = (p.state(), p.elapsed_ms(), p.pass(), p.is_looping());
    p.stop();
    let twice = (p.state(), p.elapsed_ms(), p.pass(), p.is_looping());
    assert_eq!(once, twice);
    assert_eq!(once.0, PlayerState::Stopped);
    assert_eq!(once.1, 0);
}

#[test]
fn stop_mid_seek_clears_override() {
    let mut p = Player::new(10_000, false);
    p.start();
    assert_eq!(p.seek(250_000), Some(2500));
    assert_eq!(p.elapsed_ms(), 2500);
    p.stop();
    assert_eq!(p.state(), PlayerState::Stopped);
    assert_eq!(p.elapsed_ms(), 0);
    assert!(!p.seek_finished(2500));
    assert_eq!(p.state(), PlayerState::Stopped);
}

#[test]
fn looping_restarts_from_zero() {
    let mut p = Player::new(10_000, true);
    p.start();
    let old_pass = p.pass();
    assert!(p.record_elapsed(old_pass, 9_980));
    assert!(p.end_of_stream());
    assert_eq!(p.state(), PlayerState::EndOfFile);
    assert_eq!(p.tick(), TickAction::ResetStreams);
    assert_eq!(p.state(), PlayerState::Restarting);
    assert!(!p.accepts_frame(old_pass));
    assert!(p.restart_complete());
    assert_eq!(p.state(), PlayerState::Playing);
    assert_eq!(p.elapsed_ms(), 0);
    assert_ne!(p.pass(), old_pass);
    assert!(!p.accepts_frame(old_pass));
    assert!(p.accepts_frame(p.pass()));
    assert!(!p.record_elapsed(old_pass, 9_990));
    assert_eq!(p.elapsed_ms(), 0);
}

#[test]
fn end_without_looping_stops() {
    let mut p = Player::new(10_000, false);
    p.start();
    p.record_elapsed(p.pass(), 9_990);
    assert!(p.end_of_stream());
    assert_eq!(p.tick(), TickAction::Halt);
    assert_eq!(p.state(), PlayerState::Stopped);
    assert_eq!(p.elapsed_ms(), 0);
}

#[test]
fn toggle_looping_flips() {
    let mut p = Player::new(10_000, false);
    p.toggle_looping();
    assert!(p.is_looping());
    p.toggle_looping();
    assert!(!p.is_looping());
}

#[test]
fn elapsed_only_advances_while_playing() {
    let mut p = Player::new(10_000, false);
    assert!(!p.record_elapsed(0, 100));
    p.start();
    let pass = p.pass();
    assert!(p.record_elapsed(pass, 100));
    assert!(!p.record_elapsed(pass, 90));
    assert_eq!(p.elapsed_ms(), 100);
    p.pause();
    assert!(!p.record_elapsed(pass, 200));
    assert_eq!(p.elapsed_ms(), 100);
}

#[test]
fn seek_targets() {
    assert_eq!(seek_target_ms(500_000, 10_000), 5_000);
    assert_eq!(seek_target_ms(0, 10_000), 0);
    assert_eq!(seek_target_ms(1_000_000, 10_000), 10_000);
    assert_eq!(seek_target_ms(333_333, 10_000), 3_333);
    assert_eq!(seek_target_ms(1_000_000, u64::MAX), u64::MAX);
}

#[test]
fn seek_from_paused_resumes_paused() {
    let mut p = Player::new(10_000, false);
    p.start();
    p.pause();
    assert_eq!(p.seek(100_000), Some(1000));
    assert_eq!(p.state(), PlayerState::SeekingInProgress);
    assert_eq!(p.seek(200_000), None);
    assert!(p.seek_finished(1010));
    assert_eq!(p.state(), PlayerState::SeekingFinished);
    assert_eq!(p.tick(), TickAction::SeekResolved);
    assert_eq!(p.state(), PlayerState::Paused);
    assert_eq!(p.elapsed_ms(), 1010);
}

#[test]
fn seek_from_stopped_resumes_paused() {
    let mut p = Player::new(10_000, false);
    assert_eq!(p.seek(500_000), Some(5000));
    assert!(p.seek_finished(5000));
    assert_eq!(p.tick(), TickAction::SeekResolved);
    assert_eq!(p.state(), PlayerState::Paused);
}

#[test]
fn presentation_gate() {
    let mut p = Player::new(10_000, false);
    assert!(!p.should_present(0, 0, true, 100));
    p.start();
    let pass = p.pass();
    p.record_elapsed(pass, 500);
    assert!(p.should_present(pass, 480, true, 500));
    assert!(!p.should_present(pass, 520, true, 500));
    assert!(p.should_present(pass, 499, false, 0));
    assert!(!p.should_present(pass, 500, false, 0));
    assert!(!p.should_present(pass.wrapping_add(1), 0, false, 0));
}

// A 10,000 ms video, a tick every 16 ms, a seek to the middle issued at
// 2,000 ms: the elapsed time settles at 5,000 ms within 50 ms, and exactly
// one preview frame is presented while seeking.
#[test]
fn seek_to_middle_while_playing() {
    let mut p = Player::new(10_000, false);
    p.start();
    let pass = p.pass();
    let mut clock: i64 = 0;
    while clock < 2_000 {
        clock += 16;
        p.record_elapsed(pass, clock);
    }
    assert_eq!(p.elapsed_ms(), 2_000);

    let target = p.seek(500_000).unwrap();
    assert_eq!(target, 5_000);
    assert_eq!(p.elapsed_ms(), 5_000);

    let (mut run, first) = SeekRun::begin(target, 2_000, true);
    assert_eq!(first, SeekAction::SeekInput(5_000_000));
    // The container lands on the keyframe at 4,000 ms; frames follow every 40 ms.
    let mut frame: i64 = 4_000;
    let mut previews = 0;
    let mut action = run.step(SeekEvent::Decoded(frame));
    loop {
        match action {
            SeekAction::DropFrame => {
                frame += 40;
                action = run.step(SeekEvent::Decoded(frame));
            },
            SeekAction::Preview => {
                previews += 1;
                assert_eq!(p.state(), PlayerState::SeekingInProgress);
                action = run.step(SeekEvent::Decoded(frame + 40));
            },
            SeekAction::Finish(reached) => {
                assert!(p.seek_finished(reached));
                break;
            },
            other => panic!("unexpected {:?}", other),
        }
    }
    assert_eq!(previews, 1);
    assert_eq!(run.phase(), SeekPhase::Done);
    let mut ticks = 0;
    while p.state() != PlayerState::Playing {
        p.tick();
        ticks += 1;
        assert!(ticks < 4);
    }
    let shown = p.elapsed_ms();
    assert!((shown - 5_000).abs() <= 50, "elapsed {}", shown);
}
