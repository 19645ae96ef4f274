use hifi_rs::playback::{
    accepts_state_change, announces_position, buffering_step, caps_bit_depth, caps_step, end_of_stream,
    jump_backward_target, jump_forward_target, play_pause_target, quit_steps, settled_position,
    skip_restarts_track, skip_target_index, skip_to_direction, BufferAction, EndOfStream,
};
use hifi_rs::playback::{resume_step, ResumeError};
use hifi_rs::state::{PlaybackState, SkipDirection};

const S: u64 = 1_000_000_000;

#[test]
fn forward_jump_is_ten_seconds_or_the_end() {
    assert_eq!(jump_forward_target(5 * S, 100 * S), 15 * S);
    assert_eq!(jump_forward_target(95 * S, 100 * S), 100 * S);
    assert_eq!(jump_forward_target(90 * S, 100 * S), 100 * S);
    assert!(jump_forward_target(99 * S, 100 * S) <= 100 * S);
}

#[test]
fn backward_jump_is_ten_seconds_or_the_start() {
    assert_eq!(jump_backward_target(9 * S + 999), 0);
    assert_eq!(jump_backward_target(10 * S), 0);
    assert_eq!(jump_backward_target(25 * S), 15 * S);
    assert!(jump_backward_target(12 * S) <= 12 * S);
}

#[test]
fn previous_restarts_a_track_more_than_a_second_in() {
    assert!(skip_restarts_track(SkipDirection::Backward, Some(2 * S), None));
    assert!(skip_restarts_track(SkipDirection::Backward, Some(S + 5), None));
    assert!(skip_restarts_track(SkipDirection::Backward, Some(3 * S / 2), None));
    assert!(!skip_restarts_track(SkipDirection::Backward, Some(S), None));
    assert!(!skip_restarts_track(SkipDirection::Backward, Some(S / 2), None));
    assert!(!skip_restarts_track(SkipDirection::Backward, Some(5 * S), Some(3)));
    assert!(!skip_restarts_track(SkipDirection::Forward, Some(5 * S), None));
    assert!(!skip_restarts_track(SkipDirection::Backward, None, None));
}

#[test]
fn skip_to_goes_forward_only_to_later_places() {
    assert_eq!(skip_to_direction(5, Some(2)), Some(SkipDirection::Forward));
    assert_eq!(skip_to_direction(2, Some(2)), Some(SkipDirection::Backward));
    assert_eq!(skip_to_direction(1, Some(2)), Some(SkipDirection::Backward));
    assert_eq!(skip_to_direction(1, None), None);
}

#[test]
fn skip_target_index_cases() {
    assert_eq!(skip_target_index(Some(3), Some(1), SkipDirection::Forward, 5), Some(3));
    assert_eq!(skip_target_index(Some(6), Some(1), SkipDirection::Forward, 5), None);
    assert_eq!(skip_target_index(None, Some(4), SkipDirection::Forward, 5), Some(5));
    assert_eq!(skip_target_index(None, Some(5), SkipDirection::Forward, 5), None);
    assert_eq!(skip_target_index(None, Some(4), SkipDirection::Backward, 5), Some(3));
    assert_eq!(skip_target_index(None, Some(1), SkipDirection::Backward, 5), Some(0));
    assert_eq!(skip_target_index(None, None, SkipDirection::Backward, 5), None);
}

#[test]
fn play_pause_toggles() {
    assert_eq!(play_pause_target(PlaybackState::Playing), Some(PlaybackState::Paused));
    assert_eq!(play_pause_target(PlaybackState::Paused), Some(PlaybackState::Playing));
    assert_eq!(play_pause_target(PlaybackState::Ready), Some(PlaybackState::Playing));
    assert_eq!(play_pause_target(PlaybackState::Null), None);
}

#[test]
fn quitting_steps_down_to_stopped() {
    assert_eq!(
        quit_steps(PlaybackState::Playing),
        vec![PlaybackState::Paused, PlaybackState::Ready, PlaybackState::Null]
    );
    assert_eq!(quit_steps(PlaybackState::Paused), vec![PlaybackState::Ready, PlaybackState::Null]);
    assert_eq!(quit_steps(PlaybackState::Ready), vec![PlaybackState::Null]);
    assert!(quit_steps(PlaybackState::Null).is_empty());
    assert!(quit_steps(PlaybackState::VoidPending).is_empty());
}

#[test]
fn state_change_taken_only_when_new_and_aimed_for() {
    assert!(accepts_state_change(PlaybackState::Paused, PlaybackState::Playing, PlaybackState::Playing));
    assert!(!accepts_state_change(PlaybackState::Playing, PlaybackState::Playing, PlaybackState::Playing));
    assert!(!accepts_state_change(PlaybackState::Paused, PlaybackState::Playing, PlaybackState::Ready));
}

#[test]
fn buffering_pauses_and_resumes() {
    let step = buffering_step(40, false, false, false);
    assert_eq!(step.action, BufferAction::Pause);
    assert!(step.buffering);
    let notice = step.notice.unwrap();
    assert!(notice.is_buffering);
    assert_eq!(notice.percent, 40);

    let step = buffering_step(100, false, true, true);
    assert_eq!(step.action, BufferAction::Resume);
    assert!(!step.buffering);
    assert!(!step.notice.unwrap().is_buffering);

    let step = buffering_step(45, false, true, true);
    assert_eq!(step.action, BufferAction::Keep);
    assert!(step.notice.is_none());

    let live = buffering_step(10, true, false, false);
    assert_eq!(live.action, BufferAction::Keep);
    assert!(live.notice.is_none());

    let odd = buffering_step(-20, false, true, false);
    assert_eq!(odd.action, BufferAction::Keep);
    assert_eq!(odd.notice.unwrap().percent, (-20i32) as u32);
}

#[test]
fn caps_name_bit_depths() {
    assert_eq!(caps_bit_depth("S24LE"), 24);
    assert_eq!(caps_bit_depth("S16LE"), 16);
    assert_eq!(caps_bit_depth("F32LE"), 0);
    assert_eq!(caps_bit_depth("S2"), 0);
}

#[test]
fn caps_are_announced_when_they_change() {
    assert_eq!(caps_step((16, 44_100), 96_000, "S24LE"), ((24, 96_000), Some((24, 96_000))));
    assert_eq!(caps_step((24, 96_000), 96_000, "S24LE"), ((24, 96_000), None));
    assert_eq!(caps_step((16, 44_100), 0, "S24LE"), ((16, 44_100), None));
    assert_eq!(caps_step((16, 44_100), 48_000, "F32"), ((16, 44_100), None));
}

#[test]
fn position_is_announced_on_a_new_second() {
    assert!(announces_position(2 * S, S + 5));
    assert!(!announces_position(S + 900, S + 5));
}

#[test]
fn end_of_stream_and_settled_position() {
    assert_eq!(end_of_stream(true), EndOfStream::Quit);
    assert_eq!(end_of_stream(false), EndOfStream::Rewind);
    assert_eq!(settled_position(Some(5), Some(7)), 5);
    assert_eq!(settled_position(None, Some(7)), 7);
    assert_eq!(settled_position(None, None), 0);
}

#[test]
fn resuming_needs_an_address() {
    assert_eq!(resume_step(true, Some(Some("u".to_string()))), Ok((PlaybackState::Playing, "u".to_string())));
    assert_eq!(resume_step(false, Some(Some("u".to_string()))), Ok((PlaybackState::Paused, "u".to_string())));
    assert_eq!(resume_step(true, Some(None)), Err(ResumeError::Resume));
    assert_eq!(resume_step(true, None), Err(ResumeError::Resume));
}
