//! The decisions the player makes around the audio pipeline: where a jump
//! lands, when "previous" restarts the track, which way a skip goes, how
//! play/pause toggles, how the pipeline is wound down, and how buffering,
//! stream caps and state-change messages are answered.
use vstd::prelude::*;

use crate::state::{PlaybackState, SkipDirection};
use crate::text::{has_prefix, starts_with};

verus! {

/// Nanoseconds in a second.
pub const SECOND_NANOS: u64 = 1_000_000_000;

/// How far a jump moves, in nanoseconds (ten seconds).
pub const JUMP_NANOS: u64 = 10_000_000_000;

/// The largest valid clock time, in nanoseconds.
pub const MAX_CLOCK_NANOS: u64 = 0xffff_ffff_ffff_fffe;

/// Whole seconds of a clock time.
pub open spec fn whole_seconds(ns: u64) -> int {
    ns as int / SECOND_NANOS as int
}

/// Where a forward jump from `position` lands in a track of `duration`:
/// ten seconds on, or the end of the track if that is not before it.
pub open spec fn forward_target(position: u64, duration: u64) -> int {
    if position + JUMP_NANOS < duration {
        position + JUMP_NANOS
    } else {
        duration as int
    }
}

/// Where a backward jump from `position` lands: ten seconds back, or the
/// start when fewer than ten whole seconds have played.
pub open spec fn backward_target(position: u64) -> int {
    if whole_seconds(position) < 10 {
        0
    } else {
        position - JUMP_NANOS
    }
}

/// Where a forward jump lands (the jump itself is a seek the caller makes).
pub fn jump_forward_target(position: u64, duration: u64) -> (r: u64)
    requires
        position + JUMP_NANOS <= MAX_CLOCK_NANOS,
    ensures
        r == forward_target(position, duration),
{
    let next_position = position + JUMP_NANOS;
    if next_position < duration {
        next_position
    } else {
        duration
    }
}

/// Where a backward jump lands.
pub fn jump_backward_target(position: u64) -> (r: u64)
    ensures
        r == backward_target(position),
{
    if position / SECOND_NANOS < 10 {
        0
    } else {
        position - JUMP_NANOS
    }
}

/// Whether a skip should instead seek back to the start of the current
/// track: a plain "previous" more than one second into the track.
pub open spec fn restarts_track(direction: SkipDirection, position: Option<u64>, num: Option<u32>) -> bool {
    &&& direction == SkipDirection::Backward
    &&& position matches Some(p) && p > SECOND_NANOS
    &&& num is None
}

/// Whether a skip should seek back to the start of the current track
/// rather than change tracks.
pub fn skip_restarts_track(direction: SkipDirection, position: Option<u64>, num: Option<u32>) -> (r: bool)
    ensures
        r == restarts_track(direction, position, num),
{
    match direction {
        SkipDirection::Backward => match position {
            Some(p) => p > SECOND_NANOS && num.is_none(),
            None => false,
        },
        SkipDirection::Forward => false,
    }
}

/// The direction of a skip to place `index` from the current track's place:
/// forward to a later place, backward otherwise. Without a current track
/// there is no skip.
pub fn skip_to_direction(index: u32, current: Option<u32>) -> (r: Option<SkipDirection>)
    ensures
        match current {
            Some(c) => r == Some(if index > c { SkipDirection::Forward } else { SkipDirection::Backward }),
            None => r is None,
        },
{
    match current {
        Some(c) => {
            if index > c {
                Some(SkipDirection::Forward)
            } else {
                Some(SkipDirection::Backward)
            }
        },
        None => None,
    }
}

/// The state play/pause moves the pipeline to from `current`.
pub open spec fn toggled_state(current: PlaybackState) -> Option<PlaybackState> {
    match current {
        PlaybackState::Playing => Some(PlaybackState::Paused),
        PlaybackState::Paused => Some(PlaybackState::Playing),
        PlaybackState::Ready => Some(PlaybackState::Playing),
        _ => None,
    }
}

/// The state play/pause moves the pipeline to (and records as the target):
/// a playing pipeline pauses, a paused or ready one plays, any other is left.
pub fn play_pause_target(current: PlaybackState) -> (r: Option<PlaybackState>)
    ensures
        r == toggled_state(current),
{
    match current {
        PlaybackState::Playing => Some(PlaybackState::Paused),
        PlaybackState::Paused => Some(PlaybackState::Playing),
        PlaybackState::Ready => Some(PlaybackState::Playing),
        _ => None,
    }
}

/// The states a pipeline in `current` is stepped through when the player
/// quits: playing pauses, paused readies, ready stops, each in turn.
pub open spec fn quit_plan(current: PlaybackState) -> Seq<PlaybackState> {
    match current {
        PlaybackState::Playing => seq![PlaybackState::Paused, PlaybackState::Ready, PlaybackState::Null],
        PlaybackState::Paused => seq![PlaybackState::Ready, PlaybackState::Null],
        PlaybackState::Ready => seq![PlaybackState::Null],
        _ => Seq::empty(),
    }
}

/// The states the pipeline is stepped through, in order, when the player quits.
pub fn quit_steps(current: PlaybackState) -> (r: Vec<PlaybackState>)
    ensures
        r@ == quit_plan(current),
{
    let mut steps: Vec<PlaybackState> = Vec::new();
    let mut state = current;
    if state == PlaybackState::Playing {
        steps.push(PlaybackState::Paused);
        state = PlaybackState::Paused;
    }
    if state == PlaybackState::Paused {
        steps.push(PlaybackState::Ready);
        state = PlaybackState::Ready;
    }
    if state == PlaybackState::Ready {
        steps.push(PlaybackState::Null);
    }
    assert(steps@ =~= quit_plan(current));
    steps
}

/// Whether a state-change message is taken as the player's new status: it
/// differs from the recorded status and is the state the player aims for.
pub fn accepts_state_change(status: PlaybackState, target: PlaybackState, current: PlaybackState) -> (r: bool)
    ensures
        r == (status != current && target == current),
{
    status != current && target == current
}

/// What the pipeline is asked to do on a buffering message.
#[derive(Debug, Clone, Copy, PartialEq, Eq, Structural)]
pub enum BufferAction {
    /// Pause while the buffer fills.
    Pause,
    /// Go back to the state the player aims for.
    Resume,
    /// Leave the pipeline as it is.
    Keep,
}

/// A buffering notice: whether the player is still buffering, and how full
/// the buffer is, in percent.
#[derive(Debug, Clone, Copy, PartialEq, Eq, Structural)]
pub struct BufferNotice {
    pub is_buffering: bool,
    pub percent: u32,
}

/// The answer to a buffering message.
#[derive(Debug, Clone, Copy, PartialEq, Eq, Structural)]
pub struct BufferingStep {
    pub action: BufferAction,
    /// Whether the player counts as buffering afterwards.
    pub buffering: bool,
    /// The notice to broadcast, if any.
    pub notice: Option<BufferNotice>,
}

/// The answer to a buffering message at `percent`, for a live stream or not,
/// with the pipeline paused or not and the player buffering or not.
pub open spec fn buffering_answer(percent: i32, live: bool, paused: bool, buffering: bool) -> BufferingStep {
    if live {
        BufferingStep { action: BufferAction::Keep, buffering, notice: None }
    } else {
        let (action, now) = if percent < 100 && !paused && !buffering {
            (BufferAction::Pause, true)
        } else if percent > 99 && buffering && paused {
            (BufferAction::Resume, false)
        } else {
            (BufferAction::Keep, buffering)
        };
        BufferingStep {
            action,
            buffering: now,
            notice: if percent % 10 == 0 {
                Some(BufferNotice { is_buffering: percent < 99, percent: percent as u32 })
            } else {
                None
            },
        }
    }
}

/// Answers a buffering message: a live stream is left alone; otherwise the
/// pipeline pauses when the buffer runs low and resumes once it is full,
/// and every tenth percent is broadcast.
pub fn buffering_step(percent: i32, live: bool, paused: bool, buffering: bool) -> (r: BufferingStep)
    ensures
        r == buffering_answer(percent, live, paused, buffering),
{
    if live {
        return BufferingStep { action: BufferAction::Keep, buffering, notice: None };
    }
    let (action, now) = if percent < 100 && !paused && !buffering {
        (BufferAction::Pause, true)
    } else if percent > 99 && buffering && paused {
        (BufferAction::Resume, false)
    } else {
        (BufferAction::Keep, buffering)
    };
    let wide: i64 = percent as i64;
    let magnitude: u64 = if wide < 0 {
        (-wide) as u64
    } else {
        wide as u64
    };
    let notice = if magnitude % 10 == 0 {
        proof {
            assert(percent % 10 == 0) by (nonlinear_arith)
                requires
                    magnitude as int == if percent < 0 { -percent } else { percent as int },
                    magnitude % 10 == 0,
            ;
        }
        Some(BufferNotice { is_buffering: percent < 99, percent: percent as u32 })
    } else {
        proof {
            assert(percent % 10 != 0) by (nonlinear_arith)
                requires
                    magnitude as int == if percent < 0 { -percent } else { percent as int },
                    magnitude % 10 != 0,
            ;
        }
        None
    };
    BufferingStep { action, buffering: now, notice }
}

/// The bit depth a sample format names: 24 for "S24…", 16 for "S16…", else 0.
pub open spec fn format_bits(format: Seq<char>) -> u32 {
    if has_prefix(format, "S24"@) {
        24
    } else if has_prefix(format, "S16"@) {
        16
    } else {
        0
    }
}

/// The bit depth a sample format names.
pub fn caps_bit_depth(format: &str) -> (r: u32)
    ensures
        r == format_bits(format@),
{
    if starts_with(format, "S24") {
        24
    } else if starts_with(format, "S16") {
        16
    } else {
        0
    }
}

/// The answer to new stream caps: the (bit depth, sampling rate) kept
/// afterwards, and the pair to announce if it changed.
pub open spec fn caps_answer(current: (u32, u32), rate: u32, format: Seq<char>) -> ((u32, u32), Option<(u32, u32)>) {
    let bits = format_bits(format);
    if rate == 0 || bits == 0 {
        (current, None)
    } else if current.0 != bits || current.1 != rate {
        ((bits, rate), Some((bits, rate)))
    } else {
        ((bits, rate), None)
    }
}

/// Answers new stream caps, given the (bit depth, sampling rate) known so far:
/// caps without a rate or a known format change nothing; others are kept,
/// and announced when they differ from what was known.
pub fn caps_step(current: (u32, u32), rate: u32, format: &str) -> (r: ((u32, u32), Option<(u32, u32)>))
    ensures
        r == caps_answer(current, rate, format@),
{
    let bits = caps_bit_depth(format);
    if rate == 0 || bits == 0 {
        return (current, None);
    }
    if current.0 != bits || current.1 != rate {
        ((bits, rate), Some((bits, rate)))
    } else {
        ((bits, rate), None)
    }
}

/// Whether the clock loop announces `position` after `last`: it does when
/// the whole second has changed.
pub fn announces_position(position: u64, last: u64) -> (r: bool)
    ensures
        r == (whole_seconds(position) != whole_seconds(last)),
{
    position / SECOND_NANOS != last / SECOND_NANOS
}

/// What the end of a stream leads to.
#[derive(Debug, Clone, Copy, PartialEq, Eq, Structural)]
pub enum EndOfStream {
    /// The player quits.
    Quit,
    /// The player aims for paused and skips back to the first track.
    Rewind,
}

/// What the end of a stream leads to: quitting when asked to quit once done,
/// else pausing on the first track.
pub fn end_of_stream(quit_when_done: bool) -> (r: EndOfStream)
    ensures
        r == (if quit_when_done { EndOfStream::Quit } else { EndOfStream::Rewind }),
{
    if quit_when_done {
        EndOfStream::Quit
    } else {
        EndOfStream::Rewind
    }
}

/// The position announced once an asynchronous state change is done: the
/// running time of the message, else the pipeline's position, else zero.
pub fn settled_position(running_time: Option<u64>, position: Option<u64>) -> (r: u64)
    ensures
        r == (match running_time {
            Some(t) => t,
            None => match position {
                Some(p) => p,
                None => 0,
            },
        }),
{
    match running_time {
        Some(t) => t,
        None => match position {
            Some(p) => p,
            None => 0,
        },
    }
}

/// The place a skip goes to: a place asked for, if the list has that many
/// tracks; else, from the current track, the next place (if any is left)
/// going forward, or the previous one (the start from the first two)
/// going backward; nowhere without a current track.
pub open spec fn skip_destination(index: Option<u32>, current: Option<u32>, direction: SkipDirection, total: u32) -> Option<u32> {
    match index {
        Some(i) => if i <= total { Some(i) } else { None },
        None => match current {
            Some(c) => match direction {
                SkipDirection::Forward => if c < total { Some((c + 1) as u32) } else { None },
                SkipDirection::Backward => if c > 1 { Some((c - 1) as u32) } else { Some(0u32) },
            },
            None => None,
        },
    }
}

/// The place a skip goes to.
pub fn skip_target_index(index: Option<u32>, current: Option<u32>, direction: SkipDirection, total: u32) -> (r: Option<u32>)
    ensures
        r == skip_destination(index, current, direction, total),
{
    match index {
        Some(i) => {
            if i <= total {
                Some(i)
            } else {
                None
            }
        },
        None => match current {
            Some(c) => match direction {
                SkipDirection::Forward => {
                    if c < total {
                        Some(c + 1)
                    } else {
                        None
                    }
                },
                SkipDirection::Backward => {
                    if c > 1 {
                        Some(c - 1)
                    } else {
                        Some(0)
                    }
                },
            },
            None => None,
        },
    }
}

/// Why a saved session could not be resumed.
#[derive(Debug, Clone, Copy, PartialEq, Eq, Structural)]
pub enum ResumeError {
    /// There is no current track, or it has no stream address.
    Resume,
}

/// How to resume a loaded session: the state to aim for (playing when
/// asked to play at once, else paused) and the address of the current
/// track to load; an error without a current track or address.
pub fn resume_step(autoplay: bool, current_url: Option<Option<String>>) -> (r: Result<(PlaybackState, String), ResumeError>)
    ensures
        match current_url {
            Some(Some(u)) => r matches Ok(ok) && ok.0 == (if autoplay { PlaybackState::Playing } else { PlaybackState::Paused })
                && ok.1@ == u@,
            _ => r == Err::<(PlaybackState, String), ResumeError>(ResumeError::Resume),
        },
{
    let target = if autoplay {
        PlaybackState::Playing
    } else {
        PlaybackState::Paused
    };
    match current_url {
        Some(Some(u)) => Ok((target, u)),
        _ => Err(ResumeError::Resume),
    }
}

} // verus!
