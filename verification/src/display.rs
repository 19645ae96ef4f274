//! What the terminal interface shows: status symbols, counters, the
//! entries of result lists and of the current track list, and what picking
//! an entry leads to.
use vstd::prelude::*;

use crate::queue::{refs_view, tracks_with_status, TrackListValue};
use crate::service::{Album, Track, TrackStatus, TrackView};
use crate::state::PlaybackState;
use crate::text::{concat, decimal, i32_text, str_eq, u32_text};

verus! {

/// The value a result entry carries when it cannot be streamed.
pub const UNSTREAMABLE: &'static str = "UNSTREAMABLE";

/// The symbol shown for a playback state, if any: play, pause, or stop for
/// ready and stopped pipelines.
pub open spec fn status_symbol_of(state: PlaybackState) -> Option<Seq<char>> {
    match state {
        PlaybackState::Playing => Some(seq![' ', '\u{23f5}']),
        PlaybackState::Paused => Some(seq![' ', '\u{23f8}']),
        PlaybackState::Ready => Some(seq![' ', '\u{23f9}']),
        PlaybackState::Null => Some(seq![' ', '\u{23f9}']),
        PlaybackState::VoidPending => None,
    }
}

/// The symbol shown for a playback state, if any.
pub fn status_symbol(state: PlaybackState) -> (r: Option<String>)
    ensures
        crate::service::opt_str(r) == status_symbol_of(state),
{
    proof {
        reveal_strlit(" \u{23f5}");
        reveal_strlit(" \u{23f8}");
        reveal_strlit(" \u{23f9}");
    }
    match state {
        PlaybackState::Playing => Some(" \u{23f5}".to_string()),
        PlaybackState::Paused => Some(" \u{23f8}".to_string()),
        PlaybackState::Ready => Some(" \u{23f9}".to_string()),
        PlaybackState::Null => Some(" \u{23f9}".to_string()),
        PlaybackState::VoidPending => None,
    }
}

/// Whether a new status empties the progress bar: a ready or stopped pipeline does.
pub fn status_clears_progress(state: PlaybackState) -> (r: bool)
    ensures
        r == (state == PlaybackState::Ready || state == PlaybackState::Null),
{
    state == PlaybackState::Ready || state == PlaybackState::Null
}

/// The text shown for a buffering notice: the percentage while buffering,
/// else the symbol of the state the player aims for.
pub fn buffering_text(is_buffering: bool, target: PlaybackState, percent: u32) -> (r: Option<String>)
    ensures
        crate::service::opt_str(r) == (if is_buffering {
            Some(decimal(percent as nat) + seq!['%'])
        } else {
            status_symbol_of(target)
        }),
{
    if is_buffering {
        proof {
            reveal_strlit("%");
        }
        Some(concat(u32_text(percent).as_str(), "%"))
    } else {
        status_symbol(target)
    }
}

/// `n` in decimal, padded with zeros on the left to `width` characters.
pub open spec fn zero_padded(n: nat, width: nat) -> Seq<char> {
    if decimal(n).len() >= width {
        decimal(n)
    } else {
        Seq::new((width - decimal(n).len()) as nat, |i: int| '0') + decimal(n)
    }
}

/// `n` in decimal, padded with zeros on the left to `width` characters
/// (`format!("{:0width$}")`).
pub fn pad_number(n: u32, width: usize) -> (r: String)
    ensures
        r@ == zero_padded(n as nat, width as nat),
{
    let digits = u32_text(n);
    let len = vstd::string::StrSliceExecFns::unicode_len(digits.as_str());
    if len >= width {
        return digits;
    }
    let mut zeros = String::new();
    let mut k: usize = 0;
    proof {
        reveal_strlit("0");
    }
    while k < width - len
        invariant
            len == decimal(n as nat).len(),
            len < width,
            k <= width - len,
            zeros@ == Seq::new(k as nat, |i: int| '0'),
        decreases width - len - k,
    {
        zeros = concat(zeros.as_str(), "0");
        proof {
            reveal_strlit("0");
            assert(zeros@ =~= Seq::new((k + 1) as nat, |i: int| '0'));
        }
        k = k + 1;
    }
    concat(zeros.as_str(), digits.as_str())
}

/// The value a search result album carries: its id, or `UNSTREAMABLE`.
pub fn album_entry_id(album: &Album) -> (r: String)
    ensures
        r@ == (if album.available { album.id@ } else { UNSTREAMABLE@ }),
{
    if album.available {
        album.id.clone()
    } else {
        UNSTREAMABLE.to_string()
    }
}

/// The value a search result track carries: its id as text, or `UNSTREAMABLE`.
pub fn track_entry_id(track: &Track) -> (r: String)
    ensures
        r@ == (if track.available { decimal(track.id as nat) } else { UNSTREAMABLE@ }),
{
    if track.available {
        u32_text(track.id)
    } else {
        UNSTREAMABLE.to_string()
    }
}

/// Whether picking a result entry with `value` plays something: not for an
/// unstreamable one.
pub fn entry_playable(value: &str) -> (r: bool)
    ensures
        r == (value@ != UNSTREAMABLE@),
{
    !str_eq(value, UNSTREAMABLE)
}

/// The value an entry of an opened playlist carries: the track's id, or -1
/// when it cannot be streamed; and its album's id (or `UNSTREAMABLE`) when
/// it has an album.
pub fn playlist_entry_value(track: &Track) -> (r: (i32, Option<String>))
    ensures
        r.0 == (if track.available { track.id as i32 } else { -1i32 }),
        crate::service::opt_str(r.1) == (match track.album {
            Some(a) => Some(if a.available { a.id@ } else { UNSTREAMABLE@ }),
            None => None,
        }),
{
    let track_id: i32 = if track.available {
        track.id as i32
    } else {
        -1
    };
    let album = match &track.album {
        Some(a) => {
            if a.available {
                Some(a.id.clone())
            } else {
                Some(UNSTREAMABLE.to_string())
            }
        },
        None => None,
    };
    (track_id, album)
}

/// The label of an opened playlist's entry at `index`: the index padded to
/// two digits, a space, then the track's own label.
pub fn playlist_entry_label(index: u32, label: &str) -> (r: String)
    ensures
        r@ == zero_padded(index as nat, 2) + seq![' '] + label@,
{
    proof {
        reveal_strlit(" ");
    }
    let head = concat(pad_number(index, 2).as_str(), " ");
    concat(head.as_str(), label)
}

/// What picking an entry of an opened playlist leads to.
#[derive(Debug, Clone, PartialEq, Eq)]
pub enum EntryChoice {
    /// Nothing: the track cannot be streamed.
    Nothing,
    /// Play the track.
    PlayTrack { track: i32 },
    /// Ask whether to play the track or its album.
    AskTrackOrAlbum { track: i32, album: String },
}

/// What picking an opened playlist's entry (track id, album id) leads to:
/// nothing for an unstreamable track, the track itself when it has no
/// album, else a question.
pub fn entry_choice(item: (i32, Option<String>)) -> (r: EntryChoice)
    ensures
        item.0 == -1 ==> r == EntryChoice::Nothing,
        item.0 != -1 && item.1 is None ==> r == (EntryChoice::PlayTrack { track: item.0 }),
        item.0 != -1 && item.1 is Some ==> (r matches EntryChoice::AskTrackOrAlbum { track, album } && track
            == item.0 && album@ == item.1.unwrap()@),
{
    if item.0 == -1 {
        return EntryChoice::Nothing;
    }
    match item.1 {
        None => EntryChoice::PlayTrack { track: item.0 },
        Some(album) => EntryChoice::AskTrackOrAlbum { track: item.0, album },
    }
}

/// The entries of the current track list: the unplayed tracks, then the
/// played ones (shown dimmed), each by its place.
pub open spec fn list_entries_of(q: Map<u32, TrackView>) -> Seq<(u32, bool)> {
    tracks_with_status(q, TrackStatus::Unplayed).map_values(|t: TrackView| (t.position, false))
        + tracks_with_status(q, TrackStatus::Played).map_values(|t: TrackView| (t.position, true))
}

fn append_positions(out: &mut Vec<(u32, bool)>, tracks: &Vec<&Track>, dim: bool)
    ensures
        final(out)@ == old(out)@ + refs_view(tracks@).map_values(|t: TrackView| (t.position, dim)),
{
    let ghost start = out@;
    let mut i: usize = 0;
    while i < tracks.len()
        invariant
            i <= tracks@.len(),
            out@ == start + refs_view(tracks@).take(i as int).map_values(|t: TrackView| (t.position, dim)),
        decreases tracks@.len() - i,
    {
        let ghost before = out@;
        out.push((tracks[i].position, dim));
        proof {
            assert(refs_view(tracks@).take(i + 1) =~= refs_view(tracks@).take(i as int).push(tracks@[i as int]@));
            assert(out@ =~= start + refs_view(tracks@).take(i + 1).map_values(|t: TrackView| (t.position, dim)));
        }
        i = i + 1;
    }
    proof {
        assert(refs_view(tracks@).take(i as int) =~= refs_view(tracks@));
    }
}

/// The entries of the current track list, as (place, dimmed) pairs.
pub fn current_list_entries(list: &TrackListValue) -> (r: Vec<(u32, bool)>)
    ensures
        r@ == list_entries_of(list@.queue),
{
    let unplayed = list.unplayed_tracks();
    let played = list.played_tracks();
    let mut out: Vec<(u32, bool)> = Vec::new();
    append_positions(&mut out, &unplayed, false);
    append_positions(&mut out, &played, true);
    proof {
        assert(out@ =~= list_entries_of(list@.queue));
    }
    out
}

} // verus!
