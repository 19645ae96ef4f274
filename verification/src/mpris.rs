//! The desktop media-player interface: what the player announces about
//! itself, its playback status and controls, the metadata of a track, and
//! the track list it offers.
use vstd::prelude::*;

use crate::queue::{refs_view, tracks_with_status, TrackListValue};
use crate::service::{Album, AlbumView, Track, TrackStatus, TrackView};
use crate::state::{status_label, PlaybackState};
use crate::text::{concat, decimal, parse_u32, parsed_u32, trim_text, trimmed, u32_text};

verus! {

/// The media-player root interface.
#[derive(Debug, Clone, Copy)]
pub struct Mpris {}

impl Mpris {
    /// The player can be asked to quit.
    pub fn can_quit(&self) -> (r: bool)
        ensures
            r,
    {
        true
    }

    /// The player has no full-screen mode.
    pub fn can_set_fullscreen(&self) -> (r: bool)
        ensures
            !r,
    {
        false
    }

    /// The player cannot be raised.
    pub fn can_raise(&self) -> (r: bool)
        ensures
            !r,
    {
        false
    }

    /// The media types the player plays.
    pub fn supported_mime_types(&self) -> (r: Vec<&'static str>)
        ensures
            r@.len() == 3,
            r@[0]@ == "audio/mpeg"@,
            r@[1]@ == "audio/x-flac"@,
            r@[2]@ == "audio/flac"@,
    {
        let mut v: Vec<&'static str> = Vec::new();
        v.push("audio/mpeg");
        v.push("audio/x-flac");
        v.push("audio/flac");
        v
    }

    /// The address schemes the player opens.
    pub fn supported_uri_schemes(&self) -> (r: Vec<&'static str>)
        ensures
            r@.len() == 1,
            r@[0]@ == "http"@,
    {
        let mut v: Vec<&'static str> = Vec::new();
        v.push("http");
        v
    }

    /// The player's name.
    pub fn identity(&self) -> (r: &'static str)
        ensures
            r@ == "hifi-rs"@,
    {
        "hifi-rs"
    }

    /// The player offers a track list.
    pub fn has_track_list(&self) -> (r: bool)
        ensures
            r,
    {
        true
    }
}

/// The media-player player interface's state.
#[derive(Debug, Clone, Copy)]
pub struct MprisPlayer {
    pub status: PlaybackState,
    /// The position last reported, in nanoseconds.
    pub position: u64,
    /// When the track would have started, in milliseconds since the epoch.
    pub position_ts: i64,
    pub total_tracks: u32,
    pub can_play: bool,
    pub can_pause: bool,
    pub can_stop: bool,
    pub can_next: bool,
    pub can_previous: bool,
}

/// Whole seconds of a span of milliseconds, rounded toward zero.
pub open spec fn whole_seconds_of(ms: int) -> int {
    if ms >= 0 {
        ms / 1000
    } else {
        -((-ms) / 1000)
    }
}

impl MprisPlayer {
    /// A stopped player, at `now` (milliseconds since the epoch), allowing every control.
    pub fn new(now: i64) -> (r: MprisPlayer)
        ensures
            r.status == PlaybackState::Null,
            r.position == 0,
            r.position_ts == now,
            r.total_tracks == 0,
            r.can_play && r.can_pause && r.can_stop && r.can_next && r.can_previous,
    {
        MprisPlayer {
            status: PlaybackState::Null,
            total_tracks: 0,
            position: 0,
            position_ts: now,
            can_play: true,
            can_pause: true,
            can_stop: true,
            can_next: true,
            can_previous: true,
        }
    }

    /// The playback status: "Playing", "Paused", "Stopped" or "Ready".
    pub fn playback_status(&self) -> (r: &'static str)
        ensures
            r@ == status_label(self.status),
    {
        crate::state::StatusValue(self.status).as_str()
    }

    /// The player does not loop.
    pub fn loop_status(&self) -> (r: &'static str)
        ensures
            r@ == "None"@,
    {
        "None"
    }

    /// The player does not shuffle.
    pub fn shuffle(&self) -> (r: bool)
        ensures
            !r,
    {
        false
    }

    /// The position last reported, in microseconds.
    pub fn position(&self) -> (r: i64)
        ensures
            r == self.position / 1000,
    {
        (self.position / 1000) as i64
    }

    /// Whether "next" is offered.
    pub fn can_go_next(&self) -> (r: bool)
        ensures
            r == self.can_next,
    {
        self.can_next
    }

    /// Whether "previous" is offered.
    pub fn can_go_previous(&self) -> (r: bool)
        ensures
            r == self.can_previous,
    {
        self.can_previous
    }

    /// Whether "play" is offered.
    pub fn can_play(&self) -> (r: bool)
        ensures
            r == self.can_play,
    {
        self.can_play
    }

    /// Whether "pause" is offered.
    pub fn can_pause(&self) -> (r: bool)
        ensures
            r == self.can_pause,
    {
        self.can_pause
    }

    /// Whether "stop" is offered.
    pub fn can_stop(&self) -> (r: bool)
        ensures
            r == self.can_stop,
    {
        self.can_stop
    }

    /// Seeking is always offered.
    pub fn can_seek(&self) -> (r: bool)
        ensures
            r,
    {
        true
    }

    /// The player can always be controlled.
    pub fn can_control(&self) -> (r: bool)
        ensures
            r,
    {
        true
    }

    /// Takes a new pipeline status at `now`: stopped offers play and pause,
    /// paused offers play and stop, any other state offers all three; playing
    /// restarts the clock.
    pub fn status_changed(&mut self, status: PlaybackState, now: i64)
        ensures
            final(self).status == status,
            final(self).can_play,
            final(self).can_pause == (status != PlaybackState::Paused),
            final(self).can_stop == (status != PlaybackState::Null),
            final(self).position_ts == (if status == PlaybackState::Playing { now } else { old(self).position_ts }),
            final(self).position == old(self).position,
            final(self).total_tracks == old(self).total_tracks,
            final(self).can_next == old(self).can_next,
            final(self).can_previous == old(self).can_previous,
    {
        self.status = status;
        match status {
            PlaybackState::Null => {
                self.can_play = true;
                self.can_pause = true;
                self.can_stop = false;
            },
            PlaybackState::Paused => {
                self.can_play = true;
                self.can_pause = false;
                self.can_stop = true;
            },
            PlaybackState::Playing => {
                self.position_ts = now;
                self.can_play = true;
                self.can_pause = true;
                self.can_stop = true;
            },
            _ => {
                self.can_play = true;
                self.can_pause = true;
                self.can_stop = true;
            },
        }
    }

    /// Takes a position report (`position`, nanoseconds) at `now`
    /// (milliseconds since the epoch): when the whole seconds since the clock
    /// started differ from the position's, the clock is moved to match and
    /// the position, in microseconds, is returned to announce as a seek.
    pub fn position_changed(&mut self, position: u64, now: i64) -> (r: Option<i64>)
        requires
            i64::MIN <= now - old(self).position_ts <= i64::MAX,
            i64::MIN <= now - (position / 1_000_000_000) * 1000,
        ensures
            whole_seconds_of(now - old(self).position_ts) != position / 1_000_000_000 ==> {
                &&& r == Some((position / 1000) as i64)
                &&& final(self).position_ts == now - (position / 1_000_000_000) * 1000
            },
            whole_seconds_of(now - old(self).position_ts) == position / 1_000_000_000 ==> {
                &&& r is None
                &&& final(self).position_ts == old(self).position_ts
            },
            final(self).status == old(self).status,
            final(self).position == old(self).position,
            final(self).total_tracks == old(self).total_tracks,
            final(self).can_play == old(self).can_play,
            final(self).can_pause == old(self).can_pause,
            final(self).can_stop == old(self).can_stop,
            final(self).can_next == old(self).can_next,
            final(self).can_previous == old(self).can_previous,
    {
        let diff: i64 = now - self.position_ts;
        let elapsed: i64 = if diff >= 0 {
            diff / 1000
        } else {
            let magnitude: u64 = (0 - (diff as i128)) as u64;
            0 - ((magnitude / 1000) as i64)
        };
        let secs: u64 = position / 1_000_000_000;
        if elapsed as i128 != secs as i128 {
            self.position_ts = now - (secs as i64) * 1000;
            Some((position / 1000) as i64)
        } else {
            None
        }
    }

    /// Takes a new track list: an album's track count is kept, "previous"
    /// is offered unless the current track is at place 0, and "next" unless
    /// it is at place count - 1 of a known count. Places are taken as the
    /// track list numbers them; in a list numbered from 1 the first track
    /// still offers "previous" (which then restarts it), and this is kept
    /// on purpose.
    pub fn track_list_changed(&mut self, album_total: Option<u32>, current_position: Option<u32>)
        ensures
            final(self).total_tracks == (match album_total {
                Some(t) => t,
                None => old(self).total_tracks,
            }),
            match current_position {
                Some(p) => {
                    &&& final(self).can_previous == (p != 0)
                    &&& final(self).can_next == !(final(self).total_tracks != 0 && p == final(self).total_tracks - 1)
                },
                None => {
                    &&& final(self).can_previous == old(self).can_previous
                    &&& final(self).can_next == old(self).can_next
                },
            },
            final(self).status == old(self).status,
            final(self).position == old(self).position,
            final(self).position_ts == old(self).position_ts,
            final(self).can_play == old(self).can_play,
            final(self).can_pause == old(self).can_pause,
            final(self).can_stop == old(self).can_stop,
    {
        if let Some(total) = album_total {
            self.total_tracks = total;
        }
        if let Some(p) = current_position {
            self.can_previous = p != 0;
            self.can_next = !(self.total_tracks != 0 && p == self.total_tracks - 1);
        }
    }
}

/// The metadata the interface announces for a track.
#[derive(Debug, Clone)]
pub struct TrackMeta {
    pub track_id: String,
    pub title: String,
    pub track_number: i32,
    /// The track's length, in microseconds.
    pub length: i64,
    pub artist: Option<String>,
    pub art_url: Option<String>,
    pub album: Option<String>,
    pub album_artist: Option<String>,
}

/// The optional text of an optional string.
pub open spec fn text_of(s: Option<String>) -> Option<Seq<char>> {
    crate::service::opt_str(s)
}

/// The metadata of `track`, from the list's `album` if there is one: the
/// album's artist stands in for the track's own.
pub open spec fn meta_of(track: TrackView, album: Option<AlbumView>) -> (Seq<char>, Seq<char>, i32, i64, Option<Seq<char>>, Option<Seq<char>>, Option<Seq<char>>, Option<Seq<char>>) {
    (
        "/org/hifirs/Player/TrackList/"@ + decimal(track.id as nat),
        trimmed(track.title),
        track.position as i32,
        (track.duration_seconds * 1_000_000) as i64,
        match album {
            Some(a) => Some(trimmed(a.artist.name)),
            None => match track.artist {
                Some(ar) => Some(trimmed(ar.name)),
                None => None,
            },
        },
        match album {
            Some(a) => Some(a.cover_art),
            None => None,
        },
        match album {
            Some(a) => Some(trimmed(a.title)),
            None => None,
        },
        match album {
            Some(a) => Some(trimmed(a.artist.name)),
            None => None,
        },
    )
}

/// The view of a track's metadata.
pub open spec fn meta_view(m: TrackMeta) -> (Seq<char>, Seq<char>, i32, i64, Option<Seq<char>>, Option<Seq<char>>, Option<Seq<char>>, Option<Seq<char>>) {
    (m.track_id@, m.title@, m.track_number, m.length, text_of(m.artist), text_of(m.art_url), text_of(m.album), text_of(m.album_artist))
}

/// The metadata of `track`, from the list's `album` if there is one.
pub fn track_meta(track: &Track, album: Option<&Album>) -> (r: TrackMeta)
    ensures
        meta_view(r) == meta_of(track@, match album {
            Some(a) => Some(a@),
            None => None,
        }),
{
    let track_id = concat("/org/hifirs/Player/TrackList/", u32_text(track.id).as_str());
    let title = trim_text(track.title.as_str());
    let length: i64 = (track.duration_seconds as u64 * 1_000_000) as i64;
    let mut artist = match &track.artist {
        Some(a) => Some(trim_text(a.name.as_str())),
        None => None,
    };
    let mut art_url: Option<String> = None;
    let mut album_title: Option<String> = None;
    let mut album_artist: Option<String> = None;
    if let Some(a) = album {
        art_url = Some(a.cover_art.clone());
        album_title = Some(trim_text(a.title.as_str()));
        album_artist = Some(trim_text(a.artist.name.as_str()));
        artist = Some(trim_text(a.artist.name.as_str()));
    }
    TrackMeta {
        track_id,
        title,
        track_number: track.position as i32,
        length,
        artist,
        art_url,
        album: album_title,
        album_artist,
    }
}

/// Whether the text of place `position` is among `requested`.
pub open spec fn requested_place(requested: Seq<String>, position: u32) -> bool {
    exists|j: int| 0 <= j < requested.len() && requested[j]@ == decimal(position as nat)
}

/// Whether `text` is one of the strings of `v`.
fn contains_text(v: &Vec<String>, text: &str) -> (r: bool)
    ensures
        r == exists|j: int| 0 <= j < v@.len() && v@[j]@ == text@,
{
    let mut i: usize = 0;
    while i < v.len()
        invariant
            i <= v@.len(),
            forall|j: int| 0 <= j < i ==> v@[j]@ != text@,
        decreases v@.len() - i,
    {
        if crate::text::str_eq(v[i].as_str(), text) {
            return true;
        }
        i = i + 1;
    }
    false
}

/// The media-player track-list interface.
#[derive(Debug, Clone, Copy)]
pub struct MprisTrackList {}

impl MprisTrackList {
    /// The places, as text, of the list's tracks not yet played, in key order.
    pub fn tracks(&self, list: &TrackListValue) -> (r: Vec<String>)
        ensures
            r@.map_values(|s: String| s@) == tracks_with_status(list@.queue, TrackStatus::Unplayed).map_values(
                |t: TrackView| decimal(t.position as nat),
            ),
    {
        let unplayed = list.unplayed_tracks();
        let ghost want = tracks_with_status(list@.queue, TrackStatus::Unplayed);
        let mut out: Vec<String> = Vec::new();
        let mut i: usize = 0;
        while i < unplayed.len()
            invariant
                i <= unplayed@.len(),
                refs_view(unplayed@) == want,
                out@.map_values(|s: String| s@) == want.take(i as int).map_values(
                    |t: TrackView| decimal(t.position as nat),
                ),
            decreases unplayed@.len() - i,
        {
            let text = u32_text(unplayed[i].position);
            let ghost before = out@;
            out.push(text);
            proof {
                assert(want[i as int] == unplayed@[i as int]@);
                assert(out@ == before.push(text));
                assert(out@.map_values(|s: String| s@) =~= before.map_values(|s: String| s@).push(text@));
                assert(want.take(i + 1) =~= want.take(i as int).push(want[i as int]));
                assert(out@.map_values(|s: String| s@) =~= want.take(i + 1).map_values(
                    |t: TrackView| decimal(t.position as nat),
                ));
            }
            i = i + 1;
        }
        proof {
            assert(want.take(i as int) =~= want);
        }
        out
    }

    /// The metadata of the list's tracks, in key order, whose places (as
    /// text) are among `requested`, each from the list's album if it has one.
    pub fn get_tracks_metadata(&self, list: &TrackListValue, requested: &Vec<String>) -> (r: Vec<TrackMeta>)
        ensures
            r@.map_values(|m: TrackMeta| meta_view(m)) == crate::ordered::ordered_values(list@.queue).filter(
                |t: TrackView| requested_place(requested@, t.position),
            ).map_values(|t: TrackView| meta_of(t, list@.album)),
    {
        let tracks = list.all_tracks();
        let album = list.get_album();
        let ghost all = crate::ordered::ordered_values(list@.queue);
        let ghost p = |t: TrackView| requested_place(requested@, t.position);
        let ghost al = list@.album;
        let mut out: Vec<TrackMeta> = Vec::new();
        let mut i: usize = 0;
        while i < tracks.len()
            invariant
                i <= tracks@.len(),
                refs_view(tracks@) == all,
                al == list@.album,
                match album {
                    Some(a) => al == Some(a@),
                    None => al is None,
                },
                p == (|t: TrackView| requested_place(requested@, t.position)),
                out@.map_values(|m: TrackMeta| meta_view(m)) == all.take(i as int).filter(p).map_values(
                    |t: TrackView| meta_of(t, al),
                ),
            decreases tracks@.len() - i,
        {
            let t = tracks[i];
            proof {
                assert(all[i as int] == t@);
                assert(all.take(i + 1) =~= all.take(i as int).push(t@));
                crate::queue::lemma_filter_push(all.take(i as int), t@, p);
            }
            let place = u32_text(t.position);
            if contains_text(requested, place.as_str()) {
                let m = track_meta(t, album);
                let ghost before = out@;
                out.push(m);
                proof {
                    assert(out@.map_values(|m: TrackMeta| meta_view(m)) =~= before.map_values(
                        |m: TrackMeta| meta_view(m),
                    ).push(meta_view(m)));
                    assert(all.take(i + 1).filter(p) == all.take(i as int).filter(p).push(t@));
                    assert(all.take(i + 1).filter(p).map_values(|t: TrackView| meta_of(t, al)) =~= all.take(
                        i as int,
                    ).filter(p).map_values(|t: TrackView| meta_of(t, al)).push(meta_of(t@, al)));
                }
            }
            i = i + 1;
        }
        proof {
            assert(all.take(i as int) =~= all);
        }
        out
    }

    /// The track list cannot be edited.
    pub fn can_edit_tracks(&self) -> (r: bool)
        ensures
            !r,
    {
        false
    }

    /// The place a "go to" request names, if it names one.
    pub fn go_to(&self, position: &str) -> (r: Option<u32>)
        ensures
            r == parsed_u32(position@),
    {
        parse_u32(position)
    }
}

} // verus!
