//! Queue entries built from the service's albums and playlists, and the
//! columns a row of a result table shows for a track or an album.
use vstd::prelude::*;

use std::collections::VecDeque;

use crate::catalog::{same_album, ApiAlbum, ApiPlaylist, ApiTrack};
use crate::client::AudioQuality;
use crate::cursive_ui::{clock_text, clock_time_text, lemma_clock_text_len};
use crate::secrets::{lemma_size_grows, utf8_size, utf8_width};
use crate::service::TrackStatus;
use crate::text::{concat, i64_text, signed_decimal};

verus! {

/// Where a track can be streamed from, as the service answers a request
/// for its stream.
#[derive(Debug, Clone, Default)]
pub struct TrackURL {
    pub track_id: i32,
    pub duration: i32,
    pub url: String,
    pub format_id: i32,
    pub mime_type: String,
    /// The sampling rate of the stream, in hertz.
    pub sampling_rate_hz: u32,
    pub bit_depth: i32,
}

/// A track as it stands in a play queue: the track, where it stands in
/// its list and how far it has been played.
#[derive(Debug, Clone, Default)]
pub struct TrackListTrack {
    pub track: ApiTrack,
    pub quality: Option<AudioQuality>,
    pub track_url: Option<TrackURL>,
    pub album: Option<ApiAlbum>,
    pub index: usize,
    pub total: usize,
    pub status: TrackStatus,
}

/// The text of each column.
pub open spec fn columns_view(v: Seq<String>) -> Seq<Seq<char>> {
    v.map_values(|s: String| s@)
}

/// The duration a track row shows: characters 3 to 7 of the clock text,
/// the last digit of the minutes and the seconds. A track of ten minutes
/// or more thus shows only the last digit of its minutes (725 seconds show
/// as "2:05"); the column is kept this narrow on purpose, and the player's
/// panel shows the whole minutes.
pub open spec fn row_duration(secs: nat) -> Seq<char> {
    clock_text(secs).subrange(3, 7)
}

/// Whether a track's duration can be made a clock time.
pub open spec fn duration_fits(t: ApiTrack) -> bool {
    0 <= t.duration <= 18_446_744_073
}

/// The columns of a track's row: its number, title, performer (empty
/// when there is none) and duration.
pub open spec fn track_columns(t: ApiTrack) -> Seq<Seq<char>> {
    seq![
        signed_decimal(t.track_number as int),
        t.title@,
        match t.performer {
            Some(p) => p.name@,
            None => Seq::empty(),
        },
        row_duration(t.duration as nat),
    ]
}

/// Whether the first `bytes` bytes of a text end between two characters.
pub open spec fn byte_cuttable(s: Seq<char>, bytes: nat) -> bool {
    exists|k: int| 0 <= k <= s.len() && utf8_size(s.take(k)) == bytes
}

/// The number of characters in the first `bytes` bytes of a text.
pub open spec fn byte_cut(s: Seq<char>, bytes: nat) -> int {
    choose|k: int| 0 <= k <= s.len() && utf8_size(s.take(k)) == bytes
}

proof fn lemma_byte_cut_unique(s: Seq<char>, bytes: nat, k: int)
    requires
        0 <= k <= s.len(),
        utf8_size(s.take(k)) == bytes,
    ensures
        byte_cut(s, bytes) == k,
{
    let c = byte_cut(s, bytes);
    assert(0 <= c <= s.len() && utf8_size(s.take(c)) == bytes);
    if c < k {
        lemma_size_grows(s, c, k);
    } else if k < c {
        lemma_size_grows(s, k, c);
    }
}

/// The columns of an album's row: the title with a mark for high
/// resolution ("*") and for explicit content ("e"), the artist, and the
/// first four bytes of the release date, the year.
pub open spec fn album_columns(a: ApiAlbum) -> Seq<Seq<char>> {
    let date = a.info.release_date_original@;
    seq![
        a.info.title@ + seq![' '] + (if a.info.hires_streamable { seq!['*'] } else { Seq::empty() })
            + (if a.info.parental_warning { seq!['e'] } else { Seq::empty() }),
        a.info.artist.name@,
        date.take(byte_cut(date, 4)),
    ]
}

/// The tracks of a list that can be streamed, in their order.
pub open spec fn streamable_tracks(ts: Seq<ApiTrack>) -> Seq<ApiTrack> {
    ts.filter(|t: ApiTrack| t.streamable)
}

/// Whether `e` is the queue entry an album makes of its track `t`: it
/// stands at the track's number among the album's tracks, carries the
/// album, and the album's first track is marked as playing.
pub open spec fn album_entry(a: ApiAlbum, quality: AudioQuality, t: ApiTrack, e: TrackListTrack) -> bool {
    &&& e.track == t
    &&& e.index == t.track_number as usize
    &&& e.total == a.info.tracks_count as usize
    &&& e.quality == Some(quality)
    &&& e.track_url is None
    &&& e.album matches Some(x) && same_album(x, a)
    &&& e.status == (if t.track_number == 1 { TrackStatus::Playing } else { TrackStatus::Unplayed })
}

/// Whether `e` is the queue entry a playlist makes of its `i`-th
/// streamable track `t`: it stands at `i` of the page's total, and the
/// first one is marked as playing.
pub open spec fn playlist_entry(
    total: i64,
    quality: Option<AudioQuality>,
    i: int,
    t: ApiTrack,
    e: TrackListTrack,
) -> bool {
    &&& e.track == t
    &&& e.index == i
    &&& e.total == total as usize
    &&& e.quality == quality
    &&& e.track_url is None
    &&& e.album is None
    &&& e.status == (if i == 0 { TrackStatus::Playing } else { TrackStatus::Unplayed })
}

proof fn lemma_streamable_push(s: Seq<ApiTrack>, t: ApiTrack)
    ensures
        streamable_tracks(s.push(t)) == (if t.streamable {
            streamable_tracks(s).push(t)
        } else {
            streamable_tracks(s)
        }),
{
    crate::queue::lemma_filter_push(s, t, |t: ApiTrack| t.streamable);
}

/// The place, in characters, where the first `bytes` bytes of `s` end, if
/// they end between two characters.
fn byte_prefix_len(s: &str, bytes: usize) -> (r: Option<usize>)
    requires
        bytes <= usize::MAX - 4,
    ensures
        match r {
            Some(k) => k <= s@.len() && utf8_size(s@.take(k as int)) == bytes,
            None => !byte_cuttable(s@, bytes as nat),
        },
{
    if bytes == 0 {
        assert(s@.take(0) =~= Seq::<char>::empty());
        return Some(0);
    }
    let n = vstd::string::StrSliceExecFns::unicode_len(s);
    let mut i: usize = 0;
    let mut total: usize = 0;
    assert(s@.take(0) =~= Seq::<char>::empty());
    while i < n
        invariant
            n == s@.len(),
            i <= n,
            0 < bytes <= usize::MAX - 4,
            total == utf8_size(s@.take(i as int)),
            total < bytes,
            forall|k: int| 0 <= k <= i ==> utf8_size(#[trigger] s@.take(k)) < bytes,
        decreases n - i,
    {
        let c = vstd::string::StrSliceExecFns::get_char(s, i);
        let code = c as u32;
        let w: usize = if code < 0x80 {
            1
        } else if code < 0x800 {
            2
        } else if code < 0x10000 {
            3
        } else {
            4
        };
        proof {
            assert(s@.take(i + 1).drop_last() =~= s@.take(i as int));
            assert(s@.take(i + 1).last() == c);
            assert(w == utf8_width(c));
        }
        total = total + w;
        i = i + 1;
        if total == bytes {
            return Some(i);
        }
        if total > bytes {
            proof {
                assert forall|k: int| 0 <= k <= s@.len() implies utf8_size(#[trigger] s@.take(k)) != bytes by {
                    if k > i {
                        lemma_size_grows(s@, i as int, k);
                    }
                }
            }
            return None;
        }
    }
    None
}

impl TrackListTrack {
    /// A queue entry for `track`: at `index` (0 when none is given) of
    /// `total` (1 when none is given), not played yet, with no stream
    /// address.
    pub fn new(
        track: ApiTrack,
        index: Option<usize>,
        total: Option<usize>,
        quality: Option<AudioQuality>,
        album: Option<ApiAlbum>,
    ) -> (r: Self)
        ensures
            r.track == track,
            r.index == (match index {
                Some(i) => i,
                None => 0,
            }),
            r.total == (match total {
                Some(t) => t,
                None => 1,
            }),
            r.quality == quality,
            r.track_url is None,
            r.album == album,
            r.status == TrackStatus::Unplayed,
    {
        let index = match index {
            Some(i) => i,
            None => 0,
        };
        let total = match total {
            Some(t) => t,
            None => 1,
        };
        TrackListTrack { index, total, track, quality, track_url: None, album, status: TrackStatus::Unplayed }
    }

    /// The columns of the entry's row: those of its track.
    pub fn columns(&self) -> (r: Vec<String>)
        requires
            duration_fits(self.track),
        ensures
            columns_view(r@) == track_columns(self.track),
    {
        self.track.columns()
    }

    /// Attaches the address the track streams from.
    pub fn set_track_url(&mut self, track_url: TrackURL)
        ensures
            final(self).track_url == Some(track_url),
            final(self).track == old(self).track,
            final(self).quality == old(self).quality,
            final(self).album == old(self).album,
            final(self).index == old(self).index,
            final(self).total == old(self).total,
            final(self).status == old(self).status,
    {
        self.track_url = Some(track_url);
    }
}

impl ApiTrack {
    /// The columns of the track's row in a result table: its number,
    /// title, performer and duration.
    pub fn columns(&self) -> (r: Vec<String>)
        requires
            duration_fits(*self),
        ensures
            columns_view(r@) == track_columns(*self),
    {
        let clock = clock_time_text(self.duration as u64);
        proof {
            lemma_clock_text_len(self.duration as nat);
        }
        let duration = vstd::string::StrSliceExecFns::substring_char(clock.as_str(), 3, 7).to_string();
        let performer = match &self.performer {
            Some(p) => p.name.clone(),
            None => String::new(),
        };
        let r = vec![i64_text(self.track_number), self.title.clone(), performer, duration];
        assert(columns_view(r@) =~= track_columns(*self));
        r
    }
}

impl ApiAlbum {
    /// The album's streamable tracks as queue entries, in the album's
    /// order: each at its track number of the album's track count, the
    /// first track marked as playing; `None` when the album came without
    /// its tracks.
    pub fn to_tracklist(&self, quality: AudioQuality) -> (r: Option<VecDeque<TrackListTrack>>)
        ensures
            self.tracks is None ==> r is None,
            self.tracks matches Some(ts) ==> r matches Some(q) && q@.len() == streamable_tracks(ts@).len()
                && forall|i: int| 0 <= i < q@.len()
                    ==> album_entry(*self, quality, streamable_tracks(ts@)[i], #[trigger] q@[i]),
    {
        match &self.tracks {
            None => None,
            Some(ts) => {
                let mut out: VecDeque<TrackListTrack> = VecDeque::new();
                let mut i: usize = 0;
                assert(ts@.take(0) =~= Seq::<ApiTrack>::empty());
                while i < ts.len()
                    invariant
                        self.tracks == Some(*ts),
                        i <= ts@.len(),
                        out@.len() == streamable_tracks(ts@.take(i as int)).len(),
                        forall|j: int| 0 <= j < out@.len()
                            ==> album_entry(*self, quality, streamable_tracks(ts@.take(i as int))[j], #[trigger] out@[j]),
                    decreases ts@.len() - i,
                {
                    let t = &ts[i];
                    proof {
                        assert(ts@.take(i + 1) =~= ts@.take(i as int).push(ts@[i as int]));
                        lemma_streamable_push(ts@.take(i as int), ts@[i as int]);
                    }
                    if t.streamable {
                        let mut entry = TrackListTrack::new(
                            t.duplicate(),
                            Some(t.track_number as usize),
                            Some(self.info.tracks_count as usize),
                            Some(quality),
                            Some(self.duplicate()),
                        );
                        if t.track_number == 1 {
                            entry.status = TrackStatus::Playing;
                        }
                        out.push_back(entry);
                    }
                    i = i + 1;
                }
                assert(ts@.take(ts@.len() as int) =~= ts@);
                Some(out)
            },
        }
    }

    /// The columns of the album's row in a result table: title with its
    /// marks, artist, and year.
    pub fn columns(&self) -> (r: Vec<String>)
        requires
            byte_cuttable(self.info.release_date_original@, 4),
        ensures
            columns_view(r@) == album_columns(*self),
    {
        let hires_icon = if self.info.hires_streamable { "*" } else { "" };
        let parental_icon = if self.info.parental_warning { "e" } else { "" };
        proof {
            reveal_strlit("*");
            reveal_strlit("e");
            reveal_strlit("");
            reveal_strlit(" ");
        }
        let title = concat(concat(concat(self.info.title.as_str(), " ").as_str(), hires_icon).as_str(), parental_icon);
        let date = self.info.release_date_original.as_str();
        let year = match byte_prefix_len(date, 4) {
            Some(k) => {
                proof {
                    lemma_byte_cut_unique(date@, 4, k as int);
                }
                let y = vstd::string::StrSliceExecFns::substring_char(date, 0, k).to_string();
                assert(y@ =~= date@.take(byte_cut(date@, 4)));
                y
            },
            None => String::new(),
        };
        assert(title@ =~= album_columns(*self)[0]);
        let r = vec![title, self.info.artist.name.clone(), year];
        assert(columns_view(r@) =~= album_columns(*self));
        r
    }
}

impl ApiPlaylist {
    /// The playlist's streamable tracks as queue entries, numbered from 0
    /// in the playlist's order, each of the total its page of tracks
    /// reports, the first marked as playing; `None` when the playlist came
    /// without its tracks. The playlist is left as it was.
    pub fn to_tracklist(&mut self, quality: Option<AudioQuality>) -> (r: Option<VecDeque<TrackListTrack>>)
        ensures
            *final(self) == *old(self),
            old(self).tracks is None ==> r is None,
            old(self).tracks matches Some(ts) ==> r matches Some(q) && q@.len() == streamable_tracks(ts@).len()
                && forall|i: int| 0 <= i < q@.len()
                    ==> playlist_entry(old(self).tracks_total, quality, i, streamable_tracks(ts@)[i], #[trigger] q@[i]),
    {
        match &self.tracks {
            None => None,
            Some(ts) => {
                let mut out: VecDeque<TrackListTrack> = VecDeque::new();
                let mut i: usize = 0;
                assert(ts@.take(0) =~= Seq::<ApiTrack>::empty());
                while i < ts.len()
                    invariant
                        *self == *old(self),
                        old(self).tracks == Some(*ts),
                        i <= ts@.len(),
                        out@.len() == streamable_tracks(ts@.take(i as int)).len(),
                        out@.len() <= i,
                        forall|j: int| 0 <= j < out@.len()
                            ==> playlist_entry(self.tracks_total, quality, j, streamable_tracks(ts@.take(i as int))[j], #[trigger] out@[j]),
                    decreases ts@.len() - i,
                {
                    let t = &ts[i];
                    proof {
                        assert(ts@.take(i + 1) =~= ts@.take(i as int).push(ts@[i as int]));
                        lemma_streamable_push(ts@.take(i as int), ts@[i as int]);
                    }
                    if t.streamable {
                        let position = out.len();
                        let mut entry = TrackListTrack::new(
                            t.duplicate(),
                            Some(position),
                            Some(self.tracks_total as usize),
                            quality,
                            None,
                        );
                        if position == 0 {
                            entry.status = TrackStatus::Playing;
                        }
                        out.push_back(entry);
                    }
                    i = i + 1;
                }
                assert(ts@.take(ts@.len() as int) =~= ts@);
                Some(out)
            },
        }
    }

    /// Puts the playlist's tracks in the opposite order.
    pub fn reverse(&mut self)
        ensures
            old(self).tracks is None ==> final(self).tracks is None,
            old(self).tracks matches Some(ts) ==> final(self).tracks matches Some(v) && v@ == ts@.reverse(),
            final(self).owner == old(self).owner,
            final(self).id == old(self).id,
            final(self).name == old(self).name,
            final(self).duration == old(self).duration,
            final(self).tracks_count == old(self).tracks_count,
            final(self).image_rectangle == old(self).image_rectangle,
            final(self).images300 == old(self).images300,
            final(self).tracks_total == old(self).tracks_total,
    {
        if let Some(ts) = self.tracks.take() {
            let mut out: Vec<ApiTrack> = Vec::new();
            let mut rest = ts;
            let ghost original = rest@;
            while rest.len() > 0
                invariant
                    original.len() == rest@.len() + out@.len(),
                    rest@ == original.take(rest@.len() as int),
                    out@ == original.reverse().take(out@.len() as int),
                decreases rest@.len(),
            {
                let t = rest.pop().unwrap();
                proof {
                    assert(original.reverse().take(out@.len() as int + 1) =~= original.reverse().take(
                        out@.len() as int,
                    ).push(t));
                    assert(rest@ =~= original.take(rest@.len() as int));
                }
                out.push(t);
            }
            assert(out@ =~= original.reverse());
            self.tracks = Some(out);
        }
    }

    /// Gives the playlist its tracks.
    pub fn set_tracks(&mut self, tracks: Vec<ApiTrack>)
        ensures
            final(self).tracks == Some(tracks),
            final(self).owner == old(self).owner,
            final(self).id == old(self).id,
            final(self).name == old(self).name,
            final(self).duration == old(self).duration,
            final(self).tracks_count == old(self).tracks_count,
            final(self).image_rectangle == old(self).image_rectangle,
            final(self).images300 == old(self).images300,
            final(self).tracks_total == old(self).tracks_total,
    {
        self.tracks = Some(tracks);
    }
}

} // verus!
