//! Turning the service's descriptions of tracks, albums, playlists and
//! search results into the player's own records.
use std::collections::BTreeMap;
use vstd::prelude::*;

use crate::catalog::{ApiAlbum, ApiAlbumInfo, ApiArtist, ApiPlaylist, ApiSearchResults, ApiTrack};
use crate::service::{
    tracks_view, Album, AlbumInfo, AlbumInfoView, AlbumView, Artist, ArtistView, Playlist, PlaylistView,
    SearchResults, Track, TrackStatus, TrackView,
};

verus! {

broadcast use vstd::std_specs::btree::group_btree_axioms;

/// The year of a date written "YYYY-MM-DD", or `None` if the text is no such date.
pub uninterp spec fn date_year_of(s: Seq<char>) -> Option<i32>;

/// The year of a date written "YYYY-MM-DD" (`chrono::NaiveDate::from_str`,
/// then `Datelike::year`); `None` when the text is no date. The contract
/// names the result; the date grammar is not written out here.
#[verifier::external_body]
fn date_year(s: &str) -> (r: Option<i32>)
    ensures
        r == date_year_of(s@),
{
    match <chrono::NaiveDate as std::str::FromStr>::from_str(s) {
        Ok(d) => Some(chrono::Datelike::year(&d)),
        Err(_) => None,
    }
}

/// The year and the day number (days since the first day of year 1) of a
/// date written "YYYY-MM-DD", or `None` if the text is no such date.
pub uninterp spec fn ymd_date_of(s: Seq<char>) -> Option<(i32, i32)>;

/// Reads a date with the format "%Y-%m-%d"
/// (`chrono::NaiveDate::parse_from_str`) and gives its year
/// (`Datelike::year`) and day number (`Datelike::num_days_from_ce`);
/// `None` when the text is no such date. Dates compare as their day
/// numbers do. The contract names the result; the calendar is not written
/// out here.
#[verifier::external_body]
pub(crate) fn ymd_date(s: &str) -> (r: Option<(i32, i32)>)
    ensures
        r == ymd_date_of(s@),
{
    match chrono::NaiveDate::parse_from_str(s, "%Y-%m-%d") {
        Ok(d) => Some((chrono::Datelike::year(&d), chrono::Datelike::num_days_from_ce(&d))),
        Err(_) => None,
    }
}

/// The day number of a date written "YYYY-MM-DD", or `None` if the text is
/// no such date.
pub open spec fn date_day_number_of(s: Seq<char>) -> Option<i32> {
    match ymd_date_of(s) {
        Some(d) => Some(d.1),
        None => None,
    }
}

/// The day number of a date written "YYYY-MM-DD"; `None` when the text is
/// no such date.
pub(crate) fn date_day_number(s: &str) -> (r: Option<i32>)
    ensures
        r == date_day_number_of(s@),
{
    match ymd_date(s) {
        Some(d) => Some(d.1),
        None => None,
    }
}

/// Whether a release date gives a year the player can keep: it is a date,
/// in a year that is not negative.
pub open spec fn year_ok(s: Seq<char>) -> bool {
    date_year_of(s) matches Some(y) && y >= 0
}

/// Whether an album's release date gives a year.
pub open spec fn info_dated(a: ApiAlbumInfo) -> bool {
    year_ok(a.release_date_original@)
}

/// Whether a track's album, if it has one, has a release date that gives a year.
pub open spec fn track_dated(t: ApiTrack) -> bool {
    t.album matches Some(a) ==> info_dated(a)
}

/// Whether every track's album has a release date that gives a year.
pub open spec fn tracks_dated(ts: Seq<ApiTrack>) -> bool {
    forall|i: int| 0 <= i < ts.len() ==> track_dated(#[trigger] ts[i])
}

/// The player's view of an artist.
pub open spec fn artist_of(a: ApiArtist) -> ArtistView {
    ArtistView { id: a.id as u32, name: a.name@ }
}

/// The player's view of an album, without tracks.
pub open spec fn album_info_of(a: ApiAlbumInfo) -> AlbumInfoView {
    AlbumInfoView {
        id: a.id@,
        title: a.title@,
        artist: artist_of(a.artist),
        release_year: date_year_of(a.release_date_original@).unwrap() as u32,
        hires_available: a.hires_streamable,
        explicit: a.parental_warning,
        total_tracks: a.tracks_count as u32,
        available: a.streamable,
        cover_art: a.image.large@,
    }
}

/// The player's view of a track: unplayed if it can be streamed, unplayable
/// otherwise; by its performer, or else its album's artist; its place is the
/// one given, else its number.
pub open spec fn track_of(t: ApiTrack) -> TrackView {
    TrackView {
        id: t.id as u32,
        number: t.track_number as u32,
        title: t.title@,
        album: match t.album {
            Some(a) => Some(album_info_of(a)),
            None => None,
        },
        artist: match t.performer {
            Some(p) => Some(ArtistView { id: p.id as u32, name: p.name@ }),
            None => match t.album {
                Some(a) => Some(artist_of(a.artist)),
                None => None,
            },
        },
        duration_seconds: t.duration as u32,
        explicit: t.parental_warning,
        hires_available: t.hires_streamable,
        sampling_rate_hz: t.maximum_sampling_rate_hz,
        bit_depth: t.maximum_bit_depth as u32,
        status: if t.streamable { TrackStatus::Unplayed } else { TrackStatus::Unplayable },
        track_url: None,
        available: t.streamable,
        cover_art: match t.album {
            Some(a) => Some(a.image.large@),
            None => None,
        },
        position: match t.position {
            Some(p) => p as u32,
            None => (t.track_number as usize) as u32,
        },
        media_number: t.media_number as u32,
    }
}

/// The tracks of a list keyed by their place, counted from 1; with
/// `renumber`, each track's own place is set to its key.
pub open spec fn numbered(ts: Seq<ApiTrack>, renumber: bool) -> Map<u32, TrackView> {
    Map::new(
        |k: u32| 1 <= k <= ts.len(),
        |k: u32| if renumber { TrackView { position: k, ..track_of(ts[k - 1]) } } else { track_of(ts[k - 1]) },
    )
}

/// The player's view of an album: its tracks are numbered from 1 in the
/// order given, each taking its number as its place.
pub open spec fn album_of(a: ApiAlbum) -> AlbumView {
    let i = album_info_of(a.info);
    AlbumView {
        id: i.id,
        title: i.title,
        artist: i.artist,
        release_year: i.release_year,
        hires_available: i.hires_available,
        explicit: i.explicit,
        total_tracks: i.total_tracks,
        tracks: match a.tracks {
            Some(ts) => numbered(ts@, true),
            None => Map::empty(),
        },
        available: i.available,
        cover_art: i.cover_art,
    }
}

/// The cover of a playlist: its first wide image, else its first 300-pixel one.
pub open spec fn playlist_cover(p: ApiPlaylist) -> Option<Seq<char>> {
    if p.image_rectangle@.len() > 0 {
        Some(p.image_rectangle@[0]@)
    } else {
        match p.images300 {
            Some(v) => if v@.len() > 0 { Some(v@[0]@) } else { None },
            None => None,
        }
    }
}

/// The player's view of a playlist: its tracks numbered from 1 in the order
/// given (their own places kept).
pub open spec fn playlist_of(p: ApiPlaylist) -> PlaylistView {
    PlaylistView {
        title: p.name@,
        duration_seconds: p.duration as u32,
        tracks_count: p.tracks_count as u32,
        id: p.id as u32,
        cover_art: playlist_cover(p),
        tracks: match p.tracks {
            Some(ts) => numbered(ts@, false),
            None => Map::empty(),
        },
    }
}

/// Whether an album's dates, and its tracks' albums' dates, give years.
pub open spec fn album_dated(a: ApiAlbum) -> bool {
    &&& info_dated(a.info)
    &&& a.tracks matches Some(ts) ==> tracks_dated(ts@)
}

/// Whether a playlist's tracks' albums' dates give years.
pub open spec fn playlist_dated(p: ApiPlaylist) -> bool {
    p.tracks matches Some(ts) ==> tracks_dated(ts@)
}

/// An artist as the player keeps it.
pub fn artist_from_api(a: &ApiArtist) -> (r: Artist)
    ensures
        r@ == artist_of(*a),
{
    Artist { id: a.id as u32, name: a.name.clone() }
}

/// An album summary as the player keeps it.
pub fn album_info_from_api(a: &ApiAlbumInfo) -> (r: AlbumInfo)
    requires
        info_dated(*a),
    ensures
        r@ == album_info_of(*a),
{
    let year = match date_year(a.release_date_original.as_str()) {
        Some(y) => y as u32,
        None => 0,
    };
    AlbumInfo {
        id: a.id.clone(),
        title: a.title.clone(),
        artist: artist_from_api(&a.artist),
        release_year: year,
        hires_available: a.hires_streamable,
        explicit: a.parental_warning,
        total_tracks: a.tracks_count as u32,
        available: a.streamable,
        cover_art: a.image.large.clone(),
    }
}

/// A track as the player keeps it.
pub fn track_from_api(t: &ApiTrack) -> (r: Track)
    requires
        track_dated(*t),
    ensures
        r@ == track_of(*t),
{
    let album = match &t.album {
        Some(a) => Some(album_info_from_api(a)),
        None => None,
    };
    let artist = match &t.performer {
        Some(p) => Some(Artist { id: p.id as u32, name: p.name.clone() }),
        None => match &t.album {
            Some(a) => Some(artist_from_api(&a.artist)),
            None => None,
        },
    };
    let cover_art = match &t.album {
        Some(a) => Some(a.image.large.clone()),
        None => None,
    };
    let status = if t.streamable {
        TrackStatus::Unplayed
    } else {
        TrackStatus::Unplayable
    };
    let position = match t.position {
        Some(p) => p as u32,
        None => (t.track_number as usize) as u32,
    };
    Track {
        id: t.id as u32,
        number: t.track_number as u32,
        title: t.title.clone(),
        album,
        artist,
        duration_seconds: t.duration as u32,
        explicit: t.parental_warning,
        hires_available: t.hires_streamable,
        sampling_rate_hz: t.maximum_sampling_rate_hz,
        bit_depth: t.maximum_bit_depth as u32,
        status,
        track_url: None,
        available: t.streamable,
        cover_art,
        position,
        media_number: t.media_number as u32,
    }
}

/// The tracks of `ts` keyed by their place counted from 1, renumbered or not.
fn numbered_tracks(ts: &Vec<ApiTrack>, renumber: bool) -> (r: BTreeMap<u32, Track>)
    requires
        tracks_dated(ts@),
        ts@.len() <= u32::MAX,
    ensures
        tracks_view(r@) == numbered(ts@, renumber),
{
    proof {
        crate::ordering_facts::lemma_u32_key_model();
    }
    let mut map: BTreeMap<u32, Track> = BTreeMap::new();
    let mut i: usize = 0;
    while i < ts.len()
        invariant
            i <= ts@.len(),
            ts@.len() <= u32::MAX,
            tracks_dated(ts@),
            tracks_view(map@) == numbered(ts@.subrange(0, i as int), renumber),
        decreases ts@.len() - i,
    {
        assert(track_dated(ts@[i as int]));
        let mut track = track_from_api(&ts[i]);
        let position = (i + 1) as u32;
        if renumber {
            track.position = position;
        }
        let ghost before = map@;
        map.insert(position, track);
        proof {
            let next = numbered(ts@.subrange(0, i + 1), renumber);
            let prev = numbered(ts@.subrange(0, i as int), renumber);
            assert(tracks_view(before).dom() =~= before.dom());
            assert(tracks_view(map@).dom() =~= map@.dom());
            assert(map@ == before.insert(position, track));
            assert forall|k: u32| #![auto] tracks_view(map@).contains_key(k) <==> next.contains_key(k) by {
                if k == position {
                } else {
                    assert(before.contains_key(k) <==> map@.contains_key(k));
                    assert(prev.contains_key(k) <==> tracks_view(before).contains_key(k));
                }
            }
            assert forall|k: u32| #![auto] tracks_view(map@).contains_key(k) implies tracks_view(map@)[k] == next[k] by {
                if k == position {
                    assert(ts@.subrange(0, i + 1)[k - 1] == ts@[i as int]);
                } else {
                    assert(before.contains_key(k));
                    assert(prev.contains_key(k));
                    assert(1 <= k <= i);
                    assert(map@[k] == before[k]);
                    assert(tracks_view(before)[k] == prev[k]);
                    assert(ts@.subrange(0, i + 1)[k - 1] == ts@.subrange(0, i as int)[k - 1]);
                }
            }
            assert(tracks_view(map@) =~= next);
        }
        i = i + 1;
    }
    assert(ts@.subrange(0, i as int) =~= ts@);
    map
}

/// An album as the player keeps it.
pub fn album_from_api(a: &ApiAlbum) -> (r: Album)
    requires
        album_dated(*a),
        a.tracks matches Some(ts) ==> ts@.len() <= u32::MAX,
    ensures
        r@ == album_of(*a),
{
    let info = album_info_from_api(&a.info);
    let tracks = match &a.tracks {
        Some(ts) => numbered_tracks(ts, true),
        None => BTreeMap::new(),
    };
    proof {
        assert(tracks_view(tracks@) =~= album_of(*a).tracks);
    }
    Album {
        id: info.id,
        title: info.title,
        artist: info.artist,
        release_year: info.release_year,
        hires_available: info.hires_available,
        explicit: info.explicit,
        total_tracks: info.total_tracks,
        tracks,
        available: info.available,
        cover_art: info.cover_art,
    }
}

/// A playlist as the player keeps it.
pub fn playlist_from_api(p: &ApiPlaylist) -> (r: Playlist)
    requires
        playlist_dated(*p),
        p.tracks matches Some(ts) ==> ts@.len() <= u32::MAX,
    ensures
        r@ == playlist_of(*p),
{
    let tracks = match &p.tracks {
        Some(ts) => numbered_tracks(ts, false),
        None => BTreeMap::new(),
    };
    let cover_art = if p.image_rectangle.len() > 0 {
        Some(p.image_rectangle[0].clone())
    } else {
        match &p.images300 {
            Some(v) => {
                if v.len() > 0 {
                    Some(v[0].clone())
                } else {
                    None
                }
            },
            None => None,
        }
    };
    proof {
        assert(tracks_view(tracks@) =~= playlist_of(*p).tracks);
    }
    Playlist {
        id: p.id as u32,
        title: p.name.clone(),
        duration_seconds: p.duration as u32,
        tracks_count: p.tracks_count as u32,
        cover_art,
        tracks,
    }
}

/// Whether a release date gives a year the player can keep.
fn year_usable(s: &str) -> (r: bool)
    ensures
        r == year_ok(s@),
{
    match date_year(s) {
        Some(y) => y >= 0,
        None => false,
    }
}

fn track_usable(t: &ApiTrack) -> (r: bool)
    ensures
        r == track_dated(*t),
{
    match &t.album {
        Some(a) => year_usable(a.release_date_original.as_str()),
        None => true,
    }
}

fn tracks_usable(ts: &Vec<ApiTrack>) -> (r: bool)
    ensures
        r == tracks_dated(ts@),
{
    let mut i: usize = 0;
    while i < ts.len()
        invariant
            i <= ts@.len(),
            forall|j: int| 0 <= j < i ==> track_dated(#[trigger] ts@[j]),
        decreases ts@.len() - i,
    {
        if !track_usable(&ts[i]) {
            return false;
        }
        i = i + 1;
    }
    true
}

/// A track as the player keeps it, or `None` when its album's release date
/// gives no year (which the conversion cannot take).
pub fn checked_track_from_api(t: &ApiTrack) -> (r: Option<Track>)
    ensures
        track_dated(*t) ==> (r matches Some(x) && x@ == track_of(*t)),
        !track_dated(*t) ==> r is None,
{
    if track_usable(t) {
        Some(track_from_api(t))
    } else {
        None
    }
}

/// An album as the player keeps it, or `None` when a release date gives no
/// year or there are more tracks than places to number them.
pub fn checked_album_from_api(a: &ApiAlbum) -> (r: Option<Album>)
    ensures
        album_dated(*a) && (a.tracks matches Some(ts) ==> ts@.len() <= u32::MAX) ==> (r matches Some(x) && x@
            == album_of(*a)),
        !(album_dated(*a) && (a.tracks matches Some(ts) ==> ts@.len() <= u32::MAX)) ==> r is None,
{
    if !year_usable(a.info.release_date_original.as_str()) {
        return None;
    }
    match &a.tracks {
        Some(ts) => {
            if ts.len() > 0xffff_ffff || !tracks_usable(ts) {
                return None;
            }
        },
        None => {},
    }
    Some(album_from_api(a))
}

/// A playlist as the player keeps it, or `None` when a track's album date
/// gives no year or there are more tracks than places to number them.
pub fn checked_playlist_from_api(p: &ApiPlaylist) -> (r: Option<Playlist>)
    ensures
        playlist_dated(*p) && (p.tracks matches Some(ts) ==> ts@.len() <= u32::MAX) ==> (r matches Some(x) && x@
            == playlist_of(*p)),
        !(playlist_dated(*p) && (p.tracks matches Some(ts) ==> ts@.len() <= u32::MAX)) ==> r is None,
{
    match &p.tracks {
        Some(ts) => {
            if ts.len() > 0xffff_ffff || !tracks_usable(ts) {
                return None;
            }
        },
        None => {},
    }
    Some(playlist_from_api(p))
}

/// Whether every album, track and playlist of a search answer can be converted.
pub open spec fn results_usable(s: ApiSearchResults) -> bool {
    &&& forall|i: int| 0 <= i < s.albums@.len() ==> {
        &&& album_dated(#[trigger] s.albums@[i])
        &&& s.albums@[i].tracks matches Some(ts) ==> ts@.len() <= u32::MAX
    }
    &&& tracks_dated(s.tracks@)
    &&& forall|i: int| 0 <= i < s.playlists@.len() ==> {
        &&& playlist_dated(#[trigger] s.playlists@[i])
        &&& s.playlists@[i].tracks matches Some(ts) ==> ts@.len() <= u32::MAX
    }
}

/// A search answer as the player keeps it: each album, track, artist and
/// playlist converted, in order; `None` when one of them cannot be.
pub fn search_results_from_api(s: &ApiSearchResults) -> (r: Option<SearchResults>)
    ensures
        results_usable(*s) ==> (r matches Some(x) && {
            &&& x.query@ == s.query@
            &&& x.albums@.len() == s.albums@.len()
            &&& forall|i: int| 0 <= i < s.albums@.len() ==> (#[trigger] x.albums@[i])@ == album_of(s.albums@[i])
            &&& x.tracks@.len() == s.tracks@.len()
            &&& forall|i: int| 0 <= i < s.tracks@.len() ==> (#[trigger] x.tracks@[i])@ == track_of(s.tracks@[i])
            &&& x.artists@.len() == s.artists@.len()
            &&& forall|i: int| 0 <= i < s.artists@.len() ==> (#[trigger] x.artists@[i])@ == artist_of(s.artists@[i])
            &&& x.playlists@.len() == s.playlists@.len()
            &&& forall|i: int| 0 <= i < s.playlists@.len() ==> (#[trigger] x.playlists@[i])@ == playlist_of(s.playlists@[i])
        }),
        !results_usable(*s) ==> r is None,
{
    let mut albums: Vec<Album> = Vec::new();
    let mut i: usize = 0;
    while i < s.albums.len()
        invariant
            i <= s.albums@.len(),
            albums@.len() == i,
            forall|j: int| 0 <= j < i ==> {
                &&& album_dated(#[trigger] s.albums@[j])
                &&& s.albums@[j].tracks matches Some(ts) ==> ts@.len() <= u32::MAX
            },
            forall|j: int| 0 <= j < i ==> (#[trigger] albums@[j])@ == album_of(s.albums@[j]),
        decreases s.albums@.len() - i,
    {
        match checked_album_from_api(&s.albums[i]) {
            Some(a) => albums.push(a),
            None => {
                return None;
            },
        }
        i = i + 1;
    }
    let mut tracks: Vec<Track> = Vec::new();
    let mut i: usize = 0;
    while i < s.tracks.len()
        invariant
            i <= s.tracks@.len(),
            tracks@.len() == i,
            forall|j: int| 0 <= j < i ==> track_dated(#[trigger] s.tracks@[j]),
            forall|j: int| 0 <= j < i ==> (#[trigger] tracks@[j])@ == track_of(s.tracks@[j]),
        decreases s.tracks@.len() - i,
    {
        match checked_track_from_api(&s.tracks[i]) {
            Some(t) => tracks.push(t),
            None => {
                return None;
            },
        }
        i = i + 1;
    }
    let mut artists: Vec<Artist> = Vec::new();
    let mut i: usize = 0;
    while i < s.artists.len()
        invariant
            i <= s.artists@.len(),
            artists@.len() == i,
            forall|j: int| 0 <= j < i ==> (#[trigger] artists@[j])@ == artist_of(s.artists@[j]),
        decreases s.artists@.len() - i,
    {
        artists.push(artist_from_api(&s.artists[i]));
        i = i + 1;
    }
    let mut playlists: Vec<Playlist> = Vec::new();
    let mut i: usize = 0;
    while i < s.playlists.len()
        invariant
            i <= s.playlists@.len(),
            playlists@.len() == i,
            forall|j: int| 0 <= j < i ==> {
                &&& playlist_dated(#[trigger] s.playlists@[j])
                &&& s.playlists@[j].tracks matches Some(ts) ==> ts@.len() <= u32::MAX
            },
            forall|j: int| 0 <= j < i ==> (#[trigger] playlists@[j])@ == playlist_of(s.playlists@[j]),
        decreases s.playlists@.len() - i,
    {
        match checked_playlist_from_api(&s.playlists[i]) {
            Some(p) => playlists.push(p),
            None => {
                return None;
            },
        }
        i = i + 1;
    }
    Some(SearchResults { query: s.query.clone(), albums, tracks, artists, playlists })
}

} // verus!
