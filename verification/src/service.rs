//! The music-service entities the player works with: tracks, albums,
//! artists, playlists and search results.
use std::collections::BTreeMap;
use vstd::prelude::*;

verus! {

/// Where a track stands in the play order of the current list.
#[derive(Debug, Clone, Copy, PartialEq, Eq, Structural)]
pub enum TrackStatus {
    Played,
    Playing,
    Unplayed,
    Unplayable,
}

impl Default for TrackStatus {
    fn default() -> (r: Self)
        ensures
            r == TrackStatus::Unplayed,
    {
        TrackStatus::Unplayed
    }
}

/// An artist as the player shows it.
#[derive(Debug, Clone)]
pub struct Artist {
    pub id: u32,
    pub name: String,
}

/// The album a track belongs to, without the album's own track list.
#[derive(Debug, Clone)]
pub struct AlbumInfo {
    pub id: String,
    pub title: String,
    pub artist: Artist,
    pub release_year: u32,
    pub hires_available: bool,
    pub explicit: bool,
    pub total_tracks: u32,
    pub available: bool,
    pub cover_art: String,
}

/// A playable track, as the player keeps it.
#[derive(Debug, Clone)]
pub struct Track {
    pub id: u32,
    pub number: u32,
    pub title: String,
    pub album: Option<AlbumInfo>,
    pub artist: Option<Artist>,
    pub duration_seconds: u32,
    pub explicit: bool,
    pub hires_available: bool,
    /// Highest sampling rate offered for the track, in hertz.
    pub sampling_rate_hz: u32,
    pub bit_depth: u32,
    pub status: TrackStatus,
    pub track_url: Option<String>,
    pub available: bool,
    pub cover_art: Option<String>,
    pub position: u32,
    pub media_number: u32,
}

/// An album with its tracks keyed by their place in the album.
#[derive(Debug, Clone)]
pub struct Album {
    pub id: String,
    pub title: String,
    pub artist: Artist,
    pub release_year: u32,
    pub hires_available: bool,
    pub explicit: bool,
    pub total_tracks: u32,
    pub tracks: BTreeMap<u32, Track>,
    pub available: bool,
    pub cover_art: String,
}

/// A playlist with its tracks keyed by their place in the playlist.
#[derive(Debug, Clone)]
pub struct Playlist {
    pub title: String,
    pub duration_seconds: u32,
    pub tracks_count: u32,
    pub id: u32,
    pub cover_art: Option<String>,
    pub tracks: BTreeMap<u32, Track>,
}

/// What a search of the service found.
#[derive(Debug, Clone)]
pub struct SearchResults {
    pub query: String,
    pub albums: Vec<Album>,
    pub tracks: Vec<Track>,
    pub artists: Vec<Artist>,
    pub playlists: Vec<Playlist>,
}

pub struct ArtistView {
    pub id: u32,
    pub name: Seq<char>,
}

pub struct AlbumInfoView {
    pub id: Seq<char>,
    pub title: Seq<char>,
    pub artist: ArtistView,
    pub release_year: u32,
    pub hires_available: bool,
    pub explicit: bool,
    pub total_tracks: u32,
    pub available: bool,
    pub cover_art: Seq<char>,
}

pub struct TrackView {
    pub id: u32,
    pub number: u32,
    pub title: Seq<char>,
    pub album: Option<AlbumInfoView>,
    pub artist: Option<ArtistView>,
    pub duration_seconds: u32,
    pub explicit: bool,
    pub hires_available: bool,
    pub sampling_rate_hz: u32,
    pub bit_depth: u32,
    pub status: TrackStatus,
    pub track_url: Option<Seq<char>>,
    pub available: bool,
    pub cover_art: Option<Seq<char>>,
    pub position: u32,
    pub media_number: u32,
}

pub struct AlbumView {
    pub id: Seq<char>,
    pub title: Seq<char>,
    pub artist: ArtistView,
    pub release_year: u32,
    pub hires_available: bool,
    pub explicit: bool,
    pub total_tracks: u32,
    pub tracks: Map<u32, TrackView>,
    pub available: bool,
    pub cover_art: Seq<char>,
}

pub struct PlaylistView {
    pub title: Seq<char>,
    pub duration_seconds: u32,
    pub tracks_count: u32,
    pub id: u32,
    pub cover_art: Option<Seq<char>>,
    pub tracks: Map<u32, TrackView>,
}

/// The text of an optional string.
pub open spec fn opt_str(s: Option<String>) -> Option<Seq<char>> {
    match s {
        Some(v) => Some(v@),
        None => None,
    }
}

/// The views of the tracks of a track map, under the same keys.
pub open spec fn tracks_view(m: Map<u32, Track>) -> Map<u32, TrackView> {
    m.map_values(|t: Track| t@)
}

impl View for Artist {
    type V = ArtistView;

    open spec fn view(&self) -> ArtistView {
        ArtistView { id: self.id, name: self.name@ }
    }
}

impl View for AlbumInfo {
    type V = AlbumInfoView;

    open spec fn view(&self) -> AlbumInfoView {
        AlbumInfoView {
            id: self.id@,
            title: self.title@,
            artist: self.artist@,
            release_year: self.release_year,
            hires_available: self.hires_available,
            explicit: self.explicit,
            total_tracks: self.total_tracks,
            available: self.available,
            cover_art: self.cover_art@,
        }
    }
}

impl View for Track {
    type V = TrackView;

    open spec fn view(&self) -> TrackView {
        TrackView {
            id: self.id,
            number: self.number,
            title: self.title@,
            album: match self.album {
                Some(a) => Some(a@),
                None => None,
            },
            artist: match self.artist {
                Some(a) => Some(a@),
                None => None,
            },
            duration_seconds: self.duration_seconds,
            explicit: self.explicit,
            hires_available: self.hires_available,
            sampling_rate_hz: self.sampling_rate_hz,
            bit_depth: self.bit_depth,
            status: self.status,
            track_url: opt_str(self.track_url),
            available: self.available,
            cover_art: opt_str(self.cover_art),
            position: self.position,
            media_number: self.media_number,
        }
    }
}

impl View for Album {
    type V = AlbumView;

    open spec fn view(&self) -> AlbumView {
        AlbumView {
            id: self.id@,
            title: self.title@,
            artist: self.artist@,
            release_year: self.release_year,
            hires_available: self.hires_available,
            explicit: self.explicit,
            total_tracks: self.total_tracks,
            tracks: tracks_view(self.tracks@),
            available: self.available,
            cover_art: self.cover_art@,
        }
    }
}

impl View for Playlist {
    type V = PlaylistView;

    open spec fn view(&self) -> PlaylistView {
        PlaylistView {
            title: self.title@,
            duration_seconds: self.duration_seconds,
            tracks_count: self.tracks_count,
            id: self.id,
            cover_art: opt_str(self.cover_art),
            tracks: tracks_view(self.tracks@),
        }
    }
}

/// A copy of an optional string.
pub fn copy_opt_string(s: &Option<String>) -> (r: Option<String>)
    ensures
        opt_str(r) == opt_str(*s),
{
    match s {
        Some(v) => Some(v.clone()),
        None => None,
    }
}

impl Artist {
    /// A copy of the artist.
    pub fn duplicate(&self) -> (r: Artist)
        ensures
            r@ == self@,
    {
        Artist { id: self.id, name: self.name.clone() }
    }
}

impl AlbumInfo {
    /// A copy of the album summary.
    pub fn duplicate(&self) -> (r: AlbumInfo)
        ensures
            r@ == self@,
    {
        AlbumInfo {
            id: self.id.clone(),
            title: self.title.clone(),
            artist: self.artist.duplicate(),
            release_year: self.release_year,
            hires_available: self.hires_available,
            explicit: self.explicit,
            total_tracks: self.total_tracks,
            available: self.available,
            cover_art: self.cover_art.clone(),
        }
    }
}

impl Track {
    /// A copy of the track.
    pub fn duplicate(&self) -> (r: Track)
        ensures
            r@ == self@,
    {
        let album = match &self.album {
            Some(a) => Some(a.duplicate()),
            None => None,
        };
        let artist = match &self.artist {
            Some(a) => Some(a.duplicate()),
            None => None,
        };
        Track {
            id: self.id,
            number: self.number,
            title: self.title.clone(),
            album,
            artist,
            duration_seconds: self.duration_seconds,
            explicit: self.explicit,
            hires_available: self.hires_available,
            sampling_rate_hz: self.sampling_rate_hz,
            bit_depth: self.bit_depth,
            status: self.status,
            track_url: copy_opt_string(&self.track_url),
            available: self.available,
            cover_art: copy_opt_string(&self.cover_art),
            position: self.position,
            media_number: self.media_number,
        }
    }
}

impl Album {
    /// A copy of the album, tracks included.
    pub fn duplicate(&self) -> (r: Album)
        ensures
            r@ == self@,
            r.tracks@ == self.tracks@,
    {
        Album {
            id: self.id.clone(),
            title: self.title.clone(),
            artist: self.artist.duplicate(),
            release_year: self.release_year,
            hires_available: self.hires_available,
            explicit: self.explicit,
            total_tracks: self.total_tracks,
            tracks: self.tracks.clone(),
            available: self.available,
            cover_art: self.cover_art.clone(),
        }
    }
}

impl Playlist {
    /// A copy of the playlist, tracks included.
    pub fn duplicate(&self) -> (r: Playlist)
        ensures
            r@ == self@,
            r.tracks@ == self.tracks@,
    {
        Playlist {
            title: self.title.clone(),
            duration_seconds: self.duration_seconds,
            tracks_count: self.tracks_count,
            id: self.id,
            cover_art: copy_opt_string(&self.cover_art),
            tracks: self.tracks.clone(),
        }
    }
}

} // verus!
