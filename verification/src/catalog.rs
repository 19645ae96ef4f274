//! Records of the streaming service's catalog that the client reads:
//! labels, genres, artists credited on a release, playlist owners,
//! performers and search analytics.
use vstd::prelude::*;

verus! {

/// A record label.
#[derive(Debug, Clone, Default)]
pub struct Label {
    pub name: String,
    pub id: i64,
    pub albums_count: i64,
    pub supplier_id: i64,
    pub slug: String,
}

/// A musical genre, with the ids of the genres above it.
#[derive(Debug, Clone, Default)]
pub struct Genre {
    pub path: Vec<i64>,
    pub color: String,
    pub name: String,
    pub id: i64,
    pub slug: String,
}

/// An artist credited on a release beside the main one, with their roles.
#[derive(Debug, Clone, Default)]
pub struct OtherArtists {
    pub id: i64,
    pub name: String,
    pub roles: Vec<String>,
}

/// The user a playlist belongs to.
#[derive(Debug, Clone, Default)]
pub struct Owner {
    pub id: i64,
    pub name: String,
}

/// The performer of a track.
#[derive(Debug, Clone, Default)]
pub struct Performer {
    pub id: i64,
    pub name: String,
}

/// The analytics data a search answers with.
#[derive(Debug, Clone, Default)]
pub struct Analytics {
    pub search_external_id: String,
}

/// An image in several sizes.
#[derive(Debug, Clone, Default)]
pub struct Image {
    pub small: String,
    pub thumbnail: Option<String>,
    pub large: String,
    pub back: Option<String>,
}

/// An artist as the service describes one.
#[derive(Debug, Clone, Default)]
pub struct ApiArtist {
    pub name: String,
    pub id: i64,
    pub albums_count: i64,
}

/// An album as the service describes one, without its tracks.
#[derive(Debug, Clone, Default)]
pub struct ApiAlbumInfo {
    pub artist: ApiArtist,
    pub id: String,
    pub title: String,
    /// The original release date, as "YYYY-MM-DD".
    pub release_date_original: String,
    pub tracks_count: i64,
    pub hires_streamable: bool,
    pub parental_warning: bool,
    pub streamable: bool,
    pub image: Image,
}

/// A track as the service describes one.
#[derive(Debug, Clone, Default)]
pub struct ApiTrack {
    pub album: Option<ApiAlbumInfo>,
    pub performer: Option<Performer>,
    pub id: i32,
    pub track_number: i64,
    pub title: String,
    pub duration: i64,
    pub parental_warning: bool,
    pub hires_streamable: bool,
    pub maximum_bit_depth: i64,
    /// The highest sampling rate offered, in hertz.
    pub maximum_sampling_rate_hz: u32,
    pub streamable: bool,
    pub position: Option<usize>,
    pub media_number: i64,
}

/// An album as the service describes one, with its tracks where they came along.
#[derive(Debug, Clone, Default)]
pub struct ApiAlbum {
    pub info: ApiAlbumInfo,
    pub tracks: Option<Vec<ApiTrack>>,
}

/// A playlist as the service describes one.
#[derive(Debug, Clone, Default)]
pub struct ApiPlaylist {
    pub owner: Owner,
    pub id: i64,
    pub name: String,
    pub duration: i64,
    pub tracks_count: i64,
    pub image_rectangle: Vec<String>,
    pub images300: Option<Vec<String>>,
    pub tracks: Option<Vec<ApiTrack>>,
    /// The number of tracks the playlist's page of tracks reports in all.
    pub tracks_total: i64,
}

/// What a search of the whole catalog answers with.
#[derive(Debug, Clone, Default)]
pub struct ApiSearchResults {
    pub query: String,
    pub albums: Vec<ApiAlbum>,
    pub tracks: Vec<ApiTrack>,
    pub artists: Vec<ApiArtist>,
    pub playlists: Vec<ApiPlaylist>,
}

/// A page of albums as the service lists them.
#[derive(Debug, Clone, Default)]
pub struct Albums {
    pub limit: i64,
    pub offset: i64,
    pub total: i64,
    pub items: Vec<ApiAlbum>,
}

/// A copy of an optional string, equal to it.
fn copy_text(s: &Option<String>) -> (r: Option<String>)
    ensures
        r == *s,
{
    match s {
        Some(v) => Some(v.clone()),
        None => None,
    }
}

impl Image {
    /// A copy of the image record, equal to it.
    pub fn duplicate(&self) -> (r: Image)
        ensures
            r == *self,
    {
        Image {
            small: self.small.clone(),
            thumbnail: copy_text(&self.thumbnail),
            large: self.large.clone(),
            back: copy_text(&self.back),
        }
    }
}

impl Performer {
    /// A copy of the performer, equal to it.
    pub fn duplicate(&self) -> (r: Performer)
        ensures
            r == *self,
    {
        Performer { id: self.id, name: self.name.clone() }
    }
}

impl ApiArtist {
    /// A copy of the artist record, equal to it.
    pub fn duplicate(&self) -> (r: ApiArtist)
        ensures
            r == *self,
    {
        ApiArtist { name: self.name.clone(), id: self.id, albums_count: self.albums_count }
    }
}

impl ApiAlbumInfo {
    /// A copy of the album record, equal to it.
    pub fn duplicate(&self) -> (r: ApiAlbumInfo)
        ensures
            r == *self,
    {
        ApiAlbumInfo {
            artist: self.artist.duplicate(),
            id: self.id.clone(),
            title: self.title.clone(),
            release_date_original: self.release_date_original.clone(),
            tracks_count: self.tracks_count,
            hires_streamable: self.hires_streamable,
            parental_warning: self.parental_warning,
            streamable: self.streamable,
            image: self.image.duplicate(),
        }
    }
}

impl ApiTrack {
    /// A copy of the track record, equal to it.
    pub fn duplicate(&self) -> (r: ApiTrack)
        ensures
            r == *self,
    {
        let album = match &self.album {
            Some(a) => Some(a.duplicate()),
            None => None,
        };
        let performer = match &self.performer {
            Some(p) => Some(p.duplicate()),
            None => None,
        };
        ApiTrack {
            album,
            performer,
            id: self.id,
            track_number: self.track_number,
            title: self.title.clone(),
            duration: self.duration,
            parental_warning: self.parental_warning,
            hires_streamable: self.hires_streamable,
            maximum_bit_depth: self.maximum_bit_depth,
            maximum_sampling_rate_hz: self.maximum_sampling_rate_hz,
            streamable: self.streamable,
            position: self.position,
            media_number: self.media_number,
        }
    }
}

/// A copy of a list of track records, element for element equal to it.
pub fn duplicate_tracks(tracks: &Vec<ApiTrack>) -> (r: Vec<ApiTrack>)
    ensures
        r@ == tracks@,
{
    let mut out: Vec<ApiTrack> = Vec::new();
    let mut i: usize = 0;
    while i < tracks.len()
        invariant
            i <= tracks@.len(),
            out@ == tracks@.take(i as int),
        decreases tracks@.len() - i,
    {
        out.push(tracks[i].duplicate());
        proof {
            assert(tracks@.take(i + 1) =~= tracks@.take(i as int).push(tracks@[i as int]));
        }
        i = i + 1;
    }
    assert(tracks@.take(tracks@.len() as int) =~= tracks@);
    out
}

/// The same optional list of tracks, compared by contents.
pub open spec fn same_tracks(a: Option<Vec<ApiTrack>>, b: Option<Vec<ApiTrack>>) -> bool {
    match (a, b) {
        (Some(x), Some(y)) => x@ == y@,
        (None, None) => true,
        _ => false,
    }
}

/// The same album record, its tracks compared by contents.
pub open spec fn same_album(a: ApiAlbum, b: ApiAlbum) -> bool {
    a.info == b.info && same_tracks(a.tracks, b.tracks)
}

impl ApiAlbum {
    /// A copy of the album record, tracks included.
    pub fn duplicate(&self) -> (r: ApiAlbum)
        ensures
            same_album(r, *self),
    {
        let tracks = match &self.tracks {
            Some(ts) => Some(duplicate_tracks(ts)),
            None => None,
        };
        ApiAlbum { info: self.info.duplicate(), tracks }
    }
}

} // verus!
