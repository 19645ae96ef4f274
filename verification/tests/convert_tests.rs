use hifi_rs::catalog::{
    ApiAlbum, ApiAlbumInfo, ApiArtist, ApiPlaylist, ApiSearchResults, ApiTrack, Image, Owner, Performer,
};
use hifi_rs::convert::{
    album_from_api, artist_from_api, checked_album_from_api, checked_playlist_from_api, checked_track_from_api,
    playlist_from_api, search_results_from_api, track_from_api,
};
use hifi_rs::service::TrackStatus;

fn info(date: &str) -> ApiAlbumInfo {
    ApiAlbumInfo {
        artist: ApiArtist { name: "Band".to_string(), id: 8, albums_count: 3 },
        id: "alb".to_string(),
        title: "Record".to_string(),
        release_date_original: date.to_string(),
        tracks_count: 2,
        hires_streamable: true,
        parental_warning: false,
        streamable: true,
        image: Image { small: "s".to_string(), thumbnail: None, large: "L".to_string(), back: None },
    }
}

fn api_track(id: i32, number: i64, position: Option<usize>, streamable: bool) -> ApiTrack {
    ApiTrack {
        album: None,
        performer: None,
        id,
        track_number: number,
        title: format!("t{id}"),
        duration: 200,
        parental_warning: false,
        hires_streamable: false,
        maximum_bit_depth: 24,
        maximum_sampling_rate_hz: 96_000,
        streamable,
        position,
        media_number: 1,
    }
}

#[test]
fn track_conversion() {
    let mut t = api_track(5, 3, None, false);
    let c = track_from_api(&t);
    assert_eq!(c.id, 5);
    assert_eq!(c.position, 3);
    assert_eq!(c.status, TrackStatus::Unplayable);
    assert!(c.artist.is_none());
    t.album = Some(info("1999-05-01"));
    t.position = Some(9);
    t.streamable = true;
    let c = track_from_api(&t);
    assert_eq!(c.position, 9);
    assert_eq!(c.status, TrackStatus::Unplayed);
    assert_eq!(c.artist.as_ref().unwrap().name, "Band");
    assert_eq!(c.album.as_ref().unwrap().release_year, 1999);
    assert_eq!(c.cover_art.as_deref(), Some("L"));
    t.performer = Some(Performer { id: 4, name: "Singer".to_string() });
    assert_eq!(track_from_api(&t).artist.unwrap().name, "Singer");
}

#[test]
fn album_conversion_numbers_tracks() {
    let a = ApiAlbum {
        info: info("2010-01-31"),
        tracks: Some(vec![api_track(1, 1, Some(7), true), api_track(2, 2, None, true)]),
    };
    let c = album_from_api(&a);
    assert_eq!(c.release_year, 2010);
    assert_eq!(c.total_tracks, 2);
    assert_eq!(c.cover_art, "L");
    assert_eq!(c.tracks.keys().copied().collect::<Vec<u32>>(), vec![1, 2]);
    assert_eq!(c.tracks[&1].position, 1);
    assert_eq!(c.tracks[&2].id, 2);
    assert!(checked_album_from_api(&ApiAlbum { info: info("not a date"), tracks: None }).is_none());
    assert_eq!(checked_album_from_api(&a).unwrap().id, "alb");
}

#[test]
fn playlist_conversion_keeps_positions_and_picks_a_cover() {
    let p = ApiPlaylist {
        owner: Owner { id: 1, name: "me".to_string() },
        id: 77,
        name: "Mix".to_string(),
        duration: 1000,
        tracks_count: 2,
        image_rectangle: vec![],
        images300: Some(vec!["c300".to_string()]),
        tracks: Some(vec![api_track(1, 1, Some(7), true), api_track(2, 2, None, true)]),
        tracks_total: 2,
    };
    let c = playlist_from_api(&p);
    assert_eq!(c.cover_art.as_deref(), Some("c300"));
    assert_eq!(c.tracks[&1].position, 7);
    assert_eq!(c.title, "Mix");
    let mut q = p.clone();
    q.image_rectangle = vec!["wide".to_string()];
    assert_eq!(checked_playlist_from_api(&q).unwrap().cover_art.as_deref(), Some("wide"));
    q.images300 = None;
    q.image_rectangle = vec![];
    assert_eq!(checked_playlist_from_api(&q).unwrap().cover_art, None);
}

#[test]
fn unusable_dates_are_refused() {
    let mut t = api_track(5, 3, None, true);
    t.album = Some(info("-0044-03-15"));
    assert!(checked_track_from_api(&t).is_none());
    t.album = Some(info("2001-02-03"));
    assert_eq!(checked_track_from_api(&t).unwrap().album.unwrap().release_year, 2001);
}

#[test]
fn search_results_convert_in_order() {
    let s = ApiSearchResults {
        query: "q".to_string(),
        albums: vec![ApiAlbum { info: info("2000-01-01"), tracks: None }],
        tracks: vec![api_track(3, 1, None, true)],
        artists: vec![ApiArtist { name: "A".to_string(), id: 6, albums_count: 0 }],
        playlists: vec![],
    };
    let r = search_results_from_api(&s).unwrap();
    assert_eq!(r.query, "q");
    assert_eq!(r.albums[0].release_year, 2000);
    assert_eq!(r.tracks[0].id, 3);
    assert_eq!(r.artists[0].id, 6);
    let artist = artist_from_api(&ApiArtist { name: "Z".to_string(), id: 9, albums_count: 0 });
    assert_eq!(artist.name, "Z");
    let mut bad = s.clone();
    bad.albums[0].info.release_date_original = "?".to_string();
    assert!(search_results_from_api(&bad).is_none());
}
