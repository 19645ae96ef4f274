use hifi_rs::catalog::{ApiAlbum, ApiAlbumInfo, ApiArtist, ApiPlaylist, ApiTrack, Image, Owner, Performer};
use hifi_rs::client::{handle_response, AudioQuality, ClientError};
use hifi_rs::listing::{TrackListTrack, TrackURL};
use hifi_rs::service::TrackStatus;

fn info(date: &str, hires: bool, explicit: bool) -> ApiAlbumInfo {
    ApiAlbumInfo {
        artist: ApiArtist { name: "Band".to_string(), id: 8, albums_count: 3 },
        id: "alb".to_string(),
        title: "Record".to_string(),
        release_date_original: date.to_string(),
        tracks_count: 2,
        hires_streamable: hires,
        parental_warning: explicit,
        streamable: true,
        image: Image { small: "s".to_string(), thumbnail: None, large: "L".to_string(), back: None },
    }
}

fn api_track(id: i32, number: i64, streamable: bool, duration: i64) -> ApiTrack {
    ApiTrack {
        album: None,
        performer: None,
        id,
        track_number: number,
        title: format!("t{id}"),
        duration,
        parental_warning: false,
        hires_streamable: false,
        maximum_bit_depth: 24,
        maximum_sampling_rate_hz: 96_000,
        streamable,
        position: None,
        media_number: 1,
    }
}

fn playlist(tracks: Option<Vec<ApiTrack>>) -> ApiPlaylist {
    ApiPlaylist {
        owner: Owner { id: 1, name: "me".to_string() },
        id: 77,
        name: "Mix".to_string(),
        duration: 1000,
        tracks_count: 3,
        image_rectangle: vec![],
        images300: None,
        tracks,
        tracks_total: 3,
    }
}

#[test]
fn track_columns_show_number_title_performer_and_short_duration() {
    let mut t = api_track(5, 3, true, 200);
    assert_eq!(t.columns(), vec!["3", "t5", "", "3:20"]);
    t.performer = Some(Performer { id: 4, name: "Singer".to_string() });
    t.duration = 754;
    assert_eq!(t.columns(), vec!["3", "t5", "Singer", "2:34"]);
    t.duration = 3 * 3600 + 5;
    assert_eq!(t.columns()[3], "0:05");
}

#[test]
fn queue_entry_columns_are_its_tracks() {
    let t = api_track(9, 12, true, 61);
    let e = TrackListTrack::new(t.clone(), None, None, None, None);
    assert_eq!(e.columns(), t.columns());
    assert_eq!(e.columns(), vec!["12", "t9", "", "1:01"]);
}

#[test]
fn new_queue_entry_defaults() {
    let e = TrackListTrack::new(api_track(1, 1, true, 10), None, None, Some(AudioQuality::CD), None);
    assert_eq!(e.index, 0);
    assert_eq!(e.total, 1);
    assert_eq!(e.status, TrackStatus::Unplayed);
    assert!(e.track_url.is_none());
    assert_eq!(e.quality, Some(AudioQuality::CD));
    let e = TrackListTrack::new(api_track(1, 1, true, 10), Some(4), Some(9), None, None);
    assert_eq!((e.index, e.total), (4, 9));
}

#[test]
fn setting_a_stream_address_keeps_the_rest() {
    let mut e = TrackListTrack::new(api_track(1, 1, true, 10), Some(2), Some(5), None, None);
    e.set_track_url(TrackURL { track_id: 1, url: "http://x".to_string(), ..Default::default() });
    assert_eq!(e.track_url.as_ref().unwrap().url, "http://x");
    assert_eq!((e.index, e.total, e.track.id), (2, 5, 1));
}

#[test]
fn album_columns_mark_hires_and_explicit_and_show_the_year() {
    let a = ApiAlbum { info: info("1999-05-01", true, false), tracks: None };
    assert_eq!(a.columns(), vec!["Record *", "Band", "1999"]);
    let a = ApiAlbum { info: info("2001-01-01", true, true), tracks: None };
    assert_eq!(a.columns()[0], "Record *e");
    let a = ApiAlbum { info: info("2001-01-01", false, true), tracks: None };
    assert_eq!(a.columns()[0], "Record e");
    let a = ApiAlbum { info: info("2001-01-01", false, false), tracks: None };
    assert_eq!(a.columns()[0], "Record ");
    let a = ApiAlbum { info: info("é9-05-01", false, false), tracks: None };
    assert_eq!(a.columns()[2], "é9-");
}

#[test]
fn album_track_list_keeps_streamable_tracks_at_their_numbers() {
    let a = ApiAlbum {
        info: info("1999-05-01", false, false),
        tracks: Some(vec![api_track(1, 1, true, 10), api_track(2, 2, false, 10), api_track(3, 3, true, 10)]),
    };
    let q = a.to_tracklist(AudioQuality::HIFI96).unwrap();
    assert_eq!(q.len(), 2);
    assert_eq!((q[0].track.id, q[0].index, q[0].total), (1, 1, 2));
    assert_eq!(q[0].status, TrackStatus::Playing);
    assert_eq!((q[1].track.id, q[1].index), (3, 3));
    assert_eq!(q[1].status, TrackStatus::Unplayed);
    assert_eq!(q[1].quality, Some(AudioQuality::HIFI96));
    assert_eq!(q[1].album.as_ref().unwrap().info.title, "Record");
    assert_eq!(q[1].album.as_ref().unwrap().tracks.as_ref().unwrap().len(), 3);
    assert!(ApiAlbum { info: info("1999-05-01", false, false), tracks: None }.to_tracklist(AudioQuality::CD).is_none());
}

#[test]
fn album_track_list_plays_track_one_wherever_it_stands() {
    let a = ApiAlbum {
        info: info("1999-05-01", false, false),
        tracks: Some(vec![api_track(4, 2, true, 10), api_track(5, 1, true, 10)]),
    };
    let q = a.to_tracklist(AudioQuality::CD).unwrap();
    assert_eq!(q[0].status, TrackStatus::Unplayed);
    assert_eq!(q[1].status, TrackStatus::Playing);
}

#[test]
fn playlist_track_list_numbers_streamable_tracks_from_zero() {
    let mut p = playlist(Some(vec![api_track(1, 1, false, 10), api_track(2, 2, true, 10), api_track(3, 3, true, 10)]));
    let q = p.to_tracklist(Some(AudioQuality::Mp3)).unwrap();
    assert_eq!(q.len(), 2);
    assert_eq!((q[0].track.id, q[0].index, q[0].total), (2, 0, 3));
    assert_eq!(q[0].status, TrackStatus::Playing);
    assert_eq!((q[1].track.id, q[1].index), (3, 1));
    assert_eq!(q[1].status, TrackStatus::Unplayed);
    assert!(q[1].album.is_none());
    assert_eq!(p.tracks.as_ref().unwrap().len(), 3);
    assert!(playlist(None).to_tracklist(None).is_none());
}

#[test]
fn reversing_a_playlist_reverses_its_tracks() {
    let mut p = playlist(Some(vec![api_track(1, 1, true, 10), api_track(2, 2, true, 10), api_track(3, 3, true, 10)]));
    p.reverse();
    let ids: Vec<i32> = p.tracks.as_ref().unwrap().iter().map(|t| t.id).collect();
    assert_eq!(ids, vec![3, 2, 1]);
    let mut e = playlist(None);
    e.reverse();
    assert!(e.tracks.is_none());
    e.set_tracks(vec![api_track(7, 1, true, 10)]);
    assert_eq!(e.tracks.unwrap()[0].id, 7);
}

#[test]
fn service_answers_become_bodies_or_errors() {
    assert_eq!(handle_response(200, "{}".to_string()), Ok("{}".to_string()));
    assert_eq!(handle_response(400, String::new()), Err(ClientError::Api { message: "Bad request".to_string() }));
    assert_eq!(
        handle_response(401, String::new()),
        Err(ClientError::Api { message: "Unauthorized request".to_string() })
    );
    assert_eq!(handle_response(404, String::new()).unwrap_err().message(), "Item not found");
}

#[test]
fn client_errors_show_their_messages() {
    assert_eq!(ClientError::ActiveSecret.message(), "Failed to get a usable secret from Qobuz.");
    assert_eq!(ClientError::NoPassword.message(), "No username provided.");
    assert_eq!(
        ClientError::DeserializeJSON { message: "bad".to_string() }.message(),
        "Failed to deserialize json: bad"
    );
    assert_eq!(ClientError::Api { message: "x".to_string() }.message(), "x");
}

#[test]
fn reversing_twice_restores_the_order() {
    let mut p = playlist(Some(vec![api_track(1, 1, true, 10), api_track(2, 2, false, 10), api_track(3, 3, true, 10)]));
    p.reverse();
    p.reverse();
    let ids: Vec<i32> = p.tracks.as_ref().unwrap().iter().map(|t| t.id).collect();
    assert_eq!(ids, vec![1, 2, 3]);
}
