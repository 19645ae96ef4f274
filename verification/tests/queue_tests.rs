use std::collections::BTreeMap;

use hifi_rs::queue::{find_url, TrackListType, TrackListValue};
use hifi_rs::service::{Album, Artist, Playlist, Track, TrackStatus};

fn track(id: u32, position: u32, title: &str) -> Track {
    Track {
        id,
        number: position,
        title: title.to_string(),
        album: None,
        artist: None,
        duration_seconds: 180,
        explicit: false,
        hires_available: false,
        sampling_rate_hz: 44_100,
        bit_depth: 16,
        status: TrackStatus::Unplayed,
        track_url: None,
        available: true,
        cover_art: None,
        position,
        media_number: 1,
    }
}

fn three_tracks() -> BTreeMap<u32, Track> {
    let mut q = BTreeMap::new();
    q.insert(1, track(11, 1, "one"));
    q.insert(2, track(22, 2, "two"));
    q.insert(3, track(33, 3, "three"));
    q
}

fn album(total: u32) -> Album {
    Album {
        id: "alb".to_string(),
        title: "Album".to_string(),
        artist: Artist { id: 1, name: "Artist".to_string() },
        release_year: 1999,
        hires_available: false,
        explicit: false,
        total_tracks: total,
        tracks: three_tracks(),
        available: true,
        cover_art: "cover".to_string(),
    }
}

#[test]
fn list_type_names_read_back() {
    for t in [TrackListType::Album, TrackListType::Playlist, TrackListType::Track, TrackListType::Unknown] {
        assert_eq!(TrackListType::from_name(t.as_str()), t);
    }
    assert_eq!(TrackListType::Album.as_str(), "album");
    assert_eq!(TrackListType::Unknown.as_str(), "unknown");
    assert_eq!(TrackListType::from("playlist"), TrackListType::Playlist);
    assert_eq!(TrackListType::from("nonsense"), TrackListType::Unknown);
    assert_eq!(TrackListType::default(), TrackListType::Unknown);
}

#[test]
fn new_list_is_unknown_and_counts_its_tracks() {
    let list = TrackListValue::new(Some(three_tracks()));
    assert_eq!(*list.list_type(), TrackListType::Unknown);
    assert!(list.get_album().is_none());
    assert!(list.get_playlist().is_none());
    assert_eq!(list.total(), 3);
    let empty = TrackListValue::new(None);
    assert_eq!(empty.total(), 0);
}

#[test]
fn total_prefers_album_then_playlist_count() {
    let mut list = TrackListValue::new(Some(three_tracks()));
    list.set_album(album(12));
    assert_eq!(list.total(), 12);
    assert_eq!(*list.list_type(), TrackListType::Album);
    let mut list = TrackListValue::new(Some(three_tracks()));
    list.set_playlist(Playlist {
        title: "P".to_string(),
        duration_seconds: 10,
        tracks_count: 40,
        id: 5,
        cover_art: None,
        tracks: BTreeMap::new(),
    });
    assert_eq!(list.total(), 40);
    assert_eq!(*list.list_type(), TrackListType::Playlist);
}

#[test]
fn clear_forgets_everything() {
    let mut list = TrackListValue::new(Some(three_tracks()));
    list.set_album(album(3));
    list.clear();
    assert_eq!(list.total(), 0);
    assert!(list.get_album().is_none());
    assert_eq!(*list.list_type(), TrackListType::Unknown);
    assert!(list.find_track_by_index(1).is_none());
}

#[test]
fn set_track_status_touches_one_key_only() {
    let mut list = TrackListValue::new(Some(three_tracks()));
    list.set_track_status(2, TrackStatus::Played);
    list.set_track_status(9, TrackStatus::Played);
    assert_eq!(list.find_track_by_index(2).unwrap().status, TrackStatus::Played);
    assert_eq!(list.find_track_by_index(1).unwrap().status, TrackStatus::Unplayed);
    let played: Vec<u32> = list.played_tracks().iter().map(|t| t.id).collect();
    assert_eq!(played, vec![22]);
    let unplayed: Vec<u32> = list.unplayed_tracks().iter().map(|t| t.id).collect();
    assert_eq!(unplayed, vec![11, 33]);
}

#[test]
fn setting_a_status_twice_is_setting_it_once() {
    let mut once = TrackListValue::new(Some(three_tracks()));
    once.set_track_status(3, TrackStatus::Playing);
    let mut twice = TrackListValue::new(Some(three_tracks()));
    twice.set_track_status(3, TrackStatus::Playing);
    twice.set_track_status(3, TrackStatus::Playing);
    assert_eq!(once.find_track_by_index(3).unwrap().status, twice.find_track_by_index(3).unwrap().status);
}

#[test]
fn track_index_finds_the_last_key_with_the_id() {
    let mut q = three_tracks();
    q.insert(7, track(22, 7, "again"));
    let list = TrackListValue::new(Some(q));
    assert_eq!(list.track_index(22), Some(7));
    assert_eq!(list.track_index(11), Some(1));
    assert_eq!(list.track_index(99), None);
}

#[test]
fn current_track_is_the_first_playing_one() {
    let mut list = TrackListValue::new(Some(three_tracks()));
    assert!(list.current_track().is_none());
    list.set_track_status(3, TrackStatus::Playing);
    list.set_track_status(2, TrackStatus::Playing);
    assert_eq!(list.current_track().unwrap().id, 22);
}

#[test]
fn cursive_list_gives_titles_and_ids_in_order() {
    let list = TrackListValue::new(Some(three_tracks()));
    let entries = list.cursive_list();
    assert_eq!(
        entries,
        vec![("one".to_string(), 11), ("two".to_string(), 22), ("three".to_string(), 33)]
    );
}

#[test]
fn first_track_and_ids_at_position() {
    let list = TrackListValue::new(Some(three_tracks()));
    assert_eq!(list.first_track().unwrap().id, 11);
    assert_eq!(list.ids_at_position(2), vec![22]);
    assert!(list.ids_at_position(8).is_empty());
    assert!(TrackListValue::new(None).first_track().is_none());
}

#[test]
fn find_url_takes_the_first_match() {
    let urls = vec![(5, "a".to_string()), (6, "b".to_string()), (5, "c".to_string())];
    assert_eq!(find_url(&urls, 5), Some("a".to_string()));
    assert_eq!(find_url(&urls, 6), Some("b".to_string()));
    assert_eq!(find_url(&urls, 7), None);
}

#[test]
fn mark_skip_marks_before_at_and_after() {
    let mut list = TrackListValue::new(Some(three_tracks()));
    let urls = vec![(22, "http://two".to_string())];
    let playing = list.mark_skip(2, &urls).unwrap();
    assert_eq!(playing.id, 22);
    assert_eq!(playing.track_url.as_deref(), Some("http://two"));
    assert_eq!(list.find_track_by_index(1).unwrap().status, TrackStatus::Played);
    assert_eq!(list.find_track_by_index(2).unwrap().status, TrackStatus::Playing);
    assert_eq!(list.find_track_by_index(3).unwrap().status, TrackStatus::Unplayed);
}

#[test]
fn mark_skip_without_address_makes_the_track_unplayable() {
    let mut list = TrackListValue::new(Some(three_tracks()));
    let none: Vec<(u32, String)> = Vec::new();
    assert!(list.mark_skip(3, &none).is_none());
    assert_eq!(list.find_track_by_index(3).unwrap().status, TrackStatus::Unplayable);
    assert_eq!(list.find_track_by_index(2).unwrap().status, TrackStatus::Played);
}

#[test]
fn duplicate_keeps_the_list() {
    let mut list = TrackListValue::new(Some(three_tracks()));
    list.set_album(album(3));
    let copy = list.duplicate();
    assert_eq!(copy.total(), 3);
    assert_eq!(copy.get_album().unwrap().id, "alb");
    assert_eq!(copy.cursive_list(), list.cursive_list());
}
