use std::collections::BTreeMap;

use hifi_rs::player_state::{restore_request, PlayerState, RestoreRequest, SavedState};
use hifi_rs::queue::{TrackListType, TrackListValue};
use hifi_rs::service::{Album, Artist, Playlist, Track, TrackStatus};
use hifi_rs::state::{PlaybackState, SkipDirection};

fn track(id: u32, position: u32) -> Track {
    Track {
        id,
        number: position,
        title: format!("t{id}"),
        album: None,
        artist: None,
        duration_seconds: 100,
        explicit: false,
        hires_available: false,
        sampling_rate_hz: 44_100,
        bit_depth: 16,
        status: TrackStatus::Unplayed,
        track_url: None,
        available: true,
        cover_art: None,
        position,
        media_number: 1,
    }
}

fn tracks(ids: &[u32]) -> BTreeMap<u32, Track> {
    let mut q = BTreeMap::new();
    for (i, id) in ids.iter().enumerate() {
        let p = (i + 1) as u32;
        q.insert(p, track(*id, p));
    }
    q
}

fn album(id: &str, ids: &[u32]) -> Album {
    Album {
        id: id.to_string(),
        title: "A".to_string(),
        artist: Artist { id: 3, name: "Art".to_string() },
        release_year: 2001,
        hires_available: true,
        explicit: false,
        total_tracks: ids.len() as u32,
        tracks: tracks(ids),
        available: true,
        cover_art: "c".to_string(),
    }
}

fn playlist(id: u32, ids: &[u32]) -> Playlist {
    Playlist {
        title: "P".to_string(),
        duration_seconds: 600,
        tracks_count: ids.len() as u32,
        id,
        cover_art: None,
        tracks: tracks(ids),
    }
}

#[test]
fn fresh_state_is_stopped_and_empty() {
    let s = PlayerState::new();
    assert!(s.current_track().is_none());
    assert_eq!(s.status(), PlaybackState::Null);
    assert_eq!(s.target_status(), PlaybackState::Null);
    assert!(!s.resume());
    assert_eq!(s.list_type(), TrackListType::Unknown);
    assert_eq!(s.current_track_position(), 0);
}

#[test]
fn play_album_makes_the_first_track_current() {
    let mut s = PlayerState::new();
    let url = s.play_album(album("a1", &[7, 8, 9]), Some("http://seven".to_string()));
    assert_eq!(url.as_deref(), Some("http://seven"));
    let current = s.current_track().unwrap();
    assert_eq!(current.id, 7);
    assert_eq!(current.status, TrackStatus::Playing);
    assert_eq!(s.target_status(), PlaybackState::Playing);
    assert_eq!(s.list_type(), TrackListType::Album);
    assert_eq!(s.album().unwrap().id, "a1");
    let list = s.track_list();
    assert_eq!(list.find_track_by_index(1).unwrap().status, TrackStatus::Playing);
    assert!(list.find_track_by_index(1).unwrap().track_url.is_none());
    let unplayed: Vec<u32> = s.unplayed_tracks().iter().map(|t| t.id).collect();
    assert_eq!(unplayed, vec![8, 9]);
}

#[test]
fn play_album_without_address_keeps_the_track_address() {
    let mut s = PlayerState::new();
    assert_eq!(s.play_album(album("a1", &[7]), None), None);
    assert_eq!(s.current_track().unwrap().id, 7);
}

#[test]
fn play_empty_album_changes_nothing_but_the_list() {
    let mut s = PlayerState::new();
    let r = s.play_album(album("e", &[]), Some("x".to_string()));
    assert!(r.is_none());
    assert!(s.current_track().is_none());
    assert_eq!(s.target_status(), PlaybackState::Null);
    assert_eq!(s.list_type(), TrackListType::Album);
}

#[test]
fn play_playlist_makes_the_first_track_current() {
    let mut s = PlayerState::new();
    let url = s.play_playlist(playlist(4, &[1, 2]), Some("u".to_string()));
    assert_eq!(url.as_deref(), Some("u"));
    assert_eq!(s.current_track().unwrap().id, 1);
    assert_eq!(s.list_type(), TrackListType::Playlist);
    assert_eq!(s.playlist().unwrap().id, 4);
}

#[test]
fn play_track_plays_it_alone() {
    let mut s = PlayerState::new();
    let mut t = track(42, 5);
    t.number = 9;
    let url = s.play_track(t, Some("addr".to_string()));
    assert_eq!(url.as_deref(), Some("addr"));
    let current = s.current_track().unwrap();
    assert_eq!(current.number, 1);
    assert_eq!(current.status, TrackStatus::Playing);
    assert_eq!(s.list_type(), TrackListType::Track);
    let list = s.track_list();
    assert_eq!(list.find_track_by_index(5).unwrap().id, 42);
    assert_eq!(list.total(), 1);
}

#[test]
fn skip_track_moves_the_current_track() {
    let mut s = PlayerState::new();
    s.play_album(album("a", &[1, 2, 3]), None);
    let urls = vec![(3, "three".to_string())];
    let next = s.skip_track(3, &urls).unwrap();
    assert_eq!(next.id, 3);
    assert_eq!(s.current_track().unwrap().id, 3);
    assert_eq!(s.current_track_position(), 3);
    let played: Vec<u32> = s.played_tracks().iter().map(|t| t.id).collect();
    assert_eq!(played, vec![1, 2]);
}

#[test]
fn skip_without_address_keeps_the_current_track() {
    let mut s = PlayerState::new();
    s.play_album(album("a", &[1, 2, 3]), None);
    let none: Vec<(u32, String)> = Vec::new();
    assert!(s.skip_track(2, &none).is_none());
    assert_eq!(s.current_track().unwrap().id, 1);
    assert_eq!(s.track_list().find_track_by_index(2).unwrap().status, TrackStatus::Unplayable);
}

#[test]
fn skip_destination_follows_direction() {
    let mut s = PlayerState::new();
    assert_eq!(s.skip_destination(None, SkipDirection::Forward), None);
    s.play_album(album("a", &[1, 2, 3]), None);
    assert_eq!(s.skip_destination(None, SkipDirection::Forward), Some(2));
    assert_eq!(s.skip_destination(None, SkipDirection::Backward), Some(0));
    assert_eq!(s.skip_destination(Some(3), SkipDirection::Forward), Some(3));
    assert_eq!(s.skip_destination(Some(4), SkipDirection::Forward), None);
}

#[test]
fn reset_stops_and_empties() {
    let mut s = PlayerState::new();
    s.play_album(album("a", &[1]), None);
    s.set_status(PlaybackState::Playing);
    s.set_resume(true);
    s.reset();
    assert!(s.current_track().is_none());
    assert_eq!(s.status(), PlaybackState::Null);
    assert!(!s.resume());
    assert_eq!(s.target_status(), PlaybackState::Playing);
    assert_eq!(s.track_list().total(), 0);
}

#[test]
fn set_track_status_and_replace_list() {
    let mut s = PlayerState::new();
    s.replace_list(TrackListValue::new(Some(tracks(&[5, 6]))));
    s.set_track_status(2, TrackStatus::Played);
    let played: Vec<u32> = s.played_tracks().iter().map(|t| t.id).collect();
    assert_eq!(played, vec![6]);
    s.set_current_track(track(5, 1));
    assert_eq!(s.current_track_position(), 1);
}

#[test]
fn saved_state_of_an_album_session() {
    let mut s = PlayerState::new();
    s.play_album(album("alb-9", &[1, 2]), None);
    let saved = SavedState::from_state(&s, Some(12_345_678_901));
    assert_eq!(saved.rowid, 0);
    assert_eq!(saved.playback_track_id, 1);
    assert_eq!(saved.playback_track_index, 1);
    assert_eq!(saved.playback_position, 12_345);
    assert_eq!(saved.playback_entity_type, "album");
    assert_eq!(saved.playback_entity_id, "alb-9");
}

#[test]
fn saved_state_without_a_track_is_empty() {
    let s = PlayerState::new();
    let saved = SavedState::from_state(&s, Some(5));
    assert_eq!(saved.playback_entity_type, "");
    assert_eq!(saved.playback_position, 0);
    let d = SavedState::default();
    assert_eq!(d.playback_entity_id, "");
}

#[test]
fn saved_session_reads_back() {
    let mut s = PlayerState::new();
    s.play_playlist(playlist(77, &[3, 4]), None);
    let saved = SavedState::from_state(&s, Some(2_000_000_000));
    assert_eq!(saved.playback_entity_type, "playlist");
    assert_eq!(saved.playback_entity_id, "77");
    let (request, index, position) = restore_request(&saved);
    assert_eq!(request, RestoreRequest::Playlist { id: 77 });
    assert_eq!(index, 1);
    assert_eq!(position, 2_000_000_000);

    let mut s = PlayerState::new();
    s.play_track(track(31, 2), None);
    let saved = SavedState::from_state(&s, None);
    assert_eq!(saved.playback_entity_id, "31");
    let (request, index, _) = restore_request(&saved);
    assert_eq!(request, RestoreRequest::Track { id: 31 });
    assert_eq!(index, 2);

    let mut s = PlayerState::new();
    s.play_album(album("xyz", &[3]), None);
    let saved = SavedState::from_state(&s, None);
    let (request, _, _) = restore_request(&saved);
    assert_eq!(request, RestoreRequest::Album { id: "xyz".to_string() });
}

#[test]
fn restore_album_skips_to_the_saved_place() {
    let mut s = PlayerState::new();
    let urls = vec![(2, "two".to_string())];
    let t = s.restore_album(album("a", &[1, 2, 3]), 2, &urls).unwrap();
    assert_eq!(t.id, 2);
    assert_eq!(s.current_track().unwrap().id, 2);
    assert_eq!(s.list_type(), TrackListType::Album);
    let list = s.track_list();
    assert_eq!(list.find_track_by_index(1).unwrap().status, TrackStatus::Played);
    assert_eq!(list.find_track_by_index(3).unwrap().status, TrackStatus::Unplayed);
}

#[test]
fn restore_playlist_and_track() {
    let mut s = PlayerState::new();
    let urls = vec![(9, "nine".to_string())];
    assert_eq!(s.restore_playlist(playlist(1, &[8, 9]), 2, &urls).unwrap().id, 9);
    assert_eq!(s.list_type(), TrackListType::Playlist);
    let mut s = PlayerState::new();
    let urls = vec![(5, "five".to_string())];
    let t = s.restore_track(track(5, 4), 4, &urls).unwrap();
    assert_eq!(t.track_url.as_deref(), Some("five"));
    assert_eq!(s.list_type(), TrackListType::Track);
}

#[test]
fn skip_chooses_the_place_then_marks_the_list() {
    let mut s = PlayerState::new();
    let urls = vec![(1, "one".to_string()), (2, "two".to_string()), (3, "three".to_string())];
    assert!(s.skip(None, SkipDirection::Forward, &urls).is_none());
    s.play_album(album("a", &[1, 2, 3]), None);
    let next = s.skip(None, SkipDirection::Forward, &urls).unwrap();
    assert_eq!(next.id, 2);
    assert_eq!(s.current_track_position(), 2);
    let played: Vec<u32> = s.played_tracks().iter().map(|t| t.id).collect();
    assert_eq!(played, vec![1]);
    assert!(s.skip(Some(9), SkipDirection::Forward, &urls).is_none());
    assert_eq!(s.current_track().unwrap().id, 2);
    let back = s.skip(None, SkipDirection::Backward, &urls).unwrap();
    assert_eq!(back.id, 1);
    let unplayed: Vec<u32> = s.unplayed_tracks().iter().map(|t| t.id).collect();
    assert_eq!(unplayed, vec![2, 3]);
    let to_three = s.skip(Some(3), SkipDirection::Backward, &urls).unwrap();
    assert_eq!(to_three.id, 3);
    assert_eq!(s.track_list().find_track_by_index(3).unwrap().status, TrackStatus::Playing);
}
