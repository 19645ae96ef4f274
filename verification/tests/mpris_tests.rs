use std::collections::BTreeMap;

use hifi_rs::mpris::{track_meta, Mpris, MprisPlayer, MprisTrackList};
use hifi_rs::queue::TrackListValue;
use hifi_rs::service::{Album, Artist, Track, TrackStatus};
use hifi_rs::state::PlaybackState;

fn track(id: u32, position: u32, status: TrackStatus) -> Track {
    Track {
        id,
        number: position,
        title: "  Song  ".to_string(),
        album: None,
        artist: Some(Artist { id: 1, name: " Solo ".to_string() }),
        duration_seconds: 3,
        explicit: false,
        hires_available: false,
        sampling_rate_hz: 44_100,
        bit_depth: 16,
        status,
        track_url: None,
        available: true,
        cover_art: None,
        position,
        media_number: 1,
    }
}

#[test]
fn root_interface_facts() {
    let m = Mpris {};
    assert!(m.can_quit());
    assert!(!m.can_set_fullscreen());
    assert!(!m.can_raise());
    assert_eq!(m.supported_mime_types(), vec!["audio/mpeg", "audio/x-flac", "audio/flac"]);
    assert_eq!(m.supported_uri_schemes(), vec!["http"]);
    assert_eq!(m.identity(), "hifi-rs");
    assert!(m.has_track_list());
}

#[test]
fn status_changes_set_the_controls() {
    let mut p = MprisPlayer::new(1000);
    assert_eq!(p.playback_status(), "Stopped");
    p.status_changed(PlaybackState::Paused, 5000);
    assert_eq!(p.playback_status(), "Paused");
    assert!(p.can_play() && !p.can_pause() && p.can_stop());
    assert_eq!(p.position_ts, 1000);
    p.status_changed(PlaybackState::Playing, 7000);
    assert!(p.can_pause() && p.can_stop());
    assert_eq!(p.position_ts, 7000);
    p.status_changed(PlaybackState::Null, 9000);
    assert!(!p.can_stop());
    assert_eq!(p.loop_status(), "None");
    assert!(!p.shuffle());
    assert!(p.can_seek() && p.can_control());
}

#[test]
fn clock_drift_is_corrected() {
    let mut p = MprisPlayer::new(10_000);
    assert_eq!(p.position_changed(3_500_000_000, 13_400), None);
    assert_eq!(p.position_changed(5_000_000_000, 13_400), Some(5_000_000));
    assert_eq!(p.position_ts, 8_400);
    assert_eq!(p.position(), 0);
}

#[test]
fn track_list_sets_next_and_previous() {
    let mut p = MprisPlayer::new(0);
    p.track_list_changed(Some(10), Some(0));
    assert_eq!(p.total_tracks, 10);
    assert!(!p.can_go_previous());
    assert!(p.can_go_next());
    p.track_list_changed(None, Some(9));
    assert!(p.can_go_previous());
    assert!(!p.can_go_next());
}

#[test]
fn metadata_prefers_the_album_artist() {
    let t = track(12, 4, TrackStatus::Playing);
    let meta = track_meta(&t, None);
    assert_eq!(meta.track_id, "/org/hifirs/Player/TrackList/12");
    assert_eq!(meta.title, "Song");
    assert_eq!(meta.track_number, 4);
    assert_eq!(meta.length, 3_000_000);
    assert_eq!(meta.artist.as_deref(), Some("Solo"));
    assert!(meta.album.is_none());
    let album = Album {
        id: "a".to_string(),
        title: " Record ".to_string(),
        artist: Artist { id: 2, name: "Band".to_string() },
        release_year: 2000,
        hires_available: false,
        explicit: false,
        total_tracks: 1,
        tracks: BTreeMap::new(),
        available: true,
        cover_art: "art".to_string(),
    };
    let meta = track_meta(&t, Some(&album));
    assert_eq!(meta.artist.as_deref(), Some("Band"));
    assert_eq!(meta.album.as_deref(), Some("Record"));
    assert_eq!(meta.album_artist.as_deref(), Some("Band"));
    assert_eq!(meta.art_url.as_deref(), Some("art"));
}

#[test]
fn track_list_offers_unplayed_places() {
    let mut q = BTreeMap::new();
    q.insert(1, track(1, 1, TrackStatus::Played));
    q.insert(2, track(2, 2, TrackStatus::Unplayed));
    q.insert(3, track(3, 3, TrackStatus::Unplayed));
    let list = TrackListValue::new(Some(q));
    let tl = MprisTrackList {};
    assert_eq!(tl.tracks(&list), vec!["2".to_string(), "3".to_string()]);
    assert!(!tl.can_edit_tracks());
    assert_eq!(tl.go_to("7"), Some(7));
    assert_eq!(tl.go_to("-7"), None);
    assert_eq!(tl.go_to("x"), None);
}

#[test]
fn metadata_for_requested_places() {
    let mut q = BTreeMap::new();
    q.insert(1, track(1, 1, TrackStatus::Played));
    q.insert(2, track(2, 2, TrackStatus::Unplayed));
    q.insert(3, track(3, 3, TrackStatus::Unplayed));
    let list = TrackListValue::new(Some(q));
    assert_eq!(list.all_tracks().iter().map(|t| t.id).collect::<Vec<u32>>(), vec![1, 2, 3]);
    let tl = MprisTrackList {};
    let metas = tl.get_tracks_metadata(&list, &vec!["3".to_string(), "1".to_string(), "9".to_string()]);
    let ids: Vec<String> = metas.iter().map(|m| m.track_id.clone()).collect();
    assert_eq!(
        ids,
        vec!["/org/hifirs/Player/TrackList/1".to_string(), "/org/hifirs/Player/TrackList/3".to_string()]
    );
}
