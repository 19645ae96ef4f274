use std::collections::BTreeMap;

use hifi_rs::cursive_ui::{duration_text, CursiveFormat, CursiveUI, UiCommand, UiEvent};
use hifi_rs::display::{
    album_entry_id, buffering_text, current_list_entries, entry_choice, entry_playable, pad_number,
    playlist_entry_label, playlist_entry_value, status_clears_progress, status_symbol, track_entry_id,
    EntryChoice, UNSTREAMABLE,
};
use hifi_rs::queue::{TrackListType, TrackListValue};
use hifi_rs::service::{Album, AlbumInfo, Artist, Track, TrackStatus};
use hifi_rs::state::PlaybackState;

fn track(id: u32, position: u32, status: TrackStatus) -> Track {
    Track {
        id,
        number: position + 10,
        title: " Tune ".to_string(),
        album: None,
        artist: Some(Artist { id: 1, name: "Ann".to_string() }),
        duration_seconds: 125,
        explicit: true,
        hires_available: true,
        sampling_rate_hz: 96_000,
        bit_depth: 24,
        status,
        track_url: None,
        available: true,
        cover_art: None,
        position,
        media_number: 1,
    }
}

fn album(available: bool) -> Album {
    Album {
        id: "al".to_string(),
        title: "LP".to_string(),
        artist: Artist { id: 2, name: "Band".to_string() },
        release_year: 1987,
        hires_available: false,
        explicit: false,
        total_tracks: 0,
        tracks: BTreeMap::new(),
        available,
        cover_art: String::new(),
    }
}

#[test]
fn status_symbols() {
    assert_eq!(status_symbol(PlaybackState::Playing).as_deref(), Some(" \u{23f5}"));
    assert_eq!(status_symbol(PlaybackState::Paused).as_deref(), Some(" \u{23f8}"));
    assert_eq!(status_symbol(PlaybackState::Null).as_deref(), Some(" \u{23f9}"));
    assert_eq!(status_symbol(PlaybackState::VoidPending), None);
    assert!(status_clears_progress(PlaybackState::Ready));
    assert!(!status_clears_progress(PlaybackState::Paused));
    assert_eq!(buffering_text(true, PlaybackState::Playing, 40).as_deref(), Some("40%"));
    assert_eq!(buffering_text(false, PlaybackState::Paused, 40).as_deref(), Some(" \u{23f8}"));
}

#[test]
fn padding_and_durations() {
    assert_eq!(pad_number(7, 3), "007");
    assert_eq!(pad_number(1234, 3), "1234");
    assert_eq!(pad_number(0, 2), "00");
    assert_eq!(duration_text(125), "02:05");
    assert_eq!(duration_text(3599), "59:59");
    assert_eq!(duration_text(3600 * 10 + 5), ":00:0");
}

#[test]
fn result_entries() {
    assert_eq!(album_entry_id(&album(true)), "al");
    assert_eq!(album_entry_id(&album(false)), UNSTREAMABLE);
    let mut t = track(31, 1, TrackStatus::Unplayed);
    assert_eq!(track_entry_id(&t), "31");
    assert!(entry_playable("31"));
    assert!(!entry_playable(UNSTREAMABLE));
    assert_eq!(playlist_entry_value(&t), (31, None));
    t.album = Some(AlbumInfo {
        id: "x".to_string(),
        title: "X".to_string(),
        artist: Artist { id: 2, name: "B".to_string() },
        release_year: 2000,
        hires_available: false,
        explicit: false,
        total_tracks: 1,
        available: false,
        cover_art: String::new(),
    });
    t.available = false;
    assert_eq!(playlist_entry_value(&t), (-1, Some(UNSTREAMABLE.to_string())));
    assert_eq!(track_entry_id(&t), UNSTREAMABLE);
    assert_eq!(playlist_entry_label(3, "Tune"), "03 Tune");
}

#[test]
fn entry_choices() {
    assert_eq!(entry_choice((-1, None)), EntryChoice::Nothing);
    assert_eq!(entry_choice((5, None)), EntryChoice::PlayTrack { track: 5 });
    assert_eq!(
        entry_choice((5, Some("a".to_string()))),
        EntryChoice::AskTrackOrAlbum { track: 5, album: "a".to_string() }
    );
}

#[test]
fn current_list_shows_unplayed_then_played() {
    let mut q = BTreeMap::new();
    q.insert(1, track(1, 1, TrackStatus::Played));
    q.insert(2, track(2, 2, TrackStatus::Playing));
    q.insert(3, track(3, 3, TrackStatus::Unplayed));
    let list = TrackListValue::new(Some(q));
    assert_eq!(current_list_entries(&list), vec![(3, false), (1, true)]);
}

#[test]
fn labels() {
    let t = track(1, 4, TrackStatus::Unplayed);
    let spans = t.list_item();
    let text: String = spans.iter().map(|s| s.text.clone()).collect();
    assert_eq!(text, "Tune by Ann 02:05 e*");
    assert!(spans[0].effects.bold);
    let item = t.track_list_item(TrackListType::Album, true);
    let text: String = item.iter().map(|s| s.text.clone()).collect();
    assert_eq!(text, "14 Tune 02:05");
    assert!(item[0].effects.strikethrough);
    let item = t.track_list_item(TrackListType::Playlist, false);
    assert_eq!(item[0].text, "04 ");
    let a = album(false).list_item();
    let text: String = a.iter().map(|s| s.text.clone()).collect();
    assert_eq!(text, "LP by Band 1987 ");
    assert!(a[0].effects.dim);
    let ar = Artist { id: 1, name: "Who".to_string() }.list_item();
    assert_eq!(ar[0].text, "Who");
}

#[test]
fn menu_and_keys() {
    let mut ui = CursiveUI::new();
    assert_eq!(ui.handle_event(UiEvent::EnterUrlMenu), vec![UiCommand::OpenUrlPanel]);
    assert_eq!(ui.handle_event(UiEvent::EnterUrlMenu), vec![]);
    assert_eq!(
        ui.handle_event(UiEvent::ShowScreen { screen: 2 }),
        vec![UiCommand::PopLayer, UiCommand::SetScreen { screen: 2 }]
    );
    assert_eq!(ui.handle_event(UiEvent::ShowScreen { screen: 0 }), vec![UiCommand::SetScreen { screen: 0 }]);
    assert_eq!(ui.handle_event(UiEvent::EnterUrlKey), vec![UiCommand::OpenUrlPanel]);
    assert_eq!(
        ui.handle_event(UiEvent::UrlSubmitted { url: "u".to_string() }),
        vec![UiCommand::PlayUri { uri: "u".to_string() }, UiCommand::PopLayer]
    );
    assert!(!ui.enter_url_open);
    assert_eq!(ui.handle_event(UiEvent::Key { key: 'N' }), vec![UiCommand::Next]);
    assert_eq!(ui.handle_event(UiEvent::Key { key: 'q' }), vec![]);
    assert_eq!(ui.handle_event(UiEvent::Interrupt), vec![UiCommand::AskQuit]);
}

#[test]
fn albums_and_artists_have_no_current_list_label() {
    assert!(album(true).track_list_item(TrackListType::Album, false).is_empty());
    let artist = Artist { id: 1, name: "a".to_string() };
    assert!(artist.track_list_item(TrackListType::Playlist, true).is_empty());
}
