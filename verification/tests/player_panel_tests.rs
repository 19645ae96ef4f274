use hifi_rs::catalog::{ApiAlbum, ApiAlbumInfo, ApiArtist, ApiTrack, Image, Performer};
use hifi_rs::listing::{TrackListTrack, TrackURL};
use hifi_rs::player_panel::{
    current_track_panel, khz_text, progress_view, try_current_track_panel, year_text, ProgressView,
};
use hifi_rs::state::{ClockValue, PlaybackState, StatusValue};

const SECOND: u64 = 1_000_000_000;

fn track(title: &str, number: i64, performer: Option<&str>) -> ApiTrack {
    ApiTrack {
        title: title.to_string(),
        track_number: number,
        performer: performer.map(|n| Performer { id: 1, name: n.to_string() }),
        duration: 100,
        streamable: true,
        ..Default::default()
    }
}

fn album(date: &str) -> ApiAlbum {
    ApiAlbum {
        info: ApiAlbumInfo {
            artist: ApiArtist { name: "Band".to_string(), id: 1, albums_count: 1 },
            id: "a".to_string(),
            title: "Record".to_string(),
            release_date_original: date.to_string(),
            tracks_count: 9,
            image: Image::default(),
            ..Default::default()
        },
        tracks: None,
    }
}

fn lines(v: &[&str]) -> Vec<String> {
    v.iter().map(|s| s.to_string()).collect()
}

#[test]
fn clock_values_show_hours_minutes_seconds_and_nanoseconds() {
    assert_eq!(ClockValue(0).to_text(), "0:00:00.000000000");
    assert_eq!(ClockValue(3723 * SECOND + 5).to_text(), "1:02:03.000000005");
    assert_eq!(ClockValue(36000 * SECOND).to_text(), "10:00:00.000000000");
}

#[test]
fn progress_bar_buffers_loads_or_shows_a_gauge() {
    assert_eq!(progress_view(ClockValue(0), ClockValue(SECOND), true), ProgressView::Buffering);
    assert_eq!(progress_view(ClockValue(5 * SECOND), ClockValue(0), false), ProgressView::Loading);
    assert_eq!(
        progress_view(ClockValue(65 * SECOND + 7), ClockValue(754 * SECOND), false),
        ProgressView::Gauge { label: "01:05 / 12:34".to_string() }
    );
}

#[test]
fn years_are_written_as_the_date_format_writes_them() {
    assert_eq!(year_text(1999), "1999");
    assert_eq!(year_text(7), "0007");
    assert_eq!(year_text(-1), "-0001");
    assert_eq!(year_text(12345), "+12345");
}

#[test]
fn sampling_rates_are_written_in_kilohertz() {
    assert_eq!(khz_text(44_100), "44.1");
    assert_eq!(khz_text(96_000), "96");
    assert_eq!(khz_text(22_050), "22.05");
    assert_eq!(khz_text(11_025), "11.025");
    assert_eq!(khz_text(999), "0.999");
}

#[test]
fn panel_for_an_album_track_shows_its_number_and_album() {
    let mut e = TrackListTrack::new(track("Song", 3, Some("Singer")), Some(0), Some(9), None, Some(album("1999-05-01")));
    e.set_track_url(TrackURL { sampling_rate_hz: 96_000, bit_depth: 24, ..Default::default() });
    let p = current_track_panel(&e, StatusValue(PlaybackState::Playing), 20);
    assert_eq!(p.number, lines(&["", "03", "of", "09", ""]));
    assert_eq!(p.track, lines(&["", "Song", "Singer", "Record (1999)"]));
    assert_eq!(p.resolution, lines(&["", "\u{25B6}", "96khz", "24bit", ""]));
}

#[test]
fn panel_for_a_playlist_track_shows_its_place() {
    let e = TrackListTrack::new(track("A very long title", 3, None), Some(12), Some(140), None, None);
    let p = current_track_panel(&e, StatusValue(PlaybackState::VoidPending), 5);
    assert_eq!(p.number, lines(&["", "12", "of", "140", ""]));
    assert_eq!(p.track, lines(&["A very long title"]));
    assert_eq!(p.resolution, lines(&[""]));
    let p = current_track_panel(&e, StatusValue(PlaybackState::Null), 17);
    assert_eq!(p.track, lines(&["", "A very long title"]));
    assert_eq!(p.resolution, lines(&["", "NULL"]));
    assert_eq!(current_track_panel(&e, StatusValue(PlaybackState::Paused), 0).resolution[1], "\u{23F8}");
    assert_eq!(current_track_panel(&e, StatusValue(PlaybackState::Ready), 0).resolution[1], "...");
}

#[test]
fn panel_needs_a_readable_release_date() {
    let e = TrackListTrack::new(track("Song", 1, None), None, None, None, Some(album("someday")));
    assert!(try_current_track_panel(&e, StatusValue(PlaybackState::Paused), 10).is_none());
    let e = TrackListTrack::new(track("Song", 1, None), None, None, None, Some(album("2020-02-29")));
    let p = try_current_track_panel(&e, StatusValue(PlaybackState::Paused), 10).unwrap();
    assert_eq!(p.track[2], "Record (2020)");
}
