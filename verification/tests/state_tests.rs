use hifi_rs::state::{ActiveScreen, ClockValue, PlaybackState, SkipDirection, StatusValue, StringValue};
use hifi_rs::text::{split_char, starts_with, str_eq};

#[test]
fn screen_names() {
    assert_eq!(ActiveScreen::NowPlaying.as_str(), "now_playing");
    assert_eq!(ActiveScreen::Search.as_str(), "search");
    assert_eq!(ActiveScreen::Playlists.as_str(), "playlists");
}

#[test]
fn string_values_wrap_text() {
    let v = StringValue::from("hello".to_string());
    assert_eq!(v.as_str(), "hello");
    assert_eq!(v.to_text(), "hello");
    assert_eq!(StringValue::new("x".to_string()).as_str(), "x");
}

#[test]
fn status_labels() {
    assert_eq!(StatusValue(PlaybackState::Playing).as_str(), "Playing");
    assert_eq!(StatusValue(PlaybackState::Paused).as_str(), "Paused");
    assert_eq!(StatusValue(PlaybackState::Null).as_str(), "Stopped");
    assert_eq!(StatusValue(PlaybackState::VoidPending).as_str(), "Stopped");
    assert_eq!(StatusValue(PlaybackState::Ready).as_str(), "Ready");
}

#[test]
fn clock_values_and_directions() {
    let c = ClockValue(3_500_000_000);
    assert_eq!(c.inner_clocktime(), 3_500_000_000);
    assert_eq!(c.seconds(), 3);
    assert_eq!(ClockValue::default().inner_clocktime(), 0);
    assert_eq!(SkipDirection::Forward.as_str(), "forward");
    assert_eq!(SkipDirection::Backward.as_str(), "backward");
}

#[test]
fn text_helpers() {
    assert!(starts_with("S24LE", "S24"));
    assert!(!starts_with("S2", "S24"));
    assert!(str_eq("abc", "abc"));
    assert!(!str_eq("abc", "abd"));
    assert_eq!(split_char("a,b,,c", ','), vec!["a", "b", "", "c"]);
    assert_eq!(split_char("", ','), vec![""]);
}
