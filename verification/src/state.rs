//! Small values the player shares with its front ends: the screen on show,
//! wrapped strings, playback states and their labels, clock values and skip
//! directions.
use vstd::prelude::*;

verus! {

/// The screen the terminal interface shows.
#[derive(Debug, Clone, Copy, PartialEq, Eq, Structural, Hash)]
pub enum ActiveScreen {
    NowPlaying,
    Search,
    Playlists,
}

/// The name a screen is stored under.
pub open spec fn screen_name(s: ActiveScreen) -> Seq<char> {
    match s {
        ActiveScreen::NowPlaying => "now_playing"@,
        ActiveScreen::Search => "search"@,
        ActiveScreen::Playlists => "playlists"@,
    }
}

impl ActiveScreen {
    /// The name the screen is stored under.
    pub fn as_str(&self) -> (r: &'static str)
        ensures
            r@ == screen_name(*self),
    {
        match self {
            ActiveScreen::NowPlaying => "now_playing",
            ActiveScreen::Search => "search",
            ActiveScreen::Playlists => "playlists",
        }
    }
}

/// The screen after `s` when cycling through them.
pub open spec fn next_screen(s: ActiveScreen) -> ActiveScreen {
    match s {
        ActiveScreen::NowPlaying => ActiveScreen::Search,
        ActiveScreen::Search => ActiveScreen::Playlists,
        ActiveScreen::Playlists => ActiveScreen::NowPlaying,
    }
}

impl ActiveScreen {
    /// The screen after this one: now playing, search, playlists, and round again.
    pub fn next(&self) -> (r: ActiveScreen)
        ensures
            r == next_screen(*self),
    {
        match self {
            ActiveScreen::NowPlaying => ActiveScreen::Search,
            ActiveScreen::Search => ActiveScreen::Playlists,
            ActiveScreen::Playlists => ActiveScreen::NowPlaying,
        }
    }
}

/// A wrapped string value.
#[derive(Debug, Clone)]
pub struct StringValue(pub String);

impl View for StringValue {
    type V = Seq<char>;

    open spec fn view(&self) -> Seq<char> {
        self.0@
    }
}

impl From<String> for StringValue {
    fn from(string: String) -> (r: StringValue) {
        StringValue(string)
    }
}

impl vstd::std_specs::convert::FromSpecImpl<String> for StringValue {
    open spec fn obeys_from_spec() -> bool {
        true
    }

    open spec fn from_spec(v: String) -> StringValue {
        StringValue(v)
    }
}

impl StringValue {
    /// Wraps `string`.
    pub fn new(string: String) -> (r: StringValue)
        ensures
            r@ == string@,
    {
        StringValue(string)
    }

    /// The wrapped text.
    pub fn as_str(&self) -> (r: &str)
        ensures
            r@ == self@,
    {
        self.0.as_str()
    }

    /// The wrapped text, as the value shows itself.
    pub fn to_text(&self) -> (r: String)
        ensures
            r@ == self@,
    {
        self.0.clone()
    }
}

/// The state of the audio pipeline.
#[derive(Debug, Clone, Copy, PartialEq, Eq, Structural, Hash)]
pub enum PlaybackState {
    VoidPending,
    Null,
    Ready,
    Paused,
    Playing,
}

/// A playback state as shown to the user.
#[derive(Debug, Clone, Copy, PartialEq, Eq, Structural)]
pub struct StatusValue(pub PlaybackState);

/// The label of a playback state.
pub open spec fn status_label(s: PlaybackState) -> Seq<char> {
    match s {
        PlaybackState::Playing => "Playing"@,
        PlaybackState::Paused => "Paused"@,
        PlaybackState::Null => "Stopped"@,
        PlaybackState::VoidPending => "Stopped"@,
        PlaybackState::Ready => "Ready"@,
    }
}

impl StatusValue {
    /// The label of the wrapped state: "Playing", "Paused", "Stopped" or "Ready".
    pub fn as_str(&self) -> (r: &'static str)
        ensures
            r@ == status_label(self.0),
    {
        match self.0 {
            PlaybackState::Playing => "Playing",
            PlaybackState::Paused => "Paused",
            PlaybackState::Null => "Stopped",
            PlaybackState::VoidPending => "Stopped",
            PlaybackState::Ready => "Ready",
        }
    }
}

/// A point in a track, in nanoseconds.
#[derive(Debug, Clone, Copy, PartialEq, Eq, Structural)]
pub struct ClockValue(pub u64);

impl ClockValue {
    /// The wrapped time, in nanoseconds.
    pub fn inner_clocktime(&self) -> (r: u64)
        ensures
            r == self.0,
    {
        self.0
    }

    /// Whole seconds of the wrapped time.
    pub fn seconds(&self) -> (r: u64)
        ensures
            r == self.0 / 1_000_000_000,
    {
        self.0 / 1_000_000_000
    }
}

impl Default for ClockValue {
    fn default() -> (r: Self)
        ensures
            r.0 == 0,
    {
        ClockValue(0)
    }
}

/// Which way a skip goes through the track list.
#[derive(Debug, Clone, Copy, PartialEq, Eq, Structural)]
pub enum SkipDirection {
    Forward,
    Backward,
}

/// The name of a skip direction.
pub open spec fn direction_name(d: SkipDirection) -> Seq<char> {
    match d {
        SkipDirection::Forward => "forward"@,
        SkipDirection::Backward => "backward"@,
    }
}

impl SkipDirection {
    /// The name of the direction ("forward" or "backward").
    pub fn as_str(&self) -> (r: &'static str)
        ensures
            r@ == direction_name(*self),
    {
        match self {
            SkipDirection::Forward => "forward",
            SkipDirection::Backward => "backward",
        }
    }
}


} // verus!
