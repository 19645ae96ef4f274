//! The player's state: the track list, the track playing, the pipeline
//! status and the status the player aims for, and the record of it that is
//! saved between sessions.
use std::collections::BTreeMap;
use vstd::prelude::*;

use crate::playback::MAX_CLOCK_NANOS;
use crate::queue::{
    last_skip_target, list_type_name, no_skip_target, skip_update, urls_view, with_status,
    TrackListType, TrackListValue, TrackListView,
};
use crate::service::{copy_opt_string, opt_str, tracks_view, Album, AlbumView, Playlist, PlaylistView, Track, TrackStatus, TrackView};
use crate::state::PlaybackState;
use crate::text::{decimal, parse_i32, parse_i64, parsed_i32, parsed_i64, u32_text};

verus! {

broadcast use vstd::std_specs::btree::group_btree_axioms;

/// The player's state.
#[derive(Debug, Clone)]
pub struct PlayerState {
    current_track: Option<Track>,
    tracklist: TrackListValue,
    status: PlaybackState,
    resume: bool,
    target_status: PlaybackState,
}

/// What the player's state holds.
pub struct PlayerStateView {
    pub current_track: Option<TrackView>,
    pub tracklist: TrackListView,
    pub status: PlaybackState,
    pub resume: bool,
    pub target_status: PlaybackState,
}

/// The view of an optional track.
pub open spec fn opt_track(t: Option<Track>) -> Option<TrackView> {
    match t {
        Some(t) => Some(t@),
        None => None,
    }
}

impl View for PlayerState {
    type V = PlayerStateView;

    closed spec fn view(&self) -> PlayerStateView {
        PlayerStateView {
            current_track: opt_track(self.current_track),
            tracklist: self.tracklist@,
            status: self.status,
            resume: self.resume,
            target_status: self.target_status,
        }
    }
}

/// The track with the address `url` attached, where one was fetched.
pub open spec fn attached(t: TrackView, url: Option<Seq<char>>) -> TrackView {
    match url {
        Some(u) => TrackView { track_url: Some(u), ..t },
        None => t,
    }
}

/// The tracks of `q` with the track under key 1 marked as playing.
pub open spec fn first_playing(q: Map<u32, TrackView>) -> Map<u32, TrackView> {
    if q.contains_key(1) {
        q.insert(1, with_status(q[1], TrackStatus::Playing))
    } else {
        q
    }
}

/// Whether `k` is the least key of `q`.
pub open spec fn is_first_key(q: Map<u32, TrackView>, k: u32) -> bool {
    q.contains_key(k) && forall|j: u32| q.contains_key(j) ==> k <= j
}

/// The list an album is played from: its tracks, the first of them playing.
pub open spec fn album_list(a: AlbumView) -> TrackListView {
    TrackListView {
        queue: first_playing(a.tracks),
        album: Some(a),
        playlist: None,
        list_type: TrackListType::Album,
    }
}

/// The list a playlist is played from: its tracks, the first of them playing.
pub open spec fn playlist_list(p: PlaylistView) -> TrackListView {
    TrackListView {
        queue: first_playing(p.tracks),
        album: None,
        playlist: Some(p),
        list_type: TrackListType::Playlist,
    }
}

/// A single track as it is played on its own: playing, numbered 1.
pub open spec fn lone_track(t: TrackView) -> TrackView {
    TrackView { status: TrackStatus::Playing, number: 1, ..t }
}

/// The list a single track is played from.
pub open spec fn track_list_of(t: TrackView) -> TrackListView {
    TrackListView {
        queue: map![t.position => lone_track(t)],
        album: None,
        playlist: None,
        list_type: TrackListType::Track,
    }
}

/// What playing from `list` (first track `first_url` fetched for) makes of
/// the current track, the target status and the address handed to the
/// pipeline: nothing changes and no address comes back when the list is
/// empty; otherwise its first track (with the fetched address) is current,
/// the player aims to play, and that track's address is returned.
pub open spec fn started(
    old: PlayerStateView,
    new: PlayerStateView,
    list: TrackListView,
    url: Option<Seq<char>>,
    r: Option<Seq<char>>,
) -> bool {
    &&& new.tracklist == list
    &&& new.status == old.status
    &&& new.resume == old.resume
    &&& if list.queue.dom().is_empty() {
        &&& r is None
        &&& new.current_track == old.current_track
        &&& new.target_status == old.target_status
    } else {
        exists|k: u32| {
            &&& is_first_key(list.queue, k)
            &&& new.current_track == Some(attached(list.queue[k], url))
            &&& new.target_status == PlaybackState::Playing
            &&& r == attached(list.queue[k], url).track_url
        }
    }
}

/// What a skip to `index` makes of the state: the list's tracks are marked as
/// `skip_update` says, and the last track it plays, if any, is current.
pub open spec fn skipped(
    old: PlayerStateView,
    new: PlayerStateView,
    index: u32,
    urls: Seq<(u32, Seq<char>)>,
    r: Option<TrackView>,
) -> bool {
    &&& new.tracklist.queue == old.tracklist.queue.map_values(|t: TrackView| skip_update(t, index, urls))
    &&& new.tracklist.album == old.tracklist.album
    &&& new.tracklist.playlist == old.tracklist.playlist
    &&& new.tracklist.list_type == old.tracklist.list_type
    &&& new.status == old.status
    &&& new.resume == old.resume
    &&& new.target_status == old.target_status
    &&& match r {
        Some(t) => {
            &&& new.current_track == Some(t)
            &&& exists|k: u32| last_skip_target(old.tracklist.queue, index, urls, k) && t == new.tracklist.queue[k]
        },
        None => {
            &&& new.current_track == old.current_track
            &&& no_skip_target(old.tracklist.queue, index, urls)
        },
    }
}

impl PlayerState {
    /// A fresh state: no list, no current track, stopped, aiming to stay stopped.
    pub fn new() -> (r: PlayerState)
        ensures
            r@.current_track is None,
            r@.tracklist.queue == Map::<u32, TrackView>::empty(),
            r@.tracklist.album is None,
            r@.tracklist.playlist is None,
            r@.tracklist.list_type == TrackListType::Unknown,
            r@.status == PlaybackState::Null,
            r@.target_status == PlaybackState::Null,
            !r@.resume,
    {
        let tracklist = TrackListValue::new(None);
        proof {
            assert(tracks_view(Map::<u32, Track>::empty()) =~= Map::<u32, TrackView>::empty());
        }
        PlayerState {
            current_track: None,
            tracklist,
            status: PlaybackState::Null,
            target_status: PlaybackState::Null,
            resume: false,
        }
    }

    /// Records the pipeline's status.
    pub fn set_status(&mut self, status: PlaybackState)
        ensures
            final(self)@ == (PlayerStateView { status, ..old(self)@ }),
    {
        self.status = status;
    }

    /// The pipeline's recorded status.
    pub fn status(&self) -> (r: PlaybackState)
        ensures
            r == self@.status,
    {
        self.status
    }

    /// Makes `track` the current track.
    pub fn set_current_track(&mut self, track: Track)
        ensures
            final(self)@ == (PlayerStateView { current_track: Some(track@), ..old(self)@ }),
    {
        self.current_track = Some(track);
    }

    /// Records whether the session was resumed.
    pub fn set_resume(&mut self, resume: bool)
        ensures
            final(self)@ == (PlayerStateView { resume, ..old(self)@ }),
    {
        self.resume = resume;
    }

    /// Whether the session was resumed.
    pub fn resume(&self) -> (r: bool)
        ensures
            r == self@.resume,
    {
        self.resume
    }

    /// A copy of the current track.
    pub fn current_track(&self) -> (r: Option<Track>)
        ensures
            opt_track(r) == self@.current_track,
    {
        match &self.current_track {
            Some(t) => Some(t.duplicate()),
            None => None,
        }
    }

    /// The place of the current track in its list, or 0 without one.
    pub fn current_track_position(&self) -> (r: u32)
        ensures
            r == (match self@.current_track {
                Some(t) => t.position,
                None => 0,
            }),
    {
        if let Some(track) = &self.current_track {
            track.position
        } else {
            0
        }
    }

    /// The tracks of the list not yet played, in key order.
    pub fn unplayed_tracks(&self) -> (r: Vec<&Track>)
        ensures
            crate::queue::refs_view(r@) == crate::queue::tracks_with_status(
                self@.tracklist.queue,
                TrackStatus::Unplayed,
            ),
    {
        self.tracklist.unplayed_tracks()
    }

    /// The tracks of the list already played, in key order.
    pub fn played_tracks(&self) -> (r: Vec<&Track>)
        ensures
            crate::queue::refs_view(r@) == crate::queue::tracks_with_status(
                self@.tracklist.queue,
                TrackStatus::Played,
            ),
    {
        self.tracklist.played_tracks()
    }

    /// The album the list was made from.
    pub fn album(&self) -> (r: Option<&Album>)
        ensures
            match r {
                Some(a) => self@.tracklist.album == Some(a@),
                None => self@.tracklist.album is None,
            },
    {
        self.tracklist.get_album()
    }

    /// What kind of list is loaded.
    pub fn list_type(&self) -> (r: TrackListType)
        ensures
            r == self@.tracklist.list_type,
    {
        *self.tracklist.list_type()
    }

    /// The playlist the list was made from.
    pub fn playlist(&self) -> (r: Option<&Playlist>)
        ensures
            match r {
                Some(p) => self@.tracklist.playlist == Some(p@),
                None => self@.tracklist.playlist is None,
            },
    {
        self.tracklist.get_playlist()
    }

    /// Loads `tracklist` in place of the current list.
    pub fn replace_list(&mut self, tracklist: TrackListValue)
        ensures
            final(self)@ == (PlayerStateView { tracklist: tracklist@, ..old(self)@ }),
    {
        self.tracklist = tracklist;
    }

    /// A copy of the loaded list.
    pub fn track_list(&self) -> (r: TrackListValue)
        ensures
            r@ == self@.tracklist,
    {
        self.tracklist.duplicate()
    }

    /// Sets the status of the list's track under key `position`, if there is one.
    pub fn set_track_status(&mut self, position: u32, status: TrackStatus)
        ensures
            final(self)@.tracklist.queue == crate::queue::status_set(old(self)@.tracklist.queue, position, status),
            final(self)@.tracklist.album == old(self)@.tracklist.album,
            final(self)@.tracklist.playlist == old(self)@.tracklist.playlist,
            final(self)@.tracklist.list_type == old(self)@.tracklist.list_type,
            final(self)@.current_track == old(self)@.current_track,
            final(self)@.status == old(self)@.status,
            final(self)@.resume == old(self)@.resume,
            final(self)@.target_status == old(self)@.target_status,
    {
        self.tracklist.set_track_status(position, status);
    }

    /// The status the player aims for.
    pub fn target_status(&self) -> (r: PlaybackState)
        ensures
            r == self@.target_status,
    {
        self.target_status
    }

    /// Sets the status the player aims for.
    pub fn set_target_status(&mut self, target: PlaybackState)
        ensures
            final(self)@ == (PlayerStateView { target_status: target, ..old(self)@ }),
    {
        self.target_status = target;
    }

    /// Empties the list, forgets the current track, records the pipeline as
    /// stopped and the session as not resumed; the target status is kept.
    pub fn reset(&mut self)
        ensures
            final(self)@.tracklist.queue == Map::<u32, TrackView>::empty(),
            final(self)@.tracklist.album is None,
            final(self)@.tracklist.playlist is None,
            final(self)@.tracklist.list_type == TrackListType::Unknown,
            final(self)@.current_track is None,
            final(self)@.status == PlaybackState::Null,
            !final(self)@.resume,
            final(self)@.target_status == old(self)@.target_status,
    {
        self.tracklist.clear();
        self.current_track = None;
        self.status = PlaybackState::Null;
        self.resume = false;
    }

    /// Makes the first track of `tracklist` (already loaded) current, with
    /// `url` attached, and aims to play; returns the track's address.
    fn start_first(&mut self, tracklist: &TrackListValue, url: Option<String>) -> (r: Option<String>)
        requires
            tracklist@ == old(self)@.tracklist,
        ensures
            started(old(self)@, final(self)@, old(self)@.tracklist, opt_str(url), opt_str(r)),
    {
        let ghost before = self@;
        let ghost u = opt_str(url);
        match tracklist.first_track() {
            Some(first) => {
                let ghost k = choose|k: u32| {
                    &&& tracklist@.queue.contains_key(k)
                    &&& first@ == tracklist@.queue[k]
                    &&& forall|j: u32| tracklist@.queue.contains_key(j) ==> k <= j
                };
                let mut first_track = first.duplicate();
                if let Some(u) = url {
                    first_track.track_url = Some(u);
                }
                let r = copy_opt_string(&first_track.track_url);
                self.set_current_track(first_track);
                self.set_target_status(PlaybackState::Playing);
                proof {
                    assert(is_first_key(before.tracklist.queue, k));
                    assert(first_track@ == attached(before.tracklist.queue[k], u));
                    assert(!before.tracklist.queue.dom().is_empty()) by {
                        assert(before.tracklist.queue.dom().contains(k));
                    }
                }
                r
            },
            None => None,
        }
    }

    /// Plays `album`: its tracks become the list (the first marked playing),
    /// and its first track, with the address `url` fetched for it, becomes
    /// current. Returns the address to hand to the pipeline.
    pub fn play_album(&mut self, album: Album, url: Option<String>) -> (r: Option<String>)
        ensures
            started(old(self)@, final(self)@, album_list(album@), opt_str(url), opt_str(r)),
    {
        let ghost a = album@;
        let mut tracklist = TrackListValue::new(Some(album.tracks.clone()));
        tracklist.set_album(album);
        tracklist.set_list_type(TrackListType::Album);
        tracklist.set_track_status(1, TrackStatus::Playing);
        proof {
            assert(tracklist@.queue == first_playing(a.tracks));
            assert(tracklist@ == album_list(a));
        }
        self.replace_list(tracklist.duplicate());
        self.start_first(&tracklist, url)
    }

    /// Plays `playlist` as `play_album` plays an album.
    pub fn play_playlist(&mut self, playlist: Playlist, url: Option<String>) -> (r: Option<String>)
        ensures
            started(old(self)@, final(self)@, playlist_list(playlist@), opt_str(url), opt_str(r)),
    {
        let ghost p = playlist@;
        let mut tracklist = TrackListValue::new(Some(playlist.tracks.clone()));
        tracklist.set_playlist(playlist);
        tracklist.set_list_type(TrackListType::Playlist);
        tracklist.set_track_status(1, TrackStatus::Playing);
        proof {
            assert(tracklist@.queue == first_playing(p.tracks));
            assert(tracklist@ == playlist_list(p));
        }
        self.replace_list(tracklist.duplicate());
        self.start_first(&tracklist, url)
    }

    /// Plays a single `track`: it becomes the only track of the list, playing
    /// and numbered 1, and becomes current with the address `url` fetched for
    /// it. Returns the address to hand to the pipeline.
    pub fn play_track(&mut self, track: Track, url: Option<String>) -> (r: Option<String>)
        ensures
            final(self)@.tracklist == track_list_of(track@),
            final(self)@.current_track == Some(attached(lone_track(track@), opt_str(url))),
            final(self)@.target_status == PlaybackState::Playing,
            final(self)@.status == old(self)@.status,
            final(self)@.resume == old(self)@.resume,
            opt_str(r) == attached(lone_track(track@), opt_str(url)).track_url,
    {
        let mut track = track;
        track.status = TrackStatus::Playing;
        track.number = 1;
        let tracklist = Self::single_track_list(&track);
        self.replace_list(tracklist);
        if let Some(u) = url {
            track.track_url = Some(u);
        }
        let r = copy_opt_string(&track.track_url);
        self.set_current_track(track);
        self.set_target_status(PlaybackState::Playing);
        r
    }

    /// A list of the one track `track`, under its place.
    fn single_track_list(track: &Track) -> (r: TrackListValue)
        ensures
            r@ == (TrackListView {
                queue: map![track.position => track@],
                album: None,
                playlist: None,
                list_type: TrackListType::Track,
            }),
    {
        proof {
            crate::ordering_facts::lemma_u32_key_model();
        }
        let mut queue: BTreeMap<u32, Track> = BTreeMap::new();
        queue.insert(track.position, track.duplicate());
        let mut tracklist = TrackListValue::new(Some(queue));
        tracklist.set_list_type(TrackListType::Track);
        proof {
            assert(tracks_view(queue@) =~= map![track.position => track@]);
        }
        tracklist
    }

    /// Skips to place `index` of the list, with the addresses fetched (by
    /// track id) for the tracks there: the list's tracks are marked as
    /// `skip_update` says, and the last track in key order that now plays
    /// becomes current and is returned.
    pub fn skip_track(&mut self, index: u32, urls: &Vec<(u32, String)>) -> (r: Option<Track>)
        ensures
            skipped(old(self)@, final(self)@, index, urls_view(urls@), opt_track(r)),
    {
        let current = self.tracklist.mark_skip(index, urls);
        match current {
            Some(c) => {
                self.current_track = Some(c.duplicate());
                Some(c)
            },
            None => None,
        }
    }

    /// The place a skip in `direction` (or to `index`, when given) goes to,
    /// from the current track, in a list standing for `total()` tracks.
    pub fn skip_destination(&self, index: Option<u32>, direction: crate::state::SkipDirection) -> (r: Option<u32>)
        ensures
            r == crate::playback::skip_destination(
                index,
                match self@.current_track {
                    Some(t) => Some(t.position),
                    None => None,
                },
                direction,
                crate::queue::list_total(self@.tracklist),
            ),
    {
        let current = match &self.current_track {
            Some(t) => Some(t.position),
            None => None,
        };
        crate::playback::skip_target_index(index, current, direction, self.tracklist.total())
    }

    /// Skips in `direction`, or to place `index` when one is given: the
    /// place is chosen from the current track as `skip_destination` says,
    /// then the list is marked and the track that now plays made current as
    /// `skip_track` does. With no place to go, nothing changes and there is
    /// no track.
    pub fn skip(&mut self, index: Option<u32>, direction: crate::state::SkipDirection, urls: &Vec<(u32, String)>) -> (r: Option<Track>)
        ensures
            match crate::playback::skip_destination(
                index,
                match old(self)@.current_track {
                    Some(t) => Some(t.position),
                    None => None,
                },
                direction,
                crate::queue::list_total(old(self)@.tracklist),
            ) {
                Some(place) => skipped(old(self)@, final(self)@, place, urls_view(urls@), opt_track(r)),
                None => r is None && final(self)@ == old(self)@,
            },
    {
        match self.skip_destination(index, direction) {
            Some(place) => self.skip_track(place, urls),
            None => None,
        }
    }

    /// Loads `album` as the last session left it: its tracks (none marked
    /// playing) as the list, then a skip to place `index`.
    pub fn restore_album(&mut self, album: Album, index: u32, urls: &Vec<(u32, String)>) -> (r: Option<Track>)
        ensures
            skipped(
                PlayerStateView {
                    tracklist: TrackListView {
                        queue: album@.tracks,
                        album: Some(album@),
                        playlist: None,
                        list_type: TrackListType::Album,
                    },
                    ..old(self)@
                },
                final(self)@,
                index,
                urls_view(urls@),
                opt_track(r),
            ),
    {
        self.replace_list(TrackListValue::new(Some(album.tracks.clone())));
        self.tracklist.set_list_type(TrackListType::Album);
        self.tracklist.set_album(album);
        self.skip_track(index, urls)
    }

    /// Loads `playlist` as the last session left it, as `restore_album` does.
    pub fn restore_playlist(&mut self, playlist: Playlist, index: u32, urls: &Vec<(u32, String)>) -> (r: Option<Track>)
        ensures
            skipped(
                PlayerStateView {
                    tracklist: TrackListView {
                        queue: playlist@.tracks,
                        album: None,
                        playlist: Some(playlist@),
                        list_type: TrackListType::Playlist,
                    },
                    ..old(self)@
                },
                final(self)@,
                index,
                urls_view(urls@),
                opt_track(r),
            ),
    {
        self.replace_list(TrackListValue::new(Some(playlist.tracks.clone())));
        self.tracklist.set_list_type(TrackListType::Playlist);
        self.tracklist.set_playlist(playlist);
        self.skip_track(index, urls)
    }

    /// Loads a single `track` as the last session left it: the only track of
    /// the list, playing and numbered 1, then a skip to place `index`.
    pub fn restore_track(&mut self, track: Track, index: u32, urls: &Vec<(u32, String)>) -> (r: Option<Track>)
        ensures
            skipped(
                PlayerStateView { tracklist: track_list_of(track@), ..old(self)@ },
                final(self)@,
                index,
                urls_view(urls@),
                opt_track(r),
            ),
    {
        let mut track = track;
        track.status = TrackStatus::Playing;
        track.number = 1;
        let tracklist = Self::single_track_list(&track);
        self.replace_list(tracklist);
        self.tracklist.set_list_type(TrackListType::Track);
        self.skip_track(index, urls)
    }
}

/// The record of a session that is saved between runs.
#[derive(Debug, Clone)]
pub struct SavedState {
    pub rowid: i64,
    pub playback_track_id: i64,
    pub playback_position: i64,
    pub playback_track_index: i64,
    pub playback_entity_id: String,
    pub playback_entity_type: String,
}

impl Default for SavedState {
    fn default() -> (r: Self)
        ensures
            r.rowid == 0,
            r.playback_track_id == 0,
            r.playback_position == 0,
            r.playback_track_index == 0,
            r.playback_entity_id@ == Seq::<char>::empty(),
            r.playback_entity_type@ == Seq::<char>::empty(),
    {
        SavedState {
            rowid: 0,
            playback_track_id: 0,
            playback_position: 0,
            playback_track_index: 0,
            playback_entity_id: String::new(),
            playback_entity_type: String::new(),
        }
    }
}

/// Whether a state can be saved: a list made from an album or a playlist
/// still has it.
pub open spec fn savable(s: PlayerStateView) -> bool {
    s.current_track is Some ==> {
        &&& s.tracklist.list_type == TrackListType::Album ==> s.tracklist.album is Some
        &&& s.tracklist.list_type == TrackListType::Playlist ==> s.tracklist.playlist is Some
    }
}

/// The id of the entity a saved session plays from.
pub open spec fn saved_entity_id(s: PlayerStateView) -> Seq<char> {
    match s.tracklist.list_type {
        TrackListType::Album => s.tracklist.album.unwrap().id,
        TrackListType::Playlist => decimal(s.tracklist.playlist.unwrap().id as nat),
        TrackListType::Track => decimal(s.current_track.unwrap().id as nat),
        TrackListType::Unknown => Seq::empty(),
    }
}

impl SavedState {
    /// The record of `state`, with the pipeline at `position` (nanoseconds,
    /// if known): empty without a current track; otherwise the current
    /// track's id and place, the position in milliseconds, and the kind and
    /// id of the entity the list was made from.
    pub fn from_state(state: &PlayerState, position: Option<u64>) -> (r: SavedState)
        requires
            savable(state@),
        ensures
            match state@.current_track {
                Some(t) => {
                    &&& r.rowid == 0
                    &&& r.playback_track_id == t.id as i64
                    &&& r.playback_track_index == t.position as i64
                    &&& r.playback_position == (match position {
                        Some(p) => p / 1_000_000,
                        None => 0,
                    })
                    &&& r.playback_entity_type@ == list_type_name(state@.tracklist.list_type)
                    &&& r.playback_entity_id@ == saved_entity_id(state@)
                },
                None => {
                    &&& r.rowid == 0
                    &&& r.playback_track_id == 0
                    &&& r.playback_position == 0
                    &&& r.playback_track_index == 0
                    &&& r.playback_entity_id@ == Seq::<char>::empty()
                    &&& r.playback_entity_type@ == Seq::<char>::empty()
                },
            },
    {
        match &state.current_track {
            Some(current_track) => {
                let playback_track_index = current_track.position as i64;
                let playback_track_id = current_track.id as i64;
                let millis: u64 = match position {
                    Some(p) => p / 1_000_000,
                    None => 0,
                };
                let playback_position = millis as i64;
                let list_type = state.list_type();
                let playback_entity_id = match list_type {
                    TrackListType::Album => match state.album() {
                        Some(a) => a.id.clone(),
                        None => String::new(),
                    },
                    TrackListType::Playlist => match state.playlist() {
                        Some(p) => u32_text(p.id),
                        None => String::new(),
                    },
                    TrackListType::Track => u32_text(current_track.id),
                    TrackListType::Unknown => String::new(),
                };
                SavedState {
                    rowid: 0,
                    playback_position,
                    playback_track_id,
                    playback_entity_id,
                    playback_entity_type: list_type.as_str().to_string(),
                    playback_track_index,
                }
            },
            None => SavedState::default(),
        }
    }
}

/// What a saved session asks to be fetched again.
#[derive(Debug, Clone, PartialEq, Eq)]
pub enum RestoreRequest {
    Album { id: String },
    Playlist { id: i64 },
    Track { id: i32 },
}

/// Whether a saved session can be read back: its kind is a known one, and
/// its id reads as a playlist's or a track's number where the kind asks.
pub open spec fn restorable(saved: SavedState) -> bool {
    let kind = crate::queue::list_type_from_name(saved.playback_entity_type@);
    &&& kind != TrackListType::Unknown
    &&& kind == TrackListType::Playlist ==> parsed_i64(saved.playback_entity_id@) is Some
    &&& kind == TrackListType::Track ==> parsed_i32(saved.playback_entity_id@) is Some
}

/// What to fetch to read a saved session back, the place to skip to, and the
/// position to seek to, in nanoseconds.
pub fn restore_request(saved: &SavedState) -> (r: (RestoreRequest, u32, u64))
    requires
        restorable(*saved),
        (saved.playback_position as u64) * 1_000_000 <= MAX_CLOCK_NANOS,
    ensures
        match crate::queue::list_type_from_name(saved.playback_entity_type@) {
            TrackListType::Album => r.0 matches RestoreRequest::Album { id } && id@ == saved.playback_entity_id@,
            TrackListType::Playlist => r.0 == RestoreRequest::Playlist {
                id: parsed_i64(saved.playback_entity_id@).unwrap(),
            },
            _ => r.0 == RestoreRequest::Track { id: parsed_i32(saved.playback_entity_id@).unwrap() },
        },
        r.1 == saved.playback_track_index as u32,
        r.2 == (saved.playback_position as u64) * 1_000_000,
{
    let kind = TrackListType::from_name(saved.playback_entity_type.as_str());
    let request = match kind {
        TrackListType::Album => RestoreRequest::Album { id: saved.playback_entity_id.clone() },
        TrackListType::Playlist => match parse_i64(saved.playback_entity_id.as_str()) {
            Some(id) => RestoreRequest::Playlist { id },
            None => RestoreRequest::Playlist { id: 0 },
        },
        _ => match parse_i32(saved.playback_entity_id.as_str()) {
            Some(id) => RestoreRequest::Track { id },
            None => RestoreRequest::Track { id: 0 },
        },
    };
    let index = saved.playback_track_index as u32;
    let millis = saved.playback_position as u64;
    (request, index, millis * 1_000_000)
}

} // verus!
