//! What each terminal screen does with a key: the changes to its own state,
//! and the player or service command the key asks for. Commands that fetch
//! from the service are carried out by the caller, which hands the outcome
//! back.
use vstd::prelude::*;

use crate::state::{next_screen, ActiveScreen};
use crate::screens::{
    next_index, page_down_defined, page_down_index, page_up_index, previous_index, ColumnWidth, Key,
    List, Row, Table,
};

verus! {

/// What a key asks the player or the service for.
#[derive(Debug, Clone, PartialEq, Eq)]
pub enum ScreenCommand {
    Nothing,
    JumpForward,
    JumpBackward,
    PlayPause,
    Next,
    Previous,
    /// Search the service's artists for the text.
    SearchArtists { query: String },
    /// Open the search result at the index.
    OpenResult { index: usize },
    /// Skip to the current list's track shown at the row.
    SkipTo { index: usize },
}

/// What became of a key.
#[derive(Debug, Clone, PartialEq, Eq)]
pub enum KeyAnswer {
    /// The key was not used.
    Ignored,
    /// The key was used; the command is to be carried out.
    Handled(ScreenCommand),
    /// The key is used if carrying out the command succeeds.
    IfDone(ScreenCommand),
}

/// The command of a player key shared by the screens: space toggles play,
/// 'N' and 'P' skip, right/'l' and left/'h' jump.
pub open spec fn player_key(key: Key) -> Option<ScreenCommand> {
    match key {
        Key::Right => Some(ScreenCommand::JumpForward),
        Key::Left => Some(ScreenCommand::JumpBackward),
        Key::Char(c) => if c == 'l' {
            Some(ScreenCommand::JumpForward)
        } else if c == 'h' {
            Some(ScreenCommand::JumpBackward)
        } else if c == ' ' {
            Some(ScreenCommand::PlayPause)
        } else if c == 'N' {
            Some(ScreenCommand::Next)
        } else if c == 'P' {
            Some(ScreenCommand::Previous)
        } else {
            None
        },
        _ => None,
    }
}

/// Whether a key moves down ("down" or 'j').
pub open spec fn is_down(key: Key) -> bool {
    key == Key::Down || key == Key::Char('j')
}

/// Whether a key moves up ("up" or 'k').
pub open spec fn is_up(key: Key) -> bool {
    key == Key::Up || key == Key::Char('k')
}

/// The now-playing screen: the current list and where it is scrolled.
#[derive(Debug, Clone)]
pub struct NowPlayingScreen {
    pub track_list: Table,
    pub list_height: usize,
    pub current_track_index: usize,
}

/// Whether the now-playing screen can take `key` without failing: "end"
/// needs a row, and a page down must stay in range.
pub open spec fn now_playing_accepts(s: NowPlayingScreen, key: Key) -> bool {
    &&& key == Key::End ==> s.track_list.row_list().len() > 0
    &&& key == Key::PageDown ==> page_down_defined(s.track_list.selection(), s.track_list.row_list().len(), s.list_height)
}

/// The selection of the now-playing list after `key`.
pub open spec fn now_playing_selection(s: NowPlayingScreen, key: Key) -> Option<usize> {
    let t = s.track_list;
    let len = t.row_list().len();
    if is_down(key) {
        Some(next_index(t.selection(), len))
    } else if is_up(key) {
        Some(previous_index(t.selection(), len))
    } else if key == Key::Home {
        Some(0usize)
    } else if key == Key::End {
        Some((len - 1) as usize)
    } else if key == Key::PageDown {
        Some(page_down_index(t.selection(), len, s.list_height))
    } else if key == Key::PageUp {
        Some(page_up_index(t.selection(), s.list_height))
    } else {
        t.selection()
    }
}

/// What the now-playing screen answers to `key`: "enter" asks to skip to
/// the selected row's track.
pub open spec fn now_playing_answer(s: NowPlayingScreen, key: Key) -> KeyAnswer {
    if key == Key::Char('\n') {
        match s.track_list.selection() {
            Some(i) => KeyAnswer::Handled(ScreenCommand::SkipTo { index: i }),
            None => KeyAnswer::Handled(ScreenCommand::Nothing),
        }
    } else if is_down(key) || is_up(key) || key == Key::Home || key == Key::End || key == Key::PageDown || key
        == Key::PageUp {
        KeyAnswer::Handled(ScreenCommand::Nothing)
    } else {
        match player_key(key) {
            Some(c) => KeyAnswer::Handled(c),
            None => KeyAnswer::Ignored,
        }
    }
}

impl NowPlayingScreen {
    /// A screen with an empty list.
    pub fn new() -> (r: NowPlayingScreen)
        ensures
            r.track_list.row_list().len() == 0,
            r.track_list.selection() == Some(0usize),
            r.list_height == 0,
            r.current_track_index == 0,
    {
        NowPlayingScreen { track_list: Table::new(None, None, None), list_height: 0, current_track_index: 0 }
    }

    /// Answers `key`: moves through the list, asks to skip to the selected
    /// track, or asks the player to act.
    pub fn key_events(&mut self, key: Key) -> (r: KeyAnswer)
        requires
            now_playing_accepts(*old(self), key),
        ensures
            r == now_playing_answer(*old(self), key),
            final(self).track_list.selection() == now_playing_selection(*old(self), key),
            final(self).track_list.row_list() == old(self).track_list.row_list(),
            final(self).list_height == old(self).list_height,
            final(self).current_track_index == old(self).current_track_index,
    {
        match key {
            Key::Down | Key::Char('j') => {
                self.track_list.next();
                KeyAnswer::Handled(ScreenCommand::Nothing)
            },
            Key::Up | Key::Char('k') => {
                self.track_list.previous();
                KeyAnswer::Handled(ScreenCommand::Nothing)
            },
            Key::Right | Key::Char('l') => KeyAnswer::Handled(ScreenCommand::JumpForward),
            Key::Left | Key::Char('h') => KeyAnswer::Handled(ScreenCommand::JumpBackward),
            Key::Home => {
                self.track_list.home();
                KeyAnswer::Handled(ScreenCommand::Nothing)
            },
            Key::End => {
                self.track_list.end();
                KeyAnswer::Handled(ScreenCommand::Nothing)
            },
            Key::PageDown => {
                self.track_list.page_down(self.list_height);
                KeyAnswer::Handled(ScreenCommand::Nothing)
            },
            Key::PageUp => {
                self.track_list.page_up(self.list_height);
                KeyAnswer::Handled(ScreenCommand::Nothing)
            },
            Key::Char(' ') => KeyAnswer::Handled(ScreenCommand::PlayPause),
            Key::Char('N') => KeyAnswer::Handled(ScreenCommand::Next),
            Key::Char('P') => KeyAnswer::Handled(ScreenCommand::Previous),
            Key::Char('\n') => match self.track_list.selected() {
                Some(index) => KeyAnswer::Handled(ScreenCommand::SkipTo { index }),
                None => KeyAnswer::Handled(ScreenCommand::Nothing),
            },
            _ => KeyAnswer::Ignored,
        }
    }
}

/// The text of a list of characters (`String::from_iter`).
#[verifier::external_body]
fn chars_text(v: &Vec<char>) -> (r: String)
    ensures
        r@ == v@,
{
    String::from_iter(v.iter())
}

/// The search screen: the results table, whether there are results, the
/// query being typed and whether it is being typed.
#[derive(Debug, Clone)]
pub struct SearchScreen {
    pub results_table: Table,
    pub has_results: bool,
    pub search_query: Vec<char>,
    pub enter_search: bool,
    pub results_height: usize,
}

/// Whether the search screen can take `key` without failing.
pub open spec fn search_accepts(s: SearchScreen, key: Key) -> bool {
    &&& key == Key::End ==> s.results_table.row_list().len() > 0
    &&& key == Key::PageDown ==> page_down_defined(
        s.results_table.selection(),
        s.results_table.row_list().len(),
        s.results_height,
    )
}

/// The query after `key` on the search screen: while typing, characters are
/// added and "backspace" removes one; the arrow keys never change it.
pub open spec fn search_query_after(s: SearchScreen, key: Key) -> Seq<char> {
    let q = s.search_query@;
    if !s.enter_search {
        q
    } else {
        match key {
            Key::Backspace => if q.len() > 0 { q.drop_last() } else { q },
            Key::Char(c) => if c == '\n' || c == '/' { q } else { q.push(c) },
            _ => q,
        }
    }
}

/// The selection of the results after `key` on the search screen: "up" and
/// "down" move it, and so do 'k' and 'j' unless a query is being typed.
pub open spec fn search_selection(s: SearchScreen, key: Key) -> Option<usize> {
    let t = s.results_table;
    let len = t.row_list().len();
    if key == Key::Down || (!s.enter_search && key == Key::Char('j')) {
        Some(next_index(t.selection(), len))
    } else if key == Key::Up || (!s.enter_search && key == Key::Char('k')) {
        Some(previous_index(t.selection(), len))
    } else if key == Key::Home {
        Some(0usize)
    } else if key == Key::End {
        Some((len - 1) as usize)
    } else if key == Key::PageDown {
        Some(page_down_index(t.selection(), len, s.results_height))
    } else if key == Key::PageUp {
        Some(page_up_index(t.selection(), s.results_height))
    } else {
        t.selection()
    }
}

/// Whether typing is on after `key`: '/' starts it, "escape" stops it.
pub open spec fn search_typing_after(s: SearchScreen, key: Key) -> bool {
    if s.enter_search {
        key != Key::Esc
    } else {
        key == Key::Char('/')
    }
}

/// What the search screen answers to `key`.
pub open spec fn search_answer(s: SearchScreen, key: Key) -> KeyAnswer {
    let typing = s.enter_search;
    match key {
        Key::Up | Key::Down | Key::Home | Key::End | Key::PageUp | Key::PageDown => KeyAnswer::Handled(ScreenCommand::Nothing),
        Key::Right => KeyAnswer::Handled(if typing { ScreenCommand::Nothing } else { ScreenCommand::JumpForward }),
        Key::Left => KeyAnswer::Handled(if typing { ScreenCommand::Nothing } else { ScreenCommand::JumpBackward }),
        Key::Backspace | Key::Esc => if typing { KeyAnswer::Handled(ScreenCommand::Nothing) } else { KeyAnswer::Ignored },
        Key::Char(c) => if c == '\n' {
            if typing {
                KeyAnswer::IfDone(ScreenCommand::SearchArtists { query: arbitrary() })
            } else {
                match s.results_table.selection() {
                    Some(i) => if s.has_results {
                        KeyAnswer::IfDone(ScreenCommand::OpenResult { index: i })
                    } else {
                        KeyAnswer::Ignored
                    },
                    None => KeyAnswer::Ignored,
                }
            }
        } else if typing {
            if c == '/' { KeyAnswer::Ignored } else { KeyAnswer::Handled(ScreenCommand::Nothing) }
        } else if c == 'j' || c == 'k' || c == '/' {
            KeyAnswer::Handled(ScreenCommand::Nothing)
        } else {
            match player_key(key) {
                Some(cmd) => KeyAnswer::Handled(cmd),
                None => KeyAnswer::Ignored,
            }
        },
        Key::Ctrl(_) | Key::Other => KeyAnswer::Ignored,
    }
}

/// Whether two answers agree, a search command's query aside.
pub open spec fn same_answer(a: KeyAnswer, b: KeyAnswer) -> bool {
    match (a, b) {
        (KeyAnswer::IfDone(ScreenCommand::SearchArtists { .. }), KeyAnswer::IfDone(ScreenCommand::SearchArtists { .. })) => true,
        _ => a == b,
    }
}

impl SearchScreen {
    /// Answers `key`: typing edits the query and "enter" searches; otherwise
    /// keys move through the results, open one, or ask the player to act.
    pub fn key_events(&mut self, key: Key) -> (r: KeyAnswer)
        requires
            search_accepts(*old(self), key),
        ensures
            same_answer(r, search_answer(*old(self), key)),
            r matches KeyAnswer::IfDone(ScreenCommand::SearchArtists { query }) ==> query@ == old(self).search_query@,
            final(self).search_query@ == search_query_after(*old(self), key),
            final(self).results_table.selection() == search_selection(*old(self), key),
            final(self).results_table.row_list() == old(self).results_table.row_list(),
            final(self).enter_search == search_typing_after(*old(self), key),
            final(self).has_results == old(self).has_results,
            final(self).results_height == old(self).results_height,
    {
        let typing = self.enter_search;
        match key {
            Key::Up => {
                self.results_table.previous();
                KeyAnswer::Handled(ScreenCommand::Nothing)
            },
            Key::Down => {
                self.results_table.next();
                KeyAnswer::Handled(ScreenCommand::Nothing)
            },
            Key::Char('k') => {
                if typing {
                    self.search_query.push('k');
                } else {
                    self.results_table.previous();
                }
                KeyAnswer::Handled(ScreenCommand::Nothing)
            },
            Key::Char('j') => {
                if typing {
                    self.search_query.push('j');
                } else {
                    self.results_table.next();
                }
                KeyAnswer::Handled(ScreenCommand::Nothing)
            },
            Key::Right | Key::Char('l') => {
                if typing {
                    if key == Key::Char('l') {
                        self.search_query.push('l');
                    }
                    KeyAnswer::Handled(ScreenCommand::Nothing)
                } else {
                    KeyAnswer::Handled(ScreenCommand::JumpForward)
                }
            },
            Key::Left | Key::Char('h') => {
                if typing {
                    if key == Key::Char('h') {
                        self.search_query.push('h');
                    }
                    KeyAnswer::Handled(ScreenCommand::Nothing)
                } else {
                    KeyAnswer::Handled(ScreenCommand::JumpBackward)
                }
            },
            Key::Backspace => {
                if typing {
                    self.search_query.pop();
                    KeyAnswer::Handled(ScreenCommand::Nothing)
                } else {
                    KeyAnswer::Ignored
                }
            },
            Key::Esc => {
                if typing {
                    self.enter_search = false;
                    KeyAnswer::Handled(ScreenCommand::Nothing)
                } else {
                    KeyAnswer::Ignored
                }
            },
            Key::Home => {
                self.results_table.home();
                KeyAnswer::Handled(ScreenCommand::Nothing)
            },
            Key::End => {
                self.results_table.end();
                KeyAnswer::Handled(ScreenCommand::Nothing)
            },
            Key::PageDown => {
                self.results_table.page_down(self.results_height);
                KeyAnswer::Handled(ScreenCommand::Nothing)
            },
            Key::PageUp => {
                self.results_table.page_up(self.results_height);
                KeyAnswer::Handled(ScreenCommand::Nothing)
            },
            Key::Char(c) => {
                if c == ' ' || c == 'N' || c == 'P' {
                    if typing {
                        self.search_query.push(c);
                        KeyAnswer::Handled(ScreenCommand::Nothing)
                    } else if c == ' ' {
                        KeyAnswer::Handled(ScreenCommand::PlayPause)
                    } else if c == 'N' {
                        KeyAnswer::Handled(ScreenCommand::Next)
                    } else {
                        KeyAnswer::Handled(ScreenCommand::Previous)
                    }
                } else if c == '\n' {
                    if typing {
                        let query = chars_text(&self.search_query);
                        KeyAnswer::IfDone(ScreenCommand::SearchArtists { query })
                    } else {
                        match self.results_table.selected() {
                            Some(index) => {
                                if self.has_results {
                                    KeyAnswer::IfDone(ScreenCommand::OpenResult { index })
                                } else {
                                    KeyAnswer::Ignored
                                }
                            },
                            None => KeyAnswer::Ignored,
                        }
                    }
                } else if c == '/' {
                    if !typing {
                        self.enter_search = true;
                        KeyAnswer::Handled(ScreenCommand::Nothing)
                    } else {
                        KeyAnswer::Ignored
                    }
                } else {
                    if typing {
                        self.search_query.push(c);
                        KeyAnswer::Handled(ScreenCommand::Nothing)
                    } else {
                        KeyAnswer::Ignored
                    }
                }
            },
            Key::Ctrl(_) | Key::Other => KeyAnswer::Ignored,
        }
    }

    /// Takes the outcome of an artist search: with results, they fill the
    /// table, the first is selected and typing stops; the key counts as used
    /// only then.
    pub fn finish_search(&mut self, rows: Option<Vec<Row>>) -> (r: bool)
        ensures
            r == rows is Some,
            match rows {
                Some(v) => {
                    &&& final(self).results_table.row_list() == v@
                    &&& final(self).results_table.selection() == Some(0usize)
                    &&& final(self).has_results
                    &&& !final(self).enter_search
                },
                None => {
                    &&& final(self).results_table.row_list() == old(self).results_table.row_list()
                    &&& final(self).results_table.selection() == old(self).results_table.selection()
                    &&& final(self).has_results == old(self).has_results
                    &&& final(self).enter_search == old(self).enter_search
                },
            },
            final(self).search_query@ == old(self).search_query@,
            final(self).results_height == old(self).results_height,
    {
        match rows {
            Some(v) => {
                self.results_table.set_rows(v);
                self.results_table.select(0);
                self.has_results = true;
                self.enter_search = false;
                true
            },
            None => false,
        }
    }
}

/// The playlists screen: the user's playlists, an opened playlist's tracks,
/// and the two pop-ups that ask what to do with a choice.
#[derive(Debug, Clone)]
pub struct MyPlaylistsScreen {
    pub mylists: List,
    pub selected_playlist_table: Table,
    pub show_album_or_track_popup: bool,
    pub show_play_or_open_popup: bool,
    pub show_album_or_track_selection: usize,
    pub show_play_or_open_popup_selection: usize,
    pub show_selected_playlist: bool,
    pub screen_height: usize,
}

/// What a pop-up asks the service for when "enter" is pressed in it.
#[derive(Debug, Clone, Copy, PartialEq, Eq, Structural)]
pub enum PopupRequest {
    Nothing,
    /// Play the album of the opened playlist's track at the index.
    PlayAlbumOfTrack { track: usize },
    /// Play the opened playlist's track at the index.
    PlayTrack { track: usize },
    /// Open the user's playlist at the index.
    OpenPlaylist { list: usize },
    /// Play the user's playlist at the index.
    PlayPlaylist { list: usize },
}

/// How a pop-up request turned out.
#[derive(Debug, Clone)]
pub enum PopupOutcome {
    /// Nothing was done (the request failed or found nothing).
    Failed,
    /// The album or track was handed to the player.
    TrackPlaying,
    /// The playlist was fetched; its rows, header and column widths.
    PlaylistOpened { rows: Vec<Row>, header: Vec<String>, widths: Vec<ColumnWidth> },
    /// The playlist was handed to the player.
    PlaylistPlaying,
}

/// A pop-up's choice after left or right: the two choices swap, any other
/// value stays.
pub open spec fn toggled(sel: usize) -> usize {
    if sel == 0 {
        1
    } else if sel == 1 {
        0
    } else {
        sel
    }
}

/// Whether a key is left, right, 'h' or 'l'.
pub open spec fn is_sideways(key: Key) -> bool {
    key == Key::Right || key == Key::Left || key == Key::Char('h') || key == Key::Char('l')
}

/// The request "enter" makes in the pop-ups of `s`.
pub open spec fn popup_request_of(s: MyPlaylistsScreen) -> PopupRequest {
    if s.show_album_or_track_popup {
        match s.selected_playlist_table.selection() {
            Some(t) => if s.show_album_or_track_selection == 0 {
                PopupRequest::PlayAlbumOfTrack { track: t }
            } else if s.show_album_or_track_selection == 1 {
                PopupRequest::PlayTrack { track: t }
            } else {
                PopupRequest::Nothing
            },
            None => PopupRequest::Nothing,
        }
    } else if s.show_play_or_open_popup {
        match s.mylists.selection() {
            Some(l) => if s.show_play_or_open_popup_selection == 0 {
                PopupRequest::OpenPlaylist { list: l }
            } else if s.show_play_or_open_popup_selection == 1 {
                PopupRequest::PlayPlaylist { list: l }
            } else {
                PopupRequest::Nothing
            },
            None => PopupRequest::Nothing,
        }
    } else {
        PopupRequest::Nothing
    }
}

impl MyPlaylistsScreen {
    /// A screen with no playlists loaded and no pop-up.
    pub fn new() -> (r: MyPlaylistsScreen)
        ensures
            r.mylists.item_list().len() == 0,
            r.mylists.selection() is None,
            r.selected_playlist_table.row_list().len() == 0,
            !r.show_album_or_track_popup,
            !r.show_play_or_open_popup,
            !r.show_selected_playlist,
            r.show_album_or_track_selection == 0,
            r.show_play_or_open_popup_selection == 0,
            r.screen_height == 0,
    {
        MyPlaylistsScreen {
            mylists: List::new(None),
            selected_playlist_table: Table::new(None, None, None),
            show_album_or_track_popup: false,
            show_play_or_open_popup: false,
            show_album_or_track_selection: 0,
            show_play_or_open_popup_selection: 0,
            show_selected_playlist: false,
            screen_height: 0,
        }
    }

    /// Whether a pop-up is open; while one is, keys go to `popup_step`, and
    /// otherwise to `list_step`.
    pub fn popup_open(&self) -> (r: bool)
        ensures
            r == (self.show_album_or_track_popup || self.show_play_or_open_popup),
    {
        self.show_album_or_track_popup || self.show_play_or_open_popup
    }

    /// A key while a pop-up is open: left and right swap its choice,
    /// "escape" dismisses it (the album-or-track pop-up first, when both are
    /// open), and "enter" makes the chosen request, which the caller carries
    /// out and reports back through `popup_done`. Returns the request and
    /// whether the key was used here (enter counts as used once its request
    /// is carried out). With no pop-up open nothing changes.
    pub fn popup_step(&mut self, key: Key) -> (r: (PopupRequest, bool))
        ensures
            final(self).mylists == old(self).mylists,
            final(self).selected_playlist_table == old(self).selected_playlist_table,
            final(self).show_selected_playlist == old(self).show_selected_playlist,
            final(self).screen_height == old(self).screen_height,
            if old(self).show_album_or_track_popup || old(self).show_play_or_open_popup {
                &&& final(self).show_album_or_track_selection == (if is_sideways(key)
                    && old(self).show_album_or_track_popup {
                    toggled(old(self).show_album_or_track_selection)
                } else {
                    old(self).show_album_or_track_selection
                })
                &&& final(self).show_play_or_open_popup_selection == (if is_sideways(key)
                    && !old(self).show_album_or_track_popup {
                    toggled(old(self).show_play_or_open_popup_selection)
                } else {
                    old(self).show_play_or_open_popup_selection
                })
                &&& final(self).show_album_or_track_popup == (old(self).show_album_or_track_popup && key != Key::Esc)
                &&& final(self).show_play_or_open_popup == (old(self).show_play_or_open_popup && !(key == Key::Esc
                    && !old(self).show_album_or_track_popup))
                &&& r.0 == (if key == Key::Char('\n') {
                    popup_request_of(*old(self))
                } else {
                    PopupRequest::Nothing
                })
                &&& r.1 == (is_sideways(key) || key == Key::Esc)
            } else {
                &&& final(self).show_album_or_track_selection == old(self).show_album_or_track_selection
                &&& final(self).show_play_or_open_popup_selection == old(self).show_play_or_open_popup_selection
                &&& final(self).show_album_or_track_popup == old(self).show_album_or_track_popup
                &&& final(self).show_play_or_open_popup == old(self).show_play_or_open_popup
                &&& r == (PopupRequest::Nothing, false)
            },
    {
        if !(self.show_album_or_track_popup || self.show_play_or_open_popup) {
            return (PopupRequest::Nothing, false);
        }
        match key {
            Key::Right | Key::Left | Key::Char('h') | Key::Char('l') => {
                if self.show_album_or_track_popup {
                    if self.show_album_or_track_selection == 0 {
                        self.show_album_or_track_selection = 1;
                    } else if self.show_album_or_track_selection == 1 {
                        self.show_album_or_track_selection = 0;
                    }
                } else if self.show_play_or_open_popup {
                    if self.show_play_or_open_popup_selection == 0 {
                        self.show_play_or_open_popup_selection = 1;
                    } else if self.show_play_or_open_popup_selection == 1 {
                        self.show_play_or_open_popup_selection = 0;
                    }
                }
                (PopupRequest::Nothing, true)
            },
            Key::Esc => {
                if self.show_album_or_track_popup {
                    self.show_album_or_track_popup = false;
                } else {
                    self.show_play_or_open_popup = false;
                }
                (PopupRequest::Nothing, true)
            },
            Key::Char('\n') => {
                let request = if self.show_album_or_track_popup {
                    match self.selected_playlist_table.selected() {
                        Some(t) => {
                            if self.show_album_or_track_selection == 0 {
                                PopupRequest::PlayAlbumOfTrack { track: t }
                            } else if self.show_album_or_track_selection == 1 {
                                PopupRequest::PlayTrack { track: t }
                            } else {
                                PopupRequest::Nothing
                            }
                        },
                        None => PopupRequest::Nothing,
                    }
                } else {
                    match self.mylists.selected() {
                        Some(l) => {
                            if self.show_play_or_open_popup_selection == 0 {
                                PopupRequest::OpenPlaylist { list: l }
                            } else if self.show_play_or_open_popup_selection == 1 {
                                PopupRequest::PlayPlaylist { list: l }
                            } else {
                                PopupRequest::Nothing
                            }
                        },
                        None => PopupRequest::Nothing,
                    }
                };
                (request, false)
            },
            _ => (PopupRequest::Nothing, false),
        }
    }

    /// Takes the outcome of a pop-up request: a track or album handed to the
    /// player closes the album-or-track pop-up; an opened playlist fills the
    /// table (first row selected), is shown, and closes the play-or-open
    /// pop-up; a played playlist closes that pop-up. Returns whether the
    /// player's screen should be shown next.
    pub fn popup_done(&mut self, outcome: PopupOutcome) -> (r: bool)
        ensures
            r == (outcome is TrackPlaying || outcome is PlaylistPlaying),
            final(self).mylists == old(self).mylists,
            final(self).screen_height == old(self).screen_height,
            final(self).show_album_or_track_selection == old(self).show_album_or_track_selection,
            final(self).show_play_or_open_popup_selection == old(self).show_play_or_open_popup_selection,
            final(self).show_album_or_track_popup == (old(self).show_album_or_track_popup && !(outcome is TrackPlaying)),
            final(self).show_play_or_open_popup == (old(self).show_play_or_open_popup && !(outcome is PlaylistOpened
                || outcome is PlaylistPlaying)),
            final(self).show_selected_playlist == (old(self).show_selected_playlist || outcome is PlaylistOpened),
            match outcome {
                PopupOutcome::PlaylistOpened { rows, header, widths } => {
                    &&& final(self).selected_playlist_table.row_list() == rows@
                    &&& final(self).selected_playlist_table.header_list() == header@
                    &&& final(self).selected_playlist_table.width_list() == widths@
                    &&& final(self).selected_playlist_table.selection() == Some(0usize)
                },
                _ => final(self).selected_playlist_table == old(self).selected_playlist_table,
            },
    {
        match outcome {
            PopupOutcome::Failed => false,
            PopupOutcome::TrackPlaying => {
                self.show_album_or_track_popup = false;
                true
            },
            PopupOutcome::PlaylistOpened { rows, header, widths } => {
                self.selected_playlist_table.set_rows(rows);
                self.selected_playlist_table.set_header(header);
                self.selected_playlist_table.set_widths(widths);
                self.selected_playlist_table.select(0);
                self.show_selected_playlist = true;
                self.show_play_or_open_popup = false;
                false
            },
            PopupOutcome::PlaylistPlaying => {
                self.show_play_or_open_popup = false;
                true
            },
        }
    }

    /// A key while no pop-up is open. An opened playlist is the list on
    /// show: the moving keys move through it alone, "escape" closes it and
    /// "enter" asks album or track. Otherwise the moving keys move through
    /// the user's playlists and "enter" asks play or open. 'r' asks for the
    /// playlists to be fetched again either way. Returns whether the key was
    /// used and whether the playlists are to be fetched again.
    pub fn list_step(&mut self, key: Key) -> (r: (bool, bool))
        requires
            old(self).show_selected_playlist ==> {
                &&& key == Key::End ==> old(self).selected_playlist_table.row_list().len() > 0
                &&& key == Key::PageDown ==> page_down_defined(
                    old(self).selected_playlist_table.selection(),
                    old(self).selected_playlist_table.row_list().len(),
                    old(self).screen_height,
                )
            },
            !old(self).show_selected_playlist ==> (key == Key::End ==> old(self).mylists.item_list().len() > 0),
        ensures
            r.0 == (if old(self).show_selected_playlist {
                is_down(key) || is_up(key) || key == Key::Home || key == Key::End || key == Key::PageDown || key
                    == Key::PageUp || key == Key::Esc || key == Key::Char('\n') || key == Key::Char('r')
            } else {
                is_down(key) || is_up(key) || key == Key::Home || key == Key::End || key == Key::Char('r') || key
                    == Key::Char('\n')
            }),
            r.1 == (key == Key::Char('r')),
            final(self).mylists.item_list() == old(self).mylists.item_list(),
            final(self).mylists.selection() == (if old(self).show_selected_playlist {
                old(self).mylists.selection()
            } else if is_down(key) {
                Some(next_index(old(self).mylists.selection(), old(self).mylists.item_list().len()))
            } else if is_up(key) {
                Some(previous_index(old(self).mylists.selection(), old(self).mylists.item_list().len()))
            } else if key == Key::Home {
                Some(0usize)
            } else if key == Key::End {
                Some((old(self).mylists.item_list().len() - 1) as usize)
            } else {
                old(self).mylists.selection()
            }),
            final(self).selected_playlist_table.row_list() == old(self).selected_playlist_table.row_list(),
            final(self).selected_playlist_table.selection() == (if !old(self).show_selected_playlist {
                old(self).selected_playlist_table.selection()
            } else {
                let t = old(self).selected_playlist_table;
                let len = t.row_list().len();
                if is_down(key) {
                    Some(next_index(t.selection(), len))
                } else if is_up(key) {
                    Some(previous_index(t.selection(), len))
                } else if key == Key::Home {
                    Some(0usize)
                } else if key == Key::End {
                    Some((len - 1) as usize)
                } else if key == Key::PageDown {
                    Some(page_down_index(t.selection(), len, old(self).screen_height))
                } else if key == Key::PageUp {
                    Some(page_up_index(t.selection(), old(self).screen_height))
                } else {
                    t.selection()
                }
            }),
            final(self).show_selected_playlist == (old(self).show_selected_playlist && key != Key::Esc),
            final(self).show_album_or_track_popup == (old(self).show_album_or_track_popup || (
            old(self).show_selected_playlist && key == Key::Char('\n'))),
            final(self).show_play_or_open_popup == (old(self).show_play_or_open_popup || (
            !old(self).show_selected_playlist && key == Key::Char('\n'))),
            final(self).show_album_or_track_selection == old(self).show_album_or_track_selection,
            final(self).show_play_or_open_popup_selection == old(self).show_play_or_open_popup_selection,
            final(self).screen_height == old(self).screen_height,
    {
        if self.show_selected_playlist {
            match key {
                Key::Down | Key::Char('j') => {
                    self.selected_playlist_table.next();
                    (true, false)
                },
                Key::Up | Key::Char('k') => {
                    self.selected_playlist_table.previous();
                    (true, false)
                },
                Key::Esc => {
                    self.show_selected_playlist = false;
                    (true, false)
                },
                Key::Home => {
                    self.selected_playlist_table.home();
                    (true, false)
                },
                Key::End => {
                    self.selected_playlist_table.end();
                    (true, false)
                },
                Key::PageDown => {
                    self.selected_playlist_table.page_down(self.screen_height);
                    (true, false)
                },
                Key::PageUp => {
                    self.selected_playlist_table.page_up(self.screen_height);
                    (true, false)
                },
                Key::Char('\n') => {
                    self.show_album_or_track_popup = true;
                    (true, false)
                },
                Key::Char('r') => (true, true),
                _ => (false, false),
            }
        } else {
            match key {
                Key::Down | Key::Char('j') => {
                    self.mylists.next();
                    (true, false)
                },
                Key::Up | Key::Char('k') => {
                    self.mylists.previous();
                    (true, false)
                },
                Key::Home => {
                    self.mylists.select(0);
                    (true, false)
                },
                Key::End => {
                    let last = self.mylists.len() - 1;
                    self.mylists.select(last);
                    (true, false)
                },
                Key::Char('r') => (true, true),
                Key::Char('\n') => {
                    self.show_play_or_open_popup = true;
                    (true, false)
                },
                _ => (false, false),
            }
        }
    }

    /// Takes the names of the user's playlists fetched again; the selection
    /// is kept as `List::set_items` keeps it, which can leave it one past
    /// the last name, on purpose.
    pub fn lists_refreshed(&mut self, names: Vec<String>)
        ensures
            final(self).mylists.item_list() == names@,
            final(self).mylists.selection() == Some(match old(self).mylists.selection() {
                Some(s) => if s > names@.len() { names@.len() as usize } else { s },
                None => 0usize,
            }),
            final(self).selected_playlist_table == old(self).selected_playlist_table,
            final(self).show_album_or_track_popup == old(self).show_album_or_track_popup,
            final(self).show_play_or_open_popup == old(self).show_play_or_open_popup,
            final(self).show_selected_playlist == old(self).show_selected_playlist,
    {
        self.mylists.set_items(names);
    }
}

/// What the terminal interface does with a key.
#[derive(Debug, Clone, Copy, PartialEq, Eq, Structural)]
pub enum TuiStep {
    /// Show the next screen: now playing, then search, then playlists.
    Switch { to: ActiveScreen },
    /// Quit the player.
    Quit,
    /// Hand the key to the screen on show.
    ToScreen,
}

/// What the terminal interface does with `key` while `active` is shown:
/// tab moves to the next screen, control-C and control-Q quit, and other
/// keys go to the screen.
pub fn tui_key(active: ActiveScreen, key: Key) -> (r: TuiStep)
    ensures
        key == Key::Char('\t') ==> r == (TuiStep::Switch { to: next_screen(active) }),
        (key == Key::Ctrl('c') || key == Key::Ctrl('q')) ==> r == TuiStep::Quit,
        key != Key::Char('\t') && key != Key::Ctrl('c') && key != Key::Ctrl('q') ==> r == TuiStep::ToScreen,
{
    match key {
        Key::Char('\t') => TuiStep::Switch { to: active.next() },
        Key::Ctrl('c') | Key::Ctrl('q') => TuiStep::Quit,
        _ => TuiStep::ToScreen,
    }
}

} // verus!
