use hifi_rs::screen_keys::{
    KeyAnswer, MyPlaylistsScreen, NowPlayingScreen, PopupOutcome, PopupRequest, ScreenCommand, SearchScreen,
};
use hifi_rs::screen_keys::{tui_key, TuiStep};
use hifi_rs::state::ActiveScreen;
use hifi_rs::screens::{page_down_of, page_up_of, tab_titles, ColumnWidth, Key, List, Row, Table};

fn rows(n: usize) -> Vec<Row> {
    (0..n).map(|i| Row::new(vec![format!("r{i}")], vec![ColumnWidth::new(100)])).collect()
}

#[test]
fn list_moves_within_its_items() {
    let mut l = List::new(Some(vec!["a".to_string(), "b".to_string()]));
    assert_eq!(l.selected(), None);
    l.next();
    assert_eq!(l.selected(), Some(0));
    l.next();
    l.next();
    assert_eq!(l.selected(), Some(1));
    l.previous();
    l.previous();
    assert_eq!(l.selected(), Some(0));
    assert_eq!(l.len(), 2);
    l.select(7);
    l.set_items(vec!["x".to_string()]);
    assert_eq!(l.selected(), Some(1));
    let mut fresh = List::new(None);
    assert!(fresh.is_empty());
    fresh.set_items(vec![]);
    assert_eq!(fresh.selected(), Some(0));
}

#[test]
fn table_moves_and_pages() {
    let mut t = Table::new(None, Some(rows(30)), None);
    assert_eq!(t.len(), 0);
    t.set_rows(rows(30));
    assert_eq!(t.selected(), Some(0));
    t.page_down(10);
    assert_eq!(t.selected(), Some(10));
    t.page_down(10);
    assert_eq!(t.selected(), Some(15));
    t.page_up(10);
    assert_eq!(t.selected(), Some(10));
    t.page_up(40);
    assert_eq!(t.selected(), Some(0));
    t.end();
    assert!(t.at_end());
    t.next();
    assert_eq!(t.selected(), Some(29));
    t.home();
    assert!(!t.at_end());
    assert_eq!(page_down_of(Some(28), 30, 10), 29);
    assert_eq!(page_down_of(None, 30, 10), 5);
    assert_eq!(page_up_of(None, 10), 5);
}

#[test]
fn rows_edit_columns() {
    let mut r = Row::new(vec!["a".to_string(), "c".to_string()], vec![]);
    r.insert_column(1, "b".to_string());
    assert_eq!(r.columns, vec!["a".to_string(), "b".to_string(), "c".to_string()]);
    r.remove_column(0);
    assert_eq!(r.columns, vec!["b".to_string(), "c".to_string()]);
    r.set_dim(true);
    assert!(r.dim);
}

#[test]
fn now_playing_keys() {
    let mut s = NowPlayingScreen::new();
    s.track_list.set_rows(rows(3));
    assert_eq!(s.key_events(Key::Down), KeyAnswer::Handled(ScreenCommand::Nothing));
    assert_eq!(s.track_list.selected(), Some(1));
    assert_eq!(s.key_events(Key::Char('l')), KeyAnswer::Handled(ScreenCommand::JumpForward));
    assert_eq!(s.key_events(Key::Left), KeyAnswer::Handled(ScreenCommand::JumpBackward));
    assert_eq!(s.key_events(Key::Char(' ')), KeyAnswer::Handled(ScreenCommand::PlayPause));
    assert_eq!(s.key_events(Key::Char('N')), KeyAnswer::Handled(ScreenCommand::Next));
    assert_eq!(s.key_events(Key::Char('\n')), KeyAnswer::Handled(ScreenCommand::SkipTo { index: 1 }));
    assert_eq!(s.key_events(Key::Char('z')), KeyAnswer::Ignored);
    assert_eq!(s.key_events(Key::End), KeyAnswer::Handled(ScreenCommand::Nothing));
    assert_eq!(s.track_list.selected(), Some(2));
}

#[test]
fn search_typing_and_browsing() {
    let mut s = SearchScreen {
        results_table: Table::new(None, None, None),
        has_results: false,
        search_query: vec![],
        enter_search: false,
        results_height: 10,
    };
    assert_eq!(s.key_events(Key::Char('x')), KeyAnswer::Ignored);
    assert_eq!(s.key_events(Key::Char('/')), KeyAnswer::Handled(ScreenCommand::Nothing));
    assert!(s.enter_search);
    s.key_events(Key::Char('a'));
    s.key_events(Key::Char('k'));
    assert_eq!(s.key_events(Key::Up), KeyAnswer::Handled(ScreenCommand::Nothing));
    assert_eq!(s.key_events(Key::Down), KeyAnswer::Handled(ScreenCommand::Nothing));
    s.key_events(Key::Char('h'));
    s.key_events(Key::Right);
    assert_eq!(s.search_query, vec!['a', 'k', 'h']);
    assert!(s.enter_search);
    s.key_events(Key::Backspace);
    assert_eq!(s.search_query, vec!['a', 'k']);
    match s.key_events(Key::Char('\n')) {
        KeyAnswer::IfDone(ScreenCommand::SearchArtists { query }) => assert_eq!(query, "ak"),
        other => panic!("unexpected {other:?}"),
    }
    assert!(s.finish_search(Some(rows(4))));
    assert!(!s.enter_search);
    assert_eq!(s.results_table.selected(), Some(0));
    s.key_events(Key::Down);
    assert_eq!(s.key_events(Key::Char('\n')), KeyAnswer::IfDone(ScreenCommand::OpenResult { index: 1 }));
    assert_eq!(s.key_events(Key::Esc), KeyAnswer::Ignored);
    assert!(!s.finish_search(None));
}

#[test]
fn playlists_screen_flow() {
    let mut s = MyPlaylistsScreen::new();
    s.lists_refreshed(vec!["mine".to_string(), "yours".to_string()]);
    assert_eq!(s.mylists.selected(), Some(0));
    assert!(!s.popup_open());
    assert_eq!(s.popup_step(Key::Char('\n')), (PopupRequest::Nothing, false));
    assert_eq!(s.list_step(Key::Char('\n')), (true, false));
    assert!(s.show_play_or_open_popup);
    assert!(s.popup_open());
    assert_eq!(s.popup_step(Key::Right), (PopupRequest::Nothing, true));
    assert_eq!(s.show_play_or_open_popup_selection, 1);
    assert_eq!(s.popup_step(Key::Left), (PopupRequest::Nothing, true));
    assert_eq!(s.popup_step(Key::Char('\n')), (PopupRequest::OpenPlaylist { list: 0 }, false));
    let opened = s.popup_done(PopupOutcome::PlaylistOpened { rows: rows(5), header: vec![], widths: vec![] });
    assert!(!opened);
    assert!(s.show_selected_playlist);
    assert!(!s.show_play_or_open_popup);
    assert_eq!(s.list_step(Key::Char('\n')), (true, false));
    assert!(s.show_album_or_track_popup);
    assert!(!s.show_play_or_open_popup);
    assert_eq!(s.popup_step(Key::Char('\n')), (PopupRequest::PlayAlbumOfTrack { track: 0 }, false));
    assert!(s.popup_done(PopupOutcome::TrackPlaying));
    assert!(!s.show_album_or_track_popup);
    assert_eq!(s.list_step(Key::Char('r')), (true, true));
    assert_eq!(s.list_step(Key::Esc), (true, false));
    assert!(!s.show_selected_playlist);
}

#[test]
fn down_in_an_opened_playlist_moves_only_that_list() {
    let mut s = MyPlaylistsScreen::new();
    s.lists_refreshed(vec!["a".to_string(), "b".to_string(), "c".to_string()]);
    s.popup_done(PopupOutcome::PlaylistOpened { rows: rows(4), header: vec![], widths: vec![] });
    assert_eq!(s.list_step(Key::Down), (true, false));
    assert_eq!(s.selected_playlist_table.selected(), Some(1));
    assert_eq!(s.mylists.selected(), Some(0));
    assert_eq!(s.list_step(Key::Up), (true, false));
    assert_eq!(s.selected_playlist_table.selected(), Some(0));
    assert_eq!(s.mylists.selected(), Some(0));
    s.list_step(Key::Esc);
    assert_eq!(s.list_step(Key::Down), (true, false));
    assert_eq!(s.mylists.selected(), Some(1));
}

#[test]
fn escape_dismisses_the_album_or_track_popup() {
    let mut s = MyPlaylistsScreen::new();
    s.lists_refreshed(vec!["a".to_string()]);
    s.popup_done(PopupOutcome::PlaylistOpened { rows: rows(2), header: vec![], widths: vec![] });
    s.list_step(Key::Char('\n'));
    assert!(s.show_album_or_track_popup);
    assert_eq!(s.popup_step(Key::Esc), (PopupRequest::Nothing, true));
    assert!(!s.show_album_or_track_popup);
    assert!(s.show_selected_playlist);
    s.list_step(Key::Esc);
    s.list_step(Key::Char('\n'));
    assert!(s.show_play_or_open_popup);
    assert_eq!(s.popup_step(Key::Esc), (PopupRequest::Nothing, true));
    assert!(!s.show_play_or_open_popup);
}

#[test]
fn enter_on_the_now_playing_list_skips_to_the_selected_row() {
    let mut s = NowPlayingScreen::new();
    s.track_list.set_rows(rows(5));
    s.key_events(Key::Down);
    s.key_events(Key::Down);
    assert_eq!(s.key_events(Key::Char('\n')), KeyAnswer::Handled(ScreenCommand::SkipTo { index: 2 }));
}

#[test]
fn tab_cycles_screens_and_ctrl_quits() {
    assert_eq!(tui_key(ActiveScreen::NowPlaying, Key::Char('\t')), TuiStep::Switch { to: ActiveScreen::Search });
    assert_eq!(tui_key(ActiveScreen::Search, Key::Char('\t')), TuiStep::Switch { to: ActiveScreen::Playlists });
    assert_eq!(tui_key(ActiveScreen::Playlists, Key::Char('\t')), TuiStep::Switch { to: ActiveScreen::NowPlaying });
    assert_eq!(tui_key(ActiveScreen::Search, Key::Ctrl('q')), TuiStep::Quit);
    assert_eq!(tui_key(ActiveScreen::Search, Key::Char('q')), TuiStep::ToScreen);
    assert_eq!(ActiveScreen::Playlists.next().next().next(), ActiveScreen::Playlists);
}

#[test]
fn tab_titles_are_centred_in_a_third_of_the_bar() {
    let t = tab_titles(60);
    assert_eq!(t[0], "   Now Playing    ");
    for (title, name) in t.iter().zip(["Now Playing", "Search", "My Playlists"]) {
        assert_eq!(*title, format!("{:^18}", name));
    }
    assert_eq!(tab_titles(6), vec!["Now Playing", "Search", "My Playlists"]);
    assert_eq!(tab_titles(37)[1], format!("{:^10}", "Search"));
}
