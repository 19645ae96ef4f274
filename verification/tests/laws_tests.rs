use hifi_rs::client::{capitalize, AudioQuality};
use hifi_rs::screen_keys::SearchScreen;
use hifi_rs::screens::{Key, List, Table};

#[test]
fn quality_ids_read_back() {
    for q in [AudioQuality::Mp3, AudioQuality::CD, AudioQuality::HIFI96, AudioQuality::HIFI192, AudioQuality::Unknown] {
        assert_eq!(AudioQuality::from_id(q.quality_id() as i64), q);
    }
}

#[test]
fn capitalizing_twice_is_capitalizing_once() {
    for s in ["", "a", "abc", "Abc", "ßx", "9z"] {
        assert_eq!(capitalize(&capitalize(s)), capitalize(s));
    }
}

#[test]
fn previous_undoes_next_in_a_list() {
    let mut l = List::new(Some(vec!["a".to_string(), "b".to_string(), "c".to_string()]));
    l.select(1);
    l.next();
    l.previous();
    assert_eq!(l.selected(), Some(1));
    l.select(2);
    l.previous();
    l.next();
    assert_eq!(l.selected(), Some(2));
}

#[test]
fn backspace_undoes_typing() {
    let mut s = SearchScreen {
        results_table: Table::new(None, None, None),
        has_results: false,
        search_query: vec!['a'],
        enter_search: true,
        results_height: 4,
    };
    s.key_events(Key::Char('q'));
    s.key_events(Key::Backspace);
    assert_eq!(s.search_query, vec!['a']);
}
