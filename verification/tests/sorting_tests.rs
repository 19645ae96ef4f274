use std::collections::BTreeMap;

use hifi_rs::catalog::{Albums, ApiAlbum, ApiAlbumInfo};
use hifi_rs::service::{Album, Artist};
use hifi_rs::sorting::{
    artist_album_choices, sort_albums_by_year, stable_sort_by_key, stable_sort_by_text, text_less,
    try_artist_album_choices,
};

fn api_album(id: &str, date: &str) -> ApiAlbum {
    ApiAlbum {
        info: ApiAlbumInfo { id: id.to_string(), release_date_original: date.to_string(), ..Default::default() },
        tracks: None,
    }
}

fn album(id: &str, year: u32) -> Album {
    Album {
        id: id.to_string(),
        title: id.to_string(),
        artist: Artist { id: 1, name: "a".to_string() },
        release_year: year,
        hires_available: false,
        explicit: false,
        total_tracks: 0,
        tracks: BTreeMap::new(),
        available: true,
        cover_art: String::new(),
    }
}

#[test]
fn stable_sort_keeps_equal_keys_in_order() {
    let mut items = vec!["c1", "a", "c2", "b", "c3"];
    let mut keys = vec![3i64, 1, 3, 2, 3];
    stable_sort_by_key(&mut items, &mut keys);
    assert_eq!(items, vec!["a", "b", "c1", "c2", "c3"]);
    assert_eq!(keys, vec![1, 2, 3, 3, 3]);
}

#[test]
fn albums_sort_by_release_date() {
    let mut albums = Albums {
        limit: 10,
        offset: 0,
        total: 3,
        items: vec![api_album("new", "2020-05-01"), api_album("old", "1999-12-31"), api_album("mid", "2020-01-15")],
    };
    albums.sort_by_date();
    let ids: Vec<String> = albums.items.iter().map(|a| a.info.id.clone()).collect();
    assert_eq!(ids, vec!["old".to_string(), "mid".to_string(), "new".to_string()]);
    assert_eq!(albums.total, 3);
}

#[test]
fn unreadable_dates_leave_albums_as_they_are() {
    let mut albums = Albums {
        limit: 0,
        offset: 0,
        total: 2,
        items: vec![api_album("b", "2020-05-01"), api_album("a", "someday")],
    };
    assert!(!albums.try_sort_by_date());
    assert_eq!(albums.items[0].info.id, "b");
    let mut one = Albums { limit: 0, offset: 0, total: 1, items: vec![api_album("x", "never")] };
    assert!(one.try_sort_by_date());
}

#[test]
fn albums_sort_by_year() {
    let mut v = vec![album("b", 2001), album("a", 1990), album("c", 2001)];
    sort_albums_by_year(&mut v);
    let ids: Vec<String> = v.iter().map(|a| a.id.clone()).collect();
    assert_eq!(ids, vec!["a".to_string(), "b".to_string(), "c".to_string()]);
}

#[test]
fn texts_compare_character_by_character() {
    assert!(text_less("1999-12-31", "2000-01-01"));
    assert!(!text_less("2000-01-01", "1999-12-31"));
    assert!(text_less("abc", "abd"));
    assert!(text_less("ab", "abc"));
    assert!(!text_less("abc", "abc"));
    assert!(text_less("", "a"));
    assert!(text_less("Z", "a"));
    assert!(text_less("z", "é"));
    assert_eq!(text_less("é", "z"), "é" < "z");
}

#[test]
fn text_sort_keeps_equal_texts_in_order() {
    let mut items = vec![1, 2, 3, 4, 5];
    let keys: Vec<String> = vec!["b", "a", "b", "", "a"].into_iter().map(String::from).collect();
    stable_sort_by_text(&mut items, &keys);
    assert_eq!(items, vec![4, 2, 5, 1, 3]);
}

#[test]
fn artist_page_offers_streamable_albums_by_release_date() {
    let mut gone = api_album("gone", "1990-01-01");
    gone.info.release_date_original = "1990-01-01".to_string();
    let mut albums = vec![api_album("late", "2001-03-04"), api_album("early", "1971-06-01"), gone, api_album("same", "1971-06-01")];
    for a in albums.iter_mut() {
        a.info.streamable = a.info.id != "gone";
    }
    let offered = artist_album_choices(&albums);
    let ids: Vec<&str> = offered.iter().map(|a| a.id.as_str()).collect();
    assert_eq!(ids, vec!["early", "same", "late"]);
    assert_eq!(offered[0].release_year, 1971);
    assert!(offered.iter().all(|a| a.available));
    let again = try_artist_album_choices(&albums).unwrap();
    assert_eq!(again.len(), 3);
    albums.push(api_album("odd", "not a date"));
    assert!(try_artist_album_choices(&albums).is_none());
    assert!(artist_album_choices(&vec![]).is_empty());
}
