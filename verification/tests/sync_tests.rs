use hifi_rs::sync::{
    search_text, sync_step, Isrc, PlaylistItem, PlaylistTrack, QobuzPlaylist, SpotifyFullPlaylist, SpotifyTrack,
};

fn pt(id: i32, isrc: Option<&str>) -> PlaylistTrack {
    PlaylistTrack { id, isrc: isrc.map(|s| s.to_string()) }
}

fn st(id: &str, isrc: Option<&str>) -> SpotifyTrack {
    SpotifyTrack { id: id.to_string(), isrc: isrc.map(|s| s.to_string()) }
}

fn codes(v: &[Isrc]) -> Vec<String> {
    let mut c: Vec<String> = v.iter().map(|i| i.0.clone()).collect();
    c.sort();
    c
}

#[test]
fn playlist_codes_are_lower_cased_and_distinct() {
    let p = QobuzPlaylist {
        id: 9,
        tracks: Some(vec![pt(1, Some("USABC1")), pt(2, None), pt(3, Some("usabc1")), pt(4, Some("GBXYZ2"))]),
    };
    assert_eq!(codes(&p.irsc_list()), vec!["gbxyz2".to_string(), "usabc1".to_string()]);
    let none = QobuzPlaylist { id: 9, tracks: None };
    assert!(none.irsc_list().is_empty());
}

#[test]
fn missing_tracks_are_those_whose_code_is_absent() {
    let spotify = SpotifyFullPlaylist {
        all_tracks: vec![st("a", Some("USABC1")), st("b", Some("NEW1")), st("c", None), st("d", Some("new2"))],
    };
    let have = vec![Isrc("usabc1".to_string())];
    let missing = spotify.missing_tracks(&have);
    let places: Vec<usize> = missing.iter().map(|m| m.index).collect();
    assert_eq!(places, vec![1, 3]);
    assert_eq!(missing[0].track.id, "b");
    assert_eq!(spotify.track_count(), 4);
    assert_eq!(codes(&spotify.isrc_list()), vec!["new1".to_string(), "new2".to_string(), "usabc1".to_string()]);
}

#[test]
fn playlist_edits() {
    let mut p = QobuzPlaylist { id: -5, tracks: Some(vec![pt(1, None), pt(2, None)]) };
    p.insert(1, &pt(7, None));
    p.push(&pt(8, Some("X")));
    let ids: Vec<i32> = p.tracks().unwrap().iter().map(|t| t.id).collect();
    assert_eq!(ids, vec![1, 7, 2, 8]);
    assert_eq!(p.track_count(), 4);
    assert_eq!(p.id(), "-5");
    let mut empty = QobuzPlaylist { id: 1, tracks: None };
    empty.push(&pt(1, None));
    assert_eq!(empty.track_count(), 0);
    assert!(empty.tracks().is_none());
}

#[test]
fn sync_steps() {
    let step = sync_step(3, &vec![55, 66], 10);
    assert_eq!(step.add, Some(55));
    assert_eq!(step.move_to, Some(2));
    let step = sync_step(12, &vec![55], 10);
    assert_eq!(step.add, Some(55));
    assert_eq!(step.move_to, None);
    let step = sync_step(3, &vec![], 10);
    assert_eq!(step.add, None);
    assert_eq!(step.move_to, None);
}

#[test]
fn search_text_is_the_lower_cased_code() {
    assert_eq!(search_text(&st("a", Some("USABC1"))), Some("usabc1".to_string()));
    assert_eq!(search_text(&st("a", None)), None);
}

#[test]
fn fetched_playlist_keeps_only_its_tracks() {
    let items = vec![
        PlaylistItem::Episode,
        PlaylistItem::Track(st("a", Some("US1"))),
        PlaylistItem::Unavailable,
        PlaylistItem::Track(st("b", None)),
    ];
    let p = SpotifyFullPlaylist::from_items(&items);
    let ids: Vec<&str> = p.all_tracks.iter().map(|t| t.id.as_str()).collect();
    assert_eq!(ids, vec!["a", "b"]);
    assert_eq!(p.all_tracks[0].isrc.as_deref(), Some("US1"));
    assert_eq!(p.track_count(), 2);
    assert_eq!(SpotifyFullPlaylist::from_items(&vec![]).track_count(), 0);
}
