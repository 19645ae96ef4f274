//! The track list the player plays from: tracks keyed by their place in
//! the list, with the album or playlist they came from.
use std::collections::BTreeMap;
use vstd::prelude::*;

use crate::ordered::{key_order, ordered_values, sorted_keys, strictly_increasing};
use crate::service::{
    tracks_view, Album, AlbumView, Playlist, PlaylistView, Track, TrackStatus, TrackView,
};
use crate::text::str_eq;

verus! {

broadcast use vstd::std_specs::btree::group_btree_axioms;

/// What kind of entity a track list was made from.
#[derive(Debug, Clone, Copy, PartialEq, Eq, Structural)]
pub enum TrackListType {
    Album,
    Playlist,
    Track,
    Unknown,
}

impl Default for TrackListType {
    fn default() -> (r: Self)
        ensures
            r == TrackListType::Unknown,
    {
        TrackListType::Unknown
    }
}

/// The name a list type is stored and shown under.
pub open spec fn list_type_name(t: TrackListType) -> Seq<char> {
    match t {
        TrackListType::Album => "album"@,
        TrackListType::Playlist => "playlist"@,
        TrackListType::Track => "track"@,
        TrackListType::Unknown => "unknown"@,
    }
}

/// The list type a stored name stands for; any other name is `Unknown`.
pub open spec fn list_type_from_name(s: Seq<char>) -> TrackListType {
    if s == "album"@ {
        TrackListType::Album
    } else if s == "playlist"@ {
        TrackListType::Playlist
    } else if s == "track"@ {
        TrackListType::Track
    } else {
        TrackListType::Unknown
    }
}

impl TrackListType {
    /// The name of the list type ("album", "playlist", "track" or "unknown").
    pub fn as_str(&self) -> (r: &'static str)
        ensures
            r@ == list_type_name(*self),
    {
        match self {
            TrackListType::Album => "album",
            TrackListType::Playlist => "playlist",
            TrackListType::Track => "track",
            TrackListType::Unknown => "unknown",
        }
    }

    /// The list type stored under `name`.
    pub fn from_name(name: &str) -> (r: TrackListType)
        ensures
            r == list_type_from_name(name@),
    {
        if str_eq(name, "album") {
            TrackListType::Album
        } else if str_eq(name, "playlist") {
            TrackListType::Playlist
        } else if str_eq(name, "track") {
            TrackListType::Track
        } else {
            TrackListType::Unknown
        }
    }
}

impl<'a> From<&'a str> for TrackListType {
    fn from(tracklist_type: &'a str) -> (r: TrackListType) {
        TrackListType::from_name(tracklist_type)
    }
}

impl<'a> vstd::std_specs::convert::FromSpecImpl<&'a str> for TrackListType {
    open spec fn obeys_from_spec() -> bool {
        true
    }

    open spec fn from_spec(v: &'a str) -> TrackListType {
        list_type_from_name(v@)
    }
}

/// A list of tracks keyed by their place in the list.
#[derive(Debug, Clone)]
pub struct TrackListValue {
    pub queue: BTreeMap<u32, Track>,
    album: Option<Album>,
    playlist: Option<Playlist>,
    list_type: TrackListType,
}

/// What a track list holds.
pub struct TrackListView {
    pub queue: Map<u32, TrackView>,
    pub album: Option<AlbumView>,
    pub playlist: Option<PlaylistView>,
    pub list_type: TrackListType,
}

impl View for TrackListValue {
    type V = TrackListView;

    open spec fn view(&self) -> TrackListView {
        TrackListView {
            queue: tracks_view(self.entries()),
            album: match self.album_value() {
                Some(a) => Some(a@),
                None => None,
            },
            playlist: match self.playlist_value() {
                Some(p) => Some(p@),
                None => None,
            },
            list_type: self.kind(),
        }
    }
}

impl TrackListValue {
    /// The tracks held, under their keys.
    pub closed spec fn entries(&self) -> Map<u32, Track> {
        self.queue@
    }

    /// The album the list was made from.
    pub closed spec fn album_value(&self) -> Option<Album> {
        self.album
    }

    /// The playlist the list was made from.
    pub closed spec fn playlist_value(&self) -> Option<Playlist> {
        self.playlist
    }

    /// What kind of list this is.
    pub closed spec fn kind(&self) -> TrackListType {
        self.list_type
    }
}

/// The track with `status` replaced.
pub open spec fn with_status(t: TrackView, status: TrackStatus) -> TrackView {
    TrackView { status, ..t }
}

/// The tracks of `q` with the status of the one under key `position`, if
/// there is one, replaced.
pub open spec fn status_set(q: Map<u32, TrackView>, position: u32, status: TrackStatus) -> Map<u32, TrackView> {
    if q.contains_key(position) {
        q.insert(position, with_status(q[position], status))
    } else {
        q
    }
}

/// The tracks of `m`, in key order, that have the given status.
pub open spec fn tracks_with_status(m: Map<u32, TrackView>, status: TrackStatus) -> Seq<TrackView> {
    ordered_values(m).filter(|t: TrackView| t.status == status)
}

/// The views of the tracks a list of references points to.
pub open spec fn refs_view(s: Seq<&Track>) -> Seq<TrackView> {
    s.map_values(|t: &Track| t@)
}

/// The (title, id) pairs a list view shows for the tracks of `m`, in key order.
pub open spec fn list_entries(m: Map<u32, TrackView>) -> Seq<(Seq<char>, i32)> {
    ordered_values(m).map_values(|t: TrackView| (t.title, t.id as i32))
}

/// The number of tracks a list stands for: the album's or playlist's own
/// count where there is one, else the number of tracks held.
pub open spec fn list_total(v: TrackListView) -> u32 {
    match v.album {
        Some(a) => a.total_tracks,
        None => match v.playlist {
            Some(p) => p.tracks_count,
            None => v.queue.len() as u32,
        },
    }
}

/// Filtering a sequence with one more element at its end.
pub proof fn lemma_filter_push<A>(s: Seq<A>, x: A, p: spec_fn(A) -> bool)
    ensures
        s.push(x).filter(p) == (if p(x) {
            s.filter(p).push(x)
        } else {
            s.filter(p)
        }),
{
    reveal(Seq::filter);
    assert(s.push(x).drop_last() =~= s);
}

proof fn lemma_ordered_prefix_push(v: Map<u32, TrackView>, ks: Seq<u32>, i: int)
    requires
        key_order(v) == ks,
        0 <= i < ks.len(),
    ensures
        ordered_values(v).take(i + 1) == ordered_values(v).take(i).push(v[ks[i]]),
        ordered_values(v).len() == ks.len(),
{
    assert(ordered_values(v).take(i + 1) =~= ordered_values(v).take(i).push(v[ks[i]]));
}

/// The stream addresses fetched for tracks, by track id, as text.
pub open spec fn urls_view(urls: Seq<(u32, String)>) -> Seq<(u32, Seq<char>)> {
    urls.map_values(|p: (u32, String)| (p.0, p.1@))
}

/// The first address fetched for track `id`, if any.
pub open spec fn url_for(urls: Seq<(u32, Seq<char>)>, id: u32) -> Option<Seq<char>>
    decreases urls.len(),
{
    if urls.len() == 0 {
        None
    } else if urls[0].0 == id {
        Some(urls[0].1)
    } else {
        url_for(urls.drop_first(), id)
    }
}

/// What skipping to place `index` makes of a track: earlier tracks are played,
/// later ones unplayed; a track at `index` plays if an address was fetched for it,
/// and is unplayable if none was.
pub open spec fn skip_update(t: TrackView, index: u32, urls: Seq<(u32, Seq<char>)>) -> TrackView {
    if t.position < index {
        with_status(t, TrackStatus::Played)
    } else if t.position == index {
        match url_for(urls, t.id) {
            Some(u) => TrackView { status: TrackStatus::Playing, track_url: Some(u), ..t },
            None => with_status(t, TrackStatus::Unplayable),
        }
    } else {
        with_status(t, TrackStatus::Unplayed)
    }
}

/// Whether the track is at place `index` and has a fetched address.
pub open spec fn skip_target(t: TrackView, index: u32, urls: Seq<(u32, Seq<char>)>) -> bool {
    t.position == index && url_for(urls, t.id) is Some
}

/// Whether `k` holds the last track, in key order, that a skip to `index` plays.
pub open spec fn last_skip_target(q: Map<u32, TrackView>, index: u32, urls: Seq<(u32, Seq<char>)>, k: u32) -> bool {
    &&& q.contains_key(k)
    &&& skip_target(q[k], index, urls)
    &&& forall|j: u32| q.contains_key(j) && j > k ==> !skip_target(q[j], index, urls)
}

/// Whether a skip to `index` plays none of the tracks of `q`.
pub open spec fn no_skip_target(q: Map<u32, TrackView>, index: u32, urls: Seq<(u32, Seq<char>)>) -> bool {
    forall|j: u32| q.contains_key(j) ==> !skip_target(q[j], index, urls)
}

/// The first address fetched for track `id`.
pub fn find_url(urls: &Vec<(u32, String)>, id: u32) -> (r: Option<String>)
    ensures
        crate::service::opt_str(r) == url_for(urls_view(urls@), id),
{
    let ghost uv = urls_view(urls@);
    let mut i: usize = 0;
    assert(uv.subrange(0, uv.len() as int) =~= uv);
    while i < urls.len()
        invariant
            uv == urls_view(urls@),
            i <= urls@.len(),
            url_for(uv, id) == url_for(uv.subrange(i as int, uv.len() as int), id),
        decreases urls@.len() - i,
    {
        let ghost rest = uv.subrange(i as int, uv.len() as int);
        assert(rest.drop_first() =~= uv.subrange(i + 1, uv.len() as int));
        if urls[i].0 == id {
            return Some(urls[i].1.clone());
        }
        i = i + 1;
    }
    assert(uv.subrange(i as int, uv.len() as int).len() == 0);
    None
}

proof fn lemma_tracks_view_insert(m: Map<u32, Track>, k: u32, t: Track)
    ensures
        tracks_view(m.insert(k, t)) == tracks_view(m).insert(k, t@),
{
    assert(tracks_view(m.insert(k, t)) =~= tracks_view(m).insert(k, t@));
}

proof fn lemma_tracks_view_key_order(m: Map<u32, Track>)
    ensures
        key_order(tracks_view(m)) == key_order(m),
{
    assert(tracks_view(m).dom() =~= m.dom());
}

impl TrackListValue {
    /// A list holding `queue` (or nothing), with no album or playlist and an unknown type.
    pub fn new(queue: Option<BTreeMap<u32, Track>>) -> (r: TrackListValue)
        ensures
            r.entries() == (match queue {
                Some(q) => q@,
                None => Map::<u32, Track>::empty(),
            }),
            r@.album is None,
            r@.playlist is None,
            r@.list_type == TrackListType::Unknown,
    {
        let queue = if let Some(q) = queue {
            q
        } else {
            BTreeMap::new()
        };

        TrackListValue { queue, album: None, playlist: None, list_type: TrackListType::Unknown }
    }

    /// A copy of the list.
    pub fn duplicate(&self) -> (r: TrackListValue)
        ensures
            r@ == self@,
            r.entries() == self.entries(),
    {
        let album = match &self.album {
            Some(a) => Some(a.duplicate()),
            None => None,
        };
        let playlist = match &self.playlist {
            Some(p) => Some(p.duplicate()),
            None => None,
        };
        TrackListValue { queue: self.queue.clone(), album, playlist, list_type: self.list_type }
    }

    /// The number of tracks the list stands for: the album's or playlist's own count
    /// where there is one, else the number of tracks held.
    pub fn total(&self) -> (r: u32)
        ensures
            r == list_total(self@),
    {
        proof {
            crate::ordering_facts::lemma_u32_key_model();
            assert(tracks_view(self.queue@).dom() =~= self.queue@.dom());
        }
        if let Some(album) = &self.album {
            album.total_tracks
        } else if let Some(list) = &self.playlist {
            list.tracks_count
        } else {
            self.queue.len() as u32
        }
    }

    /// Empties the list and forgets its album, playlist and type.
    pub fn clear(&mut self)
        ensures
            final(self)@.queue == Map::<u32, TrackView>::empty(),
            final(self)@.album is None,
            final(self)@.playlist is None,
            final(self)@.list_type == TrackListType::Unknown,
    {
        self.list_type = TrackListType::Unknown;
        self.album = None;
        self.playlist = None;
        self.queue.clear();
        assert(tracks_view(self.queue@) =~= Map::<u32, TrackView>::empty());
    }

    /// Records the album the list was made from, and makes it an album list.
    pub fn set_album(&mut self, album: Album)
        ensures
            final(self)@.album == Some(album@),
            final(self)@.list_type == TrackListType::Album,
            final(self)@.queue == old(self)@.queue,
            final(self).entries() == old(self).entries(),
            final(self)@.playlist == old(self)@.playlist,
    {
        self.album = Some(album);
        self.list_type = TrackListType::Album;
    }

    /// The album the list was made from.
    pub fn get_album(&self) -> (r: Option<&Album>)
        ensures
            match r {
                Some(a) => self@.album == Some(a@),
                None => self@.album is None,
            },
    {
        self.album.as_ref()
    }

    /// Records the playlist the list was made from, and makes it a playlist list.
    pub fn set_playlist(&mut self, playlist: Playlist)
        ensures
            final(self)@.playlist == Some(playlist@),
            final(self)@.list_type == TrackListType::Playlist,
            final(self)@.queue == old(self)@.queue,
            final(self).entries() == old(self).entries(),
            final(self)@.album == old(self)@.album,
    {
        self.playlist = Some(playlist);
        self.list_type = TrackListType::Playlist;
    }

    /// The playlist the list was made from.
    pub fn get_playlist(&self) -> (r: Option<&Playlist>)
        ensures
            match r {
                Some(p) => self@.playlist == Some(p@),
                None => self@.playlist is None,
            },
    {
        self.playlist.as_ref()
    }

    /// Sets what kind of list this is.
    pub fn set_list_type(&mut self, list_type: TrackListType)
        ensures
            final(self)@.list_type == list_type,
            final(self)@.queue == old(self)@.queue,
            final(self).entries() == old(self).entries(),
            final(self)@.album == old(self)@.album,
            final(self)@.playlist == old(self)@.playlist,
    {
        self.list_type = list_type;
    }

    /// What kind of list this is.
    pub fn list_type(&self) -> (r: &TrackListType)
        ensures
            *r == self@.list_type,
    {
        &self.list_type
    }

    /// The track held under key `index`.
    pub fn find_track_by_index(&self, index: u32) -> (r: Option<&Track>)
        ensures
            match r {
                Some(t) => self@.queue.contains_key(index) && t@ == self@.queue[index],
                None => !self@.queue.contains_key(index),
            },
    {
        proof {
            crate::ordering_facts::lemma_u32_key_model();
        }
        self.queue.get(&index)
    }

    /// Sets the status of the track held under key `position`, if there is one.
    pub fn set_track_status(&mut self, position: u32, status: TrackStatus)
        ensures
            final(self)@.queue == status_set(old(self)@.queue, position, status),
            final(self).entries().dom() == old(self).entries().dom(),
            final(self)@.album == old(self)@.album,
            final(self)@.playlist == old(self)@.playlist,
            final(self)@.list_type == old(self)@.list_type,
    {
        proof {
            crate::ordering_facts::lemma_u32_key_model();
        }
        let ghost old_q = self.queue@;
        if let Some(mut track) = self.queue.remove(&position) {
            track.status = status;
            self.queue.insert(position, track);
            proof {
                assert(self.queue@ == old_q.insert(position, track));
                lemma_tracks_view_insert(old_q, position, track);
                assert(self.queue@.dom() =~= old_q.dom());
            }
        }
    }

    /// All the tracks, in key order.
    pub fn all_tracks(&self) -> (r: Vec<&Track>)
        ensures
            refs_view(r@) == ordered_values(self@.queue),
    {
        proof {
            crate::ordering_facts::lemma_u32_key_model();
            lemma_tracks_view_key_order(self.queue@);
        }
        let ghost v = self@.queue;
        let ks = sorted_keys(&self.queue);
        let mut out: Vec<&Track> = Vec::new();
        let mut i: usize = 0;
        while i < ks.len()
            invariant
                v == tracks_view(self.queue@),
                ks@ == key_order(v),
                ks@.to_set() == self.queue@.dom(),
                i <= ks@.len(),
                refs_view(out@) == ordered_values(v).take(i as int),
            decreases ks@.len() - i,
        {
            let k = ks[i];
            proof {
                assert(ks@.to_set().contains(k));
                lemma_ordered_prefix_push(v, ks@, i as int);
            }
            match self.queue.get(&k) {
                Some(t) => {
                    out.push(t);
                    assert(refs_view(out@) =~= refs_view(out@.drop_last()).push(t@));
                },
                None => {},
            }
            i = i + 1;
        }
        proof {
            assert(ordered_values(v).take(ks@.len() as int) =~= ordered_values(v));
        }
        out
    }

    /// The tracks that have `status`, in key order.
    fn tracks_with(&self, status: TrackStatus) -> (r: Vec<&Track>)
        ensures
            refs_view(r@) == tracks_with_status(self@.queue, status),
    {
        proof {
            crate::ordering_facts::lemma_u32_key_model();
            lemma_tracks_view_key_order(self.queue@);
        }
        let ghost v = self@.queue;
        let ghost p = |t: TrackView| t.status == status;
        let ks = sorted_keys(&self.queue);
        let mut out: Vec<&Track> = Vec::new();
        let mut i: usize = 0;
        while i < ks.len()
            invariant
                v == tracks_view(self.queue@),
                ks@ == key_order(v),
                strictly_increasing(ks@),
                ks@.to_set() == self.queue@.dom(),
                i <= ks@.len(),
                refs_view(out@) == ordered_values(v).take(i as int).filter(p),
                p == (|t: TrackView| t.status == status),
            decreases ks@.len() - i,
        {
            let k = ks[i];
            proof {
                assert(ks@.to_set().contains(k));
                lemma_ordered_prefix_push(v, ks@, i as int);
                lemma_filter_push(ordered_values(v).take(i as int), v[k], p);
            }
            match self.queue.get(&k) {
                Some(t) => {
                    if t.status == status {
                        out.push(t);
                        assert(refs_view(out@) =~= refs_view(out@.drop_last()).push(t@));
                    }
                },
                None => {},
            }
            i = i + 1;
        }
        proof {
            assert(ordered_values(v).take(ks@.len() as int) =~= ordered_values(v));
        }
        out
    }

    /// The tracks not yet played, in key order.
    pub fn unplayed_tracks(&self) -> (r: Vec<&Track>)
        ensures
            refs_view(r@) == tracks_with_status(self@.queue, TrackStatus::Unplayed),
    {
        self.tracks_with(TrackStatus::Unplayed)
    }

    /// The tracks already played, in key order.
    pub fn played_tracks(&self) -> (r: Vec<&Track>)
        ensures
            refs_view(r@) == tracks_with_status(self@.queue, TrackStatus::Played),
    {
        self.tracks_with(TrackStatus::Played)
    }

    /// The largest key under which a track with id `track_id` is held.
    pub fn track_index(&self, track_id: u32) -> (r: Option<u32>)
        ensures
            match r {
                Some(k) => {
                    &&& self@.queue.contains_key(k)
                    &&& self@.queue[k].id == track_id
                    &&& forall|j: u32|
                        self@.queue.contains_key(j) && j > k ==> self@.queue[j].id != track_id
                },
                None => forall|j: u32| self@.queue.contains_key(j) ==> self@.queue[j].id != track_id,
            },
    {
        proof {
            crate::ordering_facts::lemma_u32_key_model();
        }
        let ghost v = self@.queue;
        let ks = sorted_keys(&self.queue);
        let mut index: Option<u32> = None;
        let mut i: usize = 0;
        while i < ks.len()
            invariant
                v == tracks_view(self.queue@),
                strictly_increasing(ks@),
                ks@.to_set() == self.queue@.dom(),
                i <= ks@.len(),
                match index {
                    Some(k) => {
                        &&& v.contains_key(k)
                        &&& v[k].id == track_id
                        &&& exists|m: int| 0 <= m < i && ks@[m] == k
                        &&& forall|m: int| 0 <= m < i && ks@[m] > k ==> v[ks@[m]].id != track_id
                    },
                    None => forall|m: int| 0 <= m < i ==> v[ks@[m]].id != track_id,
                },
            decreases ks@.len() - i,
        {
            let k = ks[i];
            proof {
                assert(ks@.to_set().contains(k));
            }
            match self.queue.get(&k) {
                Some(t) => {
                    if t.id == track_id {
                        index = Some(k);
                        proof {
                            assert forall|m: int| 0 <= m < i + 1 && ks@[m] > k implies v[ks@[m]].id
                                != track_id by {
                                assert(m > i || m == i || ks@[m] < ks@[i as int]);
                            }
                        }
                    } else {
                        proof {
                            if let Some(k0) = index {
                                let m0 = choose|m: int| 0 <= m < i && ks@[m] == k0;
                                assert(ks@[m0] < ks@[i as int]);
                            }
                        }
                    }
                },
                None => {},
            }
            i = i + 1;
        }
        proof {
            assert forall|j: u32| v.contains_key(j) implies (match index {
                Some(k) => j > k ==> v[j].id != track_id,
                None => v[j].id != track_id,
            }) by {
                assert(self.queue@.dom().contains(j));
                assert(ks@.to_set().contains(j));
                assert(ks@.contains(j));
                let m = choose|m: int| 0 <= m < ks@.len() && ks@[m] == j;
            }
        }
        index
    }

    /// A copy of the first track, in key order, that is playing.
    pub fn current_track(&self) -> (r: Option<Track>)
        ensures
            match r {
                Some(t) => exists|k: u32| {
                    &&& self@.queue.contains_key(k)
                    &&& self@.queue[k].status == TrackStatus::Playing
                    &&& t@ == self@.queue[k]
                    &&& forall|j: u32|
                        self@.queue.contains_key(j) && j < k ==> self@.queue[j].status
                            != TrackStatus::Playing
                },
                None => forall|j: u32|
                    self@.queue.contains_key(j) ==> self@.queue[j].status != TrackStatus::Playing,
            },
    {
        proof {
            crate::ordering_facts::lemma_u32_key_model();
        }
        let ghost v = self@.queue;
        let ks = sorted_keys(&self.queue);
        let mut i: usize = 0;
        while i < ks.len()
            invariant
                v == tracks_view(self.queue@),
                strictly_increasing(ks@),
                ks@.to_set() == self.queue@.dom(),
                i <= ks@.len(),
                forall|m: int| 0 <= m < i ==> v[ks@[m]].status != TrackStatus::Playing,
            decreases ks@.len() - i,
        {
            let k = ks[i];
            proof {
                assert(ks@.to_set().contains(k));
            }
            match self.queue.get(&k) {
                Some(t) => {
                    if t.status == TrackStatus::Playing {
                        let c = t.duplicate();
                        proof {
                            assert forall|j: u32| v.contains_key(j) && j < k implies v[j].status
                                != TrackStatus::Playing by {
                                assert(ks@.to_set().contains(j));
                                assert(ks@.contains(j));
                                let m = choose|m: int| 0 <= m < ks@.len() && ks@[m] == j;
                                assert(m < i);
                            }
                        }
                        return Some(c);
                    }
                },
                None => {},
            }
            i = i + 1;
        }
        proof {
            assert forall|j: u32| v.contains_key(j) implies v[j].status != TrackStatus::Playing by {
                assert(ks@.to_set().contains(j));
                assert(ks@.contains(j));
            }
        }
        None
    }

    /// The title and id of each track, in key order, as a list view shows them.
    pub fn cursive_list(&self) -> (r: Vec<(String, i32)>)
        ensures
            r@.map_values(|e: (String, i32)| (e.0@, e.1)) == list_entries(self@.queue),
    {
        proof {
            crate::ordering_facts::lemma_u32_key_model();
            lemma_tracks_view_key_order(self.queue@);
        }
        let ghost v = self@.queue;
        let ks = sorted_keys(&self.queue);
        let mut out: Vec<(String, i32)> = Vec::new();
        let mut i: usize = 0;
        while i < ks.len()
            invariant
                v == tracks_view(self.queue@),
                ks@ == key_order(v),
                ks@.to_set() == self.queue@.dom(),
                i <= ks@.len(),
                out@.map_values(|e: (String, i32)| (e.0@, e.1)) == ordered_values(v).take(
                    i as int,
                ).map_values(|t: TrackView| (t.title, t.id as i32)),
            decreases ks@.len() - i,
        {
            let k = ks[i];
            proof {
                assert(ks@.to_set().contains(k));
                lemma_ordered_prefix_push(v, ks@, i as int);
            }
            let ghost before = out@;
            match self.queue.get(&k) {
                Some(t) => {
                    let title = t.title.clone();
                    let id = t.id as i32;
                    out.push((title, id));
                    proof {
                        assert(v[k] == t@);
                        assert(out@ == before.push((title, id)));
                        assert(out@.map_values(|e: (String, i32)| (e.0@, e.1)) =~= before.map_values(
                            |e: (String, i32)| (e.0@, e.1),
                        ).push((t@.title, t@.id as i32)));
                    }
                },
                None => {},
            }
            proof {
                assert(out@.map_values(|e: (String, i32)| (e.0@, e.1)) =~= ordered_values(v).take(
                    i + 1,
                ).map_values(|t: TrackView| (t.title, t.id as i32)));
            }
            i = i + 1;
        }
        proof {
            assert(ordered_values(v).take(ks@.len() as int) =~= ordered_values(v));
        }
        out
    }

    /// The track first in key order.
    pub fn first_track(&self) -> (r: Option<&Track>)
        ensures
            match r {
                Some(t) => exists|k: u32| {
                    &&& self@.queue.contains_key(k)
                    &&& t@ == self@.queue[k]
                    &&& forall|j: u32| self@.queue.contains_key(j) ==> k <= j
                },
                None => self@.queue.dom().is_empty(),
            },
    {
        proof {
            crate::ordering_facts::lemma_u32_key_model();
        }
        let ks = sorted_keys(&self.queue);
        if ks.len() == 0 {
            proof {
                assert(self.queue@.dom() =~= ks@.to_set());
                assert(self@.queue.dom() =~= self.queue@.dom());
            }
            return None;
        }
        let k = ks[0];
        proof {
            assert(ks@.to_set().contains(k));
            assert forall|j: u32| self@.queue.contains_key(j) implies k <= j by {
                assert(ks@.to_set().contains(j));
                assert(ks@.contains(j));
            }
            assert(self@.queue.contains_key(k));
            assert(self@.queue[k] == self.queue@[k]@);
        }
        self.queue.get(&k)
    }

    /// The ids, in key order, of the tracks at place `index`: the tracks
    /// whose stream address a skip to `index` needs.
    pub fn ids_at_position(&self, index: u32) -> (r: Vec<u32>)
        ensures
            r@ == ordered_values(self@.queue).filter(|t: TrackView| t.position == index).map_values(
                |t: TrackView| t.id,
            ),
    {
        proof {
            crate::ordering_facts::lemma_u32_key_model();
            lemma_tracks_view_key_order(self.queue@);
        }
        let ghost v = self@.queue;
        let ghost p = |t: TrackView| t.position == index;
        let ks = sorted_keys(&self.queue);
        let mut out: Vec<u32> = Vec::new();
        let mut i: usize = 0;
        while i < ks.len()
            invariant
                v == tracks_view(self.queue@),
                ks@ == key_order(v),
                ks@.to_set() == self.queue@.dom(),
                i <= ks@.len(),
                out@ == ordered_values(v).take(i as int).filter(p).map_values(|t: TrackView| t.id),
                p == (|t: TrackView| t.position == index),
            decreases ks@.len() - i,
        {
            let k = ks[i];
            proof {
                assert(ks@.to_set().contains(k));
                lemma_ordered_prefix_push(v, ks@, i as int);
                lemma_filter_push(ordered_values(v).take(i as int), v[k], p);
            }
            match self.queue.get(&k) {
                Some(t) => {
                    if t.position == index {
                        let ghost before = out@;
                        out.push(t.id);
                        proof {
                            assert(out@ =~= ordered_values(v).take(i + 1).filter(p).map_values(
                                |t: TrackView| t.id,
                            ));
                        }
                    }
                },
                None => {},
            }
            i = i + 1;
        }
        proof {
            assert(ordered_values(v).take(ks@.len() as int) =~= ordered_values(v));
        }
        out
    }

    /// Skips to place `index`: tracks before it become played, tracks after it
    /// unplayed, and each track at it plays with the address fetched for it
    /// (by id, in `urls`), or becomes unplayable if none was fetched. Returns a copy
    /// of the last track, in key order, that now plays.
    pub fn mark_skip(&mut self, index: u32, urls: &Vec<(u32, String)>) -> (r: Option<Track>)
        ensures
            final(self)@.queue == old(self)@.queue.map_values(
                |t: TrackView| skip_update(t, index, urls_view(urls@)),
            ),
            final(self).entries().dom() == old(self).entries().dom(),
            final(self)@.album == old(self)@.album,
            final(self)@.playlist == old(self)@.playlist,
            final(self)@.list_type == old(self)@.list_type,
            match r {
                Some(t) => exists|k: u32|
                    last_skip_target(old(self)@.queue, index, urls_view(urls@), k) && t@
                        == final(self)@.queue[k],
                None => no_skip_target(old(self)@.queue, index, urls_view(urls@)),
            },
    {
        proof {
            crate::ordering_facts::lemma_u32_key_model();
        }
        let ghost uv = urls_view(urls@);
        let ghost old_q = self.queue@;
        let ghost old_v = tracks_view(old_q);
        let ks = sorted_keys(&self.queue);
        let mut current: Option<Track> = None;
        let mut i: usize = 0;
        while i < ks.len()
            invariant
                uv == urls_view(urls@),
                old_v == tracks_view(old_q),
                strictly_increasing(ks@),
                ks@.to_set() == old_q.dom(),
                self.queue@.dom() == old_q.dom(),
                i <= ks@.len(),
                forall|m: int| 0 <= m < i ==> self.queue@[ks@[m]]@ == skip_update(
                    old_v[ks@[m]],
                    index,
                    uv,
                ),
                forall|m: int| i <= m < ks@.len() ==> self.queue@[ks@[m]] == old_q[ks@[m]],
                self.album == old(self).album,
                self.playlist == old(self).playlist,
                self.list_type == old(self).list_type,
                match current {
                    Some(c) => {
                        &&& exists|m: int| {
                            &&& 0 <= m < i
                            &&& skip_target(old_v[ks@[m]], index, uv)
                            &&& c@ == skip_update(old_v[ks@[m]], index, uv)
                            &&& forall|m2: int|
                                0 <= m2 < i && ks@[m2] > ks@[m] ==> !skip_target(
                                    old_v[ks@[m2]],
                                    index,
                                    uv,
                                )
                        }
                    },
                    None => forall|m: int| 0 <= m < i ==> !skip_target(old_v[ks@[m]], index, uv),
                },
            decreases ks@.len() - i,
        {
            let k = ks[i];
            proof {
                assert(ks@.to_set().contains(k));
                assert(ks@.no_duplicates()) by {
                    assert forall|a: int, b: int|
                        0 <= a < ks@.len() && 0 <= b < ks@.len() && a != b implies ks@[a]
                        != ks@[b] by {
                        if a < b {
                        } else {
                        }
                    }
                }
            }
            let ghost q_before = self.queue@;
            match self.queue.remove(&k) {
                Some(mut t) => {
                    let ghost t0 = t;
                    if t.position < index {
                        t.status = TrackStatus::Played;
                    } else if t.position == index {
                        match find_url(urls, t.id) {
                            Some(u) => {
                                t.status = TrackStatus::Playing;
                                t.track_url = Some(u);
                                let c = t.duplicate();
                                proof {
                                    assert(skip_target(old_v[k], index, uv));
                                    assert forall|m2: int|
                                        0 <= m2 < i + 1 && ks@[m2] > ks@[i as int] implies !skip_target(
                                        old_v[ks@[m2]],
                                        index,
                                        uv,
                                    ) by {
                                        assert(m2 > i || ks@[m2] <= ks@[i as int]);
                                    }
                                }
                                current = Some(c);
                            },
                            None => {
                                t.status = TrackStatus::Unplayable;
                            },
                        }
                    } else {
                        t.status = TrackStatus::Unplayed;
                    }
                    proof {
                        assert(t0 == old_q[k]);
                        assert(t@ == skip_update(old_v[k], index, uv));
                        if !skip_target(old_v[k], index, uv) {
                            if let Some(c) = &current {
                                let m = choose|m: int| {
                                    &&& 0 <= m < i
                                    &&& skip_target(old_v[ks@[m]], index, uv)
                                    &&& c@ == skip_update(old_v[ks@[m]], index, uv)
                                    &&& forall|m2: int|
                                        0 <= m2 < i && ks@[m2] > ks@[m] ==> !skip_target(
                                            old_v[ks@[m2]],
                                            index,
                                            uv,
                                        )
                                };
                                assert forall|m2: int|
                                    0 <= m2 < i + 1 && ks@[m2] > ks@[m] implies !skip_target(
                                    old_v[ks@[m2]],
                                    index,
                                    uv,
                                ) by {
                                    if m2 == i {
                                    }
                                }
                            }
                        }
                    }
                    self.queue.insert(k, t);
                    proof {
                        assert forall|m: int| 0 <= m < i + 1 implies self.queue@[ks@[m]]@
                            == skip_update(old_v[ks@[m]], index, uv) by {
                            if m < i {
                                assert(ks@[m] != k);
                            }
                        }
                        assert forall|m: int| i + 1 <= m < ks@.len() implies self.queue@[ks@[m]]
                            == old_q[ks@[m]] by {
                            assert(ks@[m] != k);
                        }
                        assert(self.queue@.dom() =~= old_q.dom());
                    }
                },
                None => {
                    proof {
                        assert(false);
                    }
                },
            }
            i = i + 1;
        }
        proof {
            let fv = tracks_view(self.queue@);
            let target = old_v.map_values(|t: TrackView| skip_update(t, index, uv));
            assert forall|j: u32| fv.contains_key(j) implies fv[j] == target[j] by {
                assert(ks@.to_set().contains(j));
                assert(ks@.contains(j));
            }
            assert(fv =~= target);
            match &current {
                Some(c) => {
                    let m = choose|m: int| {
                        &&& 0 <= m < ks@.len()
                        &&& skip_target(old_v[ks@[m]], index, uv)
                        &&& c@ == skip_update(old_v[ks@[m]], index, uv)
                        &&& forall|m2: int|
                            0 <= m2 < ks@.len() && ks@[m2] > ks@[m] ==> !skip_target(
                                old_v[ks@[m2]],
                                index,
                                uv,
                            )
                    };
                    let k = ks@[m];
                    assert(ks@.to_set().contains(k));
                    assert(old_v.contains_key(k));
                    assert(fv[k] == target[k]);
                    assert(c@ == fv[k]);
                    assert(old(self)@.queue == old_v);
                    assert(self@.queue == fv);
                    assert forall|j: u32| old_v.contains_key(j) && j > k implies !skip_target(
                        old_v[j],
                        index,
                        uv,
                    ) by {
                        assert(ks@.to_set().contains(j));
                        assert(ks@.contains(j));
                    }
                    assert(old(self)@.queue.contains_key(k) && skip_target(old(self)@.queue[k], index, uv)
                        && c@ == self@.queue[k]);
                },
                None => {
                    assert(old(self)@.queue == old_v);
                    assert forall|j: u32| old_v.contains_key(j) implies !skip_target(
                        old_v[j],
                        index,
                        uv,
                    ) by {
                        assert(ks@.to_set().contains(j));
                        assert(ks@.contains(j));
                    }
                },
            }
        }
        current
    }
}

} // verus!
