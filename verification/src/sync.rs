//! Playlist sync: which tracks of a playlist on another service are missing
//! from a playlist on this one, matched by ISRC, and how each found track is
//! added and placed.
use vstd::prelude::*;

use crate::text::{decimal, i64_text, signed_decimal, str_eq};

verus! {

/// An International Standard Recording Code, as text.
#[derive(Debug, Clone, PartialEq, Eq, Hash)]
pub struct Isrc(pub String);

/// The lower-case form of a text (`str::to_lowercase`).
pub uninterp spec fn lowercased(s: Seq<char>) -> Seq<char>;

/// The lower-case form of `s` (`str::to_lowercase`, Unicode lower-casing).
/// The contract names the result; the Unicode case tables are not written out.
#[verifier::external_body]
fn lowercase(s: &str) -> (r: String)
    ensures
        r@ == lowercased(s@),
{
    s.to_lowercase()
}

/// A track of a playlist on this service: its id and its ISRC, if known.
#[derive(Debug, Clone)]
pub struct PlaylistTrack {
    pub id: i32,
    pub isrc: Option<String>,
}

/// A playlist on this service, with its tracks where they were fetched.
#[derive(Debug, Clone)]
pub struct QobuzPlaylist {
    pub id: i64,
    pub tracks: Option<Vec<PlaylistTrack>>,
}

/// A track of a playlist on the other service: its id there and its ISRC, if known.
#[derive(Debug, Clone)]
pub struct SpotifyTrack {
    pub id: String,
    pub isrc: Option<String>,
}

/// A playlist on the other service, with all its tracks.
#[derive(Debug, Clone)]
pub struct SpotifyFullPlaylist {
    pub all_tracks: Vec<SpotifyTrack>,
}

/// A track missing from this service's playlist, with its place in the other one.
#[derive(Debug, Clone)]
pub struct MissingTrack {
    pub track: SpotifyTrack,
    pub index: usize,
}

/// The lower-cased ISRC of an optional one.
pub open spec fn lower_isrc(isrc: Option<Seq<char>>) -> Option<Seq<char>> {
    match isrc {
        Some(i) => Some(lowercased(i)),
        None => None,
    }
}

/// Whether the texts of a list of codes are all different.
pub open spec fn distinct_codes(v: Seq<Isrc>) -> bool {
    forall|i: int, j: int| 0 <= i < j < v.len() ==> v[i].0@ != v[j].0@
}

/// The texts of a list of codes, as a set.
pub open spec fn code_set(v: Seq<Isrc>) -> Set<Seq<char>> {
    Set::new(|c: Seq<char>| exists|i: int| 0 <= i < v.len() && v[i].0@ == c)
}

/// Whether `c` is the lower-cased code of one of `isrcs`.
pub open spec fn has_lower_code(isrcs: Seq<Option<Seq<char>>>, c: Seq<char>) -> bool {
    exists|i: int| 0 <= i < isrcs.len() && lower_isrc(isrcs[i]) == Some(c)
}

/// Whether `code` is the text of one of the codes in `v`.
fn contains_code(v: &Vec<Isrc>, code: &str) -> (r: bool)
    ensures
        r == code_set(v@).contains(code@),
{
    let mut i: usize = 0;
    while i < v.len()
        invariant
            i <= v@.len(),
            forall|j: int| 0 <= j < i ==> v@[j].0@ != code@,
        decreases v@.len() - i,
    {
        if str_eq(v[i].0.as_str(), code) {
            assert(v@[i as int].0@ == code@);
            return true;
        }
        i = i + 1;
    }
    false
}

/// The distinct lower-cased codes of `isrcs`, in order of first appearance.
fn distinct_lower_codes(isrcs: &Vec<Option<String>>) -> (r: Vec<Isrc>)
    ensures
        distinct_codes(r@),
        forall|c: Seq<char>| code_set(r@).contains(c) <==> has_lower_code(opt_texts(isrcs@), c),
{
    let mut out: Vec<Isrc> = Vec::new();
    let mut i: usize = 0;
    while i < isrcs.len()
        invariant
            i <= isrcs@.len(),
            distinct_codes(out@),
            forall|c: Seq<char>| code_set(out@).contains(c) <==> has_lower_code(opt_texts(isrcs@.subrange(0, i as int)), c),
        decreases isrcs@.len() - i,
    {
        let ghost before = out@;
        if let Some(isrc) = &isrcs[i] {
            let lower = lowercase(isrc.as_str());
            if !contains_code(&out, lower.as_str()) {
                out.push(Isrc(lower));
            }
        }
        proof {
            let pre = opt_texts(isrcs@.subrange(0, i as int));
            let post = opt_texts(isrcs@.subrange(0, i + 1));
            assert forall|c: Seq<char>| code_set(out@).contains(c) <==> has_lower_code(post, c) by {
                if has_lower_code(post, c) {
                    let k = choose|k: int| 0 <= k < post.len() && lower_isrc(post[k]) == Some(c);
                    if k < i {
                        assert(pre[k] == post[k]);
                        assert(has_lower_code(pre, c));
                        assert(code_set(before).contains(c));
                        let m = choose|m: int| 0 <= m < before.len() && before[m].0@ == c;
                        assert(out@[m] == before[m]);
                    } else {
                        if !code_set(before).contains(c) {
                            assert(out@[out@.len() - 1].0@ == c);
                        } else {
                            let m = choose|m: int| 0 <= m < before.len() && before[m].0@ == c;
                            assert(out@[m] == before[m]);
                        }
                    }
                }
                if code_set(out@).contains(c) {
                    let m = choose|m: int| 0 <= m < out@.len() && out@[m].0@ == c;
                    if m < before.len() {
                        assert(out@[m] == before[m]);
                        assert(code_set(before).contains(c));
                        assert(has_lower_code(pre, c));
                        let k = choose|k: int| 0 <= k < pre.len() && lower_isrc(pre[k]) == Some(c);
                        assert(post[k] == pre[k]);
                    } else {
                        assert(lower_isrc(post[i as int]) == Some(c));
                    }
                }
            }
        }
        i = i + 1;
    }
    assert(isrcs@.subrange(0, i as int) =~= isrcs@);
    out
}

/// The texts of a list of optional strings.
pub open spec fn opt_texts(v: Seq<Option<String>>) -> Seq<Option<Seq<char>>> {
    v.map_values(|x: Option<String>| crate::service::opt_str(x))
}

/// The ISRCs of a list of playlist tracks.
pub open spec fn track_isrcs(t: Seq<PlaylistTrack>) -> Seq<Option<Seq<char>>> {
    t.map_values(|x: PlaylistTrack| crate::service::opt_str(x.isrc))
}

/// The ISRCs of a list of tracks on the other service.
pub open spec fn spotify_isrcs(t: Seq<SpotifyTrack>) -> Seq<Option<Seq<char>>> {
    t.map_values(|x: SpotifyTrack| crate::service::opt_str(x.isrc))
}

impl QobuzPlaylist {
    /// The distinct lower-cased ISRCs of the playlist's tracks (none when
    /// its tracks were not fetched).
    pub fn irsc_list(&self) -> (r: Vec<Isrc>)
        ensures
            distinct_codes(r@),
            forall|c: Seq<char>| code_set(r@).contains(c) <==> match self.tracks {
                Some(t) => has_lower_code(track_isrcs(t@), c),
                None => false,
            },
    {
        match &self.tracks {
            Some(tracks) => {
                let mut isrcs: Vec<Option<String>> = Vec::new();
                let mut i: usize = 0;
                while i < tracks.len()
                    invariant
                        i <= tracks@.len(),
                        opt_texts(isrcs@) == track_isrcs(tracks@.subrange(0, i as int)),
                    decreases tracks@.len() - i,
                {
                    let isrc = crate::service::copy_opt_string(&tracks[i].isrc);
                    let ghost before = isrcs@;
                    isrcs.push(isrc);
                    proof {
                        assert(opt_texts(isrcs@) =~= opt_texts(before).push(crate::service::opt_str(isrc)));
                        assert(track_isrcs(tracks@.subrange(0, i + 1)) =~= track_isrcs(
                            tracks@.subrange(0, i as int),
                        ).push(crate::service::opt_str(tracks@[i as int].isrc)));
                    }
                    i = i + 1;
                }
                assert(tracks@.subrange(0, i as int) =~= tracks@);
                distinct_lower_codes(&isrcs)
            },
            None => {
                let r: Vec<Isrc> = Vec::new();
                assert forall|c: Seq<char>| !code_set(r@).contains(c) by {}
                r
            },
        }
    }
}

impl QobuzPlaylist {
    /// A copy of the playlist's tracks, where they were fetched.
    pub fn tracks(&self) -> (r: Option<Vec<PlaylistTrack>>)
        ensures
            match r {
                Some(v) => self.tracks matches Some(t) && tracks_view(v@) == tracks_view(t@),
                None => self.tracks is None,
            },
    {
        match &self.tracks {
            Some(t) => Some(copy_tracks(t)),
            None => None,
        }
    }

    /// The playlist's id, as text.
    pub fn id(&self) -> (r: String)
        ensures
            r@ == signed_decimal(self.id as int),
    {
        i64_text(self.id)
    }

    /// Puts a copy of `track` at place `index` of the playlist's tracks, if
    /// they were fetched.
    pub fn insert(&mut self, index: usize, track: &PlaylistTrack)
        requires
            old(self).tracks matches Some(t) ==> index <= t@.len(),
        ensures
            final(self).id == old(self).id,
            match old(self).tracks {
                Some(t) => final(self).tracks matches Some(n) && tracks_view(n@) == tracks_view(t@).insert(
                    index as int,
                    track_view(*track),
                ),
                None => final(self).tracks is None,
            },
    {
        if let Some(tracks) = &mut self.tracks {
            let ghost before = tracks@;
            tracks.insert(index, copy_track(track));
            proof {
                assert(tracks_view(tracks@) =~= tracks_view(before).insert(index as int, track_view(*track)));
            }
        }
    }

    /// Adds a copy of `track` after the playlist's tracks, if they were fetched.
    pub fn push(&mut self, track: &PlaylistTrack)
        ensures
            final(self).id == old(self).id,
            match old(self).tracks {
                Some(t) => final(self).tracks matches Some(n) && tracks_view(n@) == tracks_view(t@).push(
                    track_view(*track),
                ),
                None => final(self).tracks is None,
            },
    {
        if let Some(tracks) = &mut self.tracks {
            let ghost before = tracks@;
            tracks.push(copy_track(track));
            proof {
                assert(tracks_view(tracks@) =~= tracks_view(before).push(track_view(*track)));
            }
        }
    }

    /// The number of the playlist's tracks that were fetched.
    pub fn track_count(&self) -> (r: usize)
        ensures
            r == (match self.tracks {
                Some(t) => t@.len(),
                None => 0,
            }),
    {
        match &self.tracks {
            Some(t) => t.len(),
            None => 0,
        }
    }
}

/// The text of a playlist track.
pub open spec fn track_view(t: PlaylistTrack) -> (i32, Option<Seq<char>>) {
    (t.id, crate::service::opt_str(t.isrc))
}

/// The texts of a list of playlist tracks.
pub open spec fn tracks_view(t: Seq<PlaylistTrack>) -> Seq<(i32, Option<Seq<char>>)> {
    t.map_values(|x: PlaylistTrack| track_view(x))
}

fn copy_track(t: &PlaylistTrack) -> (r: PlaylistTrack)
    ensures
        track_view(r) == track_view(*t),
{
    PlaylistTrack { id: t.id, isrc: crate::service::copy_opt_string(&t.isrc) }
}

fn copy_tracks(v: &Vec<PlaylistTrack>) -> (r: Vec<PlaylistTrack>)
    ensures
        tracks_view(r@) == tracks_view(v@),
{
    let mut out: Vec<PlaylistTrack> = Vec::new();
    let mut i: usize = 0;
    while i < v.len()
        invariant
            i <= v@.len(),
            tracks_view(out@) == tracks_view(v@.subrange(0, i as int)),
        decreases v@.len() - i,
    {
        let ghost before = out@;
        let c = copy_track(&v[i]);
        out.push(c);
        proof {
            assert(out@ == before.push(c));
            assert(tracks_view(out@) =~= tracks_view(before).push(track_view(c)));
            assert(v@.subrange(0, i + 1) =~= v@.subrange(0, i as int).push(v@[i as int]));
            assert(tracks_view(v@.subrange(0, i + 1)) =~= tracks_view(v@.subrange(0, i as int)).push(
                track_view(v@[i as int]),
            ));
        }
        i = i + 1;
    }
    assert(v@.subrange(0, i as int) =~= v@);
    out
}

/// Whether a track of the other service is missing from a playlist whose
/// codes are `codes`: it has an ISRC whose lower-cased form is not among them.
/// The codes are lower-cased too, so the case an ISRC is written in does not
/// matter: an upper-case ISRC is missing exactly when its lower-case form is.
pub open spec fn is_missing(isrc: Option<Seq<char>>, codes: Set<Seq<char>>) -> bool {
    isrc matches Some(i) && !codes.contains(lowercased(i))
}

/// The places, below `n`, of the tracks missing from a playlist with `codes`, in order.
pub open spec fn missing_places(isrcs: Seq<Option<Seq<char>>>, codes: Set<Seq<char>>, n: int) -> Seq<int>
    decreases n,
{
    if n <= 0 {
        Seq::empty()
    } else {
        let prev = missing_places(isrcs, codes, n - 1);
        if is_missing(isrcs[n - 1], codes) {
            prev.push(n - 1)
        } else {
            prev
        }
    }
}

impl SpotifyFullPlaylist {
    /// The distinct lower-cased ISRCs of the playlist's tracks.
    pub fn isrc_list(&self) -> (r: Vec<Isrc>)
        ensures
            distinct_codes(r@),
            forall|c: Seq<char>| code_set(r@).contains(c) <==> has_lower_code(spotify_isrcs(self.all_tracks@), c),
    {
        let mut isrcs: Vec<Option<String>> = Vec::new();
        let mut i: usize = 0;
        while i < self.all_tracks.len()
            invariant
                i <= self.all_tracks@.len(),
                opt_texts(isrcs@) == spotify_isrcs(self.all_tracks@.subrange(0, i as int)),
            decreases self.all_tracks@.len() - i,
        {
            let isrc = crate::service::copy_opt_string(&self.all_tracks[i].isrc);
            let ghost before = isrcs@;
            isrcs.push(isrc);
            proof {
                assert(opt_texts(isrcs@) =~= opt_texts(before).push(crate::service::opt_str(isrc)));
                assert(spotify_isrcs(self.all_tracks@.subrange(0, i + 1)) =~= spotify_isrcs(
                    self.all_tracks@.subrange(0, i as int),
                ).push(crate::service::opt_str(self.all_tracks@[i as int].isrc)));
            }
            i = i + 1;
        }
        assert(self.all_tracks@.subrange(0, i as int) =~= self.all_tracks@);
        distinct_lower_codes(&isrcs)
    }

    /// The tracks of the playlist missing from a playlist whose codes are
    /// `isrcs`, with their places, in playlist order: those with an ISRC whose
    /// lower-cased form is not among the codes. Each ISRC is looked up in
    /// lower case, the form the codes are kept in, whatever its own case.
    pub fn missing_tracks(&self, isrcs: &Vec<Isrc>) -> (r: Vec<MissingTrack>)
        ensures
            r@.map_values(|m: MissingTrack| m.index as int) == missing_places(
                spotify_isrcs(self.all_tracks@),
                code_set(isrcs@),
                self.all_tracks@.len() as int,
            ),
            forall|k: int| 0 <= k < r@.len() ==> r@[k].index < self.all_tracks@.len() && spotify_track_view(
                #[trigger] r@[k].track,
            ) == spotify_track_view(self.all_tracks@[r@[k].index as int]),
    {
        let ghost codes = code_set(isrcs@);
        let ghost all = spotify_isrcs(self.all_tracks@);
        let mut out: Vec<MissingTrack> = Vec::new();
        let mut i: usize = 0;
        while i < self.all_tracks.len()
            invariant
                i <= self.all_tracks@.len(),
                codes == code_set(isrcs@),
                all == spotify_isrcs(self.all_tracks@),
                out@.map_values(|m: MissingTrack| m.index as int) == missing_places(all, codes, i as int),
                forall|k: int| 0 <= k < out@.len() ==> out@[k].index < i && spotify_track_view(
                    #[trigger] out@[k].track,
                ) == spotify_track_view(self.all_tracks@[out@[k].index as int]),
            decreases self.all_tracks@.len() - i,
        {
            let ghost before = out@;
            if let Some(isrc) = &self.all_tracks[i].isrc {
                let lower = lowercase(isrc.as_str());
                if !contains_code(isrcs, lower.as_str()) {
                    let track = SpotifyTrack {
                        id: self.all_tracks[i].id.clone(),
                        isrc: crate::service::copy_opt_string(&self.all_tracks[i].isrc),
                    };
                    out.push(MissingTrack { track, index: i });
                    proof {
                        assert(is_missing(all[i as int], codes));
                        assert(out@.map_values(|m: MissingTrack| m.index as int) =~= before.map_values(
                            |m: MissingTrack| m.index as int,
                        ).push(i as int));
                    }
                } else {
                    assert(!is_missing(all[i as int], codes));
                }
            } else {
                assert(!is_missing(all[i as int], codes));
            }
            i = i + 1;
        }
        out
    }

    /// The number of the playlist's tracks.
    pub fn track_count(&self) -> (r: usize)
        ensures
            r == self.all_tracks@.len(),
    {
        self.all_tracks.len()
    }
}

/// An item of a playlist on the other service, as it lists them: a track,
/// an episode of a show, or nothing where the item is no longer there.
#[derive(Debug, Clone)]
pub enum PlaylistItem {
    Track(SpotifyTrack),
    Episode,
    Unavailable,
}

/// The tracks among a playlist's items, in their order; episodes and
/// items no longer there are left out.
pub open spec fn playable_tracks(items: Seq<PlaylistItem>) -> Seq<SpotifyTrack>
    decreases items.len(),
{
    if items.len() == 0 {
        Seq::empty()
    } else {
        playable_tracks(items.drop_last()) + match items.last() {
            PlaylistItem::Track(t) => seq![t],
            _ => Seq::empty(),
        }
    }
}

impl SpotifyTrack {
    /// A copy of the track, equal to it.
    pub fn duplicate(&self) -> (r: SpotifyTrack)
        ensures
            r == *self,
    {
        let isrc = match &self.isrc {
            Some(c) => Some(c.clone()),
            None => None,
        };
        SpotifyTrack { id: self.id.clone(), isrc }
    }
}

impl SpotifyFullPlaylist {
    /// The playlist made of the tracks among its fetched items.
    pub fn from_items(items: &Vec<PlaylistItem>) -> (r: SpotifyFullPlaylist)
        ensures
            r.all_tracks@ == playable_tracks(items@),
    {
        let mut all_tracks: Vec<SpotifyTrack> = Vec::new();
        let mut i: usize = 0;
        while i < items.len()
            invariant
                i <= items@.len(),
                all_tracks@ == playable_tracks(items@.take(i as int)),
            decreases items@.len() - i,
        {
            proof {
                assert(items@.take(i + 1).drop_last() =~= items@.take(i as int));
            }
            match &items[i] {
                PlaylistItem::Track(t) => {
                    all_tracks.push(t.duplicate());
                    assert(all_tracks@ =~= playable_tracks(items@.take(i + 1)));
                },
                _ => {
                    assert(all_tracks@ =~= playable_tracks(items@.take(i + 1)));
                },
            }
            i = i + 1;
        }
        assert(items@.take(items@.len() as int) =~= items@);
        SpotifyFullPlaylist { all_tracks }
    }
}

/// The text of a track of the other service.
pub open spec fn spotify_track_view(t: SpotifyTrack) -> (Seq<char>, Option<Seq<char>>) {
    (t.id@, crate::service::opt_str(t.isrc))
}

/// What syncing one missing track does.
#[derive(Debug, Clone, Copy, PartialEq, Eq, Structural)]
pub struct SyncStep {
    /// The track to add to the playlist: the first search result.
    pub add: Option<i32>,
    /// The place to move the added track to.
    pub move_to: Option<usize>,
}

/// What syncing the track missing at place `index` does, given the ids the
/// search for its ISRC found and the number of tracks the playlist had:
/// nothing if the search found nothing; otherwise the first found track is
/// added, and moved to place `index - 1` when `index` is below that number.
pub fn sync_step(index: usize, found: &Vec<i32>, track_count: usize) -> (r: SyncStep)
    requires
        found@.len() > 0 && index < track_count ==> index >= 1,
    ensures
        found@.len() == 0 ==> r == (SyncStep { add: None, move_to: None }),
        found@.len() > 0 ==> r.add == Some(found@[0]) && r.move_to == (if index < track_count {
            Some((index - 1) as usize)
        } else {
            None
        }),
{
    if found.len() == 0 {
        return SyncStep { add: None, move_to: None };
    }
    let add = Some(found[0]);
    let move_to = if index < track_count {
        Some(index - 1)
    } else {
        None
    };
    SyncStep { add, move_to }
}

/// The search text for a missing track: its lower-cased ISRC.
pub fn search_text(track: &SpotifyTrack) -> (r: Option<String>)
    ensures
        crate::service::opt_str(r) == lower_isrc(crate::service::opt_str(track.isrc)),
{
    match &track.isrc {
        Some(isrc) => Some(lowercase(isrc.as_str())),
        None => None,
    }
}

} // verus!
