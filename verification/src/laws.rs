//! Properties that hold across the player's operations: names read back to
//! what they were written from, a saved session reads back to what it
//! saved, and skips and jumps land where they should.
use vstd::prelude::*;

use crate::playback::{backward_target, forward_target, quit_plan, JUMP_NANOS};
use crate::player_state::{restorable, saved_entity_id, savable, PlayerStateView, SavedState};
use crate::queue::{list_total, list_type_from_name, list_type_name, skip_update, status_set, TrackListType, TrackListView};
use crate::service::{TrackStatus, TrackView};
use crate::state::PlaybackState;
use crate::client::{capitalized, chosen_secret, signature_text, quality_name, quality_named, quality_number, quality_of, quoted, AudioQuality};
use crate::catalog::ApiTrack;
use crate::player_state::{playlist_list, skipped, started};
use crate::playback::skip_destination;
use crate::state::SkipDirection;
use crate::cursive_ui::{key_command, UiCommand};
use crate::service::PlaylistView;
use crate::screens::{next_index, previous_index};
use crate::screen_keys::{search_query_after, SearchScreen};
use crate::screens::Key;
use crate::sync::{is_missing, missing_places};
use crate::text::{all_digits, decimal, digit_char, digit_value, digits_value, parsed_i32, parsed_i64, parsed_int};

verus! {

/// A list type's stored name reads back to the same list type.
pub proof fn lemma_list_type_name_round_trip(t: TrackListType)
    ensures
        list_type_from_name(list_type_name(t)) == t,
{
    reveal_strlit("album");
    reveal_strlit("playlist");
    reveal_strlit("track");
    reveal_strlit("unknown");
    assert("album"@.len() == 5 && "playlist"@.len() == 8 && "track"@.len() == 5 && "unknown"@.len() == 7);
    assert("album"@[0] == 'a' && "track"@[0] == 't');
    assert("playlist"@ != "album"@);
    assert("track"@ != "album"@ && "track"@ != "playlist"@);
    assert("unknown"@ != "album"@ && "unknown"@ != "playlist"@ && "unknown"@ != "track"@);
}

proof fn lemma_digit_char(d: nat)
    requires
        d < 10,
    ensures
        '0' <= digit_char(d) <= '9',
        digit_value(digit_char(d)) == d,
{
}

/// Decimal text is all digits and reads back to its number.
pub proof fn lemma_decimal_reads_back(n: nat)
    ensures
        decimal(n).len() > 0,
        all_digits(decimal(n)),
        digits_value(decimal(n)) == n,
        '0' <= decimal(n)[0] <= '9',
    decreases n,
{
    if n < 10 {
        lemma_digit_char(n);
        assert(decimal(n).drop_last() =~= Seq::<char>::empty());
        assert(digits_value(decimal(n)) == digits_value(Seq::<char>::empty()) * 10 + digit_value(digit_char(n)));
    } else {
        lemma_decimal_reads_back(n / 10);
        lemma_digit_char(n % 10);
        let s = decimal(n / 10);
        assert(decimal(n).drop_last() =~= s);
        assert(decimal(n).last() == digit_char(n % 10));
        assert(digits_value(decimal(n)) == digits_value(s) * 10 + digit_value(digit_char(n % 10)));
        assert((n / 10) * 10 + n % 10 == n);
        assert forall|i: int| 0 <= i < decimal(n).len() implies '0' <= #[trigger] decimal(n)[i] <= '9' by {
            if i < s.len() {
                assert(decimal(n)[i] == s[i]);
            }
        }
    }
}

/// The decimal text of a number reads back, as an `i64`, to the number.
pub proof fn lemma_decimal_parses_i64(n: u32)
    ensures
        parsed_i64(decimal(n as nat)) == Some(n as i64),
{
    lemma_decimal_reads_back(n as nat);
    assert(parsed_int(decimal(n as nat)) == Some(n as int));
}

/// The decimal text of a number up to `i32::MAX` reads back, as an `i32`, to the number.
pub proof fn lemma_decimal_parses_i32(n: u32)
    requires
        n <= i32::MAX,
    ensures
        parsed_i32(decimal(n as nat)) == Some(n as i32),
{
    lemma_decimal_reads_back(n as nat);
    assert(parsed_int(decimal(n as nat)) == Some(n as int));
}

/// A saved session reads back to the entity it was saved from: a state with
/// a current track, saved, is restorable (its track id fitting an `i32` when
/// the list is a single track), its kind reads back to the list's kind, and
/// a playlist's or track's id reads back to that number.
pub proof fn lemma_saved_session_reads_back(s: PlayerStateView, saved: SavedState, position: Option<u64>)
    requires
        savable(s),
        s.current_track is Some,
        s.tracklist.list_type != TrackListType::Unknown,
        s.tracklist.list_type == TrackListType::Track ==> s.current_track.unwrap().id <= i32::MAX,
        saved.playback_entity_type@ == list_type_name(s.tracklist.list_type),
        saved.playback_entity_id@ == saved_entity_id(s),
    ensures
        restorable(saved),
        list_type_from_name(saved.playback_entity_type@) == s.tracklist.list_type,
        s.tracklist.list_type == TrackListType::Album ==> saved.playback_entity_id@
            == s.tracklist.album.unwrap().id,
        s.tracklist.list_type == TrackListType::Playlist ==> parsed_i64(saved.playback_entity_id@)
            == Some(s.tracklist.playlist.unwrap().id as i64),
        s.tracklist.list_type == TrackListType::Track ==> parsed_i32(saved.playback_entity_id@)
            == Some(s.current_track.unwrap().id as i32),
{
    lemma_list_type_name_round_trip(s.tracklist.list_type);
    match s.tracklist.list_type {
        TrackListType::Playlist => {
            lemma_decimal_parses_i64(s.tracklist.playlist.unwrap().id);
        },
        TrackListType::Track => {
            lemma_decimal_parses_i32(s.current_track.unwrap().id);
        },
        _ => {},
    }
}

/// The position a saved session seeks back to is the saved position rounded
/// down to the millisecond.
pub proof fn lemma_saved_position_reads_back(position: u64)
    ensures
        ((position / 1_000_000) as i64 as u64) * 1_000_000 <= position,
        position < ((position / 1_000_000) as i64 as u64) * 1_000_000 + 1_000_000,
{
    assert((position / 1_000_000) as i64 as u64 == position / 1_000_000);
}

/// After a skip to `index`, a track is played exactly when it stands before
/// `index`, unplayed exactly when it stands after it, and a track at `index`
/// is playing or unplayable.
pub proof fn lemma_skip_statuses(t: TrackView, index: u32, urls: Seq<(u32, Seq<char>)>)
    ensures
        (skip_update(t, index, urls).status == TrackStatus::Played) <==> t.position < index,
        (skip_update(t, index, urls).status == TrackStatus::Unplayed) <==> t.position > index,
        t.position == index ==> (skip_update(t, index, urls).status == TrackStatus::Playing
            || skip_update(t, index, urls).status == TrackStatus::Unplayable),
        skip_update(t, index, urls).id == t.id,
        skip_update(t, index, urls).position == t.position,
{
}

/// A forward jump never goes past the end of the track and never goes back.
pub proof fn lemma_forward_jump_bounds(position: u64, duration: u64)
    ensures
        forward_target(position, duration) <= duration,
        position <= duration ==> position <= forward_target(position, duration),
{
}

/// A backward jump never goes before the start nor past where it began.
pub proof fn lemma_backward_jump_bounds(position: u64)
    ensures
        0 <= backward_target(position) <= position,
        position >= JUMP_NANOS * 2 ==> backward_target(position) == position - JUMP_NANOS,
{
}

/// Winding the pipeline down always ends stopped, from any state but the
/// stopped or pending ones, and each step moves one state down.
pub proof fn lemma_quit_ends_stopped(current: PlaybackState)
    ensures
        current == PlaybackState::Null || current == PlaybackState::VoidPending <==> quit_plan(current).len() == 0,
        quit_plan(current).len() > 0 ==> quit_plan(current).last() == PlaybackState::Null,
{
}

/// A quality's format id reads back to the same quality.
pub proof fn lemma_quality_round_trip(q: AudioQuality)
    ensures
        quality_of(quality_number(q) as i64) == q,
{
}

/// Capitalizing twice is capitalizing once.
pub proof fn lemma_capitalize_idempotent(s: Seq<char>)
    ensures
        capitalized(capitalized(s)) == capitalized(s),
{
}

/// A skip that makes a track current lands on the place asked for, and the
/// track plays.
pub proof fn lemma_skip_lands_on_index(
    old: PlayerStateView,
    new: PlayerStateView,
    index: u32,
    urls: Seq<(u32, Seq<char>)>,
    r: Option<TrackView>,
)
    requires
        skipped(old, new, index, urls, r),
        r is Some,
    ensures
        r.unwrap().position == index,
        r.unwrap().status == TrackStatus::Playing,
        new.current_track == r,
{
    let t = r.unwrap();
    let k = choose|k: u32| crate::queue::last_skip_target(old.tracklist.queue, index, urls, k) && t == new.tracklist.queue[k];
    assert(new.tracklist.queue[k] == skip_update(old.tracklist.queue[k], index, urls));
}

/// Moving down and then up from a row that is not the last comes back to it.
pub proof fn lemma_previous_undoes_next(i: usize, len: nat)
    requires
        i + 1 < len,
        len <= usize::MAX,
    ensures
        previous_index(Some(next_index(Some(i), len)), len) == i,
{
}

/// Moving up and then down from a row that is not the first comes back to it.
pub proof fn lemma_next_undoes_previous(i: usize, len: nat)
    requires
        0 < i < len,
    ensures
        next_index(Some(previous_index(Some(i), len)), len) == i,
{
}

/// While a query is typed, "backspace" takes back the character just typed.
pub proof fn lemma_backspace_undoes_typing(s: SearchScreen, t: SearchScreen, c: char)
    requires
        s.enter_search,
        c != '\n',
        c != '/',
        t.enter_search,
        t.search_query@ == search_query_after(s, Key::Char(c)),
    ensures
        search_query_after(t, Key::Backspace) == s.search_query@,
{
    assert(s.search_query@.push(c).drop_last() =~= s.search_query@);
}

/// A track of the other service is listed as missing exactly when it has an
/// ISRC whose lower-cased form is not among the playlist's codes.
pub proof fn lemma_missing_places_exact(isrcs: Seq<Option<Seq<char>>>, codes: Set<Seq<char>>, n: int, k: int)
    requires
        0 <= n <= isrcs.len(),
    ensures
        missing_places(isrcs, codes, n).contains(k) <==> (0 <= k < n && is_missing(isrcs[k], codes)),
    decreases n,
{
    if n > 0 {
        lemma_missing_places_exact(isrcs, codes, n - 1, k);
        let prev = missing_places(isrcs, codes, n - 1);
        if is_missing(isrcs[n - 1], codes) {
            let next = prev.push(n - 1);
            assert(next.contains(k) <==> (prev.contains(k) || k == n - 1)) by {
                if k == n - 1 {
                    assert(next[prev.len() as int] == k);
                }
                if next.contains(k) {
                    let j = choose|j: int| 0 <= j < next.len() && #[trigger] next[j] == k;
                    if j < prev.len() {
                        assert(prev[j] == k);
                    }
                }
                if prev.contains(k) {
                    let j = choose|j: int| 0 <= j < prev.len() && prev[j] == k;
                    assert(next[j] == k);
                }
            }
        }
    }
}

/// Setting a track's status twice is setting it once.
pub proof fn lemma_status_set_idempotent(q: Map<u32, TrackView>, position: u32, status: TrackStatus)
    ensures
        status_set(status_set(q, position, status), position, status) == status_set(q, position, status),
{
    assert(status_set(status_set(q, position, status), position, status) =~= status_set(q, position, status));
}

/// Skipping to the same place twice, with the same addresses, is skipping once.
pub proof fn lemma_skip_idempotent(t: TrackView, index: u32, urls: Seq<(u32, Seq<char>)>)
    ensures
        skip_update(skip_update(t, index, urls), index, urls) == skip_update(t, index, urls),
{
}

/// An emptied list stands for no tracks.
pub proof fn lemma_cleared_list_is_empty(v: TrackListView)
    requires
        v.queue == Map::<u32, TrackView>::empty(),
        v.album is None,
        v.playlist is None,
    ensures
        list_total(v) == 0,
{
    assert(v.queue.dom() =~= Set::<u32>::empty());
}

/// Three moves to the next screen come back to the screen shown first.
pub proof fn lemma_screens_cycle(s: crate::state::ActiveScreen)
    ensures
        crate::state::next_screen(crate::state::next_screen(crate::state::next_screen(s))) == s,
        crate::state::next_screen(s) != s,
{
}

/// Reversing a playlist's tracks twice gives back their first order.
pub proof fn lemma_reverse_twice(tracks: Seq<ApiTrack>)
    ensures
        tracks.reverse().reverse() == tracks,
{
    assert(tracks.reverse().reverse() =~= tracks);
}

/// A token put between quotes reads back as that token: the member text
/// `"t"` can be stripped, and stripping it gives `t`.
pub proof fn lemma_quoted_token_reads_back(token: Seq<char>)
    ensures
        quoted(seq!['"'] + token + seq!['"']),
        (seq!['"'] + token + seq!['"']).subrange(1, token.len() as int + 1) == token,
{
    let f = seq!['"'] + token + seq!['"'];
    assert(f[0] == '"');
    assert(f.last() == '"');
    assert(f.subrange(1, token.len() as int + 1) =~= token);
}

/// A quality's command-line name selects that quality again, and no two
/// qualities share a name.
pub proof fn lemma_quality_name_round_trip(q: AudioQuality)
    ensures
        quality_named(quality_name(q)) == Some(q),
{
    reveal_strlit("mp3");
    reveal_strlit("cd");
    reveal_strlit("hifi96");
    reveal_strlit("hifi192");
    reveal_strlit("unknown");
    assert("mp3"@.len() == 3 && "cd"@.len() == 2 && "hifi96"@.len() == 6);
    assert("hifi192"@.len() == 7 && "unknown"@.len() == 7);
    assert("hifi192"@[0] != "unknown"@[0]);
    assert("hifi192"@ != "unknown"@);
}

/// A skip to a chosen place in range lands on that place, whether the
/// place is before or after the current track, in either direction; a
/// place beyond the list goes nowhere.
pub proof fn lemma_chosen_place_is_reached(i: u32, current: Option<u32>, direction: SkipDirection, total: u32)
    ensures
        i <= total ==> skip_destination(Some(i), current, direction, total) == Some(i),
        i > total ==> skip_destination(Some(i), current, direction, total) is None,
{
}

/// A forward jump lands exactly ten seconds on when that is before the end
/// of the track, and at the end of the track otherwise.
pub proof fn lemma_forward_jump_exact(position: u64, duration: u64)
    ensures
        position + 10_000_000_000 < duration ==> forward_target(position, duration) == position + 10_000_000_000,
        position + 10_000_000_000 >= duration ==> forward_target(position, duration) == duration,
{
}

/// A secret handed in signs the stream-address request whatever secret is
/// active: the chosen secret is the one handed in, and the signed text ends
/// with it. The active secret is used only when none is handed in.
pub proof fn lemma_handed_in_secret_signs(
    s: Seq<char>,
    active: Option<Seq<char>>,
    quality: AudioQuality,
    track_id: i32,
    now: Seq<char>,
)
    ensures
        chosen_secret(Some(s), active) == Some(s),
        chosen_secret(None, active) == active,
        ({
            let t = signature_text(quality, track_id, now, s);
            t.len() >= s.len() && t.subrange(t.len() - s.len(), t.len() as int) == s
        }),
{
    let t = signature_text(quality, track_id, now, s);
    assert(t.subrange(t.len() - s.len(), t.len() as int) =~= s);
}

/// Playing a playlist whose first track stands under key 1 marks that
/// track as playing in the list and makes it current, playing too; the
/// other tracks keep their status.
pub proof fn lemma_playlist_first_track_plays(
    old: PlayerStateView,
    new: PlayerStateView,
    p: PlaylistView,
    url: Option<Seq<char>>,
    r: Option<Seq<char>>,
)
    requires
        started(old, new, playlist_list(p), url, r),
        p.tracks.contains_key(1),
        !p.tracks.contains_key(0),
    ensures
        new.tracklist.queue[1].status == TrackStatus::Playing,
        new.current_track matches Some(t) && t.status == TrackStatus::Playing && t.id == p.tracks[1].id,
        new.target_status == PlaybackState::Playing,
        forall|k: u32| p.tracks.contains_key(k) && k != 1 ==> new.tracklist.queue[k] == p.tracks[k],
{
    let q = new.tracklist.queue;
    assert(q.dom().contains(1));
    let k = choose|k: u32| {
        &&& crate::player_state::is_first_key(q, k)
        &&& new.current_track == Some(crate::player_state::attached(q[k], url))
        &&& new.target_status == PlaybackState::Playing
        &&& r == crate::player_state::attached(q[k], url).track_url
    };
    assert(k <= 1);
    assert(k != 0);
    assert(k == 1);
}

/// The playback keys: space toggles play, 'N' goes to the next track and
/// 'P' to the previous one, 'l' jumps forward and 'h' back; 'N' and 'P'
/// never give the same command, and no key gives more than one.
pub proof fn lemma_playback_keys(c: char)
    ensures
        key_command(' ') == seq![UiCommand::PlayPause],
        key_command('N') == seq![UiCommand::Next],
        key_command('P') == seq![UiCommand::Previous],
        key_command('l') == seq![UiCommand::JumpForward],
        key_command('h') == seq![UiCommand::JumpBackward],
        key_command('N') != key_command('P'),
        key_command(c).len() <= 1,
{
    assert(key_command('N')[0] != key_command('P')[0]);
}

} // verus!
