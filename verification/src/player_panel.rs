//! The text of the terminal player's panel: the progress bar's label and
//! the three columns about the current track (its number, its title,
//! performer and album, and the playback state with the stream's
//! resolution).
use vstd::prelude::*;

use crate::catalog::ApiTrack;
use crate::convert::{ymd_date, ymd_date_of};
use crate::display::{pad_number, zero_padded};
use crate::listing::TrackListTrack;
use crate::secrets::utf8_size;
use crate::state::{ClockValue, PlaybackState, StatusValue};
use crate::text::{concat, decimal, digit_char, i32_text, i64_text, signed_decimal, u32_text, usize_text};

verus! {

/// The text of a clock value of `nanos` nanoseconds, as a clock time shows
/// itself: hours, minutes and seconds, then nine digits of nanoseconds.
pub open spec fn clock_value_text(nanos: nat) -> Seq<char> {
    let secs = nanos / 1_000_000_000;
    decimal(secs / 3600) + seq![':'] + zero_padded((secs % 3600) / 60, 2) + seq![':'] + zero_padded(secs % 60, 2)
        + seq!['.'] + zero_padded(nanos % 1_000_000_000, 9)
}

/// The part of a clock value's text a progress label shows: characters 2
/// to 7.
pub open spec fn clock_label(nanos: nat) -> Seq<char> {
    clock_value_text(nanos).subrange(2, 7)
}

proof fn lemma_clock_value_text_len(nanos: nat)
    ensures
        clock_value_text(nanos).len() >= 17,
{
    let secs = nanos / 1_000_000_000;
    crate::laws::lemma_decimal_reads_back(secs / 3600);
    crate::laws::lemma_decimal_reads_back((secs % 3600) / 60);
    crate::laws::lemma_decimal_reads_back(secs % 60);
    crate::laws::lemma_decimal_reads_back(nanos % 1_000_000_000);
}

impl ClockValue {
    /// The value as a clock time shows itself: `H:MM:SS.NNNNNNNNN`.
    pub fn to_text(&self) -> (r: String)
        ensures
            r@ == clock_value_text(self.0 as nat),
    {
        proof {
            reveal_strlit(":");
            reveal_strlit(".");
        }
        let secs = self.0 / 1_000_000_000;
        let hours = i64_text((secs / 3600) as i64);
        let minutes = pad_number(((secs % 3600) / 60) as u32, 2);
        let seconds = pad_number((secs % 60) as u32, 2);
        let nanos = pad_number((self.0 % 1_000_000_000) as u32, 9);
        let text = concat(
            concat(
                concat(concat(concat(concat(hours.as_str(), ":").as_str(), minutes.as_str()).as_str(), ":").as_str(), seconds.as_str()).as_str(),
                ".",
            ).as_str(),
            nanos.as_str(),
        );
        assert(text@ =~= clock_value_text(self.0 as nat));
        text
    }
}

/// What the progress bar shows.
#[derive(Debug, Clone, PartialEq, Eq)]
pub enum ProgressView {
    /// The stream is filling its buffer.
    Buffering,
    /// The track's length is not known yet.
    Loading,
    /// A gauge, labelled with the position and the length.
    Gauge { label: String },
}

/// What the progress bar shows: "BUFFERING" while the stream buffers,
/// else a gauge labelled "position / length" once the length is known,
/// else "LOADING". How far the gauge is filled (a fraction, kept apart
/// from the clock values) is the caller's to draw.
pub fn progress_view(position: ClockValue, duration: ClockValue, is_buffering: bool) -> (r: ProgressView)
    ensures
        is_buffering ==> r == ProgressView::Buffering,
        !is_buffering && duration.0 == 0 ==> r == ProgressView::Loading,
        !is_buffering && duration.0 > 0 ==> (r matches ProgressView::Gauge { label } && label@ == clock_label(
            position.0 as nat,
        ) + " / "@ + clock_label(duration.0 as nat)),
{
    if is_buffering {
        ProgressView::Buffering
    } else if duration.0 > 0 {
        let p = position.to_text();
        let d = duration.to_text();
        proof {
            lemma_clock_value_text_len(position.0 as nat);
            lemma_clock_value_text_len(duration.0 as nat);
            reveal_strlit(" / ");
        }
        let p = vstd::string::StrSliceExecFns::substring_char(p.as_str(), 2, 7);
        let d = vstd::string::StrSliceExecFns::substring_char(d.as_str(), 2, 7);
        let label = concat(concat(p, " / ").as_str(), d);
        ProgressView::Gauge { label }
    } else {
        ProgressView::Loading
    }
}

/// The year as a date format's `%Y` writes it: four digits, zero-padded,
/// for years 0 to 9999; otherwise with a sign, zero-padded to four digits
/// after it.
pub open spec fn year_label(y: i32) -> Seq<char> {
    if 0 <= y <= 9999 {
        zero_padded(y as nat, 4)
    } else if y < 0 {
        seq!['-'] + zero_padded((-y) as nat, 4)
    } else {
        seq!['+'] + zero_padded(y as nat, 4)
    }
}

/// The year as `%Y` writes it.
pub fn year_text(y: i32) -> (r: String)
    ensures
        r@ == year_label(y),
{
    if 0 <= y && y <= 9999 {
        pad_number(y as u32, 4)
    } else if y < 0 {
        proof {
            reveal_strlit("-");
        }
        let digits = pad_number((-(y as i64)) as u32, 4);
        concat("-", digits.as_str())
    } else {
        proof {
            reveal_strlit("+");
        }
        let digits = pad_number(y as u32, 4);
        concat("+", digits.as_str())
    }
}

/// The year of a date written "YYYY-MM-DD", read with the format
/// "%Y-%m-%d", or `None` if the text is no such date.
pub open spec fn release_year_of(s: Seq<char>) -> Option<i32> {
    match ymd_date_of(s) {
        Some(d) => Some(d.0),
        None => None,
    }
}

/// The year of a date written "YYYY-MM-DD"; `None` when the text is no
/// such date.
fn release_year(s: &str) -> (r: Option<i32>)
    ensures
        r == release_year_of(s@),
{
    match ymd_date(s) {
        Some(d) => Some(d.0),
        None => None,
    }
}

/// The number of bytes a text takes in UTF-8.
fn byte_len(s: &str) -> (r: u128)
    ensures
        r == utf8_size(s@),
{
    let n = vstd::string::StrSliceExecFns::unicode_len(s);
    let mut i: usize = 0;
    let mut total: u128 = 0;
    assert(s@.take(0) =~= Seq::<char>::empty());
    while i < n
        invariant
            n == s@.len(),
            i <= n,
            total == utf8_size(s@.take(i as int)),
            total <= 4 * i,
        decreases n - i,
    {
        let c = vstd::string::StrSliceExecFns::get_char(s, i);
        let code = c as u32;
        let w: u128 = if code < 0x80 {
            1
        } else if code < 0x800 {
            2
        } else if code < 0x10000 {
            3
        } else {
            4
        };
        proof {
            assert(s@.take(i + 1).drop_last() =~= s@.take(i as int));
            assert(s@.take(i + 1).last() == c);
        }
        total = total + w;
        i = i + 1;
    }
    assert(s@.take(n as int) =~= s@);
    total
}

/// Whether an entry's album, if it has one, carries a readable release date.
pub open spec fn album_dated(e: TrackListTrack) -> bool {
    e.album matches Some(a) ==> release_year_of(a.info.release_date_original@) is Some
}

/// The lines about the track: an empty line first when the title fits the
/// column's width in bytes, the title, the performer if there is one, and
/// the album's title with its year if the entry has an album.
pub open spec fn track_lines(e: TrackListTrack, width: nat) -> Seq<Seq<char>> {
    let t = e.track;
    let named = seq![t.title@] + match t.performer {
        Some(p) => seq![p.name@],
        None => Seq::empty(),
    };
    let spaced = if utf8_size(t.title@) <= width {
        seq![Seq::<char>::empty()] + named
    } else {
        named
    };
    match e.album {
        Some(a) => spaced.push(
            a.info.title@ + " ("@ + year_label(release_year_of(a.info.release_date_original@).unwrap()) + ")"@,
        ),
        None => spaced,
    }
}

/// The number an entry shows: its track number on an album, else its
/// place in the list.
pub open spec fn shown_number(e: TrackListTrack) -> usize {
    if e.album is Some {
        e.track.track_number as usize
    } else {
        e.index
    }
}

/// The lines of the number column: the number and the total, two digits
/// each at least, between empty lines.
pub open spec fn number_lines(e: TrackListTrack) -> Seq<Seq<char>> {
    seq![
        Seq::<char>::empty(),
        zero_padded(shown_number(e) as nat, 2),
        "of"@,
        zero_padded(e.total as nat, 2),
        Seq::<char>::empty(),
    ]
}

/// The mark of a playback state: ▶ when playing, ⏸ when paused, "..." when
/// ready, "NULL" when stopped, nothing when a change is pending.
pub open spec fn state_mark(s: PlaybackState) -> Seq<char> {
    match s {
        PlaybackState::Playing => seq!['\u{25B6}'],
        PlaybackState::Paused => seq!['\u{23F8}'],
        PlaybackState::Ready => "..."@,
        PlaybackState::Null => "NULL"@,
        PlaybackState::VoidPending => Seq::empty(),
    }
}

/// The digits after the point of `frac` thousandths, without trailing
/// zeros.
pub open spec fn thousandths(frac: nat) -> Seq<char> {
    if frac % 100 == 0 {
        seq![digit_char(frac / 100)]
    } else if frac % 10 == 0 {
        zero_padded(frac / 10, 2)
    } else {
        zero_padded(frac, 3)
    }
}

/// A sampling rate of `hz` hertz in kilohertz, as a decimal number is
/// written: no point for whole kilohertz, else the thousandths without
/// trailing zeros (44100 is "44.1").
pub open spec fn khz_label(hz: nat) -> Seq<char> {
    if hz % 1000 == 0 {
        decimal(hz / 1000)
    } else {
        decimal(hz / 1000) + seq!['.'] + thousandths(hz % 1000)
    }
}

/// The lines of the resolution column: an empty line, the state's mark if
/// it has one, then, once the stream's address is known, its sampling
/// rate, its bit depth and an empty line.
pub open spec fn resolution_lines(e: TrackListTrack, status: StatusValue) -> Seq<Seq<char>> {
    let marked = seq![Seq::<char>::empty()] + if state_mark(status.0).len() > 0 {
        seq![state_mark(status.0)]
    } else {
        Seq::empty()
    };
    match e.track_url {
        Some(u) => marked + seq![
            khz_label(u.sampling_rate_hz as nat) + "khz"@,
            signed_decimal(u.bit_depth as int) + "bit"@,
            Seq::<char>::empty(),
        ],
        None => marked,
    }
}

/// The three columns of the current track's panel.
#[derive(Debug, Clone)]
pub struct TrackPanel {
    pub number: Vec<String>,
    pub track: Vec<String>,
    pub resolution: Vec<String>,
}

/// The text of each line.
pub open spec fn lines_view(v: Seq<String>) -> Seq<Seq<char>> {
    v.map_values(|s: String| s@)
}

fn state_mark_text(s: PlaybackState) -> (r: String)
    ensures
        r@ == state_mark(s),
{
    proof {
        reveal_strlit("\u{25B6}");
        reveal_strlit("\u{23F8}");
        reveal_strlit("...");
        reveal_strlit("NULL");
        reveal_strlit("");
    }
    match s {
        PlaybackState::Playing => "\u{25B6}".to_string(),
        PlaybackState::Paused => "\u{23F8}".to_string(),
        PlaybackState::Ready => "...".to_string(),
        PlaybackState::Null => "NULL".to_string(),
        PlaybackState::VoidPending => String::new(),
    }
}

/// The sampling rate in kilohertz, as `khz_label` writes it.
pub fn khz_text(hz: u32) -> (r: String)
    ensures
        r@ == khz_label(hz as nat),
{
    let whole = u32_text(hz / 1000);
    let frac = hz % 1000;
    if frac == 0 {
        return whole;
    }
    proof {
        reveal_strlit(".");
    }
    let digits = if frac % 100 == 0 {
        let d = u32_text(frac / 100);
        proof {
            assert(decimal((frac / 100) as nat) == seq![digit_char((frac / 100) as nat)]);
        }
        d
    } else if frac % 10 == 0 {
        pad_number(frac / 10, 2)
    } else {
        pad_number(frac, 3)
    };
    concat(concat(whole.as_str(), ".").as_str(), digits.as_str())
}

fn zero_padded_usize(n: usize, width: usize) -> (r: String)
    ensures
        r@ == zero_padded(n as nat, width as nat),
{
    let digits = usize_text(n);
    let len = vstd::string::StrSliceExecFns::unicode_len(digits.as_str());
    if len >= width {
        return digits;
    }
    let mut zeros = String::new();
    let mut k: usize = 0;
    proof {
        reveal_strlit("0");
    }
    while k < width - len
        invariant
            len == decimal(n as nat).len(),
            len < width,
            k <= width - len,
            zeros@ == Seq::new(k as nat, |i: int| '0'),
        decreases width - len - k,
    {
        zeros = concat(zeros.as_str(), "0");
        proof {
            reveal_strlit("0");
            assert(zeros@ =~= Seq::new((k + 1) as nat, |i: int| '0'));
        }
        k = k + 1;
    }
    concat(zeros.as_str(), digits.as_str())
}

/// The panel about the current track: the number column, the track column
/// for a title column `width` bytes wide, and the resolution column. An
/// album's release date must be readable.
pub fn current_track_panel(entry: &TrackListTrack, status: StatusValue, width: u16) -> (r: TrackPanel)
    requires
        album_dated(*entry),
    ensures
        lines_view(r.number@) == number_lines(*entry),
        lines_view(r.track@) == track_lines(*entry, width as nat),
        lines_view(r.resolution@) == resolution_lines(*entry, status),
{
    proof {
        reveal_strlit("");
        reveal_strlit("of");
        reveal_strlit(" (");
        reveal_strlit(")");
        reveal_strlit("khz");
        reveal_strlit("bit");
    }
    let t: &ApiTrack = &entry.track;
    let mut track: Vec<String> = Vec::new();
    if byte_len(t.title.as_str()) <= width as u128 {
        track.push(String::new());
    }
    track.push(t.title.clone());
    match &t.performer {
        Some(p) => track.push(p.name.clone()),
        None => {},
    }
    match &entry.album {
        Some(a) => {
            let year = release_year(a.info.release_date_original.as_str()).unwrap();
            let y = year_text(year);
            let line = concat(concat(concat(a.info.title.as_str(), " (").as_str(), y.as_str()).as_str(), ")");
            track.push(line);
        },
        None => {},
    }
    assert(lines_view(track@) =~= track_lines(*entry, width as nat));

    let shown = if entry.album.is_some() {
        t.track_number as usize
    } else {
        entry.index
    };
    let number = vec![
        String::new(),
        zero_padded_usize(shown, 2),
        "of".to_string(),
        zero_padded_usize(entry.total, 2),
        String::new(),
    ];
    assert(lines_view(number@) =~= number_lines(*entry));

    let mut resolution: Vec<String> = Vec::new();
    resolution.push(String::new());
    let mark = state_mark_text(status.0);
    if vstd::string::StrSliceExecFns::unicode_len(mark.as_str()) > 0 {
        resolution.push(mark);
    }
    match &entry.track_url {
        Some(u) => {
            resolution.push(concat(khz_text(u.sampling_rate_hz).as_str(), "khz"));
            resolution.push(concat(i32_text(u.bit_depth).as_str(), "bit"));
            resolution.push(String::new());
        },
        None => {},
    }
    assert(lines_view(resolution@) =~= resolution_lines(*entry, status));
    TrackPanel { number, track, resolution }
}

/// The panel about the current track, or `None` when the entry's album
/// has a release date that cannot be read.
pub fn try_current_track_panel(entry: &TrackListTrack, status: StatusValue, width: u16) -> (r: Option<TrackPanel>)
    ensures
        album_dated(*entry) ==> (r matches Some(p) && lines_view(p.number@) == number_lines(*entry)
            && lines_view(p.track@) == track_lines(*entry, width as nat)
            && lines_view(p.resolution@) == resolution_lines(*entry, status)),
        !album_dated(*entry) ==> r is None,
{
    match &entry.album {
        Some(a) => {
            if release_year(a.info.release_date_original.as_str()).is_none() {
                return None;
            }
        },
        None => {},
    }
    Some(current_track_panel(entry, status, width))
}

} // verus!
