//! The menu-driven terminal interface: how its menu and global keys move
//! between screens and the address panel, and how tracks, albums and
//! artists are labelled in its lists.
use vstd::prelude::*;

use crate::display::zero_padded;
use crate::queue::TrackListType;
use crate::service::{Album, Artist, Track};
use crate::text::{concat, decimal, i64_text, trim_text, trimmed, u32_text};

verus! {

/// Something the interface reports.
#[derive(Debug, Clone, PartialEq, Eq)]
pub enum UiEvent {
    /// A screen was picked from the menu, or by its number key (0, 1 or 2).
    ShowScreen { screen: usize },
    /// "Enter URL" was picked from the menu.
    EnterUrlMenu,
    /// The key '4' was pressed.
    EnterUrlKey,
    /// An address was submitted in the address panel.
    UrlSubmitted { url: String },
    /// "Escape" was pressed in the address panel.
    UrlCancelled,
    /// A global key was pressed.
    Key { key: char },
    /// Control-C was pressed.
    Interrupt,
}

/// Something the interface is asked to do.
#[derive(Debug, Clone, PartialEq, Eq)]
pub enum UiCommand {
    /// Remove the top layer (the address panel).
    PopLayer,
    SetScreen { screen: usize },
    /// Show the address panel.
    OpenUrlPanel,
    PlayUri { uri: String },
    PlayPause,
    Next,
    Previous,
    JumpForward,
    JumpBackward,
    /// Ask whether to quit.
    AskQuit,
}

/// The menu-driven interface's state: whether the address panel is open.
#[derive(Debug, Clone, Copy)]
pub struct CursiveUI {
    pub enter_url_open: bool,
}

/// The commands for a global key: space toggles play, 'N' and 'P' skip,
/// 'l' and 'h' jump.
pub open spec fn key_command(key: char) -> Seq<UiCommand> {
    if key == ' ' {
        seq![UiCommand::PlayPause]
    } else if key == 'N' {
        seq![UiCommand::Next]
    } else if key == 'P' {
        seq![UiCommand::Previous]
    } else if key == 'l' {
        seq![UiCommand::JumpForward]
    } else if key == 'h' {
        seq![UiCommand::JumpBackward]
    } else {
        Seq::empty()
    }
}

impl CursiveUI {
    /// An interface with the address panel closed.
    pub fn new() -> (r: CursiveUI)
        ensures
            !r.enter_url_open,
    {
        CursiveUI { enter_url_open: false }
    }

    /// Answers an event: picking a screen closes an open address panel
    /// first; the menu opens the panel only when it is closed, the key '4'
    /// opens it regardless; submitting an address plays it and closes the
    /// panel, as escape closes it.
    pub fn handle_event(&mut self, event: UiEvent) -> (r: Vec<UiCommand>)
        ensures
            match event {
                UiEvent::ShowScreen { screen } => {
                    &&& !final(self).enter_url_open
                    &&& r@ == if old(self).enter_url_open {
                        seq![UiCommand::PopLayer, UiCommand::SetScreen { screen }]
                    } else {
                        seq![UiCommand::SetScreen { screen }]
                    }
                },
                UiEvent::EnterUrlMenu => {
                    &&& final(self).enter_url_open
                    &&& r@ == if old(self).enter_url_open { Seq::empty() } else { seq![UiCommand::OpenUrlPanel] }
                },
                UiEvent::EnterUrlKey => {
                    &&& final(self).enter_url_open
                    &&& r@ == seq![UiCommand::OpenUrlPanel]
                },
                UiEvent::UrlSubmitted { url } => {
                    &&& !final(self).enter_url_open
                    &&& r@ == seq![UiCommand::PlayUri { uri: url }, UiCommand::PopLayer]
                },
                UiEvent::UrlCancelled => {
                    &&& !final(self).enter_url_open
                    &&& r@ == seq![UiCommand::PopLayer]
                },
                UiEvent::Key { key } => {
                    &&& final(self).enter_url_open == old(self).enter_url_open
                    &&& r@ == key_command(key)
                },
                UiEvent::Interrupt => {
                    &&& final(self).enter_url_open == old(self).enter_url_open
                    &&& r@ == seq![UiCommand::AskQuit]
                },
            },
    {
        let mut out: Vec<UiCommand> = Vec::new();
        match event {
            UiEvent::ShowScreen { screen } => {
                if self.enter_url_open {
                    out.push(UiCommand::PopLayer);
                    self.enter_url_open = false;
                }
                out.push(UiCommand::SetScreen { screen });
            },
            UiEvent::EnterUrlMenu => {
                if !self.enter_url_open {
                    out.push(UiCommand::OpenUrlPanel);
                    self.enter_url_open = true;
                }
            },
            UiEvent::EnterUrlKey => {
                out.push(UiCommand::OpenUrlPanel);
                self.enter_url_open = true;
            },
            UiEvent::UrlSubmitted { url } => {
                out.push(UiCommand::PlayUri { uri: url });
                out.push(UiCommand::PopLayer);
                self.enter_url_open = false;
            },
            UiEvent::UrlCancelled => {
                out.push(UiCommand::PopLayer);
                self.enter_url_open = false;
            },
            UiEvent::Key { key } => {
                if key == ' ' {
                    out.push(UiCommand::PlayPause);
                } else if key == 'N' {
                    out.push(UiCommand::Next);
                } else if key == 'P' {
                    out.push(UiCommand::Previous);
                } else if key == 'l' {
                    out.push(UiCommand::JumpForward);
                } else if key == 'h' {
                    out.push(UiCommand::JumpBackward);
                }
            },
            UiEvent::Interrupt => {
                out.push(UiCommand::AskQuit);
            },
        }
        proof {
            assert(out@ =~= match event {
                UiEvent::ShowScreen { screen } => if old(self).enter_url_open {
                    seq![UiCommand::PopLayer, UiCommand::SetScreen { screen }]
                } else {
                    seq![UiCommand::SetScreen { screen }]
                },
                UiEvent::EnterUrlMenu => if old(self).enter_url_open { Seq::empty() } else { seq![UiCommand::OpenUrlPanel] },
                UiEvent::EnterUrlKey => seq![UiCommand::OpenUrlPanel],
                UiEvent::UrlSubmitted { url } => seq![UiCommand::PlayUri { uri: url }, UiCommand::PopLayer],
                UiEvent::UrlCancelled => seq![UiCommand::PopLayer],
                UiEvent::Key { key } => key_command(key),
                UiEvent::Interrupt => seq![UiCommand::AskQuit],
            });
        }
        out
    }
}

/// The text effects of a piece of a label.
#[derive(Debug, Clone, Copy, PartialEq, Eq, Structural)]
pub struct Effects {
    pub bold: bool,
    pub dim: bool,
    pub italic: bool,
    pub strikethrough: bool,
}

/// A piece of a label, with its effects.
#[derive(Debug, Clone)]
pub struct Span {
    pub text: String,
    pub effects: Effects,
}

/// No effect.
pub open spec fn plain() -> Effects {
    Effects { bold: false, dim: false, italic: false, strikethrough: false }
}

/// `e` with dimming added.
pub open spec fn dimmed(e: Effects) -> Effects {
    Effects { dim: true, ..e }
}

/// `e` with bold added.
pub open spec fn emboldened(e: Effects) -> Effects {
    Effects { bold: true, ..e }
}

/// The text and effects of a label.
pub open spec fn spans_view(s: Seq<Span>) -> Seq<(Seq<char>, Effects)> {
    s.map_values(|x: Span| (x.text@, x.effects))
}

/// The text of a clock time of `secs` seconds: hours, then minutes and
/// seconds in two digits each, then nine digits of nanoseconds.
pub open spec fn clock_text(secs: nat) -> Seq<char> {
    decimal(secs / 3600) + seq![':'] + zero_padded((secs % 3600) / 60, 2) + seq![':'] + zero_padded(secs % 60, 2)
        + seq!['.', '0', '0', '0', '0', '0', '0', '0', '0', '0']
}

/// The duration a label shows: characters 2 to 7 of the clock text, the
/// minutes and seconds of a track shorter than ten hours.
pub open spec fn duration_label(secs: nat) -> Seq<char> {
    clock_text(secs).subrange(2, 7)
}

/// The clock text of `secs` seconds, as a clock time shows itself:
/// `H:MM:SS.NNNNNNNNN`. A clock time holds nanoseconds in a `u64`, so
/// `secs` is at most 18446744073.
pub fn clock_time_text(secs: u64) -> (r: String)
    requires
        secs <= 18_446_744_073,
    ensures
        r@ == clock_text(secs as nat),
{
    proof {
        reveal_strlit(":");
        reveal_strlit(".000000000");
    }
    let hours = i64_text((secs / 3600) as i64);
    let minutes = crate::display::pad_number(((secs % 3600) / 60) as u32, 2);
    let seconds = crate::display::pad_number((secs % 60) as u32, 2);
    let text = concat(
        concat(concat(concat(concat(hours.as_str(), ":").as_str(), minutes.as_str()).as_str(), ":").as_str(), seconds.as_str()).as_str(),
        ".000000000",
    );
    assert(text@ =~= clock_text(secs as nat));
    text
}

/// The number of characters of the clock text of `secs` seconds.
pub proof fn lemma_clock_text_len(secs: nat)
    ensures
        clock_text(secs).len() >= 17,
{
    crate::laws::lemma_decimal_reads_back(secs / 3600);
    assert(decimal(secs / 3600).len() >= 1);
}

/// The duration a label shows for `secs` seconds.
pub fn duration_text(secs: u32) -> (r: String)
    ensures
        r@ == duration_label(secs as nat),
{
    let text = clock_time_text(secs as u64);
    proof {
        lemma_clock_text_len(secs as nat);
    }
    vstd::string::StrSliceExecFns::substring_char(text.as_str(), 2, 7).to_string()
}

fn span(text: String, effects: Effects) -> (r: Span)
    ensures
        r.text@ == text@,
        r.effects == effects,
{
    Span { text, effects }
}

/// Labels for the interface's lists.
pub trait CursiveFormat {
    /// The label of the item in a result list.
    fn list_item(&self) -> Vec<Span>;

    /// The label of the item in the current track list; an item that does
    /// not say otherwise has an empty label.
    fn track_list_item(&self, list_type: TrackListType, inactive: bool) -> (r: Vec<Span>)
        default_ensures
            r@ == Seq::<Span>::empty(),
    {
        Vec::new()
    }
}

/// The label of a track in a result list: its trimmed title in bold, "by"
/// and its artist, its duration dimmed, then 'e' if explicit and '*' if in
/// high resolution; struck through and dimmed when it cannot be streamed.
pub open spec fn track_label(t: crate::service::TrackView) -> Seq<(Seq<char>, Effects)> {
    let base = if t.available { plain() } else { Effects { dim: true, strikethrough: true, ..plain() } };
    seq![(trimmed(t.title), emboldened(base))]
        + match t.artist {
            Some(a) => seq![(" by "@, base), (a.name, base)],
            None => Seq::empty(),
        }
        + seq![(" "@, plain()), (duration_label(t.duration_seconds as nat), dimmed(base)), (" "@, plain())]
        + if t.explicit { seq![("e"@, dimmed(base))] } else { Seq::empty() }
        + if t.hires_available { seq![("*"@, dimmed(base))] } else { Seq::empty() }
}

/// The number a track shows in the current list: its number in an album or
/// single-track list, its place otherwise.
pub open spec fn shown_number(t: crate::service::TrackView, list_type: TrackListType) -> u32 {
    match list_type {
        TrackListType::Album => t.number,
        TrackListType::Track => t.number,
        _ => t.position,
    }
}

/// The label of a track in the current list: its number in two digits, its
/// trimmed title, and its duration dimmed; dimmed, italic and struck through
/// when already played or not streamable.
pub open spec fn track_list_label(t: crate::service::TrackView, list_type: TrackListType, inactive: bool) -> Seq<(Seq<char>, Effects)> {
    let base = if inactive || !t.available {
        Effects { dim: true, italic: true, strikethrough: true, ..plain() }
    } else {
        plain()
    };
    seq![
        (zero_padded(shown_number(t, list_type) as nat, 2) + seq![' '], base),
        (trimmed(t.title), base),
        (" "@, plain()),
        (duration_label(t.duration_seconds as nat), dimmed(base)),
    ]
}

impl CursiveFormat for Track {
    fn list_item(&self) -> (r: Vec<Span>)
        ensures
            spans_view(r@) == track_label(self@),
    {
        proof {
            reveal_strlit(" by ");
            reveal_strlit(" ");
            reveal_strlit("e");
            reveal_strlit("*");
        }
        let base = if self.available {
            Effects { bold: false, dim: false, italic: false, strikethrough: false }
        } else {
            Effects { bold: false, dim: true, italic: false, strikethrough: true }
        };
        let none = Effects { bold: false, dim: false, italic: false, strikethrough: false };
        let faint = Effects { dim: true, ..base };
        let mut out: Vec<Span> = Vec::new();
        out.push(span(trim_text(self.title.as_str()), Effects { bold: true, ..base }));
        if let Some(a) = &self.artist {
            out.push(span(" by ".to_string(), base));
            out.push(span(a.name.clone(), base));
        }
        out.push(span(" ".to_string(), none));
        out.push(span(duration_text(self.duration_seconds), faint));
        out.push(span(" ".to_string(), none));
        if self.explicit {
            out.push(span("e".to_string(), faint));
        }
        if self.hires_available {
            out.push(span("*".to_string(), faint));
        }
        proof {
            assert(spans_view(out@) =~= track_label(self@));
        }
        out
    }

    fn track_list_item(&self, list_type: TrackListType, inactive: bool) -> (r: Vec<Span>)
        ensures
            spans_view(r@) == track_list_label(self@, list_type, inactive),
    {
        proof {
            reveal_strlit(" ");
        }
        let base = if inactive || !self.available {
            Effects { bold: false, dim: true, italic: true, strikethrough: true }
        } else {
            Effects { bold: false, dim: false, italic: false, strikethrough: false }
        };
        let none = Effects { bold: false, dim: false, italic: false, strikethrough: false };
        let num = match list_type {
            TrackListType::Album => self.number,
            TrackListType::Playlist => self.position,
            TrackListType::Track => self.number,
            TrackListType::Unknown => self.position,
        };
        let mut out: Vec<Span> = Vec::new();
        assert(num == shown_number(self@, list_type));
        let head = concat(crate::display::pad_number(num, 2).as_str(), " ");
        assert(head@ == zero_padded(num as nat, 2) + seq![' ']);
        out.push(span(head, base));
        out.push(span(trim_text(self.title.as_str()), base));
        out.push(span(" ".to_string(), none));
        out.push(span(duration_text(self.duration_seconds), Effects { dim: true, ..base }));
        proof {
            assert(spans_view(out@) =~= track_list_label(self@, list_type, inactive));
        }
        out
    }
}

/// The label of an album in a result list: its title in bold, "by" and its
/// artist, its year dimmed, then 'e' if explicit and '*' if in high
/// resolution; struck through and dimmed when it cannot be streamed.
pub open spec fn album_label(a: crate::service::AlbumView) -> Seq<(Seq<char>, Effects)> {
    let base = if a.available { plain() } else { Effects { dim: true, strikethrough: true, ..plain() } };
    seq![
        (a.title, emboldened(base)),
        (" by "@, base),
        (a.artist.name, base),
        (" "@, base),
        (decimal(a.release_year as nat), dimmed(base)),
        (" "@, plain()),
    ]
        + if a.explicit { seq![("e"@, dimmed(base))] } else { Seq::empty() }
        + if a.hires_available { seq![("*"@, dimmed(base))] } else { Seq::empty() }
}

impl CursiveFormat for Album {
    fn list_item(&self) -> (r: Vec<Span>)
        ensures
            spans_view(r@) == album_label(self@),
    {
        let base = if self.available {
            Effects { bold: false, dim: false, italic: false, strikethrough: false }
        } else {
            Effects { bold: false, dim: true, italic: false, strikethrough: true }
        };
        let none = Effects { bold: false, dim: false, italic: false, strikethrough: false };
        let faint = Effects { dim: true, ..base };
        let mut out: Vec<Span> = Vec::new();
        out.push(span(self.title.clone(), Effects { bold: true, ..base }));
        out.push(span(" by ".to_string(), base));
        out.push(span(self.artist.name.clone(), base));
        out.push(span(" ".to_string(), base));
        out.push(span(u32_text(self.release_year), faint));
        out.push(span(" ".to_string(), none));
        if self.explicit {
            out.push(span("e".to_string(), faint));
        }
        if self.hires_available {
            out.push(span("*".to_string(), faint));
        }
        proof {
            assert(spans_view(out@) =~= album_label(self@));
        }
        out
    }
}

impl CursiveFormat for Artist {
    fn list_item(&self) -> (r: Vec<Span>)
        ensures
            spans_view(r@) == seq![(self.name@, plain())],
    {
        let mut out: Vec<Span> = Vec::new();
        out.push(span(self.name.clone(), Effects { bold: false, dim: false, italic: false, strikethrough: false }));
        proof {
            assert(spans_view(out@) =~= seq![(self.name@, plain())]);
        }
        out
    }
}

} // verus!
