//! Keyboard navigation of the terminal screens: lists and tables with a
//! selected row, and the titles of the tab bar.
use vstd::prelude::*;

verus! {

/// A key the terminal reports.
#[derive(Debug, Clone, Copy, PartialEq, Eq, Structural)]
pub enum Key {
    Up,
    Down,
    Left,
    Right,
    Home,
    End,
    PageUp,
    PageDown,
    Esc,
    Backspace,
    Char(char),
    Ctrl(char),
    Other,
}

/// The row selected after moving down from `sel` in a list of `len` rows:
/// the next one, or the last once there; the first when nothing was selected.
pub open spec fn next_index(sel: Option<usize>, len: nat) -> usize {
    match sel {
        Some(i) => if len == 0 {
            0
        } else if i >= len - 1 {
            (len - 1) as usize
        } else {
            (i + 1) as usize
        },
        None => 0,
    }
}

/// The row selected after moving up from `sel`: the one before, or the first.
pub open spec fn previous_index(sel: Option<usize>, len: nat) -> usize {
    match sel {
        Some(i) => if len == 0 || i == 0 {
            0
        } else {
            (i - 1) as usize
        },
        None => 0,
    }
}

/// Whether a page down from `sel` can be computed: it neither overflows nor
/// looks for the last row of an empty list.
pub open spec fn page_down_defined(sel: Option<usize>, len: nat, height: usize) -> bool {
    match sel {
        Some(s) => s != 0 ==> s + height / 2 <= usize::MAX && len >= 1,
        None => true,
    }
}

/// The row selected after a page down from `sel` on a screen `height` rows
/// tall: a full screen down from the first row, else half a screen down but
/// no further than the last row; half a screen when nothing was selected.
pub open spec fn page_down_index(sel: Option<usize>, len: nat, height: usize) -> usize {
    let page = height / 2;
    match sel {
        Some(s) => if s == 0 {
            (page * 2) as usize
        } else if s + page > len - 1 {
            (len - 1) as usize
        } else {
            (s + page) as usize
        },
        None => page,
    }
}

/// The row selected after a page up from `sel`: half a screen up, or the first row.
pub open spec fn page_up_index(sel: Option<usize>, height: usize) -> usize {
    let page = height / 2;
    match sel {
        Some(s) => if s < page {
            0
        } else {
            (s - page) as usize
        },
        None => page,
    }
}

fn next_of(sel: Option<usize>, len: usize) -> (r: usize)
    ensures
        r == next_index(sel, len as nat),
{
    match sel {
        Some(i) => {
            if len == 0 {
                0
            } else if i >= len - 1 {
                len - 1
            } else {
                i + 1
            }
        },
        None => 0,
    }
}

fn previous_of(sel: Option<usize>, len: usize) -> (r: usize)
    ensures
        r == previous_index(sel, len as nat),
{
    match sel {
        Some(i) => {
            if len == 0 || i == 0 {
                0
            } else {
                i - 1
            }
        },
        None => 0,
    }
}

/// The row selected after a page down.
pub fn page_down_of(sel: Option<usize>, len: usize, height: usize) -> (r: usize)
    requires
        page_down_defined(sel, len as nat, height),
    ensures
        r == page_down_index(sel, len as nat, height),
{
    let page = height / 2;
    match sel {
        Some(s) => {
            if s == 0 {
                page * 2
            } else if s + page > len - 1 {
                len - 1
            } else {
                s + page
            }
        },
        None => page,
    }
}

/// The row selected after a page up.
pub fn page_up_of(sel: Option<usize>, height: usize) -> (r: usize)
    ensures
        r == page_up_index(sel, height),
{
    let page = height / 2;
    match sel {
        Some(s) => {
            if s < page {
                0
            } else {
                s - page
            }
        },
        None => page,
    }
}

/// A list of text items with a selected one.
#[derive(Debug, Clone)]
pub struct List {
    pub items: Vec<String>,
    selected: Option<usize>,
}

impl List {
    /// The items.
    pub closed spec fn item_list(&self) -> Seq<String> {
        self.items@
    }

    /// The selected item's index.
    pub closed spec fn selection(&self) -> Option<usize> {
        self.selected
    }

    /// A list of `items` (or none), nothing selected.
    pub fn new(items: Option<Vec<String>>) -> (r: List)
        ensures
            r.item_list() == (match items {
                Some(i) => i@,
                None => Seq::<String>::empty(),
            }),
            r.selection() is None,
    {
        match items {
            Some(i) => List { items: i, selected: None },
            None => List { items: Vec::new(), selected: None },
        }
    }

    /// Replaces the items; a selection past the new end moves to the index
    /// just past it, and the first item is selected when none was. The
    /// selection can so stand one past the last item (three items with the
    /// third selected, replaced by two, select index 2), on purpose: the
    /// next move up comes back onto the list.
    pub fn set_items(&mut self, items: Vec<String>)
        ensures
            final(self).item_list() == items@,
            final(self).selection() == Some(match old(self).selection() {
                Some(s) => if s > items@.len() { items@.len() as usize } else { s },
                None => 0usize,
            }),
    {
        match self.selected {
            Some(selected) => {
                if selected > items.len() {
                    self.selected = Some(items.len());
                } else {
                    self.selected = Some(selected);
                }
            },
            None => {
                self.selected = Some(0);
            },
        }
        self.items = items;
    }

    /// Moves the selection down one item.
    pub fn next(&mut self)
        ensures
            final(self).item_list() == old(self).item_list(),
            final(self).selection() == Some(next_index(old(self).selection(), old(self).item_list().len())),
    {
        let i = next_of(self.selected, self.items.len());
        self.selected = Some(i);
    }

    /// Moves the selection up one item.
    pub fn previous(&mut self)
        ensures
            final(self).item_list() == old(self).item_list(),
            final(self).selection() == Some(previous_index(old(self).selection(), old(self).item_list().len())),
    {
        let i = previous_of(self.selected, self.items.len());
        self.selected = Some(i);
    }

    /// The selected item's index.
    pub fn selected(&self) -> (r: Option<usize>)
        ensures
            r == self.selection(),
    {
        self.selected
    }

    /// Selects item `num`.
    pub fn select(&mut self, num: usize)
        ensures
            final(self).item_list() == old(self).item_list(),
            final(self).selection() == Some(num),
    {
        self.selected = Some(num);
    }

    /// The number of items.
    pub fn len(&self) -> (r: usize)
        ensures
            r == self.item_list().len(),
    {
        self.items.len()
    }

    /// Whether there are no items.
    pub fn is_empty(&self) -> (r: bool)
        ensures
            r == (self.item_list().len() == 0),
    {
        self.items.len() == 0
    }
}

/// A column's share of a table's width, in percent.
#[derive(Debug, Clone, Copy, PartialEq, Eq, Structural)]
pub struct ColumnWidth {
    pub column_size: u16,
}

impl ColumnWidth {
    /// A column taking `column_size` percent of the width.
    pub fn new(column_size: u16) -> (r: ColumnWidth)
        ensures
            r.column_size == column_size,
    {
        ColumnWidth { column_size }
    }
}

/// A table row: its columns' text, their widths, and whether it is dimmed.
#[derive(Debug, Clone)]
pub struct Row {
    pub columns: Vec<String>,
    pub widths: Vec<ColumnWidth>,
    pub dim: bool,
}

impl Row {
    /// A row of `columns` with `widths`, not dimmed.
    pub fn new(columns: Vec<String>, widths: Vec<ColumnWidth>) -> (r: Row)
        ensures
            r.columns@ == columns@,
            r.widths@ == widths@,
            !r.dim,
    {
        Row { columns, widths, dim: false }
    }

    /// Dims the row or not.
    pub fn set_dim(&mut self, dim: bool)
        ensures
            final(self).dim == dim,
            final(self).columns@ == old(self).columns@,
            final(self).widths@ == old(self).widths@,
    {
        self.dim = dim;
    }

    /// Puts `column` at place `index` of the columns.
    pub fn insert_column(&mut self, index: usize, column: String)
        requires
            index <= old(self).columns@.len(),
        ensures
            final(self).columns@ == old(self).columns@.insert(index as int, column),
            final(self).widths@ == old(self).widths@,
            final(self).dim == old(self).dim,
    {
        self.columns.insert(index, column);
    }

    /// Takes out the column at place `index`.
    pub fn remove_column(&mut self, index: usize)
        requires
            index < old(self).columns@.len(),
        ensures
            final(self).columns@ == old(self).columns@.remove(index as int),
            final(self).widths@ == old(self).widths@,
            final(self).dim == old(self).dim,
    {
        self.columns.remove(index);
    }
}

/// The column headers a kind of row shows under.
pub trait TableHeaders {
    fn headers() -> Vec<String>;
}

/// A table of rows with a header, column widths and a selected row.
#[derive(Debug, Clone)]
pub struct Table {
    rows: Vec<Row>,
    header: Vec<String>,
    widths: Vec<ColumnWidth>,
    selected: Option<usize>,
}

impl Table {
    /// The rows.
    pub closed spec fn row_list(&self) -> Seq<Row> {
        self.rows@
    }

    /// The header.
    pub closed spec fn header_list(&self) -> Seq<String> {
        self.header@
    }

    /// The column widths.
    pub closed spec fn width_list(&self) -> Seq<ColumnWidth> {
        self.widths@
    }

    /// The selected row's index.
    pub closed spec fn selection(&self) -> Option<usize> {
        self.selected
    }

    /// A table with the first row selected: of `items`, `header` and
    /// `widths` when all three are given, else empty.
    pub fn new(header: Option<Vec<String>>, items: Option<Vec<Row>>, widths: Option<Vec<ColumnWidth>>) -> (r: Table)
        ensures
            r.selection() == Some(0usize),
            match (header, items, widths) {
                (Some(h), Some(i), Some(w)) => r.row_list() == i@ && r.header_list() == h@ && r.width_list() == w@,
                _ => r.row_list().len() == 0 && r.header_list().len() == 0 && r.width_list().len() == 0,
            },
    {
        match (header, items, widths) {
            (Some(h), Some(i), Some(w)) => Table { rows: i, header: h, widths: w, selected: Some(0) },
            _ => Table { rows: Vec::new(), header: Vec::new(), widths: Vec::new(), selected: Some(0) },
        }
    }

    /// Replaces the header.
    pub fn set_header(&mut self, header: Vec<String>)
        ensures
            final(self).header_list() == header@,
            final(self).row_list() == old(self).row_list(),
            final(self).width_list() == old(self).width_list(),
            final(self).selection() == old(self).selection(),
    {
        self.header = header;
    }

    /// Replaces the rows; the selection is kept as it is.
    pub fn set_rows(&mut self, rows: Vec<Row>)
        ensures
            final(self).row_list() == rows@,
            final(self).header_list() == old(self).header_list(),
            final(self).width_list() == old(self).width_list(),
            final(self).selection() == old(self).selection(),
    {
        self.rows = rows;
    }

    /// Replaces the column widths.
    pub fn set_widths(&mut self, widths: Vec<ColumnWidth>)
        ensures
            final(self).width_list() == widths@,
            final(self).row_list() == old(self).row_list(),
            final(self).header_list() == old(self).header_list(),
            final(self).selection() == old(self).selection(),
    {
        self.widths = widths;
    }

    /// Moves the selection down one row.
    pub fn next(&mut self)
        ensures
            final(self).row_list() == old(self).row_list(),
            final(self).header_list() == old(self).header_list(),
            final(self).width_list() == old(self).width_list(),
            final(self).selection() == Some(next_index(old(self).selection(), old(self).row_list().len())),
    {
        let i = next_of(self.selected, self.rows.len());
        self.selected = Some(i);
    }

    /// Moves the selection up one row.
    pub fn previous(&mut self)
        ensures
            final(self).row_list() == old(self).row_list(),
            final(self).header_list() == old(self).header_list(),
            final(self).width_list() == old(self).width_list(),
            final(self).selection() == Some(previous_index(old(self).selection(), old(self).row_list().len())),
    {
        let i = previous_of(self.selected, self.rows.len());
        self.selected = Some(i);
    }

    /// The selected row's index.
    pub fn selected(&self) -> (r: Option<usize>)
        ensures
            r == self.selection(),
    {
        self.selected
    }

    /// Selects row `num`.
    pub fn select(&mut self, num: usize)
        ensures
            final(self).row_list() == old(self).row_list(),
            final(self).header_list() == old(self).header_list(),
            final(self).width_list() == old(self).width_list(),
            final(self).selection() == Some(num),
    {
        self.selected = Some(num);
    }

    /// Selects the first row.
    pub fn home(&mut self)
        ensures
            final(self).row_list() == old(self).row_list(),
            final(self).header_list() == old(self).header_list(),
            final(self).width_list() == old(self).width_list(),
            final(self).selection() == Some(0usize),
    {
        self.selected = Some(0);
    }

    /// Selects the last row.
    pub fn end(&mut self)
        requires
            old(self).row_list().len() > 0,
        ensures
            final(self).row_list() == old(self).row_list(),
            final(self).header_list() == old(self).header_list(),
            final(self).width_list() == old(self).width_list(),
            final(self).selection() == Some((old(self).row_list().len() - 1) as usize),
    {
        self.selected = Some(self.rows.len() - 1);
    }

    /// Whether the last row is selected.
    pub fn at_end(&self) -> (r: bool)
        requires
            self.selection() is Some ==> self.row_list().len() > 0,
        ensures
            r == (match self.selection() {
                Some(s) => s == self.row_list().len() - 1,
                None => false,
            }),
    {
        match self.selected {
            Some(selected) => selected == self.rows.len() - 1,
            None => false,
        }
    }

    /// The number of rows.
    pub fn len(&self) -> (r: usize)
        ensures
            r == self.row_list().len(),
    {
        self.rows.len()
    }

    /// Whether there are no rows.
    pub fn is_empty(&self) -> (r: bool)
        ensures
            r == (self.row_list().len() == 0),
    {
        self.rows.len() == 0
    }

    /// Moves the selection a page down on a screen `height` rows tall.
    pub fn page_down(&mut self, height: usize)
        requires
            page_down_defined(old(self).selection(), old(self).row_list().len(), height),
        ensures
            final(self).row_list() == old(self).row_list(),
            final(self).header_list() == old(self).header_list(),
            final(self).width_list() == old(self).width_list(),
            final(self).selection() == Some(page_down_index(old(self).selection(), old(self).row_list().len(), height)),
    {
        let i = page_down_of(self.selected, self.rows.len(), height);
        self.selected = Some(i);
    }

    /// Moves the selection a page up on a screen `height` rows tall.
    pub fn page_up(&mut self, height: usize)
        ensures
            final(self).row_list() == old(self).row_list(),
            final(self).header_list() == old(self).header_list(),
            final(self).width_list() == old(self).width_list(),
            final(self).selection() == Some(page_up_index(old(self).selection(), height)),
    {
        let i = page_up_of(self.selected, height);
        self.selected = Some(i);
    }
}


/// `text` centred in `width` characters: spaces before it, half of those
/// missing rounded down, and the rest after it.
pub open spec fn centered(text: Seq<char>, width: nat) -> Seq<char> {
    if text.len() >= width {
        text
    } else {
        Seq::new(((width - text.len()) / 2) as nat, |i: int| ' ') + text + Seq::new(
            ((width - text.len() + 1) / 2) as nat,
            |i: int| ' ',
        )
    }
}

/// The tabs' titles, each centred in a third of `width`, less two.
pub open spec fn tab_titles_of(width: nat) -> Seq<Seq<char>> {
    let padding = (width / 3 - 2) as nat;
    seq![centered("Now Playing"@, padding), centered("Search"@, padding), centered("My Playlists"@, padding)]
}

fn spaces(n: usize) -> (r: String)
    ensures
        r@ == Seq::new(n as nat, |i: int| ' '),
{
    let mut s = String::new();
    let mut k: usize = 0;
    proof {
        reveal_strlit(" ");
    }
    while k < n
        invariant
            k <= n,
            s@ == Seq::new(k as nat, |i: int| ' '),
        decreases n - k,
    {
        s = crate::text::concat(s.as_str(), " ");
        proof {
            reveal_strlit(" ");
            assert(s@ =~= Seq::new((k + 1) as nat, |i: int| ' '));
        }
        k = k + 1;
    }
    s
}

fn center_text(text: &str, width: usize) -> (r: String)
    ensures
        r@ == centered(text@, width as nat),
{
    let len = text.unicode_len();
    if len >= width {
        return text.to_string();
    }
    let before = spaces((width - len) / 2);
    let after = spaces((width - len) / 2 + (width - len) % 2);
    assert((width - len) / 2 + (width - len) % 2 == (width - len + 1) / 2);
    crate::text::concat(crate::text::concat(before.as_str(), text).as_str(), after.as_str())
}

/// The titles of the three tabs for a bar `width` columns wide: each
/// centred in a third of the width, less two. The bar must be at least six
/// columns wide.
pub fn tab_titles(width: u16) -> (r: Vec<String>)
    requires
        width / 3 >= 2,
    ensures
        r@.map_values(|s: String| s@) == tab_titles_of(width as nat),
{
    let padding = (width as usize) / 3 - 2;
    proof {
        reveal_strlit("Now Playing");
        reveal_strlit("Search");
        reveal_strlit("My Playlists");
    }
    let r = vec![center_text("Now Playing", padding), center_text("Search", padding), center_text("My Playlists", padding)];
    assert(r@.map_values(|s: String| s@) =~= tab_titles_of(width as nat));
    r
}

} // verus!
