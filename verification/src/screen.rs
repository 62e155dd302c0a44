//! What the screen shows, in plain values: where the panes lie, what the
//! gutter, the status bar and the file tree read, and where the cursor
//! stands. Drawing it is left to whoever has a terminal.

use vstd::prelude::*;
use vstd::string::{StringExecFns, StringSliceAdditionalSpecFns};
use ratatui::layout::{Constraint, Direction, Layout, Rect};
use crate::buffer::texts;
use crate::editor::{Editor, Mode, TreeItem};
use crate::text::{
    char_string, display_width, holds, join, joined, labelled, push_char, split_graphemes,
    text_width,
};

verus! {

/// A rectangle of screen cells.
#[derive(Clone, Copy, Debug, PartialEq, Eq, Structural)]
pub struct Area {
    pub x: u16,
    pub y: u16,
    pub width: u16,
    pub height: u16,
}

/// How much of an area a pane asks for along the direction of a split.
#[derive(Clone, Copy, Debug, PartialEq, Eq, Structural)]
pub enum Track {
    /// Exactly this many cells.
    Length(u16),
    /// At least this many cells.
    Min(u16),
}

/// The panes of the editor.
#[derive(Clone, Copy, Debug, PartialEq, Eq)]
pub struct Screen {
    /// The file tree and the column that separates it from the text, where
    /// the tree is shown.
    pub tree: Option<(Area, Area)>,
    /// The text of the active buffer.
    pub text: Area,
    /// The status bar and the command line below it.
    pub status: Area,
}

/// One row of the file tree as it is shown.
#[derive(Clone, Debug, PartialEq, Eq)]
pub struct TreeRow {
    pub text: String,
    pub selected: bool,
}

/// The last component of a path.
pub uninterp spec fn base_name(path: Seq<char>) -> Seq<char>;

/// Whether `cell` lies within `area`.
pub open spec fn within(cell: Area, area: Area) -> bool {
    &&& area.x <= cell.x
    &&& cell.x + cell.width <= area.x + area.width
    &&& area.y <= cell.y
    &&& cell.y + cell.height <= area.y + area.height
}

/// Whether `cell` reaches from one side of `area` to the other, across the
/// direction of a cut: over its whole width where the cells lie one below
/// the other, over its whole height where they lie side by side.
pub open spec fn spans(cell: Area, area: Area, vertically: bool) -> bool {
    if vertically {
        cell.x == area.x && cell.width == area.width
    } else {
        cell.y == area.y && cell.height == area.height
    }
}

/// Whether `cells` can be what `area` is cut into for `tracks` tracks: one
/// cell for each, every cell within the area and across all of it.
pub open spec fn cut_of(cells: Seq<Area>, area: Area, vertically: bool, tracks: nat) -> bool {
    &&& cells.len() == tracks
    &&& forall|i: int|
        0 <= i < cells.len() ==> within(#[trigger] cells[i], area) && spans(
            cells[i],
            area,
            vertically,
        )
}

/// `Layout::split`, with `Constraint::Length` and `Constraint::Min` for the
/// tracks and the direction as said. There is one area for each track;
/// each lies within `area` and reaches across it. How the engine shares
/// out the room along the direction is not said here.
#[verifier::external_body]
pub(crate) fn split_area(area: Area, vertically: bool, tracks: &Vec<Track>) -> (cells: Vec<Area>)
    ensures
        cut_of(cells@, area, vertically, tracks@.len()),
{
    let direction = if vertically { Direction::Vertical } else { Direction::Horizontal };
    let constraints = tracks.iter().map(|track| match track {
        Track::Length(cells) => Constraint::Length(*cells),
        Track::Min(cells) => Constraint::Min(*cells),
    });
    let whole = Rect { x: area.x, y: area.y, width: area.width, height: area.height };
    let cut = Layout::default().direction(direction).constraints(constraints).split(whole);
    cut.iter().map(|r| Area { x: r.x, y: r.y, width: r.width, height: r.height }).collect()
}

/// `Path::file_name`: the last component of `path`, or nothing where the
/// path has none.
#[verifier::external_body]
pub(crate) fn file_name(path: &str) -> (name: String)
    ensures
        name@ == base_name(path@),
{
    std::path::Path::new(path).file_name().unwrap_or_default().to_string_lossy().into_owned()
}

/// The tracks of the editor's columns: the tree, the separator, the text.
pub open spec fn column_tracks(tree_width: u16) -> Seq<Track> {
    seq![Track::Length(tree_width), Track::Length(1), Track::Min(0)]
}

/// The tracks of the editor's rows: the text, then two rows for the status
/// bar and the command line.
pub open spec fn row_tracks() -> Seq<Track> {
    seq![Track::Min(1), Track::Length(2)]
}

/// The area at `index`, or `fallback` where the cut has no such area.
pub open spec fn cell_or(cells: Seq<Area>, index: int, fallback: Area) -> Area {
    if 0 <= index < cells.len() {
        cells[index]
    } else {
        fallback
    }
}

/// The area right of the file tree and its separator among the columns
/// that `whole` was cut into, or the only column where the tree is hidden.
pub open spec fn editor_cell(whole: Area, tree_visible: bool, columns: Seq<Area>) -> Area {
    cell_or(
        columns,
        if tree_visible {
            2
        } else {
            0
        },
        whole,
    )
}

/// The panes of the editor, given the columns that `whole` was cut into
/// and the rows that the editor's column was cut into.
pub open spec fn screen_with(
    whole: Area,
    tree_visible: bool,
    columns: Seq<Area>,
    rows: Seq<Area>,
) -> Screen {
    let editor = editor_cell(whole, tree_visible, columns);
    Screen {
        tree: if tree_visible {
            Some((cell_or(columns, 0, whole), cell_or(columns, 1, whole)))
        } else {
            None
        },
        text: cell_or(rows, 0, editor),
        status: cell_or(rows, 1, editor),
    }
}

impl Screen {
    /// Whether these can be the panes of the editor on a terminal of area
    /// `whole`: every pane lies within the terminal, the tree is there if
    /// it is shown and then stands as high as the terminal, as does its
    /// separator, and the status bar is as wide as the text.
    pub open spec fn fits(&self, whole: Area, tree_visible: bool) -> bool {
        &&& self.tree is Some <==> tree_visible
        &&& self.tree matches Some((tree, bar)) ==> within(tree, whole) && within(bar, whole)
            && spans(tree, whole, false) && spans(bar, whole, false)
        &&& within(self.text, whole)
        &&& within(self.status, whole)
        &&& self.text.x == self.status.x
        &&& self.text.width == self.status.width
    }
}

fn pick(cells: &Vec<Area>, index: usize, fallback: Area) -> (area: Area)
    ensures
        area == cell_or(cells@, index as int, fallback),
{
    if index < cells.len() {
        cells[index]
    } else {
        fallback
    }
}

/// Picks the editor's column among the columns that `whole` was cut into.
pub fn editor_pane(whole: Area, tree_visible: bool, columns: &Vec<Area>) -> (editor: Area)
    ensures
        editor == editor_cell(whole, tree_visible, columns@),
{
    if tree_visible {
        pick(columns, 2, whole)
    } else {
        pick(columns, 0, whole)
    }
}

/// Names the panes of the editor among the columns that `whole` was cut
/// into and the rows that the editor's column was cut into.
pub fn arrange(
    whole: Area,
    tree_visible: bool,
    columns: &Vec<Area>,
    rows: &Vec<Area>,
) -> (screen: Screen)
    ensures
        screen == screen_with(whole, tree_visible, columns@, rows@),
{
    let editor = editor_pane(whole, tree_visible, columns);
    let tree = if tree_visible {
        Some((pick(columns, 0, whole), pick(columns, 1, whole)))
    } else {
        None
    };
    Screen { tree, text: pick(rows, 0, editor), status: pick(rows, 1, editor) }
}

/// The tracks that the columns of the editor are cut for.
pub fn tracks_of_columns(tree_visible: bool, tree_width: u16) -> (tracks: Vec<Track>)
    ensures
        tracks@ == if tree_visible {
            column_tracks(tree_width)
        } else {
            seq![Track::Min(0)]
        },
{
    let mut tracks: Vec<Track> = Vec::new();
    if tree_visible {
        tracks.push(Track::Length(tree_width));
        tracks.push(Track::Length(1));
        tracks.push(Track::Min(0));
        assert(tracks@ =~= column_tracks(tree_width));
    } else {
        tracks.push(Track::Min(0));
        assert(tracks@ =~= seq![Track::Min(0)]);
    }
    tracks
}

/// The tracks that the rows of the editor's column are cut for.
pub fn tracks_of_rows() -> (tracks: Vec<Track>)
    ensures
        tracks@ == row_tracks(),
{
    let mut tracks: Vec<Track> = Vec::new();
    tracks.push(Track::Min(1));
    tracks.push(Track::Length(2));
    assert(tracks@ =~= row_tracks());
    tracks
}

/// Cuts a terminal of area `whole` into columns: the tree, its separator
/// and the editor where the tree is shown, and the editor alone where it
/// is not.
pub fn cut_columns(whole: Area, tree_visible: bool, tree_width: u16) -> (columns: Vec<Area>)
    ensures
        cut_of(
            columns@,
            whole,
            false,
            if tree_visible {
                3
            } else {
                1
            },
        ),
{
    let tracks = tracks_of_columns(tree_visible, tree_width);
    split_area(whole, false, &tracks)
}

/// Cuts the editor's column into rows: the text, and below it the status
/// bar with the command line.
pub fn cut_rows(editor: Area) -> (rows: Vec<Area>)
    ensures
        cut_of(rows@, editor, true, 2),
{
    let tracks = tracks_of_rows();
    split_area(editor, true, &tracks)
}

/// Lays out the panes of the editor on a terminal of area `whole`. Where
/// the panes lie is for the layout engine to say; whatever it says, they
/// fit the terminal.
pub fn lay_out_screen(whole: Area, tree_visible: bool, tree_width: u16) -> (screen: Screen)
    ensures
        screen.fits(whole, tree_visible),
{
    let columns = cut_columns(whole, tree_visible, tree_width);
    let editor = editor_pane(whole, tree_visible, &columns);
    let rows = cut_rows(editor);
    assert(within(editor, whole));
    assert(within(rows@[0], editor) && within(rows@[1], editor));
    arrange(whole, tree_visible, &columns, &rows)
}

/// The character of a decimal digit.
pub open spec fn digit_char(digit: nat) -> char {
    if digit == 0 {
        '0'
    } else if digit == 1 {
        '1'
    } else if digit == 2 {
        '2'
    } else if digit == 3 {
        '3'
    } else if digit == 4 {
        '4'
    } else if digit == 5 {
        '5'
    } else if digit == 6 {
        '6'
    } else if digit == 7 {
        '7'
    } else if digit == 8 {
        '8'
    } else {
        '9'
    }
}

/// A number in decimal digits.
pub open spec fn decimal_text(n: nat) -> Seq<char>
    decreases n,
{
    if n < 10 {
        seq![digit_char(n)]
    } else {
        decimal_text(n / 10).push(digit_char(n % 10))
    }
}

fn digit(value: usize) -> (c: char)
    requires
        value < 10,
    ensures
        c == digit_char(value as nat),
{
    if value == 0 {
        '0'
    } else if value == 1 {
        '1'
    } else if value == 2 {
        '2'
    } else if value == 3 {
        '3'
    } else if value == 4 {
        '4'
    } else if value == 5 {
        '5'
    } else if value == 6 {
        '6'
    } else if value == 7 {
        '7'
    } else if value == 8 {
        '8'
    } else {
        '9'
    }
}

/// Writes a number in decimal digits.
pub fn decimal(n: usize) -> (text: String)
    ensures
        text@ == decimal_text(n as nat),
        1 <= text@.len() <= 20,
    decreases n,
{
    if n < 10 {
        char_string(digit(n))
    } else {
        let mut text = decimal(n / 10);
        assert(n / 10 <= usize::MAX / 10);
        push_char(&mut text, digit(n % 10));
        proof {
            lemma_decimal_len(n as nat);
        }
        text
    }
}

proof fn lemma_decimal_len(n: nat)
    ensures
        1 <= decimal_text(n).len(),
        n < 10 ==> decimal_text(n).len() == 1,
        n <= 0xffff_ffff_ffff_ffff ==> decimal_text(n).len() <= 20,
    decreases n,
{
    reveal_with_fuel(decimal_text, 21);
    if n >= 10 {
        lemma_decimal_len(n / 10);
    }
}

/// `count` spaces.
pub open spec fn spaces(count: nat) -> Seq<char> {
    Seq::new(count, |i: int| ' ')
}

/// A run of `count` spaces.
pub fn blank(count: usize) -> (text: String)
    ensures
        text@ == spaces(count as nat),
{
    let mut text = String::new();
    let mut i: usize = 0;
    assert(text@ =~= spaces(0));
    while i < count
        invariant
            i <= count,
            text@ == spaces(i as nat),
        decreases count - i,
    {
        push_char(&mut text, ' ');
        i += 1;
        assert(text@ =~= spaces(i as nat));
    }
    text
}

/// The width of the gutter of a buffer of `lines` lines: the digits of the
/// largest line number and two cells more.
pub open spec fn gutter_width(lines: nat) -> nat {
    decimal_text(lines).len() + 2
}

/// What the gutter reads beside line `index`: its number, counted from one,
/// flush right in the gutter, and one space.
pub open spec fn gutter_text(index: nat, lines: nat) -> Seq<char> {
    let number = decimal_text(index + 1);
    let room = (gutter_width(lines) - 1) as nat;
    (if number.len() < room {
        spaces((room - number.len()) as nat)
    } else {
        spaces(0)
    }) + number + seq![' ']
}

/// What the gutter reads beside line `index` of a buffer of `lines` lines.
pub fn gutter(index: usize, lines: usize) -> (text: String)
    requires
        index < usize::MAX,
    ensures
        text@ == gutter_text(index as nat, lines as nat),
{
    let number = decimal(index + 1);
    let room = decimal(lines).as_str().unicode_len() + 1;
    let digits = number.as_str().unicode_len();
    let mut text = if digits < room {
        blank(room - digits)
    } else {
        blank(0)
    };
    text.append(number.as_str());
    push_char(&mut text, ' ');
    text
}

/// `n`, or the largest column that a screen has if `n` is larger.
pub open spec fn to_cell(n: int) -> u16 {
    if n < 0 {
        0
    } else if n <= u16::MAX {
        n as u16
    } else {
        u16::MAX
    }
}

fn cell(n: usize) -> (c: u16)
    ensures
        c == to_cell(n as int),
{
    if n <= u16::MAX as usize {
        n as u16
    } else {
        u16::MAX
    }
}

/// What is left of `n` in the sixteen bits in which the screen counts its
/// cells.
pub open spec fn low_cell(n: usize) -> u16 {
    n as u16
}

fn low(n: usize) -> (c: u16)
    ensures
        c == low_cell(n),
{
    #[verifier::truncate]
    (n as u16)
}

/// `a - b`, or nothing where `b` is the larger.
pub open spec fn minus(a: int, b: int) -> int {
    if a >= b {
        a - b
    } else {
        0
    }
}

/// The first column that is shown, after scrolling as little as brings a
/// cursor that stands `before` columns into its line onto a pane of `width`
/// columns, from `offset`. The same holds of rows.
pub open spec fn scrolled(offset: usize, before: usize, width: u16) -> usize {
    let back = if before < offset {
        before
    } else {
        offset
    };
    if before - back < width {
        back
    } else if before - width + 1 <= usize::MAX {
        (before - width + 1) as usize
    } else {
        usize::MAX
    }
}

/// Scrolling shows the cursor and moves nothing without need: on a pane
/// of some width the cursor stands on the pane afterwards, and where it
/// stood on the pane already the offset stays.
pub proof fn lemma_scrolled_shows_the_cursor(offset: usize, before: usize, width: u16)
    ensures
        width >= 1 && before < usize::MAX ==> scrolled(offset, before, width) <= before < scrolled(
            offset,
            before,
            width,
        ) + width,
        offset <= before < offset + width ==> scrolled(offset, before, width) == offset,
{
}

/// Scrolls by as little as brings the cursor onto the pane.
pub fn scroll(offset: usize, before: usize, width: u16) -> (shown: usize)
    ensures
        shown == scrolled(offset, before, width),
        width >= 1 && before < usize::MAX ==> shown <= before < shown + width,
        offset <= before < offset + width ==> shown == offset,
{
    let back = if before < offset {
        before
    } else {
        offset
    };
    if before - back < width as usize {
        back
    } else if width > 0 {
        before - width as usize + 1
    } else if before < usize::MAX {
        before + 1
    } else {
        usize::MAX
    }
}

/// The name of a mode.
pub open spec fn mode_name(mode: Mode) -> Seq<char> {
    match mode {
        Mode::Normal => "NORMAL"@,
        Mode::Insert => "INSERT"@,
        Mode::Command => "COMMAND"@,
    }
}

/// The text before the cursor of a page, once the cursor is within its
/// line.
pub open spec fn text_before_cursor(page: crate::editing::Page) -> Seq<char> {
    joined(
        page.cells().take(
            if page.col <= page.cells().len() {
                page.col as int
            } else {
                page.cells().len() as int
            },
        ),
    )
}

/// What the left of the status bar reads.
pub open spec fn status_left(mode: Mode, filename: Option<Seq<char>>, modified: bool) -> Seq<char> {
    "-- "@ + mode_name(mode) + " -- "@ + (match filename {
        Some(name) => name,
        None => "[No Name]"@,
    }) + " "@ + (if modified {
        "[+]"@
    } else {
        ""@
    })
}

/// What the right of the status bar reads: the row and the column of the
/// cursor, counted from one.
pub open spec fn status_right(row: usize, col: usize) -> Seq<char> {
    decimal_text((row + 1) as nat) + ":"@ + decimal_text((col + 1) as nat)
}

/// The cell of the screen on which the cursor is drawn. Rows and columns
/// are counted in sixteen bits, as the screen counts them; a cell that
/// would lie beyond the last one that a screen can have is that last one.
pub open spec fn cursor_cell(
    text: Area,
    lines: nat,
    columns_before: usize,
    scroll_offset_col: usize,
    row: usize,
    top_row: usize,
) -> (u16, u16) {
    (
        to_cell(
            text.x + to_cell(gutter_width(lines) as int) + minus(
                low_cell(columns_before) as int,
                low_cell(scroll_offset_col) as int,
            ),
        ),
        to_cell(text.y + minus(low_cell(row) as int, low_cell(top_row) as int)),
    )
}

/// What stands before the name of a row of the file tree: a folded
/// directory, an unfolded one, or a file.
pub open spec fn indicator(is_dir: bool, expanded: bool) -> Seq<char> {
    if !is_dir {
        "   "@
    } else if expanded {
        "[-]"@
    } else {
        "[+]"@
    }
}

/// What a row of the file tree reads.
pub open spec fn tree_row_text(item: TreeItem, expanded_dirs: Seq<Seq<char>>) -> Seq<char> {
    item.prefix@ + indicator(item.is_dir, expanded_dirs.contains(item.path@)) + base_name(
        item.path@,
    )
}

impl Editor {
    /// Whether this editor is `before` scrolled so that the cursor of the
    /// active buffer shows on the text pane `text`. The cursor stays where
    /// it stands.
    pub open spec fn scrolled_from(&self, before: &Editor, text: Area) -> bool {
        let page = before.active().page();
        let gutter = to_cell(gutter_width(before.active().lines@.len()) as int);
        let width = to_cell(minus(text.width as int, gutter as int));
        &&& self.buffers@.len() == before.buffers@.len()
        &&& forall|i: int|
            0 <= i < self.buffers@.len() && i != self.active_buffer_index ==> self.buffers@[i]
                == before.buffers@[i]
        &&& self.active_buffer_index == before.active_buffer_index
        &&& self.mode == before.mode
        &&& self.command_input == before.command_input
        &&& self.command_message == before.command_message
        &&& self.should_exit == before.should_exit
        &&& self.pending_command_prefix == before.pending_command_prefix
        &&& self.plugin_manager == before.plugin_manager
        &&& self.plugin_event_receiver == before.plugin_event_receiver
        &&& self.plugin_event_sender == before.plugin_event_sender
        &&& self.tree_visible == before.tree_visible
        &&& self.tree_view_active == before.tree_view_active
        &&& self.tree_width == before.tree_width
        &&& self.current_path == before.current_path
        &&& self.tree_scroll_pos == before.tree_scroll_pos
        &&& self.selected_item_index == before.selected_item_index
        &&& self.expanded_dirs == before.expanded_dirs
        &&& self.tree_items == before.tree_items
        &&& if before.has_active() {
            &&& self.active().lines == before.active().lines
            &&& self.active().highlights == before.active().highlights
            &&& self.active().modified == before.active().modified
            &&& self.active().row == before.active().row
            &&& self.active().col == before.active().col
            &&& self.active().filename == before.active().filename
            &&& self.active().top_row == scrolled(before.active().top_row, page.row, text.height)
            &&& self.scroll_offset_col == scrolled(
                before.scroll_offset_col,
                display_width(text_before_cursor(page)) as usize,
                width,
            )
        } else {
            &&& self.scroll_offset_col == before.scroll_offset_col
        }
    }

    /// Whether the cursor of the active buffer, if there is one, stands on
    /// a line of its text.
    pub open spec fn cursor_on_line(&self) -> bool {
        self.has_active() ==> self.active().row < self.active().lines@.len()
    }

    /// Scrolls so that the cursor of the active buffer shows on the text
    /// pane `text`: sideways by as little as brings the cursor's column
    /// into the pane, and up or down by as little as brings its row into
    /// it. A cursor that stands right of its line counts as standing at
    /// the end of it. The cursor itself is not moved. On a pane of some
    /// height the cursor's row shows afterwards, and where it showed
    /// already the text is not moved up or down.
    pub fn scroll_to_cursor(&mut self, text: Area)
        requires
            old(self).wf(),
            old(self).cursor_on_line(),
        ensures
            final(self).wf(),
            final(self).scrolled_from(old(self), text),
            old(self).has_active() && text.height >= 1 ==> final(self).active().top_row <= old(
                self,
            ).active().row < final(self).active().top_row + text.height,
            old(self).has_active() && old(self).active().top_row <= old(self).active().row < old(
                self,
            ).active().top_row + text.height ==> final(self).active().top_row == old(
                self,
            ).active().top_row,
    {
        if self.active_buffer_index >= self.buffers.len() {
            return ;
        }
        let buffer = &mut self.buffers[self.active_buffer_index];
        let cells = split_graphemes(buffer.lines[buffer.row].as_str());
        assert(texts(cells@).len() == cells@.len());
        let col = if buffer.col <= cells.len() {
            buffer.col
        } else {
            cells.len()
        };
        let gutter = cell(decimal(buffer.lines.len()).as_str().unicode_len() + 2);
        let width = if text.width >= gutter {
            text.width - gutter
        } else {
            0
        };
        let before = join(&cells, 0, col);
        proof {
            assert(texts(cells@).subrange(0, col as int) =~= texts(cells@).take(col as int));
        }
        let columns = text_width(before.as_str());
        buffer.top_row = scroll(buffer.top_row, buffer.row, text.height);
        self.scroll_offset_col = scroll(self.scroll_offset_col, columns, width);
    }

    /// Scrolls so that the cursor of the active buffer shows on a terminal
    /// of area `whole`, on the text pane that the layout engine gives the
    /// editor there. That pane lies within the terminal; for the rest see
    /// `scroll_to_cursor`.
    pub fn update_scroll_offsets(&mut self, whole: Area)
        requires
            old(self).wf(),
            old(self).cursor_on_line(),
        ensures
            final(self).wf(),
            exists|text: Area|
                within(text, whole) && #[trigger] final(self).scrolled_from(old(self), text),
    {
        let screen = lay_out_screen(whole, self.tree_visible, self.tree_width);
        self.scroll_to_cursor(screen.text);
    }

    /// What the status bar reads, left and right.
    pub fn status_line(&self) -> (sides: (String, String))
        ensures
            sides.0@ == if self.has_active() {
                status_left(
                    self.mode,
                    Some(match self.active().filename {
                        Some(name) => name@,
                        None => "[No Name]"@,
                    }),
                    self.active().modified,
                )
            } else {
                "-- "@ + mode_name(self.mode) + " --"@
            },
            sides.1@ == if self.has_active() && self.active().row < usize::MAX
                && self.active().col < usize::MAX {
                status_right(self.active().row, self.active().col)
            } else {
                Seq::empty()
            },
    {
        let mut left = labelled("-- ", self.mode_str());
        if self.active_buffer_index >= self.buffers.len() {
            left.append(" --");
            return (left, String::new());
        }
        let buffer = &self.buffers[self.active_buffer_index];
        left.append(" -- ");
        match &buffer.filename {
            Some(name) => left.append(name.as_str()),
            None => left.append("[No Name]"),
        }
        left.append(" ");
        if buffer.modified {
            left.append("[+]");
        } else {
            left.append("");
        }
        let right = if buffer.row < usize::MAX && buffer.col < usize::MAX {
            let mut right = decimal(buffer.row + 1);
            right.append(":");
            right.append(decimal(buffer.col + 1).as_str());
            right
        } else {
            String::new()
        };
        (left, right)
    }

    /// How many spaces stand between the two sides of the status bar on a
    /// bar of `width` cells. The sides are measured in bytes, counted in
    /// sixteen bits as the screen counts its cells.
    pub fn status_padding(width: u16, left: &str, right: &str) -> (count: usize)
        ensures
            count == minus(
                width as int,
                low_cell(left.spec_bytes().len() as usize) + low_cell(
                    right.spec_bytes().len() as usize,
                ),
            ),
    {
        let used_left = low(left.as_bytes().len()) as usize;
        let used_right = low(right.as_bytes().len()) as usize;
        let width = width as usize;
        if used_left > width || used_right > width - used_left {
            0
        } else {
            width - used_left - used_right
        }
    }

    /// What the line below the status bar reads: the command being typed,
    /// behind its colon, or else the status message.
    pub fn command_line(&self) -> (text: String)
        ensures
            text@ == if self.mode == Mode::Command {
                ":"@ + self.command_input@
            } else {
                self.command_message@
            },
    {
        match self.mode {
            Mode::Command => labelled(":", self.command_input.as_str()),
            _ => self.command_message.clone(),
        }
    }

    /// Where the cursor is drawn on the text pane `text`, if it is drawn
    /// there at all: not while a command is typed, nor while the file tree
    /// has the keys. A cursor that stands right of its line is drawn at
    /// the end of it.
    pub fn cursor_place(&self, text: Area) -> (place: Option<(u16, u16)>)
        requires
            self.wf(),
            self.mode != Mode::Command && !self.tree_view_active ==> self.cursor_on_line(),
        ensures
            place == if self.mode != Mode::Command && !self.tree_view_active && self.has_active() {
                Some(
                    cursor_cell(
                        text,
                        self.active().lines@.len(),
                        display_width(text_before_cursor(self.active().page())) as usize,
                        self.scroll_offset_col,
                        self.active().row,
                        self.active().top_row,
                    ),
                )
            } else {
                None
            },
    {
        let typing = match self.mode {
            Mode::Command => true,
            _ => false,
        };
        if typing || self.tree_view_active || self.active_buffer_index >= self.buffers.len() {
            return None;
        }
        let buffer = &self.buffers[self.active_buffer_index];
        let row = buffer.row;
        let cells = split_graphemes(buffer.lines[row].as_str());
        let col = if buffer.col <= cells.len() {
            buffer.col
        } else {
            cells.len()
        };
        assert(texts(cells@).len() == cells@.len());
        let before = join(&cells, 0, col);
        proof {
            assert(texts(cells@).subrange(0, col as int) =~= texts(cells@).take(col as int));
        }
        let columns = low(text_width(before.as_str()));
        let offset = low(self.scroll_offset_col);
        let gutter = cell(decimal(buffer.lines.len()).as_str().unicode_len() + 2);
        let shift = if columns >= offset {
            columns - offset
        } else {
            0
        };
        let top = low(buffer.top_row);
        let down = if low(row) >= top {
            low(row) - top
        } else {
            0
        };
        let x = cell(text.x as usize + gutter as usize + shift as usize);
        let y = cell(text.y as usize + down as usize);
        Some((x, y))
    }

    /// The rows of the file tree that show on a pane of `height` rows.
    pub fn tree_rows(&self, height: u16) -> (rows: Vec<TreeRow>)
        ensures
            rows@.len() == if self.tree_scroll_pos >= self.tree_items@.len() {
                0
            } else if self.tree_items@.len() - self.tree_scroll_pos < height {
                self.tree_items@.len() - self.tree_scroll_pos
            } else {
                height as int
            },
            forall|i: int|
                0 <= i < rows@.len() ==> (#[trigger] rows@[i]).text@ == tree_row_text(
                    self.tree_items@[self.tree_scroll_pos + i],
                    texts(self.expanded_dirs@),
                ) && rows@[i].selected == (self.tree_scroll_pos + i == self.selected_item_index),
    {
        let mut rows: Vec<TreeRow> = Vec::new();
        let mut i: usize = self.tree_scroll_pos;
        while i < self.tree_items.len() && rows.len() < height as usize
            invariant
                self.tree_scroll_pos <= i,
                i <= self.tree_items@.len() || rows@.len() == 0,
                rows@.len() == if self.tree_scroll_pos >= self.tree_items@.len() {
                    0
                } else {
                    i - self.tree_scroll_pos
                },
                rows@.len() <= height,
                forall|k: int|
                    0 <= k < rows@.len() ==> (#[trigger] rows@[k]).text@ == tree_row_text(
                        self.tree_items@[self.tree_scroll_pos + k],
                        texts(self.expanded_dirs@),
                    ) && rows@[k].selected == (self.tree_scroll_pos + k
                        == self.selected_item_index),
            decreases self.tree_items@.len() - i,
        {
            let item = &self.tree_items[i];
            let mut text = item.prefix.clone();
            if !item.is_dir {
                text.append("   ");
            } else if holds(&self.expanded_dirs, &item.path) {
                text.append("[-]");
            } else {
                text.append("[+]");
            }
            text.append(file_name(item.path.as_str()).as_str());
            rows.push(TreeRow { text, selected: i == self.selected_item_index });
            i += 1;
        }
        rows
    }
}

} // verus!
