//! Terminal screen state on top of the `vt100` terminal emulator.
//!
//! The emulator turns a PTY byte stream into a grid of cells; this module
//! copies that grid into plain, renderable styled lines of a fixed size.

use vstd::prelude::*;

use crate::text::push_char;

verus! {

// ── Colours and styles ───────────────────────────────────────────────────────

/// An opaque RGB colour.
#[derive(Debug, Clone, Copy, PartialEq, Eq, Structural)]
pub struct Rgb {
    pub r: u8,
    pub g: u8,
    pub b: u8,
}

pub open spec fn rgb(r: u8, g: u8, b: u8) -> Rgb {
    Rgb { r, g, b }
}

/// Text modifiers (bold, italic, etc.)
#[derive(Debug, Clone, Copy, Default, PartialEq, Eq, Structural)]
pub struct TextStyle {
    pub bold: bool,
    pub italic: bool,
    pub underline: bool,
    pub dim: bool,
    pub strikethrough: bool,
}

/// Style for a single terminal cell; `None` colours mean "terminal default".
#[derive(Debug, Clone, Copy, Default, PartialEq, Eq, Structural)]
pub struct CellStyle {
    pub fg: Option<Rgb>,
    pub bg: Option<Rgb>,
    pub text: TextStyle,
}

/// A single styled character cell.
#[derive(Debug, Clone, Copy, PartialEq, Eq, Structural)]
pub struct StyledCell {
    pub ch: char,
    pub style: CellStyle,
}

/// A line of styled cells.
#[derive(Debug, Clone, Default)]
pub struct StyledLine {
    pub cells: Vec<StyledCell>,
}

/// The style of a cell that carries no attributes at all.
pub open spec fn plain_style() -> CellStyle {
    CellStyle {
        fg: None,
        bg: None,
        text: TextStyle {
            bold: false,
            italic: false,
            underline: false,
            dim: false,
            strikethrough: false,
        },
    }
}

pub fn plain_cell_style() -> (s: CellStyle)
    ensures
        s == plain_style(),
{
    CellStyle {
        fg: None,
        bg: None,
        text: TextStyle {
            bold: false,
            italic: false,
            underline: false,
            dim: false,
            strikethrough: false,
        },
    }
}

impl StyledLine {
    /// The characters of the line, one per cell.
    pub open spec fn chars(&self) -> Seq<char> {
        self.cells@.map_values(|c: StyledCell| c.ch)
    }

    pub fn plain_text(&self) -> (s: String)
        ensures
            s@ == self.chars(),
    {
        let mut out = String::new();
        let mut i: usize = 0;
        while i < self.cells.len()
            invariant
                i <= self.cells@.len(),
                out@ == self.chars().subrange(0, i as int),
            decreases self.cells@.len() - i,
        {
            push_char(&mut out, self.cells[i].ch);
            i = i + 1;
            assert(out@ =~= self.chars().subrange(0, i as int));
        }
        assert(out@ =~= self.chars());
        out
    }
}

// ── Colour tables ────────────────────────────────────────────────────────────

/// A terminal colour as the emulator reports it.
#[derive(Debug, Clone, Copy, PartialEq, Eq, Structural)]
pub enum TermColor {
    /// The default terminal colour.
    Default,
    /// An indexed (0–255) terminal colour.
    Idx(u8),
    /// A true-colour value.
    Rgb(u8, u8, u8),
}

/// Channel value of the 6x6x6 colour cube used by 256-colour terminals.
pub open spec fn spec_cube_channel(value: u8) -> u8 {
    if value == 0 {
        0
    } else if value == 1 {
        95
    } else if value == 2 {
        135
    } else if value == 3 {
        175
    } else if value == 4 {
        215
    } else {
        255
    }
}

pub fn cube_channel(value: u8) -> (r: u8)
    ensures
        r == spec_cube_channel(value),
{
    match value {
        0 => 0,
        1 => 95,
        2 => 135,
        3 => 175,
        4 => 215,
        _ => 255,
    }
}

/// The sixteen base colours of the palette.
pub open spec fn base_palette(idx: u8) -> Rgb
    recommends
        idx < 16,
{
    if idx == 0 {
        rgb(0, 0, 0)
    } else if idx == 1 {
        rgb(205, 49, 49)
    } else if idx == 2 {
        rgb(13, 188, 121)
    } else if idx == 3 {
        rgb(229, 229, 16)
    } else if idx == 4 {
        rgb(36, 114, 200)
    } else if idx == 5 {
        rgb(188, 63, 188)
    } else if idx == 6 {
        rgb(17, 168, 205)
    } else if idx == 7 {
        rgb(229, 229, 229)
    } else if idx == 8 {
        rgb(102, 102, 102)
    } else if idx == 9 {
        rgb(241, 76, 76)
    } else if idx == 10 {
        rgb(35, 209, 139)
    } else if idx == 11 {
        rgb(245, 245, 67)
    } else if idx == 12 {
        rgb(59, 142, 234)
    } else if idx == 13 {
        rgb(214, 112, 214)
    } else if idx == 14 {
        rgb(41, 184, 219)
    } else {
        rgb(255, 255, 255)
    }
}

/// The xterm 256-colour palette: 16 base colours, a 6x6x6 cube, 24 greys.
pub open spec fn spec_color_index_to_rgb(idx: u8) -> Rgb {
    if idx < 16 {
        base_palette(idx)
    } else if idx <= 231 {
        let i = (idx - 16) as u8;
        rgb(
            spec_cube_channel(i / 36),
            spec_cube_channel((i % 36) / 6),
            spec_cube_channel(i % 6),
        )
    } else {
        let gray = (8 + (idx - 232) * 10) as u8;
        rgb(gray, gray, gray)
    }
}

pub fn color_index_to_rgb(idx: u8) -> (c: Rgb)
    ensures
        c == spec_color_index_to_rgb(idx),
{
    match idx {
        0 => Rgb { r: 0, g: 0, b: 0 },
        1 => Rgb { r: 205, g: 49, b: 49 },
        2 => Rgb { r: 13, g: 188, b: 121 },
        3 => Rgb { r: 229, g: 229, b: 16 },
        4 => Rgb { r: 36, g: 114, b: 200 },
        5 => Rgb { r: 188, g: 63, b: 188 },
        6 => Rgb { r: 17, g: 168, b: 205 },
        7 => Rgb { r: 229, g: 229, b: 229 },
        8 => Rgb { r: 102, g: 102, b: 102 },
        9 => Rgb { r: 241, g: 76, b: 76 },
        10 => Rgb { r: 35, g: 209, b: 139 },
        11 => Rgb { r: 245, g: 245, b: 67 },
        12 => Rgb { r: 59, g: 142, b: 234 },
        13 => Rgb { r: 214, g: 112, b: 214 },
        14 => Rgb { r: 41, g: 184, b: 219 },
        15 => Rgb { r: 255, g: 255, b: 255 },
        16..=231 => {
            let i = idx - 16;
            let r = i / 36;
            let g = (i % 36) / 6;
            let b = i % 6;
            Rgb { r: cube_channel(r), g: cube_channel(g), b: cube_channel(b) }
        },
        _ => {
            let gray = 8u8 + (idx - 232) * 10;
            Rgb { r: gray, g: gray, b: gray }
        },
    }
}

/// Colour of a cell as rendered: `None` for the terminal default.
pub open spec fn spec_color_to_rgb(color: TermColor) -> Option<Rgb> {
    match color {
        TermColor::Default => None,
        TermColor::Idx(idx) => Some(spec_color_index_to_rgb(idx)),
        TermColor::Rgb(r, g, b) => Some(rgb(r, g, b)),
    }
}

pub fn color_to_rgb(color: TermColor) -> (c: Option<Rgb>)
    ensures
        c == spec_color_to_rgb(color),
{
    match color {
        TermColor::Default => None,
        TermColor::Idx(idx) => Some(color_index_to_rgb(idx)),
        TermColor::Rgb(r, g, b) => Some(Rgb { r, g, b }),
    }
}

// ── Screen snapshots ─────────────────────────────────────────────────────────

/// One cell of the emulator's screen, as plain values.
#[derive(Debug, Clone)]
pub struct ScreenCell {
    /// The text of the cell: a character followed by combining characters,
    /// or empty for a blank cell.
    pub contents: String,
    pub fg: TermColor,
    pub bg: TermColor,
    pub bold: bool,
    pub italic: bool,
    pub underline: bool,
    pub inverse: bool,
}

/// A screen cell as a mathematical value.
pub struct CellView {
    pub contents: Seq<char>,
    pub fg: TermColor,
    pub bg: TermColor,
    pub bold: bool,
    pub italic: bool,
    pub underline: bool,
    pub inverse: bool,
}

impl ScreenCell {
    pub open spec fn view(self) -> CellView {
        CellView {
            contents: self.contents@,
            fg: self.fg,
            bg: self.bg,
            bold: self.bold,
            italic: self.italic,
            underline: self.underline,
            inverse: self.inverse,
        }
    }
}

pub open spec fn cell_view_opt(c: Option<ScreenCell>) -> Option<CellView> {
    match c {
        Some(cell) => Some(cell.view()),
        None => None,
    }
}

/// A cell that was never written: no text, default colours, no attributes.
pub open spec fn blank_cell() -> CellView {
    CellView {
        contents: seq![],
        fg: TermColor::Default,
        bg: TermColor::Default,
        bold: false,
        italic: false,
        underline: false,
        inverse: false,
    }
}

/// The parts of the emulator's screen that rendering reads.
#[derive(Debug)]
pub struct ScreenSnapshot {
    pub cursor_row: u16,
    pub cursor_col: u16,
    pub hide_cursor: bool,
    pub application_cursor: bool,
    /// `cells[row][col]`; `None` where the emulator has no cell.
    pub cells: Vec<Vec<Option<ScreenCell>>>,
}

impl ScreenSnapshot {
    /// The snapshot holds exactly `rows` rows of `cols` cells.
    pub open spec fn has_shape(&self, rows: int, cols: int) -> bool {
        &&& self.cells@.len() == rows
        &&& forall|r: int| 0 <= r < rows ==> #[trigger] self.cells@[r]@.len() == cols
    }

    /// Where the cursor is drawn: nowhere when the program hid it.
    pub open spec fn visible_cursor(&self) -> Option<(u16, u16)> {
        if self.hide_cursor {
            None
        } else {
            Some((self.cursor_row, self.cursor_col))
        }
    }
}

/// The character shown for a cell: its first character, or a blank.
pub open spec fn spec_cell_char(cell: Option<CellView>) -> char {
    match cell {
        None => ' ',
        Some(c) => if c.contents.len() == 0 {
            ' '
        } else {
            c.contents[0]
        },
    }
}

/// The style of a cell; an inverse cell swaps its colours.
pub open spec fn spec_cell_style(cell: CellView) -> CellStyle {
    let fg = spec_color_to_rgb(cell.fg);
    let bg = spec_color_to_rgb(cell.bg);
    CellStyle {
        fg: if cell.inverse { bg } else { fg },
        bg: if cell.inverse { fg } else { bg },
        text: TextStyle {
            bold: cell.bold,
            italic: cell.italic,
            underline: cell.underline,
            dim: false,
            strikethrough: false,
        },
    }
}

pub open spec fn black() -> Rgb {
    rgb(0, 0, 0)
}

pub open spec fn white() -> Rgb {
    rgb(255, 255, 255)
}

/// The cursor is drawn by swapping colours, with black/white for defaults.
pub open spec fn spec_cursor_style(style: CellStyle) -> CellStyle {
    CellStyle {
        fg: Some(
            match style.bg {
                Some(c) => c,
                None => white(),
            },
        ),
        bg: Some(
            match style.fg {
                Some(c) => c,
                None => black(),
            },
        ),
        text: style.text,
    }
}

/// How one screen cell is rendered.
pub open spec fn spec_render_cell(cell: Option<CellView>, is_cursor: bool) -> StyledCell {
    let style = match cell {
        Some(c) => spec_cell_style(c),
        None => plain_style(),
    };
    StyledCell {
        ch: spec_cell_char(cell),
        style: if is_cursor { spec_cursor_style(style) } else { style },
    }
}

/// The rendered cells of row `row` of a snapshot.
pub open spec fn spec_render_row(snap: ScreenSnapshot, row: int, cols: int) -> Seq<StyledCell> {
    Seq::new(
        cols as nat,
        |c: int|
            spec_render_cell(
                cell_view_opt(snap.cells@[row]@[c]),
                snap.visible_cursor() == Some((row as u16, c as u16)),
            ),
    )
}

/// `lines` is the rendering of `snap` at `rows` x `cols`.
pub open spec fn renders(snap: ScreenSnapshot, rows: int, cols: int, lines: Seq<StyledLine>) -> bool {
    &&& lines.len() == rows
    &&& forall|r: int| 0 <= r < rows ==> #[trigger] lines[r].cells@ == spec_render_row(snap, r, cols)
}

pub fn cell_char(cell: &Option<ScreenCell>) -> (ch: char)
    ensures
        ch == spec_cell_char(cell_view_opt(*cell)),
{
    match cell {
        None => ' ',
        Some(c) => {
            let contents = c.contents.as_str();
            if contents.unicode_len() == 0 {
                ' '
            } else {
                contents.get_char(0)
            }
        },
    }
}

pub fn cell_style(cell: &ScreenCell) -> (s: CellStyle)
    ensures
        s == spec_cell_style(cell.view()),
{
    let mut style = CellStyle {
        fg: color_to_rgb(cell.fg),
        bg: color_to_rgb(cell.bg),
        text: TextStyle {
            bold: cell.bold,
            italic: cell.italic,
            underline: cell.underline,
            dim: false,
            strikethrough: false,
        },
    };
    if cell.inverse {
        let fg = style.fg;
        style.fg = style.bg;
        style.bg = fg;
    }
    style
}

pub fn apply_cursor_style(style: &mut CellStyle, ch: &mut char)
    ensures
        *final(style) == spec_cursor_style(*old(style)),
        *final(ch) == *old(ch),
{
    let fg = match style.fg {
        Some(c) => c,
        None => Rgb { r: 0, g: 0, b: 0 },
    };
    let bg = match style.bg {
        Some(c) => c,
        None => Rgb { r: 255, g: 255, b: 255 },
    };
    style.fg = Some(bg);
    style.bg = Some(fg);
}

/// The cursor position shown for a snapshot.
pub fn visible_cursor(snap: &ScreenSnapshot) -> (c: Option<(u16, u16)>)
    ensures
        c == snap.visible_cursor(),
{
    if snap.hide_cursor {
        None
    } else {
        Some((snap.cursor_row, snap.cursor_col))
    }
}

/// Render a snapshot of `rows` x `cols` cells into styled lines.
pub fn render_snapshot(snap: &ScreenSnapshot, rows: u16, cols: u16) -> (lines: Vec<StyledLine>)
    requires
        snap.has_shape(rows as int, cols as int),
    ensures
        renders(*snap, rows as int, cols as int, lines@),
{
    let cursor = visible_cursor(snap);
    let mut lines: Vec<StyledLine> = Vec::new();
    let mut row: u16 = 0;
    while row < rows
        invariant
            row <= rows,
            snap.has_shape(rows as int, cols as int),
            cursor == snap.visible_cursor(),
            lines@.len() == row,
            forall|r: int|
                0 <= r < row ==> #[trigger] lines@[r].cells@ == spec_render_row(*snap, r, cols as int),
        decreases rows - row,
    {
        let mut cells: Vec<StyledCell> = Vec::new();
        let mut col: u16 = 0;
        while col < cols
            invariant
                row < rows,
                col <= cols,
                snap.has_shape(rows as int, cols as int),
                cursor == snap.visible_cursor(),
                cells@.len() == col,
                forall|c: int|
                    0 <= c < col ==> #[trigger] cells@[c] == spec_render_cell(
                        cell_view_opt(snap.cells@[row as int]@[c]),
                        snap.visible_cursor() == Some((row, c as u16)),
                    ),
            decreases cols - col,
        {
            let cell = &snap.cells[row as usize][col as usize];
            let mut style = match cell {
                Some(c) => cell_style(c),
                None => plain_cell_style(),
            };
            let mut ch = cell_char(cell);
            let is_cursor = match cursor {
                Some((cr, cc)) => cr == row && cc == col,
                None => false,
            };
            if is_cursor {
                apply_cursor_style(&mut style, &mut ch);
            }
            cells.push(StyledCell { ch, style });
            col = col + 1;
        }
        assert(cells@ =~= spec_render_row(*snap, row as int, cols as int));
        lines.push(StyledLine { cells });
        row = row + 1;
    }
    lines
}

/// A cell is drawn with exactly its own attributes: bold, italic and
/// underline each carry over unchanged and nothing else is switched on; its
/// colours are its own (a default colour stays the terminal default), and an
/// inverse cell has its foreground and background exchanged.
pub proof fn law_cell_style_keeps_attributes(cell: CellView)
    ensures
        spec_cell_style(cell).text.bold == cell.bold,
        spec_cell_style(cell).text.italic == cell.italic,
        spec_cell_style(cell).text.underline == cell.underline,
        !spec_cell_style(cell).text.dim,
        !spec_cell_style(cell).text.strikethrough,
        !cell.inverse ==> spec_cell_style(cell).fg == spec_color_to_rgb(cell.fg)
            && spec_cell_style(cell).bg == spec_color_to_rgb(cell.bg),
        cell.inverse ==> spec_cell_style(cell).fg == spec_color_to_rgb(cell.bg)
            && spec_cell_style(cell).bg == spec_color_to_rgb(cell.fg),
        (spec_cell_style(cell).fg is None) <==> (if cell.inverse {
            cell.bg
        } else {
            cell.fg
        }) == TermColor::Default,
{
}

/// In a rendered screen every cell shows the attributes of the emulator cell
/// at its place, the cursor cell included (the cursor only changes colours),
/// and its character is the cell's first character; a place with no cell is
/// a plain blank.
pub proof fn law_rendered_cells_keep_attributes(
    snap: ScreenSnapshot,
    rows: int,
    cols: int,
    lines: Seq<StyledLine>,
    r: int,
    c: int,
)
    requires
        snap.has_shape(rows, cols),
        renders(snap, rows, cols, lines),
        0 <= r < rows,
        0 <= c < cols,
    ensures
        lines[r].cells@.len() == cols,
        match snap.cells@[r]@[c] {
            Some(cell) => {
                &&& lines[r].cells@[c].style.text.bold == cell.bold
                &&& lines[r].cells@[c].style.text.italic == cell.italic
                &&& lines[r].cells@[c].style.text.underline == cell.underline
                &&& (cell.contents@.len() > 0 ==> lines[r].cells@[c].ch == cell.contents@[0])
                &&& (cell.contents@.len() == 0 ==> lines[r].cells@[c].ch == ' ')
            },
            None => {
                &&& lines[r].cells@[c].ch == ' '
                &&& lines[r].cells@[c].style.text == plain_style().text
            },
        },
{
    assert(lines[r].cells@ == spec_render_row(snap, r, cols));
}

// ── The vt100 emulator ───────────────────────────────────────────────────────

#[verifier::external_type_specification]
#[verifier::external_body]
pub struct ExVtParser(vt100::Parser);

/// A call that changes the emulator: feeding it bytes, or resizing it.
pub enum VtOp {
    Process(Seq<u8>),
    SetSize(u16, u16),
}

/// The calls a `vt100::Parser` has been given since it was made, in order.
/// The emulator's state is a function of these and of how it was made.
pub uninterp spec fn vt_history(parser: vt100::Parser) -> Seq<VtOp>;

/// The (rows, columns, scrollback length) a `vt100::Parser` was made with.
pub uninterp spec fn vt_setup(parser: vt100::Parser) -> (u16, u16, usize);

/// `vt100::Screen::cursor_position` of an emulator made with `setup` after
/// the calls `ops`.
pub uninterp spec fn vt_cursor_after(setup: (u16, u16, usize), ops: Seq<VtOp>) -> (u16, u16);

/// `vt100::Screen::hide_cursor` of an emulator made with `setup` after `ops`.
pub uninterp spec fn vt_hide_cursor_after(setup: (u16, u16, usize), ops: Seq<VtOp>) -> bool;

/// `vt100::Screen::application_cursor` of an emulator made with `setup` after
/// `ops`.
pub uninterp spec fn vt_application_cursor_after(setup: (u16, u16, usize), ops: Seq<VtOp>) -> bool;

/// `vt100::Screen::cell(row, col)` of an emulator made with `setup` after
/// `ops`, read as plain values.
pub uninterp spec fn vt_cell_after(
    setup: (u16, u16, usize),
    ops: Seq<VtOp>,
    row: u16,
    col: u16,
) -> Option<CellView>;

/// `vt100::Parser::new`: a fresh emulator of the given size and scrollback,
/// with no calls yet. As `Screen::new` and `Grid::new` build it, its cursor is
/// at (0, 0) and shown, application-cursor mode is off, and every cell of the
/// screen exists and is blank. Sizes below 2 x 2, on which vt100 can
/// overflow while processing text, are left out.
#[verifier::external_body]
fn vt_parser_new(rows: u16, cols: u16, scrollback_len: usize) -> (p: vt100::Parser)
    requires
        rows >= 2,
        cols >= 2,
    ensures
        vt_history(p) == Seq::<VtOp>::empty(),
        vt_setup(p) == (rows, cols, scrollback_len),
        vt_cursor_after(vt_setup(p), vt_history(p)) == (0u16, 0u16),
        !vt_hide_cursor_after(vt_setup(p), vt_history(p)),
        !vt_application_cursor_after(vt_setup(p), vt_history(p)),
        forall|r: u16, c: u16|
            r < rows && c < cols ==> #[trigger] vt_cell_after(vt_setup(p), vt_history(p), r, c)
                == Some(blank_cell()),
{
    vt100::Parser::new(rows, cols, scrollback_len)
}

/// `vt100::Parser::process`: feeds bytes to the emulator, which records the
/// call. What the bytes do to the screen is the emulator's own logic, named
/// by the functions above. vt100 overflows when text wraps on a screen of one
/// row or a wide character lands on a screen of one column; the wrappers that
/// make and resize the emulator therefore keep it at least 2 x 2.
#[verifier::external_body]
fn vt_process(parser: &mut vt100::Parser, bytes: &[u8])
    ensures
        vt_history(*final(parser)) == vt_history(*old(parser)).push(VtOp::Process(bytes@)),
        vt_setup(*final(parser)) == vt_setup(*old(parser)),
{
    parser.process(bytes);
}

/// `vt100::Parser::set_size`: resizes the emulator's screen, which records
/// the call. Sizes below 2 x 2 are left out, as for
/// `vt_parser_new`.
#[verifier::external_body]
fn vt_set_size(parser: &mut vt100::Parser, rows: u16, cols: u16)
    requires
        rows >= 2,
        cols >= 2,
    ensures
        vt_history(*final(parser)) == vt_history(*old(parser)).push(VtOp::SetSize(rows, cols)),
        vt_setup(*final(parser)) == vt_setup(*old(parser)),
{
    parser.set_size(rows, cols);
}

/// `vt100::Screen::cursor_position` of the emulator's screen: (row, col).
#[verifier::external_body]
fn vt_cursor_position(parser: &vt100::Parser) -> (c: (u16, u16))
    ensures
        c == vt_cursor_after(vt_setup(*parser), vt_history(*parser)),
{
    parser.screen().cursor_position()
}

/// `vt100::Screen::hide_cursor`: whether the program hid the cursor.
#[verifier::external_body]
fn vt_hide_cursor(parser: &vt100::Parser) -> (b: bool)
    ensures
        b == vt_hide_cursor_after(vt_setup(*parser), vt_history(*parser)),
{
    parser.screen().hide_cursor()
}

/// `vt100::Screen::application_cursor`: whether application cursor-key mode
/// is on.
#[verifier::external_body]
fn vt_application_cursor(parser: &vt100::Parser) -> (b: bool)
    ensures
        b == vt_application_cursor_after(vt_setup(*parser), vt_history(*parser)),
{
    parser.screen().application_cursor()
}

/// `vt100::Screen::cell`: the visible cell at (row, col), if there is one,
/// with its contents, colours (variant for variant) and attributes.
#[verifier::external_body]
fn vt_cell(parser: &vt100::Parser, row: u16, col: u16) -> (c: Option<ScreenCell>)
    ensures
        cell_view_opt(c) == vt_cell_after(vt_setup(*parser), vt_history(*parser), row, col),
{
    match parser.screen().cell(row, col) {
        Some(c) => Some(ScreenCell {
            contents: c.contents(),
            fg: match c.fgcolor() { vt100::Color::Default => TermColor::Default, vt100::Color::Idx(i) => TermColor::Idx(i), vt100::Color::Rgb(r, g, b) => TermColor::Rgb(r, g, b) },
            bg: match c.bgcolor() { vt100::Color::Default => TermColor::Default, vt100::Color::Idx(i) => TermColor::Idx(i), vt100::Color::Rgb(r, g, b) => TermColor::Rgb(r, g, b) },
            bold: c.bold(),
            italic: c.italic(),
            underline: c.underline(),
            inverse: c.inverse(),
        }),
        None => None,
    }
}

/// The cursor an emulator made with `setup` shows after `ops`: nowhere when
/// the program hid it.
pub open spec fn emulator_cursor(setup: (u16, u16, usize), ops: Seq<VtOp>) -> Option<(u16, u16)> {
    if vt_hide_cursor_after(setup, ops) {
        None
    } else {
        Some(vt_cursor_after(setup, ops))
    }
}

/// `snap` is what the emulator made with `setup` shows after `ops`, read at
/// `rows` x `cols`.
pub open spec fn is_emulator_screen(
    snap: ScreenSnapshot,
    setup: (u16, u16, usize),
    ops: Seq<VtOp>,
    rows: int,
    cols: int,
) -> bool {
    &&& snap.has_shape(rows, cols)
    &&& (snap.cursor_row, snap.cursor_col) == vt_cursor_after(setup, ops)
    &&& snap.hide_cursor == vt_hide_cursor_after(setup, ops)
    &&& snap.application_cursor == vt_application_cursor_after(setup, ops)
    &&& forall|r: int, c: int|
        0 <= r < rows && 0 <= c < cols ==> cell_view_opt(#[trigger] snap.cells@[r]@[c])
            == vt_cell_after(setup, ops, r as u16, c as u16)
}

/// Reads the emulator's visible screen, `rows` x `cols` cells.
pub fn capture_screen(parser: &vt100::Parser, rows: u16, cols: u16) -> (snap: ScreenSnapshot)
    ensures
        is_emulator_screen(snap, vt_setup(*parser), vt_history(*parser), rows as int, cols as int),
{
    let (cursor_row, cursor_col) = vt_cursor_position(parser);
    let hide_cursor = vt_hide_cursor(parser);
    let application_cursor = vt_application_cursor(parser);
    let ghost setup = vt_setup(*parser);
    let ghost ops = vt_history(*parser);
    let mut cells: Vec<Vec<Option<ScreenCell>>> = Vec::new();
    let mut row: u16 = 0;
    while row < rows
        invariant
            row <= rows,
            setup == vt_setup(*parser),
            ops == vt_history(*parser),
            cells@.len() == row,
            forall|r: int| 0 <= r < row ==> #[trigger] cells@[r]@.len() == cols,
            forall|r: int, c: int|
                0 <= r < row && 0 <= c < cols ==> cell_view_opt(#[trigger] cells@[r]@[c])
                    == vt_cell_after(setup, ops, r as u16, c as u16),
        decreases rows - row,
    {
        let mut line: Vec<Option<ScreenCell>> = Vec::new();
        let mut col: u16 = 0;
        while col < cols
            invariant
                col <= cols,
                setup == vt_setup(*parser),
                ops == vt_history(*parser),
                line@.len() == col,
                forall|c: int|
                    0 <= c < col ==> cell_view_opt(#[trigger] line@[c]) == vt_cell_after(
                        setup,
                        ops,
                        row,
                        c as u16,
                    ),
            decreases cols - col,
        {
            let cell = vt_cell(parser, row, col);
            line.push(cell);
            col = col + 1;
        }
        cells.push(line);
        row = row + 1;
    }
    ScreenSnapshot { cursor_row, cursor_col, hide_cursor, application_cursor, cells }
}

/// The rendered row `row` of what the emulator made with `setup` shows
/// after `ops`, `cols` cells wide.
pub open spec fn emulator_row(setup: (u16, u16, usize), ops: Seq<VtOp>, row: int, cols: int) -> Seq<
    StyledCell,
> {
    Seq::new(
        cols as nat,
        |c: int|
            spec_render_cell(
                vt_cell_after(setup, ops, row as u16, c as u16),
                emulator_cursor(setup, ops) == Some((row as u16, c as u16)),
            ),
    )
}

/// `lines`, `cursor` and `application_cursor` are the rendering, at `rows` x
/// `cols`, of what the emulator made with `setup` shows after `ops`.
pub open spec fn shows_emulator(
    setup: (u16, u16, usize),
    ops: Seq<VtOp>,
    rows: int,
    cols: int,
    lines: Seq<StyledLine>,
    cursor: Option<(u16, u16)>,
    application_cursor: bool,
) -> bool {
    &&& lines.len() == rows
    &&& forall|r: int| 0 <= r < rows ==> #[trigger] lines[r].cells@ == emulator_row(setup, ops, r, cols)
    &&& cursor == emulator_cursor(setup, ops)
    &&& application_cursor == vt_application_cursor_after(setup, ops)
}

proof fn lemma_rendered_screen(
    snap: ScreenSnapshot,
    setup: (u16, u16, usize),
    ops: Seq<VtOp>,
    rows: u16,
    cols: u16,
    lines: Seq<StyledLine>,
)
    requires
        is_emulator_screen(snap, setup, ops, rows as int, cols as int),
        renders(snap, rows as int, cols as int, lines),
    ensures
        shows_emulator(
            setup,
            ops,
            rows as int,
            cols as int,
            lines,
            snap.visible_cursor(),
            snap.application_cursor,
        ),
{
    assert(snap.visible_cursor() == emulator_cursor(setup, ops));
    assert forall|r: int| 0 <= r < rows implies #[trigger] lines[r].cells@ == emulator_row(
        setup,
        ops,
        r,
        cols as int,
    ) by {
        assert forall|c: int| 0 <= c < cols implies cell_view_opt(snap.cells@[r]@[c])
            == vt_cell_after(setup, ops, r as u16, c as u16) by {
            assert(cell_view_opt(snap.cells@[r]@[c]) == vt_cell_after(setup, ops, r as u16, c as u16));
        }
        assert(lines[r].cells@ =~= emulator_row(setup, ops, r, cols as int));
    }
}

/// The smallest screen the parser keeps.
pub open spec fn min_rows() -> u16 {
    2
}

pub open spec fn min_cols() -> u16 {
    8
}

pub open spec fn clamp_rows(rows: u16) -> u16 {
    if rows < 2 { 2 } else { rows }
}

pub open spec fn clamp_cols(cols: u16) -> u16 {
    if cols < 8 { 8 } else { cols }
}

/// Terminal screen state: a vt100 emulator plus its rendered cell grid.
pub struct AnsiParser {
    parser: vt100::Parser,
    rows: u16,
    cols: u16,
    lines: Vec<StyledLine>,
    cursor_position: Option<(u16, u16)>,
    application_cursor: bool,
}

impl AnsiParser {
    /// Number of screen rows.
    pub closed spec fn rows(&self) -> u16 {
        self.rows
    }

    /// Number of screen columns.
    pub closed spec fn cols(&self) -> u16 {
        self.cols
    }

    /// The rendered lines, top to bottom.
    pub closed spec fn rendered(&self) -> Seq<StyledLine> {
        self.lines@
    }

    /// Where the cursor is drawn, if it is shown.
    pub closed spec fn cursor(&self) -> Option<(u16, u16)> {
        self.cursor_position
    }

    pub closed spec fn app_cursor(&self) -> bool {
        self.application_cursor
    }

    /// How the emulator was made: (rows, columns, scrollback length).
    pub closed spec fn setup(&self) -> (u16, u16, usize) {
        vt_setup(self.parser)
    }

    /// The output fed to the emulator and the resizes, in order.
    pub closed spec fn history(&self) -> Seq<VtOp> {
        vt_history(self.parser)
    }

    /// The grid, cursor and mode are the rendering of what the emulator shows
    /// after its history, at a size of at least 2 x 8.
    pub open spec fn wf(&self) -> bool {
        &&& self.rows() >= 2
        &&& self.cols() >= 8
        &&& shows_emulator(
            self.setup(),
            self.history(),
            self.rows() as int,
            self.cols() as int,
            self.rendered(),
            self.cursor(),
            self.app_cursor(),
        )
    }

    fn render(parser: &vt100::Parser, rows: u16, cols: u16) -> (r: (
        Vec<StyledLine>,
        Option<(u16, u16)>,
        bool,
    ))
        ensures
            shows_emulator(
                vt_setup(*parser),
                vt_history(*parser),
                rows as int,
                cols as int,
                r.0@,
                r.1,
                r.2,
            ),
    {
        let snap = capture_screen(parser, rows, cols);
        let lines = render_snapshot(&snap, rows, cols);
        let cursor_position = visible_cursor(&snap);
        proof {
            lemma_rendered_screen(snap, vt_setup(*parser), vt_history(*parser), rows, cols, lines@);
        }
        (lines, cursor_position, snap.application_cursor)
    }

    /// Every cell is a plain blank, the cursor is shown at the top left and
    /// application-cursor mode is off.
    pub open spec fn is_blank(&self) -> bool {
        &&& self.cursor() == Some((0u16, 0u16))
        &&& !self.app_cursor()
        &&& forall|r: int, c: int|
            0 <= r < self.rows() && 0 <= c < self.cols() ==> #[trigger] self.rendered()[r].cells@[c]
                == spec_render_cell(Some(blank_cell()), r == 0 && c == 0)
    }

    /// A blank terminal of `rows` x `cols` (at least 2 x 8) keeping
    /// `scrollback_len` lines of scrollback.
    pub fn new(rows: u16, cols: u16, scrollback_len: usize) -> (p: Self)
        ensures
            p.wf(),
            p.rows() == clamp_rows(rows),
            p.cols() == clamp_cols(cols),
            p.setup() == (clamp_rows(rows), clamp_cols(cols), scrollback_len),
            p.history() == Seq::<VtOp>::empty(),
            p.is_blank(),
    {
        let rows = if rows < 2 { 2 } else { rows };
        let cols = if cols < 8 { 8 } else { cols };
        let parser = vt_parser_new(rows, cols, scrollback_len);
        let (lines, cursor_position, application_cursor) = Self::render(&parser, rows, cols);
        let p = AnsiParser { parser, rows, cols, lines, cursor_position, application_cursor };
        assert forall|r: int, c: int|
            0 <= r < p.rows() && 0 <= c < p.cols() implies #[trigger] p.rendered()[r].cells@[c]
                == spec_render_cell(Some(blank_cell()), r == 0 && c == 0) by {
            assert(p.rendered()[r].cells@ == emulator_row(p.setup(), p.history(), r, cols as int));
            assert(vt_cell_after(p.setup(), p.history(), r as u16, c as u16) == Some(blank_cell()));
        }
        p
    }

    /// Feeds PTY output to the emulator and refreshes the rendered grid.
    pub fn feed(&mut self, bytes: &[u8])
        requires
            old(self).wf(),
        ensures
            final(self).wf(),
            final(self).rows() == old(self).rows(),
            final(self).cols() == old(self).cols(),
            final(self).setup() == old(self).setup(),
            final(self).history() == old(self).history().push(VtOp::Process(bytes@)),
    {
        vt_process(&mut self.parser, bytes);
        let (lines, cursor_position, application_cursor) = Self::render(
            &self.parser,
            self.rows,
            self.cols,
        );
        self.lines = lines;
        self.cursor_position = cursor_position;
        self.application_cursor = application_cursor;
    }

    /// Resizes the screen (clamped to at least 2 rows and 8 columns); a
    /// screen already of that size is left as it is.
    pub fn resize(&mut self, rows: u16, cols: u16)
        requires
            old(self).wf(),
        ensures
            final(self).wf(),
            final(self).rows() == clamp_rows(rows),
            final(self).cols() == clamp_cols(cols),
            final(self).setup() == old(self).setup(),
            final(self).history() == (if clamp_rows(rows) == old(self).rows() && clamp_cols(cols)
                == old(self).cols() {
                old(self).history()
            } else {
                old(self).history().push(VtOp::SetSize(clamp_rows(rows), clamp_cols(cols)))
            }),
            (clamp_rows(rows) == old(self).rows() && clamp_cols(cols) == old(self).cols())
                ==> final(self).rendered() == old(self).rendered()
                && final(self).cursor() == old(self).cursor()
                && final(self).app_cursor() == old(self).app_cursor(),
    {
        let rows = if rows < 2 { 2 } else { rows };
        let cols = if cols < 8 { 8 } else { cols };
        if rows == self.rows && cols == self.cols {
            return;
        }
        vt_set_size(&mut self.parser, rows, cols);
        let (lines, cursor_position, application_cursor) = Self::render(&self.parser, rows, cols);
        self.rows = rows;
        self.cols = cols;
        self.lines = lines;
        self.cursor_position = cursor_position;
        self.application_cursor = application_cursor;
    }

    /// The rendered lines: `rows()` lines of `cols()` cells each.
    pub fn lines(&self) -> (lines: &[StyledLine])
        requires
            self.wf(),
        ensures
            lines@ == self.rendered(),
            lines@.len() == self.rows(),
            forall|r: int| 0 <= r < lines@.len() ==> (#[trigger] lines@[r]).cells@.len() == self.cols(),
    {
        assert forall|r: int| 0 <= r < self.lines@.len() implies (#[trigger] self.lines@[r]).cells@.len()
            == self.cols() by {
            assert(self.lines@[r].cells@ == emulator_row(self.setup(), self.history(), r, self.cols() as int));
        }
        self.lines.as_slice()
    }

    pub fn cursor_position(&self) -> (c: Option<(u16, u16)>)
        ensures
            c == self.cursor(),
    {
        self.cursor_position
    }

    pub fn application_cursor(&self) -> (b: bool)
        ensures
            b == self.app_cursor(),
    {
        self.application_cursor
    }

    /// (cols, rows) of the screen.
    pub fn size(&self) -> (s: (u16, u16))
        ensures
            s == (self.cols(), self.rows()),
    {
        (self.cols, self.rows)
    }
}

} // verus!
