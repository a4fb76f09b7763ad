//! The application's input and presentation decisions: which bytes a key or
//! text event sends to the focused terminal, how a command line is split,
//! and how a terminal line is grouped into styled runs.

use vstd::prelude::*;
use vstd::utf8::encode_utf8;

use crate::pty::ansi::{plain_cell_style, plain_style, CellStyle, StyledCell, StyledLine};
use crate::text::{push_char, split_whitespace, str_bytes, strings_view, words};

verus! {

/// The top-level screens of the application.
#[derive(Debug, Clone, Copy, PartialEq, Eq, Structural)]
pub enum AppScreen {
    Editor,
    Agents,
    Settings,
}

// ── Keyboard events ──────────────────────────────────────────────────────────

/// The keys the terminal input logic distinguishes; every other key is `Other`.
#[derive(Debug, Clone, Copy, PartialEq, Eq, Structural)]
pub enum Key {
    A,
    B,
    C,
    D,
    E,
    F,
    G,
    H,
    I,
    J,
    K,
    L,
    M,
    N,
    O,
    P,
    Q,
    R,
    S,
    T,
    U,
    V,
    W,
    X,
    Y,
    Z,
    Num0,
    Plus,
    Equals,
    Minus,
    OpenBracket,
    CloseBracket,
    Enter,
    Tab,
    Backspace,
    Escape,
    ArrowUp,
    ArrowDown,
    ArrowRight,
    ArrowLeft,
    Home,
    End,
    Insert,
    Delete,
    PageUp,
    PageDown,
    Other,
}

/// Modifier keys held during a key event.
#[derive(Debug, Clone, Copy, Default, PartialEq, Eq, Structural)]
pub struct Modifiers {
    pub alt: bool,
    pub ctrl: bool,
    pub shift: bool,
    pub mac_cmd: bool,
    /// The platform's command key (Ctrl, or Cmd on macOS).
    pub command: bool,
}

/// An input event of the window.
#[derive(Debug, Clone)]
pub enum Event {
    /// Text typed by the user.
    Text(String),
    /// Text pasted by the user.
    Paste(String),
    /// A key went down (`pressed`) or up.
    Key { key: Key, pressed: bool, modifiers: Modifiers },
    /// Any other event.
    Other,
}

/// Shortcuts the application keeps for itself: zoom (Cmd with +, =, -, 0),
/// Ctrl with N, W, [ or ], and Ctrl+Shift+Q.
pub open spec fn spec_is_reserved_app_shortcut(key: Key, m: Modifiers) -> bool {
    ||| (m.command && (key == Key::Plus || key == Key::Equals || key == Key::Minus || key
        == Key::Num0))
    ||| (m.ctrl && (key == Key::N || key == Key::W || key == Key::OpenBracket || key
        == Key::CloseBracket))
    ||| (m.ctrl && m.shift && key == Key::Q)
}

pub fn is_reserved_app_shortcut(key: Key, modifiers: Modifiers) -> (r: bool)
    ensures
        r == spec_is_reserved_app_shortcut(key, modifiers),
{
    if modifiers.command && matches!(key, Key::Plus | Key::Equals | Key::Minus | Key::Num0) {
        return true;
    }
    if modifiers.ctrl && matches!(key, Key::N | Key::W | Key::OpenBracket | Key::CloseBracket) {
        return true;
    }
    modifiers.ctrl && modifiers.shift && key == Key::Q
}

/// What the application does for one of its panel shortcuts.
#[derive(Debug, Clone, Copy, PartialEq, Eq, Structural)]
pub enum ShellAction {
    /// Ctrl+N: open the new-panel dialog.
    NewPanelDialog,
    /// Ctrl+W: close the focused panel.
    CloseFocusedPanel,
    /// Ctrl+]: focus the next panel.
    FocusNext,
    /// Ctrl+[: focus the previous panel.
    FocusPrev,
    /// Ctrl+Shift+Q: close the window.
    Quit,
}

pub open spec fn spec_panel_shortcut(key: Key, m: Modifiers) -> Option<ShellAction> {
    if m.ctrl && key == Key::N {
        Some(ShellAction::NewPanelDialog)
    } else if m.ctrl && key == Key::W {
        Some(ShellAction::CloseFocusedPanel)
    } else if m.ctrl && key == Key::CloseBracket {
        Some(ShellAction::FocusNext)
    } else if m.ctrl && key == Key::OpenBracket {
        Some(ShellAction::FocusPrev)
    } else if m.ctrl && m.shift && key == Key::Q {
        Some(ShellAction::Quit)
    } else {
        None
    }
}

/// The panel shortcut a key press triggers, if any.
pub fn panel_shortcut(key: Key, modifiers: Modifiers) -> (a: Option<ShellAction>)
    ensures
        a == spec_panel_shortcut(key, modifiers),
{
    if !modifiers.ctrl {
        return None;
    }
    match key {
        Key::N => Some(ShellAction::NewPanelDialog),
        Key::W => Some(ShellAction::CloseFocusedPanel),
        Key::CloseBracket => Some(ShellAction::FocusNext),
        Key::OpenBracket => Some(ShellAction::FocusPrev),
        Key::Q => if modifiers.shift {
            Some(ShellAction::Quit)
        } else {
            None
        },
        _ => None,
    }
}

/// Position of a letter key in the alphabet (A is 0), if it is one.
pub open spec fn letter_index(key: Key) -> Option<u8> {
    match key {
        Key::A => Some(0u8),
        Key::B => Some(1u8),
        Key::C => Some(2u8),
        Key::D => Some(3u8),
        Key::E => Some(4u8),
        Key::F => Some(5u8),
        Key::G => Some(6u8),
        Key::H => Some(7u8),
        Key::I => Some(8u8),
        Key::J => Some(9u8),
        Key::K => Some(10u8),
        Key::L => Some(11u8),
        Key::M => Some(12u8),
        Key::N => Some(13u8),
        Key::O => Some(14u8),
        Key::P => Some(15u8),
        Key::Q => Some(16u8),
        Key::R => Some(17u8),
        Key::S => Some(18u8),
        Key::T => Some(19u8),
        Key::U => Some(20u8),
        Key::V => Some(21u8),
        Key::W => Some(22u8),
        Key::X => Some(23u8),
        Key::Y => Some(24u8),
        Key::Z => Some(25u8),
        _ => None,
    }
}

/// The control character Ctrl+letter produces: 1 for A through 26 for Z.
pub open spec fn spec_ctrl_byte_for_key(key: Key) -> Option<u8> {
    match letter_index(key) {
        Some(i) => Some((i + 1) as u8),
        None => None,
    }
}

pub fn ctrl_byte_for_key(key: Key) -> (b: Option<u8>)
    ensures
        b == spec_ctrl_byte_for_key(key),
{
    let letter: u8 = match key {
        Key::A => 0x61,
        Key::B => 0x62,
        Key::C => 0x63,
        Key::D => 0x64,
        Key::E => 0x65,
        Key::F => 0x66,
        Key::G => 0x67,
        Key::H => 0x68,
        Key::I => 0x69,
        Key::J => 0x6a,
        Key::K => 0x6b,
        Key::L => 0x6c,
        Key::M => 0x6d,
        Key::N => 0x6e,
        Key::O => 0x6f,
        Key::P => 0x70,
        Key::Q => 0x71,
        Key::R => 0x72,
        Key::S => 0x73,
        Key::T => 0x74,
        Key::U => 0x75,
        Key::V => 0x76,
        Key::W => 0x77,
        Key::X => 0x78,
        Key::Y => 0x79,
        Key::Z => 0x7a,
        _ => return None,
    };
    Some(letter - 0x61 + 1)
}

/// ESC `[` final (normal mode) or ESC `O` final (application cursor mode).
pub open spec fn spec_cursor_key_bytes(application_cursor: bool, final_byte: u8) -> Seq<u8> {
    if application_cursor {
        seq![0x1bu8, 0x4fu8, final_byte]
    } else {
        seq![0x1bu8, 0x5bu8, final_byte]
    }
}

pub fn cursor_key_bytes(application_cursor: bool, final_byte: u8) -> (v: Vec<u8>)
    ensures
        v@ == spec_cursor_key_bytes(application_cursor, final_byte),
{
    if application_cursor {
        vec![0x1b, 0x4f, final_byte]
    } else {
        vec![0x1b, 0x5b, final_byte]
    }
}

/// The bytes an xterm-style terminal expects for a special key (without Ctrl).
pub open spec fn spec_key_to_terminal_bytes(key: Key, m: Modifiers, application_cursor: bool) -> Option<
    Seq<u8>,
> {
    if m.ctrl {
        None
    } else {
        match key {
            Key::Enter => Some(seq![0x0du8]),
            Key::Tab => if m.shift {
                Some(seq![0x1bu8, 0x5bu8, 0x5au8])
            } else {
                Some(seq![0x09u8])
            },
            Key::Backspace => Some(seq![0x7fu8]),
            Key::Escape => Some(seq![0x1bu8]),
            Key::ArrowUp => Some(spec_cursor_key_bytes(application_cursor, 0x41)),
            Key::ArrowDown => Some(spec_cursor_key_bytes(application_cursor, 0x42)),
            Key::ArrowRight => Some(spec_cursor_key_bytes(application_cursor, 0x43)),
            Key::ArrowLeft => Some(spec_cursor_key_bytes(application_cursor, 0x44)),
            Key::Home => Some(seq![0x1bu8, 0x5bu8, 0x48u8]),
            Key::End => Some(seq![0x1bu8, 0x5bu8, 0x46u8]),
            Key::Insert => Some(seq![0x1bu8, 0x5bu8, 0x32u8, 0x7eu8]),
            Key::Delete => Some(seq![0x1bu8, 0x5bu8, 0x33u8, 0x7eu8]),
            Key::PageUp => Some(seq![0x1bu8, 0x5bu8, 0x35u8, 0x7eu8]),
            Key::PageDown => Some(seq![0x1bu8, 0x5bu8, 0x36u8, 0x7eu8]),
            _ => None,
        }
    }
}

pub fn key_to_terminal_bytes(key: Key, modifiers: Modifiers, application_cursor: bool) -> (r:
    Option<Vec<u8>>)
    ensures
        match r {
            Some(v) => spec_key_to_terminal_bytes(key, modifiers, application_cursor) == Some(v@),
            None => spec_key_to_terminal_bytes(key, modifiers, application_cursor) is None,
        },
{
    if modifiers.ctrl {
        return None;
    }
    let bytes: Vec<u8> = match key {
        Key::Enter => vec![0x0d],
        Key::Tab => {
            if modifiers.shift {
                vec![0x1b, 0x5b, 0x5a]
            } else {
                vec![0x09]
            }
        },
        Key::Backspace => vec![0x7f],
        Key::Escape => vec![0x1b],
        Key::ArrowUp => cursor_key_bytes(application_cursor, 0x41),
        Key::ArrowDown => cursor_key_bytes(application_cursor, 0x42),
        Key::ArrowRight => cursor_key_bytes(application_cursor, 0x43),
        Key::ArrowLeft => cursor_key_bytes(application_cursor, 0x44),
        Key::Home => vec![0x1b, 0x5b, 0x48],
        Key::End => vec![0x1b, 0x5b, 0x46],
        Key::Insert => vec![0x1b, 0x5b, 0x32, 0x7e],
        Key::Delete => vec![0x1b, 0x5b, 0x33, 0x7e],
        Key::PageUp => vec![0x1b, 0x5b, 0x35, 0x7e],
        Key::PageDown => vec![0x1b, 0x5b, 0x36, 0x7e],
        _ => return None,
    };
    Some(bytes)
}

/// What the focused terminal receives for a window event: the UTF-8 bytes
/// of non-empty typed or pasted text; for a key press that is not an
/// application shortcut, the control character of Ctrl+letter, or else the
/// key's escape sequence; nothing for anything else.
pub open spec fn spec_terminal_bytes_for_event(event: Event, application_cursor: bool) -> Option<
    Seq<u8>,
> {
    match event {
        Event::Text(t) => if t@.len() > 0 {
            Some(encode_utf8(t@))
        } else {
            None
        },
        Event::Paste(t) => if t@.len() > 0 {
            Some(encode_utf8(t@))
        } else {
            None
        },
        Event::Key { key, pressed, modifiers } => if !pressed {
            None
        } else if spec_is_reserved_app_shortcut(key, modifiers) {
            None
        } else if modifiers.ctrl && spec_ctrl_byte_for_key(key) is Some {
            Some(seq![spec_ctrl_byte_for_key(key).unwrap()])
        } else {
            spec_key_to_terminal_bytes(key, modifiers, application_cursor)
        },
        Event::Other => None,
    }
}

pub fn terminal_bytes_for_event(event: &Event, application_cursor: bool) -> (r: Option<Vec<u8>>)
    ensures
        match r {
            Some(v) => spec_terminal_bytes_for_event(*event, application_cursor) == Some(v@),
            None => spec_terminal_bytes_for_event(*event, application_cursor) is None,
        },
{
    match event {
        Event::Text(text) => {
            if text.as_str().unicode_len() > 0 {
                Some(str_bytes(text.as_str()))
            } else {
                None
            }
        },
        Event::Paste(text) => {
            if text.as_str().unicode_len() > 0 {
                Some(str_bytes(text.as_str()))
            } else {
                None
            }
        },
        Event::Key { key, pressed, modifiers } => {
            if !*pressed {
                return None;
            }
            if is_reserved_app_shortcut(*key, *modifiers) {
                return None;
            }
            if modifiers.ctrl {
                if let Some(byte) = ctrl_byte_for_key(*key) {
                    return Some(vec![byte]);
                }
            }
            key_to_terminal_bytes(*key, *modifiers, application_cursor)
        },
        Event::Other => None,
    }
}

// ── Laws ─────────────────────────────────────────────────────────────────────

/// A key press that is one of the application's own shortcuts never reaches
/// the terminal, whatever the cursor mode.
pub proof fn law_reserved_shortcuts_send_nothing(key: Key, modifiers: Modifiers, application_cursor: bool)
    requires
        spec_is_reserved_app_shortcut(key, modifiers),
    ensures
        spec_terminal_bytes_for_event(
            Event::Key { key, pressed: true, modifiers },
            application_cursor,
        ) is None,
{
}

/// A key press that triggers a panel shortcut is never also sent to the
/// terminal.
pub proof fn law_panel_shortcuts_are_reserved(key: Key, modifiers: Modifiers, application_cursor: bool)
    requires
        spec_panel_shortcut(key, modifiers) is Some,
    ensures
        spec_is_reserved_app_shortcut(key, modifiers),
        spec_terminal_bytes_for_event(
            Event::Key { key, pressed: true, modifiers },
            application_cursor,
        ) is None,
{
}

/// Ctrl with a letter that is not a shortcut sends exactly one control
/// character, between 1 (Ctrl+A) and 26 (Ctrl+Z).
pub proof fn law_ctrl_letter_sends_one_control_byte(
    key: Key,
    modifiers: Modifiers,
    application_cursor: bool,
)
    requires
        modifiers.ctrl,
        letter_index(key) is Some,
        !spec_is_reserved_app_shortcut(key, modifiers),
    ensures
        ({
            let b = spec_terminal_bytes_for_event(
                Event::Key { key, pressed: true, modifiers },
                application_cursor,
            );
            &&& b is Some
            &&& b.unwrap().len() == 1
            &&& 1 <= b.unwrap()[0] <= 26
            &&& b.unwrap()[0] == letter_index(key).unwrap() + 1
        }),
{
}

/// The application cursor mode changes only what the four arrow keys send.
pub proof fn law_cursor_mode_only_changes_arrow_keys(event: Event)
    requires
        !(event matches Event::Key { key, .. } && (key == Key::ArrowUp || key == Key::ArrowDown
            || key == Key::ArrowRight || key == Key::ArrowLeft)),
    ensures
        spec_terminal_bytes_for_event(event, true) == spec_terminal_bytes_for_event(event, false),
{
}

/// A key release never sends anything.
pub proof fn law_key_release_sends_nothing(key: Key, modifiers: Modifiers, application_cursor: bool)
    ensures
        spec_terminal_bytes_for_event(
            Event::Key { key, pressed: false, modifiers },
            application_cursor,
        ) is None,
{
}

// ── Command lines ─────────────────────────────────────────────────────────────

/// Splits a command line into the command and its arguments at whitespace;
/// `None` when the line holds no word.
pub fn split_cmdline(s: &str) -> (r: Option<(String, Vec<String>)>)
    ensures
        match r {
            None => words(s@).len() == 0,
            Some((cmd, args)) => words(s@).len() > 0 && cmd@ == words(s@)[0] && strings_view(args@)
                == words(s@).drop_first(),
        },
{
    let mut parts = split_whitespace(s);
    if parts.len() == 0 {
        return None;
    }
    let ghost all = strings_view(parts@);
    let cmd = parts.remove(0);
    assert(strings_view(parts@) =~= all.drop_first());
    Some((cmd, parts))
}

// ── Terminal lines as styled runs ────────────────────────────────────────────

/// A run of consecutive cells that share one style.
#[derive(Debug)]
pub struct TextRun {
    pub text: String,
    pub style: CellStyle,
}

/// The maximal runs of equally styled cells of a line, left to right.
pub open spec fn style_runs(cells: Seq<StyledCell>) -> Seq<(Seq<char>, CellStyle)>
    decreases cells.len(),
{
    if cells.len() == 0 {
        seq![]
    } else {
        let r = style_runs(cells.drop_last());
        let c = cells.last();
        if r.len() > 0 && r.last().1 == c.style {
            r.update(r.len() - 1, (r.last().0.push(c.ch), c.style))
        } else {
            r.push((seq![c.ch], c.style))
        }
    }
}

/// How a line is drawn: its style runs, or a single unstyled blank for an
/// empty line.
pub open spec fn spec_terminal_runs(cells: Seq<StyledCell>) -> Seq<(Seq<char>, CellStyle)> {
    if cells.len() == 0 {
        seq![(seq![' '], plain_style())]
    } else {
        style_runs(cells)
    }
}

pub open spec fn runs_view(runs: Seq<TextRun>) -> Seq<(Seq<char>, CellStyle)> {
    runs.map_values(|r: TextRun| (r.text@, r.style))
}

pub fn terminal_runs(line: &StyledLine) -> (runs: Vec<TextRun>)
    ensures
        runs_view(runs@) == spec_terminal_runs(line.cells@),
{
    let n = line.cells.len();
    let mut runs: Vec<TextRun> = Vec::new();
    if n == 0 {
        let mut text = String::new();
        push_char(&mut text, ' ');
        runs.push(TextRun { text, style: plain_cell_style() });
        assert(runs_view(runs@) =~= spec_terminal_runs(line.cells@));
        return runs;
    }
    let mut current_text = String::new();
    let mut current_style = line.cells[0].style;
    let mut i: usize = 0;
    while i < n
        invariant
            n == line.cells@.len(),
            n > 0,
            i <= n,
            i == 0 ==> current_text@.len() == 0 && runs@.len() == 0 && current_style
                == line.cells@[0].style,
            i > 0 ==> current_text@.len() > 0 && style_runs(line.cells@.take(i as int)) == runs_view(
                runs@,
            ).push((current_text@, current_style)),
        decreases n - i,
    {
        let cell = line.cells[i];
        let ghost prefix = line.cells@.take(i as int);
        let ghost next = line.cells@.take(i + 1);
        assert(next.drop_last() =~= prefix);
        assert(next.last() == cell);
        if cell.style != current_style {
            let mut text = String::new();
            std::mem::swap(&mut text, &mut current_text);
            runs.push(TextRun { text, style: current_style });
            current_style = cell.style;
            assert(runs_view(runs@) =~= runs_view(runs@.drop_last()).push(
                (runs@.last().text@, runs@.last().style),
            ));
        }
        push_char(&mut current_text, cell.ch);
        proof {
            let r = style_runs(prefix);
            if i > 0 {
                if r.last().1 == cell.style {
                    assert(style_runs(next) =~= runs_view(runs@).push((current_text@, current_style)));
                } else {
                    assert(style_runs(next) =~= runs_view(runs@).push((current_text@, current_style)));
                }
            } else {
                assert(prefix =~= seq![]);
                assert(style_runs(prefix) =~= seq![]);
                assert(current_text@ =~= seq![cell.ch]);
                assert(style_runs(next) =~= runs_view(runs@).push((current_text@, current_style)));
            }
        }
        i = i + 1;
    }
    runs.push(TextRun { text: current_text, style: current_style });
    assert(line.cells@.take(n as int) =~= line.cells@);
    assert(runs_view(runs@) =~= runs_view(runs@.drop_last()).push(
        (runs@.last().text@, runs@.last().style),
    ));
    runs
}

/// The characters of a sequence of runs, read left to right.
pub open spec fn runs_text(runs: Seq<(Seq<char>, CellStyle)>) -> Seq<char>
    decreases runs.len(),
{
    if runs.len() == 0 {
        seq![]
    } else {
        runs_text(runs.drop_last()) + runs.last().0
    }
}

/// The characters of a line's cells.
pub open spec fn cell_chars(cells: Seq<StyledCell>) -> Seq<char> {
    cells.map_values(|c: StyledCell| c.ch)
}

/// What style runs are: they spell the line's characters in order, none is
/// empty, and two neighbours never share a style.
pub open spec fn partitions_line(runs: Seq<(Seq<char>, CellStyle)>, cells: Seq<StyledCell>) -> bool {
    &&& runs_text(runs) == cell_chars(cells)
    &&& forall|i: int| 0 <= i < runs.len() ==> (#[trigger] runs[i]).0.len() > 0
    &&& forall|i: int| 0 <= i < runs.len() - 1 ==> (#[trigger] runs[i]).1 != runs[i + 1].1
}

/// The runs a terminal line is drawn with spell exactly its characters, are
/// never empty and change style at every boundary; a line of no cells is
/// drawn as one unstyled blank.
pub proof fn law_terminal_runs_partition_line(cells: Seq<StyledCell>)
    ensures
        cells.len() > 0 ==> partitions_line(spec_terminal_runs(cells), cells),
        cells.len() == 0 ==> spec_terminal_runs(cells) == seq![(seq![' '], plain_style())],
    decreases cells.len(),
{
    if cells.len() > 0 {
        lemma_style_runs_partition(cells);
    }
}

proof fn lemma_style_runs_partition(cells: Seq<StyledCell>)
    ensures
        partitions_line(style_runs(cells), cells),
        cells.len() > 0 ==> style_runs(cells).len() > 0,
        cells.len() > 0 ==> style_runs(cells).last().1 == cells.last().style,
    decreases cells.len(),
{
    if cells.len() == 0 {
        assert(cell_chars(cells) =~= seq![]);
    } else {
        let prefix = cells.drop_last();
        lemma_style_runs_partition(prefix);
        let r = style_runs(prefix);
        let c = cells.last();
        assert(cell_chars(cells) =~= cell_chars(prefix).push(c.ch));
        if r.len() > 0 && r.last().1 == c.style {
            let n = r.update(r.len() - 1, (r.last().0.push(c.ch), c.style));
            assert(n.drop_last() =~= r.drop_last());
            assert(runs_text(n) =~= runs_text(r).push(c.ch));
            assert forall|i: int| 0 <= i < n.len() - 1 implies (#[trigger] n[i]).1 != n[i + 1].1 by {
                assert(n[i] == r[i]);
            }
        } else {
            let n = r.push((seq![c.ch], c.style));
            assert(n.drop_last() =~= r);
            assert(runs_text(n) =~= runs_text(r).push(c.ch));
            assert forall|i: int| 0 <= i < n.len() - 1 implies (#[trigger] n[i]).1 != n[i + 1].1 by {
                assert(n[i] == r[i]);
            }
        }
    }
}

} // verus!
