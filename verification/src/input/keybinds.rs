//! Keyboard events, key bindings and the help text that lists them.

use vstd::prelude::*;

verus! {

/// A key on the keyboard.
#[derive(Debug, Clone, Copy, PartialEq, Eq, Structural)]
pub enum KeyCode {
    Backspace,
    Enter,
    Left,
    Right,
    Up,
    Down,
    Home,
    End,
    PageUp,
    PageDown,
    Tab,
    BackTab,
    Delete,
    Insert,
    /// A function key, `F(1)` for F1.
    F(u8),
    /// A character key.
    Char(char),
    Null,
    Esc,
    CapsLock,
    ScrollLock,
    NumLock,
    PrintScreen,
    Pause,
    Menu,
    KeypadBegin,
    /// A media key.
    Media,
    /// A modifier key pressed on its own.
    Modifier,
}

pub const SHIFT_BITS: u8 = 0b0000_0001;

pub const CONTROL_BITS: u8 = 0b0000_0010;

pub const ALT_BITS: u8 = 0b0000_0100;

pub const SUPER_BITS: u8 = 0b0000_1000;

pub const HYPER_BITS: u8 = 0b0001_0000;

pub const META_BITS: u8 = 0b0010_0000;

/// A set of modifier keys, one bit each.
#[derive(Debug, Clone, Copy, PartialEq, Eq, Structural)]
pub struct KeyModifiers {
    pub bits: u8,
}

impl KeyModifiers {
    pub fn from_bits(bits: u8) -> (m: Self)
        ensures
            m.bits == bits,
    {
        KeyModifiers { bits }
    }

    /// No modifier.
    pub fn none() -> (m: Self)
        ensures
            m.bits == 0,
    {
        KeyModifiers { bits: 0 }
    }

    /// Whether every modifier of `other` is held.
    pub open spec fn spec_contains(self, other: KeyModifiers) -> bool {
        self.bits & other.bits == other.bits
    }

    pub fn contains(&self, other: KeyModifiers) -> (b: bool)
        ensures
            b == self.spec_contains(other),
    {
        self.bits & other.bits == other.bits
    }

    /// The modifiers of both sets.
    pub fn union(&self, other: KeyModifiers) -> (m: KeyModifiers)
        ensures
            m.bits == self.bits | other.bits,
    {
        KeyModifiers { bits: self.bits | other.bits }
    }
}

/// A key press: the key and the modifiers held with it.
#[derive(Debug, Clone, Copy, PartialEq, Eq, Structural)]
pub struct KeyEvent {
    pub code: KeyCode,
    pub modifiers: KeyModifiers,
}

/// A key combination.
#[derive(Debug, Clone, Copy, PartialEq, Eq, Structural)]
pub struct KeyBind {
    pub code: KeyCode,
    pub modifiers: KeyModifiers,
}

impl KeyBind {
    /// The event is exactly this combination: same key, same modifiers.
    pub open spec fn spec_matches(self, event: KeyEvent) -> bool {
        event.code == self.code && event.modifiers == self.modifiers
    }

    pub fn matches(&self, event: &KeyEvent) -> (b: bool)
        ensures
            b == self.spec_matches(*event),
    {
        event.code == self.code && event.modifiers == self.modifiers
    }
}

/// All application keybinds in one place.
pub struct Keybinds {
    pub new_panel: KeyBind,
    pub next_panel: KeyBind,
    pub prev_panel: KeyBind,
    pub focus_input: KeyBind,
    pub focus_tree: KeyBind,
    pub focus_history: KeyBind,
    pub maximize_panel: KeyBind,
    pub close_panel: KeyBind,
    pub quit: KeyBind,
    pub help_toggle: KeyBind,
    pub scroll_up: KeyBind,
    pub scroll_down: KeyBind,
    pub scroll_up_page: KeyBind,
    pub scroll_down_page: KeyBind,
}

pub open spec fn bind(code: KeyCode, bits: u8) -> KeyBind {
    KeyBind { code, modifiers: KeyModifiers { bits } }
}

impl Keybinds {
    /// The default bindings: Ctrl+Shift+N new panel, Ctrl+] / Ctrl+[ next and
    /// previous panel, Ctrl+I/E/H focus input/tree/history, Ctrl+M maximize,
    /// Ctrl+W close, Ctrl+C quit, `?` help, Ctrl+U / Ctrl+D scroll, PageUp /
    /// PageDown scroll a page.
    pub open spec fn is_default(&self) -> bool {
        &&& self.new_panel == bind(KeyCode::Char('n'), 3)
        &&& self.next_panel == bind(KeyCode::Char(']'), 2)
        &&& self.prev_panel == bind(KeyCode::Char('['), 2)
        &&& self.focus_input == bind(KeyCode::Char('i'), 2)
        &&& self.focus_tree == bind(KeyCode::Char('e'), 2)
        &&& self.focus_history == bind(KeyCode::Char('h'), 2)
        &&& self.maximize_panel == bind(KeyCode::Char('m'), 2)
        &&& self.close_panel == bind(KeyCode::Char('w'), 2)
        &&& self.quit == bind(KeyCode::Char('c'), 2)
        &&& self.help_toggle == bind(KeyCode::Char('?'), 0)
        &&& self.scroll_up == bind(KeyCode::Char('u'), 2)
        &&& self.scroll_down == bind(KeyCode::Char('d'), 2)
        &&& self.scroll_up_page == bind(KeyCode::PageUp, 0)
        &&& self.scroll_down_page == bind(KeyCode::PageDown, 0)
    }
}

impl Default for Keybinds {
    fn default() -> (k: Self)
        ensures
            k.is_default(),
    {
        let control = KeyModifiers { bits: CONTROL_BITS };
        let none = KeyModifiers { bits: 0 };
        let control_shift = control.union(KeyModifiers { bits: SHIFT_BITS });
        assert(CONTROL_BITS | SHIFT_BITS == 3u8) by (bit_vector);
        Keybinds {
            new_panel: KeyBind { code: KeyCode::Char('n'), modifiers: control_shift },
            next_panel: KeyBind { code: KeyCode::Char(']'), modifiers: control },
            prev_panel: KeyBind { code: KeyCode::Char('['), modifiers: control },
            focus_input: KeyBind { code: KeyCode::Char('i'), modifiers: control },
            focus_tree: KeyBind { code: KeyCode::Char('e'), modifiers: control },
            focus_history: KeyBind { code: KeyCode::Char('h'), modifiers: control },
            maximize_panel: KeyBind { code: KeyCode::Char('m'), modifiers: control },
            close_panel: KeyBind { code: KeyCode::Char('w'), modifiers: control },
            quit: KeyBind { code: KeyCode::Char('c'), modifiers: control },
            help_toggle: KeyBind { code: KeyCode::Char('?'), modifiers: none },
            scroll_up: KeyBind { code: KeyCode::Char('u'), modifiers: control },
            scroll_down: KeyBind { code: KeyCode::Char('d'), modifiers: control },
            scroll_up_page: KeyBind { code: KeyCode::PageUp, modifiers: none },
            scroll_down_page: KeyBind { code: KeyCode::PageDown, modifiers: none },
        }
    }
}

/// The rows of the keybinding help overlay: (keys, action).
pub open spec fn help_table() -> Seq<(Seq<char>, Seq<char>)> {
    seq![
        ("Ctrl+Shift+N"@, "New agent panel"@),
        ("Ctrl+]"@, "Next panel"@),
        ("Ctrl+["@, "Previous panel"@),
        ("Ctrl+I"@, "Focus input bar"@),
        ("Ctrl+E"@, "Focus file tree"@),
        ("Ctrl+H"@, "Focus history"@),
        ("Ctrl+M"@, "Maximize/restore panel"@),
        ("Ctrl+W"@, "Close panel"@),
        ("Ctrl+U / ↑"@, "Scroll up"@),
        ("Ctrl+D / ↓"@, "Scroll down"@),
        ("PgUp / PgDn"@, "Scroll page"@),
        ("?"@, "Toggle this help"@),
        ("Ctrl+C"@, "Quit"@),
    ]
}

pub open spec fn entries_view(v: Seq<(&'static str, &'static str)>) -> Seq<(Seq<char>, Seq<char>)> {
    v.map_values(|e: (&'static str, &'static str)| (e.0@, e.1@))
}

/// Human-readable help entries shown in the keybind overlay.
pub fn help_entries() -> (v: Vec<(&'static str, &'static str)>)
    ensures
        entries_view(v@) == help_table(),
{
    let v = vec![
        ("Ctrl+Shift+N", "New agent panel"),
        ("Ctrl+]", "Next panel"),
        ("Ctrl+[", "Previous panel"),
        ("Ctrl+I", "Focus input bar"),
        ("Ctrl+E", "Focus file tree"),
        ("Ctrl+H", "Focus history"),
        ("Ctrl+M", "Maximize/restore panel"),
        ("Ctrl+W", "Close panel"),
        ("Ctrl+U / ↑", "Scroll up"),
        ("Ctrl+D / ↓", "Scroll down"),
        ("PgUp / PgDn", "Scroll page"),
        ("?", "Toggle this help"),
        ("Ctrl+C", "Quit"),
    ];
    assert(entries_view(v@) =~= help_table());
    v
}

} // verus!
