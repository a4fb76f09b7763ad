//! Maps key events to application actions.

use vstd::prelude::*;

use super::keybinds::{KeyBind, KeyCode, KeyEvent, KeyModifiers, Keybinds, CONTROL_BITS};

verus! {

/// All actions the application can perform based on user input.
#[derive(Debug, Clone, Copy, PartialEq, Eq, Structural)]
pub enum AppAction {
    Quit,
    NewPanel,
    NextPanel,
    PrevPanel,
    ClosePanel,
    MaximizePanel,
    FocusInput,
    FocusTree,
    FocusHistory,
    ToggleHelp,
    ScrollUp(usize),
    ScrollDown(usize),
    /// Character typed into the input bar.
    InputChar(char),
    /// Backspace in input bar.
    InputBackspace,
    /// Submit current input bar content to the agent.
    InputSubmit,
    /// Arrow up in input bar — cycle history.
    InputHistoryPrev,
    /// Arrow down in input bar — cycle history.
    InputHistoryNext,
    /// Unhandled/unknown key.
    Noop,
}

/// What a key does while the input bar has the focus.
pub open spec fn input_bar_action(event: KeyEvent) -> AppAction {
    match event.code {
        KeyCode::Char(c) => if event.modifiers.spec_contains(KeyModifiers { bits: 2 }) {
            AppAction::Noop
        } else {
            AppAction::InputChar(c)
        },
        KeyCode::Backspace => AppAction::InputBackspace,
        KeyCode::Enter => AppAction::InputSubmit,
        KeyCode::Up => AppAction::InputHistoryPrev,
        KeyCode::Down => AppAction::InputHistoryNext,
        KeyCode::Esc => AppAction::FocusTree,
        _ => AppAction::Noop,
    }
}

/// What a key does while navigating (the input bar does not have the focus).
pub open spec fn navigation_action(kb: Keybinds, event: KeyEvent) -> AppAction {
    if kb.new_panel.spec_matches(event) {
        AppAction::NewPanel
    } else if kb.next_panel.spec_matches(event) {
        AppAction::NextPanel
    } else if kb.prev_panel.spec_matches(event) {
        AppAction::PrevPanel
    } else if kb.focus_input.spec_matches(event) {
        AppAction::FocusInput
    } else if kb.focus_tree.spec_matches(event) {
        AppAction::FocusTree
    } else if kb.focus_history.spec_matches(event) {
        AppAction::FocusHistory
    } else if kb.maximize_panel.spec_matches(event) {
        AppAction::MaximizePanel
    } else if kb.close_panel.spec_matches(event) {
        AppAction::ClosePanel
    } else if kb.scroll_up.spec_matches(event) || event.code == KeyCode::Up {
        AppAction::ScrollUp(3)
    } else if kb.scroll_down.spec_matches(event) || event.code == KeyCode::Down {
        AppAction::ScrollDown(3)
    } else if kb.scroll_up_page.spec_matches(event) {
        AppAction::ScrollUp(20)
    } else if kb.scroll_down_page.spec_matches(event) {
        AppAction::ScrollDown(20)
    } else {
        AppAction::Noop
    }
}

/// The action of a key: quitting always wins; help toggles outside the input
/// bar; then the input bar or the navigation bindings decide.
pub open spec fn spec_handle(kb: Keybinds, event: KeyEvent, in_input_bar: bool) -> AppAction {
    if kb.quit.spec_matches(event) {
        AppAction::Quit
    } else if kb.help_toggle.spec_matches(event) && !in_input_bar {
        AppAction::ToggleHelp
    } else if in_input_bar {
        input_bar_action(event)
    } else {
        navigation_action(kb, event)
    }
}

pub struct InputHandler {
    keybinds: Keybinds,
}

impl InputHandler {
    pub closed spec fn bindings(&self) -> Keybinds {
        self.keybinds
    }

    pub fn new(keybinds: Keybinds) -> (h: Self)
        ensures
            h.bindings() == keybinds,
    {
        InputHandler { keybinds }
    }

    /// The action a key event asks for.
    pub fn handle(&self, event: KeyEvent, in_input_bar: bool) -> (a: AppAction)
        ensures
            a == spec_handle(self.bindings(), event, in_input_bar),
    {
        let kb = &self.keybinds;
        if kb.quit.matches(&event) {
            return AppAction::Quit;
        }
        if kb.help_toggle.matches(&event) && !in_input_bar {
            return AppAction::ToggleHelp;
        }
        if in_input_bar {
            return match event.code {
                KeyCode::Char(c) => {
                    if event.modifiers.contains(KeyModifiers { bits: CONTROL_BITS }) {
                        AppAction::Noop
                    } else {
                        AppAction::InputChar(c)
                    }
                },
                KeyCode::Backspace => AppAction::InputBackspace,
                KeyCode::Enter => AppAction::InputSubmit,
                KeyCode::Up => AppAction::InputHistoryPrev,
                KeyCode::Down => AppAction::InputHistoryNext,
                KeyCode::Esc => AppAction::FocusTree,
                _ => AppAction::Noop,
            };
        }
        if kb.new_panel.matches(&event) {
            return AppAction::NewPanel;
        }
        if kb.next_panel.matches(&event) {
            return AppAction::NextPanel;
        }
        if kb.prev_panel.matches(&event) {
            return AppAction::PrevPanel;
        }
        if kb.focus_input.matches(&event) {
            return AppAction::FocusInput;
        }
        if kb.focus_tree.matches(&event) {
            return AppAction::FocusTree;
        }
        if kb.focus_history.matches(&event) {
            return AppAction::FocusHistory;
        }
        if kb.maximize_panel.matches(&event) {
            return AppAction::MaximizePanel;
        }
        if kb.close_panel.matches(&event) {
            return AppAction::ClosePanel;
        }
        if kb.scroll_up.matches(&event) || event.code == KeyCode::Up {
            return AppAction::ScrollUp(3);
        }
        if kb.scroll_down.matches(&event) || event.code == KeyCode::Down {
            return AppAction::ScrollDown(3);
        }
        if kb.scroll_up_page.matches(&event) {
            return AppAction::ScrollUp(20);
        }
        if kb.scroll_down_page.matches(&event) {
            return AppAction::ScrollDown(20);
        }
        AppAction::Noop
    }
}


/// The navigation bindings in the order they are tried, each with its action.
pub open spec fn navigation_table(kb: Keybinds) -> Seq<(KeyBind, AppAction)> {
    seq![
        (kb.quit, AppAction::Quit),
        (kb.help_toggle, AppAction::ToggleHelp),
        (kb.new_panel, AppAction::NewPanel),
        (kb.next_panel, AppAction::NextPanel),
        (kb.prev_panel, AppAction::PrevPanel),
        (kb.focus_input, AppAction::FocusInput),
        (kb.focus_tree, AppAction::FocusTree),
        (kb.focus_history, AppAction::FocusHistory),
        (kb.maximize_panel, AppAction::MaximizePanel),
        (kb.close_panel, AppAction::ClosePanel),
    ]
}

/// While navigating, a key takes the action of the first binding of the
/// table that it matches: quit, help, new panel, next and previous panel,
/// focus input, focus tree, focus history, maximize, close.
pub proof fn law_navigation_takes_first_matching_binding(kb: Keybinds, event: KeyEvent, i: int)
    requires
        0 <= i < navigation_table(kb).len(),
        navigation_table(kb)[i].0.spec_matches(event),
        forall|j: int| 0 <= j < i ==> !(#[trigger] navigation_table(kb)[j]).0.spec_matches(event),
    ensures
        spec_handle(kb, event, false) == navigation_table(kb)[i].1,
{
    let t = navigation_table(kb);
    if i >= 1 { assert(!t[0].0.spec_matches(event)); }
    if i >= 2 { assert(!t[1].0.spec_matches(event)); }
    if i >= 3 { assert(!t[2].0.spec_matches(event)); }
    if i >= 4 { assert(!t[3].0.spec_matches(event)); }
    if i >= 5 { assert(!t[4].0.spec_matches(event)); }
    if i >= 6 { assert(!t[5].0.spec_matches(event)); }
    if i >= 7 { assert(!t[6].0.spec_matches(event)); }
    if i >= 8 { assert(!t[7].0.spec_matches(event)); }
    if i >= 9 { assert(!t[8].0.spec_matches(event)); }
}

/// Quitting wins everywhere; outside the navigation table, Up and Down (or
/// the scroll bindings) scroll three lines and the page bindings twenty; a
/// key bound to nothing does nothing.
pub proof fn law_navigation_scrolling_and_unbound_keys(kb: Keybinds, event: KeyEvent, in_input_bar: bool)
    ensures
        kb.quit.spec_matches(event) ==> spec_handle(kb, event, in_input_bar) == AppAction::Quit,
        (forall|j: int| 0 <= j < navigation_table(kb).len() ==> !(#[trigger] navigation_table(kb)[j]).0.spec_matches(event))
            ==> ({
            let a = spec_handle(kb, event, false);
            &&& (kb.scroll_up.spec_matches(event) || event.code == KeyCode::Up) ==> a == AppAction::ScrollUp(3)
            &&& !(kb.scroll_up.spec_matches(event) || event.code == KeyCode::Up) && (kb.scroll_down.spec_matches(event)
                || event.code == KeyCode::Down) ==> a == AppAction::ScrollDown(3)
            &&& !kb.scroll_up.spec_matches(event) && !kb.scroll_down.spec_matches(event)
                && event.code != KeyCode::Up && event.code != KeyCode::Down
                && !kb.scroll_up_page.spec_matches(event) && !kb.scroll_down_page.spec_matches(event)
                ==> a == AppAction::Noop
        }),
{
    let t = navigation_table(kb);
    if forall|j: int| 0 <= j < t.len() ==> !(#[trigger] t[j]).0.spec_matches(event) {
        assert(!t[0].0.spec_matches(event));
        assert(!t[1].0.spec_matches(event));
        assert(!t[2].0.spec_matches(event));
        assert(!t[3].0.spec_matches(event));
        assert(!t[4].0.spec_matches(event));
        assert(!t[5].0.spec_matches(event));
        assert(!t[6].0.spec_matches(event));
        assert(!t[7].0.spec_matches(event));
        assert(!t[8].0.spec_matches(event));
        assert(!t[9].0.spec_matches(event));
    }
}

/// With the default bindings, Ctrl+I, Ctrl+E and Ctrl+H focus the input bar,
/// the file tree and the history, whatever the input bar had.
pub proof fn law_default_focus_keys(kb: Keybinds, in_input_bar: bool)
    requires
        kb.is_default(),
    ensures
        spec_handle(kb, KeyEvent { code: KeyCode::Char('i'), modifiers: KeyModifiers { bits: 2 } }, false)
            == AppAction::FocusInput,
        spec_handle(kb, KeyEvent { code: KeyCode::Char('e'), modifiers: KeyModifiers { bits: 2 } }, false)
            == AppAction::FocusTree,
        spec_handle(kb, KeyEvent { code: KeyCode::Char('h'), modifiers: KeyModifiers { bits: 2 } }, false)
            == AppAction::FocusHistory,
{
}

} // verus!
