use vibingide::input::handler::{AppAction, InputHandler};
use vibingide::input::keybinds::{
    help_entries, KeyBind, KeyCode, KeyEvent, KeyModifiers, Keybinds, CONTROL_BITS, SHIFT_BITS,
};
use vibingide::ui::hit_test::{hit_test, rect_contains, ClickZone, Rect, Zone};
use vibingide::ui::viewport::first_visible_line;

fn ev(code: KeyCode, bits: u8) -> KeyEvent {
    KeyEvent { code, modifiers: KeyModifiers::from_bits(bits) }
}

#[test]
fn modifier_sets() {
    let ctrl = KeyModifiers::from_bits(CONTROL_BITS);
    let both = ctrl.union(KeyModifiers::from_bits(SHIFT_BITS));
    assert_eq!(both.bits, 3);
    assert!(both.contains(ctrl));
    assert!(!ctrl.contains(both));
    assert!(ctrl.contains(KeyModifiers::none()));
}

#[test]
fn bindings_match_exact_combinations() {
    let b = KeyBind { code: KeyCode::Char('w'), modifiers: KeyModifiers::from_bits(CONTROL_BITS) };
    assert!(b.matches(&ev(KeyCode::Char('w'), CONTROL_BITS)));
    assert!(!b.matches(&ev(KeyCode::Char('w'), CONTROL_BITS | SHIFT_BITS)));
    assert!(!b.matches(&ev(KeyCode::Char('x'), CONTROL_BITS)));
}

#[test]
fn navigation_keys_map_to_actions() {
    let h = InputHandler::new(Keybinds::default());
    assert_eq!(h.handle(ev(KeyCode::Char('n'), 3), false), AppAction::NewPanel);
    assert_eq!(h.handle(ev(KeyCode::Char(']'), 2), false), AppAction::NextPanel);
    assert_eq!(h.handle(ev(KeyCode::Char('['), 2), false), AppAction::PrevPanel);
    assert_eq!(h.handle(ev(KeyCode::Char('w'), 2), false), AppAction::ClosePanel);
    assert_eq!(h.handle(ev(KeyCode::Char('m'), 2), false), AppAction::MaximizePanel);
    assert_eq!(h.handle(ev(KeyCode::Char('?'), 0), false), AppAction::ToggleHelp);
    assert_eq!(h.handle(ev(KeyCode::Up, 0), false), AppAction::ScrollUp(3));
    assert_eq!(h.handle(ev(KeyCode::Char('d'), 2), false), AppAction::ScrollDown(3));
    assert_eq!(h.handle(ev(KeyCode::PageUp, 0), false), AppAction::ScrollUp(20));
    assert_eq!(h.handle(ev(KeyCode::PageDown, 0), false), AppAction::ScrollDown(20));
    assert_eq!(h.handle(ev(KeyCode::Char('x'), 0), false), AppAction::Noop);
}

#[test]
fn input_bar_keys_edit_the_input() {
    let h = InputHandler::new(Keybinds::default());
    assert_eq!(h.handle(ev(KeyCode::Char('?'), 0), true), AppAction::InputChar('?'));
    assert_eq!(h.handle(ev(KeyCode::Char('a'), 1), true), AppAction::InputChar('a'));
    assert_eq!(h.handle(ev(KeyCode::Char('a'), 2), true), AppAction::Noop);
    assert_eq!(h.handle(ev(KeyCode::Backspace, 0), true), AppAction::InputBackspace);
    assert_eq!(h.handle(ev(KeyCode::Enter, 0), true), AppAction::InputSubmit);
    assert_eq!(h.handle(ev(KeyCode::Up, 0), true), AppAction::InputHistoryPrev);
    assert_eq!(h.handle(ev(KeyCode::Down, 0), true), AppAction::InputHistoryNext);
    assert_eq!(h.handle(ev(KeyCode::Esc, 0), true), AppAction::FocusTree);
    assert_eq!(h.handle(ev(KeyCode::Tab, 0), true), AppAction::Noop);
}

#[test]
fn quit_wins_everywhere() {
    let h = InputHandler::new(Keybinds::default());
    assert_eq!(h.handle(ev(KeyCode::Char('c'), 2), true), AppAction::Quit);
    assert_eq!(h.handle(ev(KeyCode::Char('c'), 2), false), AppAction::Quit);
}

#[test]
fn help_lists_every_binding() {
    let entries = help_entries();
    assert_eq!(entries.len(), 13);
    assert_eq!(entries[0], ("Ctrl+Shift+N", "New agent panel"));
    assert_eq!(entries[12], ("Ctrl+C", "Quit"));
}

fn rect(x: u16, y: u16, width: u16, height: u16) -> Rect {
    Rect { x, y, width, height }
}

#[test]
fn hit_testing_prefers_the_zone_drawn_last() {
    let zones = vec![
        Zone::new(ClickZone::PanelFocus(1), rect(0, 0, 40, 20)),
        Zone::new(ClickZone::PanelClose(1), rect(36, 0, 4, 1)),
        Zone::new(ClickZone::ToolbarHelp, rect(50, 0, 5, 1)),
    ];
    assert_eq!(hit_test(&zones, 37, 0), Some(&ClickZone::PanelClose(1)));
    assert_eq!(hit_test(&zones, 10, 5), Some(&ClickZone::PanelFocus(1)));
    assert_eq!(hit_test(&zones, 52, 0), Some(&ClickZone::ToolbarHelp));
    assert_eq!(hit_test(&zones, 45, 0), None);
    assert_eq!(hit_test(&[], 0, 0), None);
    assert!(rect_contains(rect(2, 2, 3, 3), 4, 4));
    assert!(!rect_contains(rect(2, 2, 3, 3), 5, 4));
    assert!(!rect_contains(rect(2, 2, 0, 3), 2, 2));
}

#[test]
fn visible_output_window_follows_the_scroll_position() {
    assert_eq!(first_visible_line(100, 20, 0), 80);
    assert_eq!(first_visible_line(100, 20, 30), 50);
    assert_eq!(first_visible_line(100, 20, 500), 0);
    assert_eq!(first_visible_line(10, 20, 3), 0);
    assert_eq!(first_visible_line(20, 20, 0), 0);
}

#[test]
fn zones_below_the_hit_are_not_examined() {
    let zones = vec![
        Zone::new(ClickZone::ToolbarQuit, rect(65_530, 0, 100, 1)),
        Zone::new(ClickZone::EmptyNewPanel, rect(0, 0, 10, 10)),
    ];
    assert_eq!(hit_test(&zones, 5, 5), Some(&ClickZone::EmptyNewPanel));
    // The containment test reads x first: a point left of the rectangle
    // never reaches its far edge.
    assert!(!rect_contains(rect(65_530, 0, 100, 1), 3, 0));
}
