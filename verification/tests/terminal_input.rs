use vibingide::app::{
    ctrl_byte_for_key, is_reserved_app_shortcut, key_to_terminal_bytes, panel_shortcut,
    split_cmdline, terminal_bytes_for_event, terminal_runs, Event, Key, Modifiers, ShellAction,
};
use vibingide::pty::ansi::{CellStyle, Rgb, StyledCell, StyledLine, TextStyle};

fn key_event(key: Key, modifiers: Modifiers) -> Event {
    Event::Key { key, pressed: true, modifiers }
}

#[test]
fn text_and_paste_events_pass_through_to_terminal() {
    assert_eq!(
        terminal_bytes_for_event(&Event::Text("codex".into()), false),
        Some(b"codex".to_vec())
    );
    assert_eq!(
        terminal_bytes_for_event(&Event::Paste("hello\nworld".into()), false),
        Some(b"hello\nworld".to_vec())
    );
}

#[test]
fn ctrl_c_maps_to_interrupt_byte_but_quit_shortcuts_stay_reserved() {
    let ctrl = Modifiers { ctrl: true, ..Default::default() };
    let ctrl_shift = Modifiers { ctrl: true, shift: true, ..Default::default() };

    assert_eq!(terminal_bytes_for_event(&key_event(Key::C, ctrl), false), Some(vec![0x03]));
    assert_eq!(terminal_bytes_for_event(&key_event(Key::Q, ctrl_shift), false), None);
    assert_eq!(terminal_bytes_for_event(&key_event(Key::W, ctrl), false), None);
}

#[test]
fn arrow_keys_follow_application_cursor_mode() {
    assert_eq!(
        terminal_bytes_for_event(&key_event(Key::ArrowUp, Modifiers::default()), false),
        Some(b"\x1b[A".to_vec())
    );
    assert_eq!(
        terminal_bytes_for_event(&key_event(Key::ArrowUp, Modifiers::default()), true),
        Some(b"\x1bOA".to_vec())
    );
    assert_eq!(
        terminal_bytes_for_event(&key_event(Key::Tab, Modifiers::default()), false),
        Some(b"\t".to_vec())
    );
}

#[test]
fn empty_text_and_other_events_send_nothing() {
    assert_eq!(terminal_bytes_for_event(&Event::Text(String::new()), false), None);
    assert_eq!(terminal_bytes_for_event(&Event::Paste(String::new()), true), None);
    assert_eq!(terminal_bytes_for_event(&Event::Other, false), None);
}

#[test]
fn non_ascii_text_is_sent_as_utf8() {
    assert_eq!(
        terminal_bytes_for_event(&Event::Text("é→".into()), false),
        Some("é→".as_bytes().to_vec())
    );
}

#[test]
fn key_release_sends_nothing() {
    let ev = Event::Key { key: Key::Enter, pressed: false, modifiers: Modifiers::default() };
    assert_eq!(terminal_bytes_for_event(&ev, false), None);
}

#[test]
fn reserved_shortcuts_are_recognised() {
    let cmd = Modifiers { command: true, ..Default::default() };
    let ctrl = Modifiers { ctrl: true, ..Default::default() };
    assert!(is_reserved_app_shortcut(Key::Plus, cmd));
    assert!(is_reserved_app_shortcut(Key::Equals, cmd));
    assert!(is_reserved_app_shortcut(Key::Minus, cmd));
    assert!(is_reserved_app_shortcut(Key::Num0, cmd));
    assert!(is_reserved_app_shortcut(Key::N, ctrl));
    assert!(is_reserved_app_shortcut(Key::OpenBracket, ctrl));
    assert!(is_reserved_app_shortcut(Key::CloseBracket, ctrl));
    assert!(!is_reserved_app_shortcut(Key::Q, ctrl));
    assert!(!is_reserved_app_shortcut(Key::Plus, ctrl));
    assert!(!is_reserved_app_shortcut(Key::A, Modifiers::default()));
    // Cmd+0 never reaches the terminal.
    assert_eq!(terminal_bytes_for_event(&key_event(Key::Num0, cmd), false), None);
}

#[test]
fn ctrl_letters_map_to_control_characters() {
    assert_eq!(ctrl_byte_for_key(Key::A), Some(1));
    assert_eq!(ctrl_byte_for_key(Key::Z), Some(26));
    assert_eq!(ctrl_byte_for_key(Key::D), Some(4));
    assert_eq!(ctrl_byte_for_key(Key::Enter), None);
    let ctrl = Modifiers { ctrl: true, ..Default::default() };
    assert_eq!(terminal_bytes_for_event(&key_event(Key::D, ctrl), true), Some(vec![0x04]));
    // Ctrl with a non-letter key sends nothing.
    assert_eq!(terminal_bytes_for_event(&key_event(Key::Enter, ctrl), false), None);
}

#[test]
fn special_keys_send_xterm_sequences() {
    let none = Modifiers::default();
    let shift = Modifiers { shift: true, ..Default::default() };
    assert_eq!(key_to_terminal_bytes(Key::Enter, none, false), Some(vec![0x0d]));
    assert_eq!(key_to_terminal_bytes(Key::Tab, shift, false), Some(b"\x1b[Z".to_vec()));
    assert_eq!(key_to_terminal_bytes(Key::Backspace, none, false), Some(vec![0x7f]));
    assert_eq!(key_to_terminal_bytes(Key::Escape, none, false), Some(vec![0x1b]));
    assert_eq!(key_to_terminal_bytes(Key::ArrowDown, none, false), Some(b"\x1b[B".to_vec()));
    assert_eq!(key_to_terminal_bytes(Key::ArrowRight, none, true), Some(b"\x1bOC".to_vec()));
    assert_eq!(key_to_terminal_bytes(Key::ArrowLeft, none, true), Some(b"\x1bOD".to_vec()));
    assert_eq!(key_to_terminal_bytes(Key::Home, none, true), Some(b"\x1b[H".to_vec()));
    assert_eq!(key_to_terminal_bytes(Key::End, none, false), Some(b"\x1b[F".to_vec()));
    assert_eq!(key_to_terminal_bytes(Key::Insert, none, false), Some(b"\x1b[2~".to_vec()));
    assert_eq!(key_to_terminal_bytes(Key::Delete, none, false), Some(b"\x1b[3~".to_vec()));
    assert_eq!(key_to_terminal_bytes(Key::PageUp, none, false), Some(b"\x1b[5~".to_vec()));
    assert_eq!(key_to_terminal_bytes(Key::PageDown, none, false), Some(b"\x1b[6~".to_vec()));
    assert_eq!(key_to_terminal_bytes(Key::A, none, false), None);
}

#[test]
fn cursor_mode_only_changes_arrow_keys() {
    let none = Modifiers::default();
    for key in [Key::Enter, Key::Home, Key::End, Key::PageUp, Key::Delete] {
        assert_eq!(
            terminal_bytes_for_event(&key_event(key, none), true),
            terminal_bytes_for_event(&key_event(key, none), false)
        );
    }
}

#[test]
fn command_lines_split_at_whitespace() {
    let (cmd, args) = split_cmdline("  codex  --model  gpt\t-q ").unwrap();
    assert_eq!(cmd, "codex");
    assert_eq!(args, vec!["--model".to_string(), "gpt".to_string(), "-q".to_string()]);
    let (cmd, args) = split_cmdline("cmd.exe").unwrap();
    assert_eq!(cmd, "cmd.exe");
    assert!(args.is_empty());
    assert!(split_cmdline("   ").is_none());
    assert!(split_cmdline("").is_none());
}

fn cell(ch: char, style: CellStyle) -> StyledCell {
    StyledCell { ch, style }
}

#[test]
fn terminal_lines_group_into_style_runs() {
    let plain = CellStyle::default();
    let red = CellStyle {
        fg: Some(Rgb { r: 205, g: 49, b: 49 }),
        bg: None,
        text: TextStyle { bold: true, ..Default::default() },
    };
    let line = StyledLine {
        cells: vec![
            cell('a', plain),
            cell('b', plain),
            cell('E', red),
            cell('R', red),
            cell('!', plain),
        ],
    };
    let runs = terminal_runs(&line);
    assert_eq!(runs.len(), 3);
    assert_eq!(runs[0].text, "ab");
    assert_eq!(runs[0].style, plain);
    assert_eq!(runs[1].text, "ER");
    assert_eq!(runs[1].style, red);
    assert_eq!(runs[2].text, "!");
    assert_eq!(runs[2].style, plain);
    let joined: String = runs.iter().map(|r| r.text.as_str()).collect();
    assert_eq!(joined, line.plain_text());
}

#[test]
fn empty_terminal_line_is_one_blank_run() {
    let runs = terminal_runs(&StyledLine { cells: vec![] });
    assert_eq!(runs.len(), 1);
    assert_eq!(runs[0].text, " ");
    assert_eq!(runs[0].style, CellStyle::default());
}

#[test]
fn panel_shortcuts_map_to_shell_actions_and_stay_reserved() {
    let ctrl = Modifiers { ctrl: true, ..Default::default() };
    let ctrl_shift = Modifiers { ctrl: true, shift: true, ..Default::default() };
    assert_eq!(panel_shortcut(Key::N, ctrl), Some(ShellAction::NewPanelDialog));
    assert_eq!(panel_shortcut(Key::W, ctrl), Some(ShellAction::CloseFocusedPanel));
    assert_eq!(panel_shortcut(Key::CloseBracket, ctrl), Some(ShellAction::FocusNext));
    assert_eq!(panel_shortcut(Key::OpenBracket, ctrl), Some(ShellAction::FocusPrev));
    assert_eq!(panel_shortcut(Key::Q, ctrl_shift), Some(ShellAction::Quit));
    assert_eq!(panel_shortcut(Key::Q, ctrl), None);
    assert_eq!(panel_shortcut(Key::N, Modifiers::default()), None);
    assert_eq!(panel_shortcut(Key::C, ctrl), None);
    for key in [Key::N, Key::W, Key::CloseBracket, Key::OpenBracket] {
        assert!(is_reserved_app_shortcut(key, ctrl));
        assert_eq!(terminal_bytes_for_event(&key_event(key, ctrl), false), None);
    }
}
