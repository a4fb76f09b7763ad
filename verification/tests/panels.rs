use vibingide::engine::panel_manager::{
    clamp_panel_size, pty_size_for_panel, rows_per_panel, AgentPanel, PanelManager, PanelStatus,
};
use vibingide::pty::supervisor::PtyEvent;

fn manager() -> PanelManager<&'static str> {
    PanelManager::new(1000, vec!["PATH".to_string()], "/repo".to_string())
}

fn add(pm: &mut PanelManager<&'static str>, cmd: &str, handle: &'static str) -> u32 {
    pm.create_panel(cmd.to_string(), vec![], format!("S{handle}"), (80, 24), handle, Some(42))
}

#[test]
fn new_manager_is_empty() {
    let pm = manager();
    assert!(pm.panels().is_empty());
    assert_eq!(pm.focused_id(), None);
    assert_eq!(pm.next_id(), 0);
    assert_eq!(pm.max_buf_lines(), 1000);
    assert_eq!(pm.env_allowlist(), &vec!["PATH".to_string()]);
    assert_eq!(pm.cwd(), "/repo");
    assert_eq!(pm.live_count(), 0);
}

#[test]
fn created_panels_get_fresh_ids_labels_and_focus() {
    let mut pm = manager();
    let a = add(&mut pm, "codex", "a");
    let b = add(&mut pm, "aider", "b");
    assert_eq!((a, b), (0, 1));
    assert_eq!(pm.focused_id(), Some(1));
    assert_eq!(pm.panels()[0].label, "codex #1");
    assert_eq!(pm.panels()[1].label, "aider #2");
    assert_eq!(pm.panels()[1].status, PanelStatus::Running { pid: 42 });
    assert_eq!(pm.handle(0), Some(&"a"));
    assert_eq!(pm.live_count(), 2);
    assert_eq!(pm.input_target(), Some(1));
}

#[test]
fn focus_cycles_both_ways_and_prev_undoes_next() {
    let mut pm = manager();
    add(&mut pm, "a", "a");
    add(&mut pm, "b", "b");
    add(&mut pm, "c", "c");
    assert_eq!(pm.focused_id(), Some(2));
    pm.focus_next();
    assert_eq!(pm.focused_id(), Some(0));
    pm.focus_prev();
    assert_eq!(pm.focused_id(), Some(2));
    pm.focus_prev();
    assert_eq!(pm.focused_id(), Some(1));
    pm.set_focus(0);
    assert_eq!(pm.focused_panel().map(|p| p.id), Some(0));
    // An unknown id leaves the focus alone.
    pm.set_focus(99);
    assert_eq!(pm.focused_id(), Some(0));
}

#[test]
fn closing_returns_the_handle_and_refocuses_a_live_panel() {
    let mut pm = manager();
    add(&mut pm, "a", "a");
    add(&mut pm, "b", "b");
    assert_eq!(pm.close_panel(1), Some("b"));
    assert_eq!(pm.panel(1).unwrap().status, PanelStatus::Exited { code: -1 });
    assert_eq!(pm.focused_id(), Some(0));
    assert_eq!(pm.handle(1), None);
    assert_eq!(pm.live_count(), 1);
    assert_eq!(pm.close_panel(1), None);
    assert_eq!(pm.close_panel(0), Some("a"));
    assert_eq!(pm.focused_id(), None);
    assert_eq!(pm.close_panel(7), None);
}

#[test]
fn exit_events_mark_panels_exited_or_crashed() {
    let mut pm = manager();
    add(&mut pm, "a", "a");
    add(&mut pm, "b", "b");
    pm.handle_event(PtyEvent::Exited { panel_id: 0, exit_code: Some(3) });
    pm.handle_exit(1, None);
    assert_eq!(pm.panel(0).unwrap().status, PanelStatus::Exited { code: 3 });
    assert_eq!(pm.panel(1).unwrap().status, PanelStatus::Crashed { signal: None });
    assert_eq!(pm.live_count(), 0);
    // The focused panel is no longer running, so input has no target.
    assert_eq!(pm.input_target(), None);
}

#[test]
fn output_events_reach_the_panel_terminal() {
    let mut pm = manager();
    add(&mut pm, "a", "a");
    pm.handle_event(PtyEvent::Output { panel_id: 0, data: b"ready".to_vec() });
    let text = pm.panel(0).unwrap().terminal.lines()[0].plain_text();
    assert!(text.starts_with("ready"));
    // Output for an unknown panel is dropped.
    pm.handle_output(5, b"lost".to_vec());
    assert_eq!(pm.panels().len(), 1);
}

#[test]
fn resizing_a_panel_clamps_its_terminal() {
    let mut pm = manager();
    add(&mut pm, "a", "a");
    assert_eq!(pm.panel(0).unwrap().terminal.size(), (80, 24));
    pm.resize_panel(0, 100, 30);
    assert_eq!(pm.panel(0).unwrap().terminal.size(), (100, 30));
    pm.resize_panel(0, 1, 1);
    assert_eq!(pm.panel(0).unwrap().terminal.size(), (8, 2));
}

#[test]
fn handles_can_be_reached_mutably() {
    let mut pm = manager();
    add(&mut pm, "a", "a");
    if let Some(h) = pm.handle_mut(0) {
        *h = "replaced";
    }
    assert_eq!(pm.handle(0), Some(&"replaced"));
    assert!(pm.handle_mut(3).is_none());
    assert_eq!(pm.handles().len(), 1);
}

#[test]
fn panel_scrolling_stays_within_the_screen() {
    let mut p = AgentPanel::new(
        0,
        "x #1".to_string(),
        "x".to_string(),
        vec![],
        "S".to_string(),
        (80, 10),
        0,
    );
    p.scroll_up(3);
    assert_eq!(p.scroll_pos, 3);
    p.scroll_down(3);
    assert_eq!(p.scroll_pos, 0);
    p.scroll_up(100);
    assert_eq!(p.scroll_pos, 9);
    p.scroll_down(2);
    assert_eq!(p.scroll_pos, 7);
    p.scroll_down(100);
    assert_eq!(p.scroll_pos, 0);
    p.scroll_up(4);
    p.scroll_to_bottom();
    assert_eq!(p.scroll_pos, 0);
}

#[test]
fn sizes_for_new_and_shared_panels() {
    let s = pty_size_for_panel((40, 10));
    assert_eq!((s.cols, s.rows), (80, 24));
    let s = pty_size_for_panel((120, 50));
    assert_eq!((s.cols, s.rows), (120, 50));
    assert_eq!(rows_per_panel(48, 0), 48);
    assert_eq!(rows_per_panel(48, 3), 16);
    assert_eq!(rows_per_panel(5, 4), 2);
    assert_eq!(clamp_panel_size(3, 1), (8, 2));
    assert_eq!(clamp_panel_size(90, 30), (90, 30));
}
