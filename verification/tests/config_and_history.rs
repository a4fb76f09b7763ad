use vibingide::config::{merge, AppConfig, ConfigError};
use vibingide::engine::session_manager::SessionManager;
use vibingide::history::event::HistoryEvent;
use vibingide::history::store::{
    ndjson_lines, session_file_name, valid_session_id, IndexFile, SessionMeta, SessionStatus,
    SessionStore, StoreError,
};

#[test]
fn default_config_has_documented_values_and_is_valid() {
    let c = AppConfig::default();
    assert_eq!(c.ui.theme, "dark");
    assert_eq!(c.ui.left_panel_width_pct, 25);
    assert_eq!(c.ui.output_buffer_lines, 10_000);
    assert_eq!(c.ui.scroll_speed, 3);
    assert!(c.ui.show_panel_borders);
    assert!(c.ui.show_status_bar);
    assert_eq!(c.keybinds.new_panel, "ctrl+shift+n");
    assert_eq!(c.keybinds.next_panel, "ctrl+]");
    assert_eq!(c.keybinds.scroll_down, "ctrl+d");
    assert_eq!(c.history.max_sessions_per_project, 500);
    assert_eq!(c.history.auto_archive_after_days, 30);
    assert!(!c.history.store_raw_ansi);
    assert_eq!(c.security.child_env_allowlist.len(), 32);
    assert_eq!(c.security.child_env_allowlist[0], "PATH");
    assert!(c.security.child_env_allowlist.contains(&"ProgramFiles(x86)".to_string()));
    assert_eq!(c.validate(), Ok(()));
}

#[test]
fn validation_rejects_each_bad_field() {
    let mut c = AppConfig::default();
    c.ui.left_panel_width_pct = 9;
    assert_eq!(c.validate(), Err(ConfigError::LeftPanelWidthOutOfRange));
    c.ui.left_panel_width_pct = 51;
    assert_eq!(c.validate(), Err(ConfigError::LeftPanelWidthOutOfRange));
    c.ui.left_panel_width_pct = 50;
    c.ui.output_buffer_lines = 99;
    assert_eq!(c.validate(), Err(ConfigError::OutputBufferLinesOutOfRange));
    c.ui.output_buffer_lines = 100_001;
    assert_eq!(c.validate(), Err(ConfigError::OutputBufferLinesOutOfRange));
    c.ui.output_buffer_lines = 100;
    c.security.child_env_allowlist = vec!["OK_1".into(), "BAD;rm".into(), "ALSO BAD".into()];
    assert_eq!(
        c.validate(),
        Err(ConfigError::InvalidEnvAllowlistEntry("BAD;rm".to_string()))
    );
    c.security.child_env_allowlist = vec!["HOME".into(), "X(y)".into()];
    assert_eq!(c.validate(), Ok(()));
}

#[test]
fn project_config_replaces_global_config() {
    let mut global = AppConfig::default();
    global.ui.theme = "light".into();
    let mut project = AppConfig::default();
    project.ui.scroll_speed = 7;
    let merged = merge(global.clone(), project.clone());
    assert_eq!(merged.ui.theme, "dark");
    assert_eq!(merged.ui.scroll_speed, 7);

    let loaded = AppConfig::load(Some(global.clone()), Some(project)).unwrap();
    assert_eq!(loaded.ui.scroll_speed, 7);
    assert_eq!(loaded.ui.theme, "dark");

    // Without a project file the global file applies.
    let loaded = AppConfig::load(Some(global), None).unwrap();
    assert_eq!(loaded.ui.theme, "light");
    let mut bad_global = AppConfig::default();
    bad_global.ui.left_panel_width_pct = 60;
    assert_eq!(
        AppConfig::load(Some(bad_global.clone()), None).unwrap_err(),
        ConfigError::LeftPanelWidthOutOfRange
    );
    // An existing project file replaces even an invalid global one.
    assert!(AppConfig::load(Some(bad_global), Some(AppConfig::default())).is_ok());
    let loaded = AppConfig::load(None, None).unwrap();
    assert_eq!(loaded.ui.output_buffer_lines, 10_000);

    let mut bad = AppConfig::default();
    bad.ui.output_buffer_lines = 5;
    assert_eq!(
        AppConfig::load(None, Some(bad)).unwrap_err(),
        ConfigError::OutputBufferLinesOutOfRange
    );
}

#[test]
fn session_ids_and_file_names() {
    assert!(valid_session_id("01HX-abc_9"));
    assert!(valid_session_id(""));
    assert!(!valid_session_id("../etc"));
    assert!(!valid_session_id("a b"));
    assert_eq!(session_file_name("01HXYZ"), Ok("01HXYZ.ndjson".to_string()));
    assert_eq!(
        session_file_name("../x"),
        Err(StoreError::InvalidSessionId("../x".to_string()))
    );
    assert_eq!(
        session_file_name("a/b"),
        Err(StoreError::InvalidSessionId("a/b".to_string()))
    );
}

#[test]
fn new_session_ids_are_ulids() {
    let a = SessionManager::new_session_id();
    let b = SessionManager::new_session_id();
    assert_eq!(a.len(), 26);
    assert!(valid_session_id(&a));
    assert!(a.chars().all(|c| c.is_ascii_digit() || c.is_ascii_uppercase()));
    assert!(!a.contains('I') && !a.contains('L') && !a.contains('O') && !a.contains('U'));
    assert_ne!(a, b);
}

fn meta(id: &str) -> SessionMeta {
    SessionMeta {
        session_id: id.to_string(),
        label: "codex #1".to_string(),
        agent_cmd: "codex".to_string(),
        started_at: "2026-03-27T10:00:00Z".to_string(),
        ended_at: None,
        status: SessionStatus::Active,
        first_input: Some("hi".to_string()),
        message_count: 2,
    }
}

#[test]
fn session_manager_holds_the_index() {
    let m = SessionManager::load("/p/.vibingide", Some(vec![meta("A"), meta("B")]));
    assert_eq!(m.sessions.len(), 2);
    assert_eq!(m.sessions[1].session_id, "B");
    assert_eq!(m.vibide_dir(), "/p/.vibingide");
    let m = SessionManager::load("/q", None);
    assert!(m.sessions.is_empty());
    let d = SessionManager::default();
    assert!(d.sessions.is_empty());
    assert_eq!(d.vibide_dir(), "");
}

#[test]
fn index_written_for_sessions_reads_them_back() {
    let index = IndexFile::for_sessions(vec![meta("A"), meta("B")]);
    assert_eq!(index.version, 1);
    let back = index.into_sessions().unwrap();
    assert_eq!(back.len(), 2);
    assert_eq!(back[0].session_id, "A");
    assert_eq!(back[1].message_count, 2);
}

#[test]
fn index_of_other_version_is_refused() {
    let index = IndexFile { version: 2, sessions: vec![] };
    assert_eq!(index.into_sessions().unwrap_err(), StoreError::UnsupportedIndexVersion(2));
}

#[test]
fn ndjson_payloads_skip_blank_lines() {
    let text = "{\"a\":1}\n\n   \n  {\"b\":2}  \r\n{\"c\":3}";
    assert_eq!(
        ndjson_lines(text),
        vec!["{\"a\":1}".to_string(), "{\"b\":2}".to_string(), "{\"c\":3}".to_string()]
    );
    assert!(ndjson_lines("").is_empty());
    assert!(ndjson_lines("\n\n").is_empty());
}

#[test]
fn store_keeps_its_path() {
    let s = SessionStore::from_path("/p/.vibingide/sessions/A.ndjson".to_string());
    assert_eq!(s.path(), "/p/.vibingide/sessions/A.ndjson");
}

#[test]
fn history_events_carry_their_fields() {
    match HistoryEvent::user_input("ls -la\r\n") {
        HistoryEvent::UserInput { text, ts } => {
            assert_eq!(text, "ls -la");
            assert!(ts > 0);
        }
        other => panic!("unexpected {other:?}"),
    }
    match HistoryEvent::session_start("codex", "codex #1", "/repo") {
        HistoryEvent::SessionStart { agent_cmd, label, cwd, .. } => {
            assert_eq!((agent_cmd.as_str(), label.as_str(), cwd.as_str()), ("codex", "codex #1", "/repo"));
        }
        other => panic!("unexpected {other:?}"),
    }
    match HistoryEvent::agent_output("out\nput") {
        HistoryEvent::AgentOutput { text, .. } => assert_eq!(text, "out\nput"),
        other => panic!("unexpected {other:?}"),
    }
    match HistoryEvent::session_end(Some(1), None) {
        HistoryEvent::SessionEnd { exit_code, signal, .. } => {
            assert_eq!(exit_code, Some(1));
            assert_eq!(signal, None);
        }
        other => panic!("unexpected {other:?}"),
    }
    assert!(HistoryEvent::now_ms() > 1_600_000_000_000);
}

#[test]
fn agent_output_is_stored_without_escape_sequences() {
    let text_of = |raw: &str| match HistoryEvent::agent_output(raw) {
        HistoryEvent::AgentOutput { text, .. } => text,
        other => panic!("unexpected {other:?}"),
    };
    assert_eq!(text_of("\u{1b}[31mred\u{1b}[0m"), "red");
    assert_eq!(text_of("\u{1b}]0;title\u{07}ok"), "ok");
    assert_eq!(text_of("\u{1b}]8;;http://x\u{1b}\\link\u{1b}]8;;\u{1b}\\"), "link");
    assert_eq!(text_of("a\u{1b}Mb\u{1b}[?25l c"), "ab c");
    assert_eq!(text_of("plain\ttext\n"), "plain\ttext\n");
    assert_eq!(text_of("cut\u{1b}[3"), "cut");
}

#[test]
fn events_at_a_given_time_keep_it() {
    match HistoryEvent::session_start_at(42, "sh", "sh #1", "/r") {
        HistoryEvent::SessionStart { ts, agent_cmd, label, cwd } => {
            assert_eq!(ts, 42);
            assert_eq!((agent_cmd.as_str(), label.as_str(), cwd.as_str()), ("sh", "sh #1", "/r"));
        }
        other => panic!("unexpected {other:?}"),
    }
    match HistoryEvent::user_input_at(7, "a\nb\r") {
        HistoryEvent::UserInput { ts, text } => assert_eq!((ts, text.as_str()), (7, "ab")),
        other => panic!("unexpected {other:?}"),
    }
    match HistoryEvent::agent_output_at(8, "\u{1b}[1mx\u{1b}[0m") {
        HistoryEvent::AgentOutput { ts, text } => assert_eq!((ts, text.as_str()), (8, "x")),
        other => panic!("unexpected {other:?}"),
    }
    match HistoryEvent::session_end_at(9, None, Some(15)) {
        HistoryEvent::SessionEnd { ts, exit_code, signal } => {
            assert_eq!((ts, exit_code, signal), (9, None, Some(15)));
        }
        other => panic!("unexpected {other:?}"),
    }
}
