use aerolithdb::tui_app::{
    AlertLevel, App, KeyCode, KeyInput, NodeState, TestResultStatus, alert_level_label, node_state_label, test_result_label,
};
use aerolithdb::tui_classic::{NavKey, Tab, navigate};

fn key(code: KeyCode) -> KeyInput {
    KeyInput { code, ctrl: false }
}

fn type_text(app: &mut App, text: &str) {
    for c in text.chars() {
        app.handle_key_event(key(KeyCode::Char(c)));
    }
}

#[test]
fn tab_then_back_tab_returns() {
    let mut app = App::new();
    let start = app.current_tab;
    app.handle_key_event(key(KeyCode::Tab));
    assert_eq!(app.current_tab, (start + 1) % app.tabs.len());
    app.handle_key_event(key(KeyCode::BackTab));
    assert_eq!(app.current_tab, start);
    for _ in 0..app.tabs.len() {
        app.handle_key_event(key(KeyCode::Tab));
    }
    assert_eq!(app.current_tab, start);
}

#[test]
fn ctrl_q_quits_and_stays_quit() {
    let mut app = App::new();
    app.handle_key_event(KeyInput { code: KeyCode::Char('q'), ctrl: true });
    assert!(app.should_quit);
    app.handle_key_event(key(KeyCode::Tab));
    assert!(app.should_quit);
}

#[test]
fn escape_clears_messages() {
    let mut app = App::new();
    app.set_error("bad".to_string());
    app.set_status("ok".to_string());
    app.handle_key_event(key(KeyCode::Esc));
    assert_eq!(app.error_message, None);
    assert_eq!(app.status_message, None);
}

#[test]
fn console_records_commands_and_history() {
    let mut app = App::new();
    while app.current_tab_name() != "Console" {
        app.handle_key_event(key(KeyCode::Tab));
    }
    type_text(&mut app, "  status ");
    app.handle_key_event(key(KeyCode::Enter));
    assert_eq!(app.console.history.last().map(|s| s.as_str()), Some("status"));
    assert!(app.console.output.iter().any(|l| l == "> status"));
    assert!(app.console.output.iter().any(|l| l == "System Status: Online"));
    assert_eq!(app.console.input, "");
    type_text(&mut app, "bogus");
    app.handle_key_event(key(KeyCode::Enter));
    assert!(app.console.output.iter().any(|l| l == "Unknown command: bogus"));
    app.handle_key_event(key(KeyCode::Up));
    assert_eq!(app.console.input, "bogus");
    app.handle_key_event(key(KeyCode::Up));
    assert_eq!(app.console.input, "status");
    app.handle_key_event(key(KeyCode::Down));
    assert_eq!(app.console.input, "bogus");
    app.console.input.clear();
    type_text(&mut app, "clear");
    app.handle_key_event(key(KeyCode::Enter));
    assert!(app.console.output.is_empty());
}

#[test]
fn global_keys_win_over_typing() {
    let mut app = App::new();
    while app.current_tab_name() != "Console" {
        app.handle_key_event(key(KeyCode::Tab));
    }
    type_text(&mut app, "help");
    assert_eq!(app.console.input, "elp");
    type_text(&mut app, "q");
    assert!(app.should_quit);
}

#[test]
fn classic_tabs() {
    assert_eq!(Tab::from_index(0).name(), Tab::Dashboard.name());
    let (i, q) = navigate(0, false, NavKey::NextTab);
    assert_eq!((i, q), (1, false));
    let (i, _) = navigate(0, false, NavKey::PreviousTab);
    assert_eq!(Tab::from_index(i).index(), i);
    let (_, q) = navigate(0, false, NavKey::Quit);
    assert!(q);
}

#[test]
fn display_labels() {
    assert_eq!(alert_level_label(AlertLevel::Warning), "WARN");
    assert_eq!(alert_level_label(AlertLevel::Critical), "CRITICAL");
    assert_eq!(test_result_label(TestResultStatus::Passed), "PASSED");
    assert_eq!(test_result_label(TestResultStatus::Skipped), "SKIPPED");
    assert_eq!(node_state_label(&NodeState::Error("disk".to_string())), "Error: disk");
    assert_eq!(node_state_label(&NodeState::Running), "Running");
}
