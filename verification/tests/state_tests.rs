use gfm::config::Config;
use gfm::parse::GitService;
use gfm::state::Action;
use gfm::state::App;
use gfm::state::DiffResult;
use gfm::state::Effect;
use gfm::state::Event;
use gfm::state::KeyCode;
use gfm::state::KeyInput;
use gfm::state::route_terminal_input;
use gfm::state::Section;
use gfm::state::TerminalInput;
use gfm::status::GitStatus;
use gfm::theme::Theme;

fn fresh_app() -> App {
    App::new("/repo".to_string(), Config::default(), Theme::default(), true)
}

fn snapshot(staged: &[&str], unstaged: &[&str]) -> GitStatus {
    let svc = GitService::new("/repo".to_string());
    let mut status_text = String::new();
    for path in staged {
        status_text.push_str(&format!("1 M. N... 100644 100644 100644 a b {}\n", path));
    }
    for path in unstaged {
        status_text.push_str(&format!("1 .M N... 100644 100644 100644 a b {}\n", path));
    }
    svc.build_status(None, None, &status_text, None, None)
}

fn key(code: KeyCode) -> KeyInput {
    KeyInput { code, ctrl: false }
}

#[test]
fn new_app_starts_unstaged_and_unselected() {
    let app = fresh_app();
    assert!(app.git_status.is_none());
    assert_eq!(app.selected_index, 0);
    assert_eq!(app.selected_section, Section::Unstaged);
    assert!(!app.should_quit);
    assert!(app.show_preview);
    assert!(!app.show_help);
}

#[test]
fn ctrl_c_always_quits() {
    let app = fresh_app();
    let action = app.handle_key_event(KeyInput { code: KeyCode::Char('c'), ctrl: true });
    assert_eq!(action, Action::Quit);
}

#[test]
fn configured_bindings_map_to_actions() {
    let app = fresh_app();
    assert_eq!(app.handle_key_event(key(KeyCode::Char('q'))), Action::Quit);
    assert_eq!(app.handle_key_event(key(KeyCode::Char('r'))), Action::Refresh);
    assert_eq!(app.handle_key_event(key(KeyCode::Char('p'))), Action::TogglePreview);
    assert_eq!(app.handle_key_event(key(KeyCode::Char('?'))), Action::ToggleHelp);
    assert_eq!(app.handle_key_event(key(KeyCode::Char('s'))), Action::StageUnstage);
    assert_eq!(app.handle_key_event(key(KeyCode::Char('j'))), Action::MoveDown);
    assert_eq!(app.handle_key_event(key(KeyCode::Char('k'))), Action::MoveUp);
    assert_eq!(app.handle_key_event(key(KeyCode::Char('x'))), Action::Noop);
    assert_eq!(app.handle_key_event(key(KeyCode::Up)), Action::MoveUp);
    assert_eq!(app.handle_key_event(key(KeyCode::Down)), Action::MoveDown);
    assert_eq!(app.handle_key_event(key(KeyCode::PageUp)), Action::PageUp);
    assert_eq!(app.handle_key_event(key(KeyCode::PageDown)), Action::PageDown);
    assert_eq!(app.handle_key_event(key(KeyCode::Tab)), Action::SwitchSection);
    assert_eq!(app.handle_key_event(key(KeyCode::Other)), Action::Noop);
}

#[test]
fn escape_closes_help_before_quitting() {
    let mut app = fresh_app();
    assert_eq!(app.handle_key_event(key(KeyCode::Esc)), Action::Quit);
    app.handle_action(Action::ToggleHelp);
    assert!(app.show_help);
    assert_eq!(app.handle_key_event(key(KeyCode::Esc)), Action::ToggleHelp);
}

#[test]
fn file_change_event_maps_to_refresh() {
    let mut app = fresh_app();
    assert_eq!(app.handle_event(Event::FileChange), Action::Refresh);
    assert_eq!(app.handle_event(Event::Tick), Action::Noop);
    assert_eq!(app.handle_event(Event::Resize(80, 24)), Action::Noop);
}

#[test]
fn install_snapshot_clamps_selection() {
    let mut app = fresh_app();
    app.install_snapshot(snapshot(&[], &["a.txt", "b.txt", "c.txt"]));
    app.selected_index = 2;
    // The new snapshot has only one unstaged file: the selection is
    // clamped to the last valid index.
    app.install_snapshot(snapshot(&[], &["a.txt"]));
    assert_eq!(app.selected_index, 0);
    // An empty section leaves index zero ("no selection").
    app.install_snapshot(snapshot(&[], &[]));
    assert_eq!(app.selected_index, 0);
}

#[test]
fn install_snapshot_fetches_selected_diff() {
    let mut app = fresh_app();
    let eff = app.install_snapshot(snapshot(&[], &["a.txt", "b.txt"]));
    match eff {
        Effect::FetchDiff { path, staged } => {
            assert_eq!(path, "a.txt");
            assert!(!staged);
        },
        other => panic!("expected a diff fetch, got {:?}", other),
    }
}

#[test]
fn move_down_at_last_index_changes_nothing() {
    let mut app = fresh_app();
    app.install_snapshot(snapshot(&[], &["a.txt", "b.txt"]));
    app.handle_action(Action::MoveDown);
    assert_eq!(app.selected_index, 1);
    let eff = app.handle_action(Action::MoveDown);
    assert_eq!(app.selected_index, 1);
    assert_eq!(eff, Effect::Idle);
    assert_eq!(app.selected_section, Section::Unstaged);
}

#[test]
fn move_up_at_first_index_changes_nothing() {
    let mut app = fresh_app();
    app.install_snapshot(snapshot(&[], &["a.txt", "b.txt"]));
    let eff = app.handle_action(Action::MoveUp);
    assert_eq!(app.selected_index, 0);
    assert_eq!(eff, Effect::Idle);
}

#[test]
fn page_movements_are_clamped() {
    let paths: Vec<String> = (0..25).map(|i| format!("f{}.txt", i)).collect();
    let refs: Vec<&str> = paths.iter().map(|s| s.as_str()).collect();
    let mut app = fresh_app();
    app.install_snapshot(snapshot(&[], &refs));
    app.handle_action(Action::PageDown);
    assert_eq!(app.selected_index, 10);
    app.handle_action(Action::PageDown);
    assert_eq!(app.selected_index, 20);
    app.handle_action(Action::PageDown);
    assert_eq!(app.selected_index, 24);
    app.handle_action(Action::PageUp);
    assert_eq!(app.selected_index, 14);
    app.handle_action(Action::PageUp);
    app.handle_action(Action::PageUp);
    assert_eq!(app.selected_index, 0);
}

#[test]
fn switch_into_empty_section_is_a_no_op() {
    let mut app = fresh_app();
    app.install_snapshot(snapshot(&[], &["a.txt", "b.txt"]));
    app.handle_action(Action::MoveDown);
    let eff = app.handle_action(Action::SwitchSection);
    assert_eq!(app.selected_section, Section::Unstaged);
    assert_eq!(app.selected_index, 1);
    assert_eq!(eff, Effect::Idle);
}

#[test]
fn switch_into_populated_section_resets_selection() {
    let mut app = fresh_app();
    app.install_snapshot(snapshot(&["s.txt"], &["a.txt", "b.txt"]));
    app.handle_action(Action::MoveDown);
    let eff = app.handle_action(Action::SwitchSection);
    assert_eq!(app.selected_section, Section::Staged);
    assert_eq!(app.selected_index, 0);
    match eff {
        Effect::FetchDiff { path, staged } => {
            assert_eq!(path, "s.txt");
            assert!(staged);
        },
        other => panic!("expected a diff fetch, got {:?}", other),
    }
}

#[test]
fn stage_unstage_requests_the_selected_path() {
    let mut app = fresh_app();
    app.install_snapshot(snapshot(&["s.txt"], &["a.txt"]));
    let eff = app.handle_action(Action::StageUnstage);
    assert_eq!(eff, Effect::Stage { path: "a.txt".to_string() });
    app.handle_action(Action::SwitchSection);
    let eff = app.handle_action(Action::StageUnstage);
    assert_eq!(eff, Effect::Unstage { path: "s.txt".to_string() });
}

#[test]
fn toggles_flip_their_flags() {
    let mut app = fresh_app();
    assert!(app.show_preview);
    app.handle_action(Action::TogglePreview);
    assert!(!app.show_preview);
    app.handle_action(Action::ToggleHelp);
    assert!(app.show_help);
    app.handle_action(Action::Quit);
    assert!(app.should_quit);
}

#[test]
fn matching_diff_result_is_installed() {
    let mut app = fresh_app();
    app.install_snapshot(snapshot(&[], &["a.txt"]));
    let action = app.handle_event(Event::DiffReady(DiffResult {
        path: "a.txt".to_string(),
        staged: false,
        text: "@@ -1 +1 @@".to_string(),
    }));
    assert_eq!(action, Action::Noop);
    assert_eq!(app.diff_content.as_deref(), Some("@@ -1 +1 @@"));
}

#[test]
fn stale_diff_result_is_dropped() {
    let mut app = fresh_app();
    app.install_snapshot(snapshot(&[], &["a.txt"]));
    app.handle_event(Event::DiffReady(DiffResult {
        path: "gone.txt".to_string(),
        staged: false,
        text: "stale".to_string(),
    }));
    assert_eq!(app.diff_content, None);
    app.handle_event(Event::DiffReady(DiffResult {
        path: "a.txt".to_string(),
        staged: true,
        text: "wrong side".to_string(),
    }));
    assert_eq!(app.diff_content, None);
}

#[test]
fn selected_file_path_follows_selection() {
    let mut app = fresh_app();
    assert_eq!(app.get_selected_file_path(), None);
    app.install_snapshot(snapshot(&[], &["a.txt", "b.txt"]));
    assert_eq!(app.get_selected_file_path(), Some("a.txt"));
    app.handle_action(Action::MoveDown);
    assert_eq!(app.get_selected_file_path(), Some("b.txt"));
    app.install_snapshot(snapshot(&[], &[]));
    assert_eq!(app.get_selected_file_path(), None);
}

#[test]
fn only_key_presses_and_resizes_are_routed() {
    let k = KeyInput { code: KeyCode::Char('q'), ctrl: false };
    assert_eq!(
        route_terminal_input(TerminalInput::Key { key: k, press: true }),
        Some(Event::Key(k))
    );
    assert_eq!(route_terminal_input(TerminalInput::Key { key: k, press: false }), None);
    assert_eq!(
        route_terminal_input(TerminalInput::Resize(80, 24)),
        Some(Event::Resize(80, 24))
    );
    assert_eq!(route_terminal_input(TerminalInput::Other), None);
}
