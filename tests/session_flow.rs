use ratifact::popup::{Key, PopupCommand, PopupState};
use ratifact::session::{mask_db_url, Config, Effect, PendingAction, Session};

fn config() -> Config {
    Config {
        scan_paths: vec!["./proj".to_string()],
        excluded_paths: vec![],
        retention_days: 7,
        database_url: "postgres://u:p@localhost/db".to_string(),
        debug_logs_enabled: false,
    }
}

fn session_with(paths: &[&str]) -> Session {
    Session::new(config(), paths.iter().map(|p| p.to_string()).collect())
}

fn type_text(s: &mut Session, t: &str) {
    for c in t.chars() {
        s.handle_key(Key::Char(c));
    }
}

fn info_message(s: &Session) -> String {
    match &s.popup_state {
        PopupState::Info { message } => message.clone(),
        _ => panic!("expected an information dialog"),
    }
}

fn is_credential_prompt(p: &PopupState) -> bool {
    matches!(p, PopupState::Input { title, input } if title == "Enter sudo password" && input.is_empty())
}

#[test]
fn new_session_starts_unscanned() {
    let s = session_with(&["/a"]);
    assert!(s.needs_initial_scan());
    assert!(s.automatic_removal);
    assert_eq!(s.selected, 0);
    assert!(s.popup_state.is_closed());
}

#[test]
fn scan_is_delivered_once_and_reported() {
    let mut s = session_with(&[]);
    let (roots, excluded) = s.trigger_scan().expect("a scan starts");
    assert_eq!(roots, vec!["./proj".to_string()]);
    assert!(excluded.is_empty());
    assert!(s.scanning);
    assert!(matches!(s.popup_state, PopupState::Scanning));
    assert!(s.trigger_scan().is_none());
    assert!(s.scanning);
    let cleanup = s.finish_scan(vec!["./proj/target".to_string()]);
    assert!(!s.scanning);
    assert!(s.scanned);
    assert!(!s.needs_initial_scan());
    assert_eq!(s.artifacts, vec!["./proj/target".to_string()]);
    assert_eq!(info_message(&s), "Scan complete. Found 1 artifacts.");
    assert_eq!(cleanup, Some(7));
}

#[test]
fn second_scan_key_while_scanning_is_noop() {
    let mut s = session_with(&[]);
    assert!(matches!(s.handle_key(Key::Char('s')), Effect::StartScan { .. }));
    s.handle_key(Key::Esc);
    assert!(s.popup_state.is_closed());
    assert!(matches!(s.handle_key(Key::Char('s')), Effect::Nothing));
    assert!(s.scanning);
    assert!(s.popup_state.is_closed());
}

#[test]
fn automatic_removal_off_asks_no_cleanup() {
    let mut s = session_with(&[]);
    s.automatic_removal = false;
    s.trigger_scan();
    assert_eq!(s.finish_scan(vec![]), None);
    assert_eq!(info_message(&s), "Scan complete. Found 0 artifacts.");
}

#[test]
fn retention_cleanup_follows_scan_when_enabled() {
    let mut s = session_with(&["/old/target"]);
    assert!(s.automatic_removal);
    assert_eq!(s.config.retention_days, 7);
    s.trigger_scan();
    assert_eq!(s.finish_scan(vec!["/old/target".to_string()]), Some(7));
}

#[test]
fn finished_scan_keeps_selection_in_range() {
    let mut s = session_with(&["/a", "/b", "/c"]);
    s.selected = 2;
    s.trigger_scan();
    s.finish_scan(vec!["/x".to_string()]);
    assert_eq!(s.selected, 0);
}

#[test]
fn passwordless_failure_prompts_then_password_deletes() {
    let mut s = session_with(&["/a/target", "/b/target"]);
    s.handle_key(Key::Char('d'));
    match s.handle_key(Key::Enter) {
        Effect::TryDelete { path } => assert_eq!(path, "/a/target"),
        _ => panic!("expected a deletion attempt"),
    }
    assert!(matches!(s.popup_state, PopupState::Progress { .. }));
    assert!(matches!(s.finish_delete(false), Effect::Nothing));
    assert!(is_credential_prompt(&s.popup_state));
    assert_eq!(s.pending_action, Some(PendingAction::Delete));
    type_text(&mut s, "hunter2");
    match s.handle_key(Key::Enter) {
        Effect::RetryDelete { path, password } => {
            assert_eq!(path, "/a/target");
            assert_eq!(password, "hunter2");
        }
        _ => panic!("expected a retry with the credential"),
    }
    assert_eq!(s.pending_action, None);
    match s.finish_delete_with_password(true) {
        Effect::ForgetArtifact { path } => assert_eq!(path, "/a/target"),
        _ => panic!("expected the store to forget the artifact"),
    }
    assert_eq!(s.artifacts, vec!["/b/target".to_string()]);
    assert_eq!(info_message(&s), "Artifact deleted successfully.");
}

#[test]
fn password_failure_keeps_artifact() {
    let mut s = session_with(&["/a/target"]);
    s.finish_delete(false);
    type_text(&mut s, "x");
    s.handle_key(Key::Enter);
    assert!(matches!(s.finish_delete_with_password(false), Effect::Nothing));
    assert_eq!(s.artifacts, vec!["/a/target".to_string()]);
    assert_eq!(info_message(&s), "Deletion failed - please check permissions or try again.");
}

#[test]
fn passwordless_success_removes_and_clamps() {
    let mut s = session_with(&["/a", "/b"]);
    s.selected = 1;
    match s.finish_delete(true) {
        Effect::ForgetArtifact { path } => assert_eq!(path, "/b"),
        _ => panic!("expected the store to forget the artifact"),
    }
    assert_eq!(s.artifacts, vec!["/a".to_string()]);
    assert_eq!(s.selected, 0);
    assert_eq!(info_message(&s), "Artifact deleted.");
}

#[test]
fn deleting_from_empty_list_does_nothing() {
    let mut s = session_with(&[]);
    assert!(matches!(s.finish_delete(true), Effect::Nothing));
    assert!(s.artifacts.is_empty());
    assert_eq!(s.selected, 0);
}

#[test]
fn closing_credential_prompt_drops_pending_action() {
    let mut s = session_with(&["/a"]);
    s.finish_delete(false);
    s.handle_key(Key::Esc);
    assert!(s.popup_state.is_closed());
    assert_eq!(s.pending_action, None);
}

#[test]
fn batch_clear_retries_only_failures() {
    let mut s = session_with(&["/a", "/b", "/c"]);
    s.handle_key(Key::Char('D'));
    assert!(matches!(s.popup_state, PopupState::ClearAllConfirmation));
    let paths = match s.handle_key(Key::Char('y')) {
        Effect::TryClearAll { paths } => paths,
        _ => panic!("expected a batch removal"),
    };
    assert_eq!(paths.len(), 3);
    s.finish_clear_all(vec!["/b".to_string()]);
    assert_eq!(s.pending_failed_paths.len(), 1);
    assert_eq!(s.pending_action, Some(PendingAction::ClearAll));
    assert!(is_credential_prompt(&s.popup_state));
    type_text(&mut s, "pw");
    match s.handle_key(Key::Enter) {
        Effect::RetryClearAll { paths, password } => {
            assert_eq!(paths, vec!["/b".to_string()]);
            assert_eq!(password, "pw");
        }
        _ => panic!("expected a retry of the failures"),
    }
    assert!(matches!(s.finish_clear_all_with_password(vec![]), Effect::ForgetAll));
    assert!(s.artifacts.is_empty());
    assert!(s.pending_failed_paths.is_empty());
    assert_eq!(s.pending_action, None);
    assert_eq!(info_message(&s), "All builds cleared successfully.");
}

#[test]
fn batch_retry_partial_failure_keeps_remaining() {
    let mut s = session_with(&["/a", "/b", "/c"]);
    s.clear_all_builds();
    s.finish_clear_all(vec!["/b".to_string(), "/c".to_string()]);
    type_text(&mut s, "pw");
    s.handle_key(Key::Enter);
    assert!(matches!(s.finish_clear_all_with_password(vec!["/c".to_string()]), Effect::Nothing));
    assert_eq!(s.pending_failed_paths, vec!["/c".to_string()]);
    assert_eq!(s.artifacts.len(), 3);
    assert_eq!(info_message(&s), "Some deletions failed - please check permissions.");
    s.clear_all_builds();
    assert!(s.pending_failed_paths.is_empty());
}

#[test]
fn batch_clear_without_failures_clears_all() {
    let mut s = session_with(&["/a", "/b"]);
    s.selected = 1;
    s.clear_all_builds();
    assert!(matches!(s.finish_clear_all(vec![]), Effect::ForgetAll));
    assert!(s.artifacts.is_empty());
    assert_eq!(s.selected, 0);
    assert_eq!(info_message(&s), "All builds cleared.");
}

#[test]
fn exclude_selected_artifact() {
    let mut s = session_with(&["/a", "/b"]);
    s.selected = 1;
    s.handle_key(Key::Char('x'));
    assert!(matches!(s.popup_state, PopupState::ConfirmAction { .. }));
    assert!(matches!(s.handle_key(Key::Enter), Effect::SaveConfig));
    assert_eq!(s.config.excluded_paths, vec!["/b".to_string()]);
    assert_eq!(s.artifacts, vec!["/a".to_string()]);
    assert_eq!(s.selected, 0);
    assert_eq!(info_message(&s), "Path added to exclusion list.");
}

#[test]
fn exclude_ignored_off_artifacts_panel() {
    let mut s = session_with(&["/a"]);
    s.handle_key(Key::Tab);
    s.handle_key(Key::Char('x'));
    assert!(s.popup_state.is_closed());
}

#[test]
fn removing_exclusion_rescans() {
    let mut s = session_with(&[]);
    s.config.excluded_paths = vec!["/keep".to_string(), "/other".to_string()];
    let e = s.confirm_action("remove_excluded:/keep".to_string());
    assert_eq!(s.config.excluded_paths, vec!["/other".to_string()]);
    match e {
        Effect::SaveConfigAndScan { excluded, .. } => assert_eq!(excluded, vec!["/other".to_string()]),
        _ => panic!("expected a save and a rescan"),
    }
    assert!(s.scanning);
    let e = s.confirm_action("remove_excluded:/other".to_string());
    assert!(matches!(e, Effect::SaveConfig));
    assert!(s.config.excluded_paths.is_empty());
    assert_eq!(info_message(&s), "Removed from exclusion list. Rescanning...");
}

#[test]
fn excluded_paths_dialog_to_removal() {
    let mut s = session_with(&[]);
    s.config.excluded_paths = vec!["/keep".to_string()];
    s.apply_command(PopupCommand::OpenExcludedPaths);
    assert!(matches!(s.handle_key(Key::Enter), Effect::Nothing));
    assert!(matches!(s.handle_key(Key::Enter), Effect::SaveConfigAndScan { .. }));
    assert!(s.config.excluded_paths.is_empty());
}

#[test]
fn retention_days_set_only_from_numbers() {
    let mut s = session_with(&[]);
    assert!(matches!(s.set_value("Retention Days".to_string(), "30".to_string()), Effect::SaveConfig));
    assert_eq!(s.config.retention_days, 30);
    s.set_value("Retention Days".to_string(), "thirty".to_string());
    assert_eq!(s.config.retention_days, 30);
    s.set_value("Retention Days".to_string(), "-4".to_string());
    assert_eq!(s.config.retention_days, 30);
}

#[test]
fn retention_input_starts_from_current_value() {
    let mut s = session_with(&[]);
    s.apply_command(PopupCommand::OpenInput { title: "Retention Days".to_string(), initial: String::new() });
    match &s.popup_state {
        PopupState::Input { title, input } => {
            assert_eq!(title, "Retention Days");
            assert_eq!(input, "7");
        }
        _ => panic!("expected an input"),
    }
}

#[test]
fn scan_path_replaces_roots() {
    let mut s = session_with(&[]);
    s.set_value("Scan Path".to_string(), "/srv".to_string());
    assert_eq!(s.config.scan_paths, vec!["/srv".to_string()]);
}

#[test]
fn toggle_removal_asks_before_enabling() {
    let mut s = session_with(&[]);
    s.apply_command(PopupCommand::ToggleRemoval);
    assert!(!s.automatic_removal);
    s.apply_command(PopupCommand::ToggleRemoval);
    match &s.popup_state {
        PopupState::ConfirmAction { action, .. } => assert_eq!(action, "enable_automatic_removal"),
        _ => panic!("expected a confirmation"),
    }
    assert!(!s.automatic_removal);
    s.handle_key(Key::Enter);
    assert!(s.automatic_removal);
    assert_eq!(
        info_message(&s),
        "Automatic removal enabled. Old artifacts will be cleaned up after scans."
    );
}

#[test]
fn settings_dir_browse_lists_root() {
    let mut s = session_with(&[]);
    match s.apply_command(PopupCommand::OpenDirBrowse) {
        Effect::ListDir { path, from, must_be_dir } => {
            assert_eq!(path, "/");
            assert_eq!(from, "/");
            assert!(!must_be_dir);
        }
        _ => panic!("expected a listing"),
    }
    s.show_dir("/".to_string(), vec!["..".to_string(), "home".to_string()]);
    assert!(matches!(s.popup_state, PopupState::DirBrowse { selected: 0, .. }));
}

#[test]
fn navigation_stays_in_range() {
    let mut s = session_with(&["/a", "/b"]);
    s.handle_key(Key::Up);
    assert_eq!(s.selected, 0);
    s.handle_key(Key::Down);
    s.handle_key(Key::Down);
    assert_eq!(s.selected, 1);
    s.handle_key(Key::PageUp);
    assert_eq!(s.selected, 0);
}

#[test]
fn focus_cycles_over_five_panels() {
    let mut s = session_with(&[]);
    for _ in 0..5 {
        s.handle_key(Key::Tab);
    }
    assert_eq!(s.focused_panel, 0);
    s.handle_key(Key::Enter);
    assert!(matches!(s.popup_state, PopupState::ArtifactActions { selected: 0 }));
}

#[test]
fn quit_only_without_dialog() {
    let mut s = session_with(&[]);
    s.handle_key(Key::Char('l'));
    assert!(matches!(s.popup_state, PopupState::Logs));
    s.handle_key(Key::Char('q'));
    assert!(!s.should_quit);
    assert!(matches!(s.popup_state, PopupState::Logs));
    s.handle_key(Key::Esc);
    s.handle_key(Key::Char('q'));
    assert!(s.should_quit);
}

#[test]
fn typing_q_into_a_prompt_does_not_quit() {
    let mut s = session_with(&["/a"]);
    s.finish_delete(false);
    type_text(&mut s, "qq");
    assert!(!s.should_quit);
    match &s.popup_state {
        PopupState::Input { input, .. } => assert_eq!(input, "qq"),
        _ => panic!("prompt should stay open"),
    }
}

#[test]
fn dismissing_info_reads_no_main_key() {
    let mut s = session_with(&[]);
    s.popup_state = PopupState::Info { message: "x".to_string() };
    assert!(matches!(s.handle_key(Key::Char('s')), Effect::Nothing));
    assert!(s.popup_state.is_closed());
    assert!(!s.scanning);
    s.popup_state = PopupState::Info { message: "x".to_string() };
    s.handle_key(Key::Char('D'));
    assert!(s.popup_state.is_closed());
}

#[test]
fn browsing_into_a_directory_reopens_browser() {
    let mut s = session_with(&[]);
    s.show_dir("/srv".to_string(), vec!["..".to_string(), "proj".to_string()]);
    s.handle_key(Key::Down);
    match s.handle_key(Key::Enter) {
        Effect::ListDir { path, from, must_be_dir } => {
            assert_eq!(path, "/srv/proj");
            assert_eq!(from, "/srv");
            assert!(must_be_dir);
        }
        _ => panic!("expected a listing"),
    }
    assert!(s.popup_state.is_closed());
    s.show_dir("/srv/proj".to_string(), vec!["..".to_string()]);
    assert!(matches!(&s.popup_state, PopupState::DirBrowse { path, .. } if path == "/srv/proj"));
}

#[test]
fn retention_update_keeps_other_settings() {
    let mut s = session_with(&[]);
    s.set_value("Retention Days".to_string(), "14".to_string());
    assert_eq!(s.config.retention_days, 14);
    assert_eq!(s.config.database_url, "postgres://u:p@localhost/db");
    assert!(!s.config.debug_logs_enabled);
    assert_eq!(s.config.scan_paths, vec!["./proj".to_string()]);
}

#[test]
fn rebuild_names_selected_artifact() {
    let mut s = session_with(&["/p/target"]);
    match s.handle_key(Key::Char('r')) {
        Effect::Rebuild { path } => assert_eq!(path, "/p/target"),
        _ => panic!("expected a rebuild"),
    }
    assert!(matches!(session_with(&[]).handle_key(Key::Char('r')), Effect::Nothing));
}

#[test]
fn history_keeps_chart_rows_of_listed_artifacts() {
    let mut s = session_with(&["/a", "/c"]);
    s.set_history(
        vec!["p - Rust - 2024-01-01 10:00".to_string()],
        12,
        vec![("/c".to_string(), 30), ("/b".to_string(), 20), ("/a".to_string(), 10)],
    );
    assert_eq!(s.total_builds, 12);
    assert_eq!(s.chart_data, vec![("/c".to_string(), 30), ("/a".to_string(), 10)]);
}

#[test]
fn database_location_is_masked() {
    assert_eq!(mask_db_url("postgres://u:p@localhost/db"), "***:***@localhost/db");
    assert_eq!(mask_db_url("user@host"), "***@host");
    assert_eq!(mask_db_url("sqlite.db"), "configured");
    assert_eq!(mask_db_url("a@b@c"), "***@b@c");
}
