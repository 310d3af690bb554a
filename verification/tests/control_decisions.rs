use ludusavi_sync::common::{GameSelection, Operation};
use ludusavi_sync::control::{AppState, BackupStart, Effect, GameSyncConfig, RestoreStart};
use ludusavi_sync::modal::{Kind, Modal, ModalStack, SaveMode};
use ludusavi_sync::prelude::{Error, Finality};
use ludusavi_sync::steps::StepQueue;
use ludusavi_sync::cloud::WebDavProvider;
use ludusavi_sync::control::edit_modal_field;
use ludusavi_sync::modal::ModalField;
use ludusavi_sync::prelude::StrictPath;
use ludusavi_sync::resource::{App, Config};
use ludusavi_sync::shortcuts::TextHistories;

fn state() -> AppState {
    AppState {
        operation: Operation::Idle,
        modals: ModalStack::new(),
        exiting: false,
        steps: StepQueue::new(),
        sync_games: vec![("Celeste".to_string(), GameSyncConfig { mode: SaveMode::Cloud, auto_sync: true })],
        pending_game_detail_name: None,
        pending_game_detail: None,
        timed_notification: None,
        jump_to_game_after_scan: None,
        sync_in_progress: None,
    }
}

fn top_kind(s: &AppState) -> Option<Kind> {
    s.modals.top().map(|m| m.kind())
}

#[test]
fn exit_when_idle_leaves_at_once() {
    let mut s = state();
    assert_eq!(s.exit(false), vec![Effect::Exit]);
    assert!(!s.exiting);
}

#[test]
fn exit_during_operation_cancels_first() {
    let mut s = state();
    s.operation = Operation::new_backup(Finality::Final, None);
    assert_eq!(s.exit(false), vec![Effect::CancelOperation]);
    assert!(s.exiting);
    assert_eq!(top_kind(&s), Some(Kind::Exiting));
    match &s.operation {
        Operation::Backup { cancelling, .. } => assert!(*cancelling),
        Operation::Idle => panic!("still running"),
    }
    // The user asks again: now the program leaves.
    assert_eq!(s.exit(true), vec![Effect::Exit]);
    // Ending the operation while exiting leaves too.
    assert_eq!(s.go_idle(), Some(Effect::Exit));
}

#[test]
fn enabling_sync_sets_sync_mode() {
    let mut s = state();
    assert_eq!(s.enable_cloud_sync("Hades".to_string()), vec![Effect::SaveSyncConfig]);
    assert_eq!(s.sync_games[1], ("Hades".to_string(), GameSyncConfig { mode: SaveMode::Sync, auto_sync: true }));
    assert_eq!(s.timed_notification.as_ref().unwrap().text, "\u{2713} Sync enabled");
    s.enable_cloud_sync("Celeste".to_string());
    assert_eq!(s.sync_games.len(), 2);
    assert_eq!(s.sync_games[0].1, GameSyncConfig { mode: SaveMode::Sync, auto_sync: true });
}

#[test]
fn destructive_mode_change_asks_first() {
    let mut s = state();
    s.set_game_save_mode("Celeste".to_string(), SaveMode::Local);
    assert_eq!(s.pending_game_detail, Some(GameSyncConfig { mode: SaveMode::Local, auto_sync: true }));
    assert!(s.save_game_detail().is_empty());
    match s.modals.top() {
        Some(Modal::ConfirmSyncModeChange { game, warning, previous_mode }) => {
            assert_eq!(game, "Celeste");
            assert_eq!(
                warning,
                "Switch \"Celeste\" to Local mode?\n\nThe cloud backup will be deleted. This cannot be undone."
            );
            assert_eq!(*previous_mode, SaveMode::Cloud);
        }
        _ => panic!("no confirmation"),
    }
    assert_eq!(s.sync_games[0].1.mode, SaveMode::Cloud);
    let effects = s.confirm_sync_mode_change("Celeste".to_string(), SaveMode::Cloud);
    assert_eq!(effects, vec![Effect::SaveSyncConfig, Effect::DeleteCloudBackup("Celeste".to_string())]);
    assert_eq!(s.sync_games[0].1.mode, SaveMode::Local);
    assert!(s.pending_game_detail.is_none());
    assert!(s.modals.is_empty());
}

#[test]
fn unmanaging_a_game_warns_of_both_backups() {
    let mut s = state();
    s.set_game_save_mode("Celeste".to_string(), SaveMode::Unmanaged);
    s.save_game_detail();
    match s.modals.top() {
        Some(Modal::ConfirmSyncModeChange { warning, .. }) => assert_eq!(
            warning,
            "Set \"Celeste\" to None?\n\nThe cloud backup and local backup will be deleted. This cannot be undone."
        ),
        _ => panic!("no confirmation"),
    }
}

#[test]
fn harmless_mode_change_saves_at_once() {
    let mut s = state();
    s.set_game_auto_sync("Hades".to_string(), true);
    assert_eq!(s.pending_game_detail, Some(GameSyncConfig { mode: SaveMode::Unmanaged, auto_sync: true }));
    s.set_game_save_mode("Hades".to_string(), SaveMode::Cloud);
    assert_eq!(s.save_game_detail(), vec![Effect::SaveSyncConfig]);
    assert_eq!(s.sync_games[1], ("Hades".to_string(), GameSyncConfig { mode: SaveMode::Cloud, auto_sync: true }));
    assert!(s.modals.is_empty());
    assert!(s.save_game_detail().is_empty());
}

#[test]
fn only_one_operation_at_a_time() {
    let mut s = state();
    let r = s.start_backup(true, false, true, Some(GameSelection::single("Celeste".to_string())), false, vec![]);
    assert_eq!(r, BackupStart::Started { clear_log: false, switch_to_backup: false, prepare_target: false });
    assert_eq!(s.jump_to_game_after_scan, Some("Celeste".to_string()));
    assert!(s.operation.preview());
    assert_eq!(s.start_backup(false, true, false, None, false, vec![]), BackupStart::Ignored);
    assert!(matches!(s.start_restore(false, "/r".to_string(), None, false, vec![]), RestoreStart::Ignored));
}

#[test]
fn filtered_backup_covers_visible_games() {
    let mut s = state();
    let r = s.start_backup(false, true, false, None, true, vec!["A".to_string(), "B".to_string(), "A".to_string()]);
    assert_eq!(r, BackupStart::Started { clear_log: false, switch_to_backup: true, prepare_target: true });
    assert_eq!(
        s.operation.games().unwrap().iter(),
        vec!["A".to_string(), "B".to_string()]
    );
    assert_eq!(s.operation.should_force_new_full_backups(), true);
    assert_eq!(s.abort_start(Error::CannotPrepareBackupTarget { path: "/b".to_string() }), None);
    assert!(s.operation.idle());
    assert_eq!(top_kind(&s), Some(Kind::Error));
}

#[test]
fn restore_from_missing_folder_shows_error() {
    let mut s = state();
    assert!(matches!(s.start_restore(false, "/nowhere".to_string(), None, false, vec![]), RestoreStart::ShowedError));
    match s.modals.top() {
        Some(Modal::Error { variant: Error::RestorationSourceInvalid { path } }) => assert_eq!(path, "/nowhere"),
        _ => panic!("no error shown"),
    }
    assert!(s.operation.idle());
    match s.start_restore(true, "/r".to_string(), None, false, vec![]) {
        RestoreStart::Proceed { games, clear_log } => {
            assert!(games.is_none());
            assert!(clear_log);
        }
        _ => panic!("restore did not proceed"),
    }
}

#[test]
fn cancelling_drops_waiting_steps() {
    let mut s = state();
    s.operation = Operation::new_backup(Finality::Final, None);
    s.steps.start(vec!["a".to_string(), "b".to_string()]);
    assert_eq!(s.cancel_operation(), Effect::CancelOperation);
    assert_eq!(s.steps.active(), 0);
    s.exiting = false;
    assert_eq!(s.go_idle(), None);
    assert!(s.operation.idle());
}

#[test]
fn modal_field_edits() {
    let mut h = TextHistories::new(&Config {
        backup_path: StrictPath::new(String::new()),
        restore_path: StrictPath::new(String::new()),
        rclone: App { path: StrictPath::new(String::new()), arguments: String::new() },
        cloud_path: "saves".to_string(),
        cloud_remote: None,
        roots: vec![],
        secondary_manifests: vec![],
        custom_games: vec![],
        ignored_paths: vec![],
        ignored_registry: vec![],
    });
    let mut modals = ModalStack::new();
    edit_modal_field(&mut h, &mut modals, ModalField::Host("example.com".to_string()));
    assert_eq!(h.modal.host.current(), "example.com");
    assert_eq!(h.modal.url.current(), "");
    assert_eq!(h.cloud_path.current(), "saves");
    edit_modal_field(&mut h, &mut modals, ModalField::WebDavProvider(WebDavProvider::Nextcloud));
    assert!(modals.is_empty());
    modals.show_modal(Modal::ConfigureWebDavRemote { provider: WebDavProvider::Other });
    edit_modal_field(&mut h, &mut modals, ModalField::WebDavProvider(WebDavProvider::Nextcloud));
    match modals.top() {
        Some(Modal::ConfigureWebDavRemote { provider }) => assert_eq!(*provider, WebDavProvider::Nextcloud),
        _ => panic!("dialog lost"),
    }
}

#[test]
fn one_game_sync_requests() {
    let mut s = state();
    s.request_sync_backup("Celeste".to_string());
    assert_eq!(top_kind(&s), Some(Kind::ConfirmSyncBackup));
    assert_eq!(s.sync_backup_game("Celeste".to_string()), Effect::BackUpGame("Celeste".to_string()));
    assert!(s.modals.is_empty());
    assert_eq!(s.sync_in_progress.as_deref(), Some("\u{23f3} Backing up..."));
    s.request_sync_restore("Celeste".to_string());
    assert_eq!(s.sync_restore_game("Celeste".to_string()), Effect::RestoreGame("Celeste".to_string()));
    assert_eq!(s.sync_in_progress.as_deref(), Some("\u{23f3} Restoring..."));
    s.show_timed_notification("\u{2713} Restore completed".to_string());
    assert!(s.sync_in_progress.is_none());
    assert_eq!(s.timed_notification.as_ref().unwrap().text, "\u{2713} Restore completed");
}
