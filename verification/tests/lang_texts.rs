use ludusavi_sync::lang::{MissingRoot, Translator};
use ludusavi_sync::prelude::{CommandError, Error};
use ludusavi_sync::resource::{BackupFormat, CustomGameKind, SortKey, Store, Theme, ZipCompression};
use ludusavi_sync::scan::{Change, Completeness, Enablement, OperationStatus, Uniqueness};

fn t() -> Translator {
    Translator {}
}

#[test]
fn plain_labels() {
    assert_eq!(t().app_name(), "Ludusavi");
    assert_eq!(t().backup_button(), "Back up");
    assert_eq!(t().restore_button(), "Restore");
    assert_eq!(t().cancel_button(), "Cancel");
    assert_eq!(t().cancelling_button(), "Cancelling...");
    assert_eq!(t().pcgamingwiki(), "PCGamingWiki");
    assert_eq!(t().total_games(), "Games");
    assert_eq!(t().custom_game_name_placeholder(), "Name");
    assert_eq!(
        t().backups_are_invalid(),
        "These games' backups appear to be invalid.\nDo you want to create new full backups for these games?"
    );
}

#[test]
fn field_and_badge_labels() {
    assert_eq!(t().field("Abc"), "Abc:");
    assert_eq!(t().field_theme(), "Theme:");
    assert_eq!(t().manifest_label(), "Manifest:");
    assert_eq!(t().rclone_label(), "Rclone:");
    assert_eq!(t().backup_field(), "Backup:");
    assert_eq!(t().original_name_field(), "Original name:");
    assert_eq!(t().label_failed(), "[FAILED]");
    assert_eq!(t().label_duplicates(), "[DUPLICATES]");
    assert_eq!(t().label_duplicated(), "[DUPLICATED]");
    assert_eq!(t().label_ignored(), "[IGNORED]");
}

#[test]
fn composed_buttons() {
    assert_eq!(t().backup_button_no_confirmation(), "Back up (no confirmation)");
    assert_eq!(t().restore_button_no_confirmation(), "Restore (no confirmation)");
    assert_eq!(t().override_max_threads(), "Override max threads (restart required)");
    assert_eq!(t().get_rclone_button(), "Get Rclone");
}

#[test]
fn title_case_labels() {
    assert_eq!(t().custom_games_label(), "Custom games");
    assert_eq!(t().filter_uniqueness(Uniqueness::Duplicate), "Duplicated");
    assert_eq!(t().filter_uniqueness(Uniqueness::Unique), "Unique");
}

#[test]
fn window_title_with_and_without_variant() {
    assert_eq!(t().window_title("1.2.3", None), "Ludusavi v1.2.3");
    assert_eq!(t().window_title("1.2.3", Some("portable")), "Ludusavi v1.2.3 (portable)");
}

#[test]
fn one_argument_templates() {
    assert_eq!(t().prefix_error("boom"), "Error: boom");
    assert_eq!(t().prefix_warning("careful"), "Warning: careful");
    assert_eq!(t().badge_redirected_from("/a"), "FROM: /a");
    assert_eq!(t().badge_redirecting_to("/b"), "TO: /b");
    assert_eq!(
        t().rclone_unavailable(),
        "Cloud backups are disabled because Rclone is not available."
    );
    assert_eq!(t().back_up_one_game_confirm("Celeste"), "Back up save data for Celeste?");
    assert_eq!(t().back_up_one_game_failed("Celeste"), "Failed to back up save data for Celeste");
    assert_eq!(t().restore_one_game_confirm("Celeste"), "Restore save data for Celeste?");
    assert_eq!(t().restore_one_game_failed("Celeste"), "Failed to restore save data for Celeste");
    assert_eq!(
        t().new_version_available("2.0"),
        "An application update is available: 2.0. Would you like to view the release notes?"
    );
    // A value that looks like a placeholder is inserted as it is.
    assert_eq!(t().prefix_error("{$message}"), "Error: {$message}");
}

#[test]
fn manifest_errors() {
    assert_eq!(
        t().manifest_is_invalid("bad yaml", Some("extra")),
        "Error: The manifest file is invalid. (extra)\nbad yaml"
    );
    assert_eq!(t().manifest_is_invalid("bad yaml", None), "Error: The manifest file is invalid.\nbad yaml");
    assert_eq!(
        t().manifest_cannot_be_updated(None),
        "Error: Unable to check for an update to the manifest file. Is your Internet connection down?"
    );
    assert_eq!(t().config_is_invalid("why"), "Error: The config file is invalid.\nwhy");
}

#[test]
fn processed_counts() {
    let done = OperationStatus { total_games: 1, processed_games: 1, total_bytes: 10, processed_bytes: 10 };
    assert_eq!(t().processed_games(&done), "1 game");
    let partial = OperationStatus { total_games: 12, processed_games: 3, total_bytes: 2048, processed_bytes: 100 };
    assert_eq!(t().processed_games(&partial), "3 of 12 games");
    assert_eq!(t().processed_bytes(&done), "10 B");
    assert_eq!(t().processed_bytes(&partial), "100 B of 2.00 KiB");
    assert_eq!(t().processed_subset(100, 7), "7 of 100");
    assert_eq!(t().processed_subset(0, 0), "0 of 0");
}

#[test]
fn enumerated_names() {
    assert_eq!(t().store(&Store::GogGalaxy), "GOG Galaxy");
    assert_eq!(t().store(&Store::Prime), "Prime Gaming");
    assert_eq!(t().wine_prefix(), "Wine prefix");
    assert_eq!(t().sort_key(&SortKey::Size), "Size");
    assert_eq!(t().filter_completeness(Completeness::Partial), "Partial");
    assert_eq!(t().filter_enablement(Enablement::Disabled), "Disabled");
    assert_eq!(t().filter_freshness(Change::Unscanned), "Unscanned");
    assert_eq!(t().backup_format(&BackupFormat::Zip), "Zip");
    assert_eq!(t().backup_compression(&ZipCompression::Uncompressed), "None");
    assert_eq!(t().backup_compression(&ZipCompression::Zstd), "Zstd");
    assert_eq!(t().theme_name(&Theme::Dark), "Dark");
    assert_eq!(t().custom_game_kind(&CustomGameKind::Alias), "Alias");
}

#[test]
fn confirmations() {
    assert_eq!(
        t().confirm_backup("/saves", true, false),
        "Are you sure you want to proceed with the backup? New save data will be merged into the target folder:\n\n/saves"
    );
    assert_eq!(
        t().confirm_backup("/saves", false, true),
        "Are you sure you want to proceed with the backup? The target folder will be created:\n\n/saves\n\nIf you haven't already, consider doing a preview first so that there are no surprises."
    );
    assert_eq!(
        t().confirm_restore("/saves", false),
        "Are you sure you want to proceed with the restoration?\nThis will overwrite any current files with the backups from here:\n\n/saves"
    );
    assert_eq!(t().notify_single_game_status(true), "Save data found.");
    assert_eq!(t().notify_single_game_status(false), "No save data found.");
}

#[test]
fn missing_roots_listing() {
    let roots = vec![
        MissingRoot { store: Store::Steam, path: "/steam".to_string(), lutris_database: None },
        MissingRoot {
            store: Store::Lutris,
            path: "/lutris".to_string(),
            lutris_database: Some("/db.sqlite".to_string()),
        },
        MissingRoot { store: Store::Gog, path: "/gog".to_string(), lutris_database: Some("/ignored".to_string()) },
    ];
    assert_eq!(
        t().confirm_add_missing_roots(&roots),
        "Add these roots?\n\n[Steam] /steam \n[Lutris] /lutris  + /db.sqlite\n[GOG] /gog "
    );
}

#[test]
fn error_messages() {
    assert_eq!(t().handle_error(&Error::NoSaveDataFound), "No save data found.");
    assert_eq!(
        t().handle_error(&Error::CloudConflict),
        "Error: Your local and cloud backups are in conflict. Perform an upload or download to resolve this."
    );
    assert_eq!(
        t().handle_error(&Error::GameDidNotLaunch { why: "no exe".to_string() }),
        "Game failed to launch.\n\nError: no exe"
    );
    assert_eq!(
        t().handle_error(&Error::UnableToOpenDir("/x".to_string())),
        "Error: Unable to open directory:\n\n/x"
    );
    assert_eq!(
        t().handle_error(&Error::CannotPrepareBackupTarget { path: "/t".to_string() }),
        "Error: Unable to prepare backup target (either creating or emptying the folder). If you have the folder open in your file browser, try closing it: /t"
    );
}

#[test]
fn command_error_messages() {
    let launched = CommandError::Launched { command: "rclone ls".to_string(), raw: "not found".to_string() };
    assert_eq!(
        t().handle_error(&Error::UnableToConfigureCloud(launched)),
        "Error: Unable to configure cloud.\n\nCommand did not launch: rclone ls\n\nnot found"
    );
    let terminated = CommandError::Terminated { command: "rclone ls".to_string() };
    assert_eq!(
        t().handle_error(&Error::UnableToConfigureCloud(terminated)),
        "Error: Unable to configure cloud.\n\nCommand terminated abruptly: rclone ls"
    );
    let exited = CommandError::Exited {
        command: "rclone ls".to_string(),
        code: -2,
        stdout: Some("out".to_string()),
        stderr: None,
    };
    assert_eq!(
        t().handle_error(&Error::UnableToConfigureCloud(exited)),
        "Error: Unable to configure cloud.\n\nCommand failed with code -2: rclone ls\n\nout"
    );
    // The code is filled in after the command, so a command that holds the code's
    // placeholder gets the code there too.
    let odd = CommandError::Exited {
        command: "echo {$code}".to_string(),
        code: 3,
        stdout: None,
        stderr: Some("err".to_string()),
    };
    assert_eq!(
        t().handle_error(&Error::UnableToConfigureCloud(odd)),
        "Error: Unable to configure cloud.\n\nCommand failed with code 3: echo 3\n\nerr"
    );
}
