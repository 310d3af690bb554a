use ludusavi_sync::accela::{
    accela_settings_equal, AccelaScreen, AccelaSettings, JsonValue, SettingValue, SettingsTab, Status, ToolKind,
};
use ludusavi_sync::cloud::{Remote, WebDavProvider};
use ludusavi_sync::lang::Translator;
use ludusavi_sync::modal::{Kind, Modal, ModalMessage, ModalVariant, SaveMode};
use ludusavi_sync::prelude::{Error, StrictPath};
use ludusavi_sync::resource::{App, Config};
use ludusavi_sync::scan::{Change, Completeness, Enablement, Uniqueness};
use ludusavi_sync::search::{CustomGamesFilter, Filter, FilterComponent, FilterKind, GameFacts, ManifestSelection};
use ludusavi_sync::shortcuts::TextHistories;

fn histories() -> TextHistories {
    TextHistories::new(&Config {
        backup_path: StrictPath::new(String::new()),
        restore_path: StrictPath::new(String::new()),
        rclone: App { path: StrictPath::new(String::new()), arguments: String::new() },
        cloud_path: String::new(),
        cloud_remote: None,
        roots: vec![],
        secondary_manifests: vec![],
        custom_games: vec![],
        ignored_paths: vec![],
        ignored_registry: vec![],
    })
}

#[test]
fn dialog_kinds() {
    let m = Modal::ConfirmSyncBackup { game: "G".to_string() };
    assert_eq!(m.kind(), Kind::ConfirmSyncBackup);
    assert!(!m.stackable());
    assert_eq!(m.variant(), ModalVariant::Confirm);
    assert!(Modal::Errors { errors: vec![] }.stackable());
    assert_eq!(Modal::Exiting.variant(), ModalVariant::Loading);
    assert_eq!(Modal::ActiveScanGames.variant(), ModalVariant::Info);
}

#[test]
fn dialog_texts() {
    let t = Translator {};
    assert_eq!(
        Modal::ConfirmSyncBackup { game: "G".to_string() }.text(&t),
        "Back up saves for \"G\"?\n\nThis will overwrite the existing backup with the current save files."
    );
    assert_eq!(
        Modal::Errors { errors: vec![Error::RegistryIssue, Error::CloudPathInvalid] }.text(&t),
        "Error: Some registry entries were skipped.\n\nCloud backups are disabled because the backup path is invalid."
    );
    assert_eq!(Modal::Exiting.text(&t), "Cancelling...");
    assert_eq!(Modal::ActiveScanGames.text(&t), "");
    assert_eq!(
        Modal::ConfirmSyncModeChange {
            game: "G".to_string(),
            warning: "careful".to_string(),
            previous_mode: SaveMode::Local
        }
        .text(&t),
        "careful"
    );
}

#[test]
fn dialog_messages() {
    let mut h = histories();
    assert!(matches!(Modal::NoMissingRoots.message(&h, 1700000000), Some(ModalMessage::CloseModal)));
    assert!(Modal::Exiting.message(&h, 1700000000).is_none());
    assert!(matches!(
        Modal::ConfirmRemoveCustomGame { game: "G".to_string() }.message(&h, 1700000000),
        Some(ModalMessage::RemoveCustomGameConfirm(g)) if g == "G"
    ));
    // The FTP dialog needs a host, a user name and a numeric port.
    assert!(Modal::ConfigureFtpRemote.message(&h, 1700000000).is_none());
    h.modal.host.push("ftp.example.com");
    h.modal.username.push("me");
    h.modal.port.push("abc");
    assert!(Modal::ConfigureFtpRemote.message(&h, 1700000000).is_none());
    h.modal.port.push("2121");
    h.modal.password.push("pw");
    match Modal::ConfigureFtpRemote.message(&h, 1700000000) {
        Some(ModalMessage::FinalizeRemote(Remote::Ftp { id, host, port, username, password })) => {
            assert_eq!(id, "ludusavi-1700000000");
            assert_eq!((host.as_str(), port, username.as_str(), password.as_str()), ("ftp.example.com", 2121, "me", "pw"));
        }
        other => panic!("{other:?}"),
    }
    assert!(Modal::ConfigureWebDavRemote { provider: WebDavProvider::Nextcloud }.message(&h, 1700000000).is_none());
    h.modal.url.push("https://dav");
    match (Modal::ConfigureWebDavRemote { provider: WebDavProvider::Nextcloud }).message(&h, 1700000000) {
        Some(ModalMessage::FinalizeRemote(Remote::WebDav { url, provider, .. })) => {
            assert_eq!(url, "https://dav");
            assert_eq!(provider, WebDavProvider::Nextcloud);
        }
        other => panic!("{other:?}"),
    }
}

fn component() -> FilterComponent {
    FilterComponent {
        show: true,
        game_name: String::new(),
        uniqueness: Filter::new(Uniqueness::Duplicate),
        completeness: Filter::new(Completeness::Complete),
        enablement: Filter::new(Enablement::Enabled),
        change: Filter::new(Change::New),
        manifest: Filter::new(ManifestSelection { source: "Primary manifest".to_string() }),
    }
}

fn facts(name: &str) -> GameFacts {
    GameFacts {
        game_name: name.to_string(),
        unique: true,
        complete: true,
        enabled: false,
        change: Change::Updated,
        in_selected_manifest: true,
    }
}

#[test]
fn search_filters() {
    let mut c = component();
    assert!(c.qualifies(&facts("Half-Life"), true));
    c.game_name = "hl".to_string();
    assert!(c.qualifies(&facts("Half-Life"), true));
    c.game_name = "xyz".to_string();
    assert!(!c.qualifies(&facts("Half-Life"), true));
    c.game_name = "HALF".to_string();
    assert!(c.qualifies(&facts("half-life"), true));
    c.toggle_filter(FilterKind::Uniqueness, true);
    assert!(c.uniqueness.active());
    assert!(!c.qualifies(&facts("Half-Life"), true));
    c.toggle_filter(FilterKind::Uniqueness, false);
    c.toggle_filter(FilterKind::Enablement, true);
    assert!(!c.qualifies(&facts("Half-Life"), true));
    assert!(c.qualifies(&facts("Half-Life"), false));
    c.reset();
    assert_eq!(c.game_name, "");
    assert!(!c.enablement.active());
    c.show = false;
    c.toggle_filter(FilterKind::Change, true);
    assert!(c.qualifies(&facts("anything"), true));
    let mut g = CustomGamesFilter { enabled: true, name: "x".to_string() };
    g.reset();
    assert_eq!(g.name, "");
    assert!(g.enabled);
}

fn settings() -> AccelaSettings {
    AccelaSettings {
        library_mode: false,
        auto_skip_single_choice: false,
        max_downloads: 4,
        generate_achievements: false,
        use_steamless: false,
        auto_apply_goldberg: false,
        create_application_shortcuts: false,
        morrenus_api_key: "key".to_string(),
        sgdb_api_key: String::new(),
        slssteam_mode: false,
        sls_config_management: false,
        prompt_steam_restart: false,
        block_steam_updates: false,
    }
}

fn screen() -> AccelaScreen {
    AccelaScreen {
        accela_path: String::new(),
        python_path: String::new(),
        query: String::new(),
        results: vec![],
        status: Status::Idle,
        last_click: None,
        settings: Some(settings()),
        settings_saved: Some(settings()),
        settings_tab: SettingsTab::Downloads,
        api_key_visible: false,
        sgdb_key_visible: false,
        tool_busy: None,
        tool_message: None,
    }
}

#[test]
fn accela_settings_changes() {
    assert_eq!(SettingsTab::Integrations.label(), "Integrations");
    assert_eq!(ToolKind::RunSteamless("x.exe".to_string()).key(), "run_steamless");
    let mut s = screen();
    assert!(!s.settings_dirty());
    assert!(s.pending_changes().is_empty());
    s.update_setting("max_downloads", SettingValue::Int(1000));
    assert_eq!(s.settings.as_ref().unwrap().max_downloads, 255);
    s.update_setting("max_downloads", SettingValue::Int(-3));
    assert_eq!(s.settings.as_ref().unwrap().max_downloads, 0);
    s.update_setting("block_steam_updates", SettingValue::Bool(true));
    s.update_setting("sgdb_api_key", SettingValue::Str("abc".to_string()));
    s.update_setting("library_mode", SettingValue::Int(1));
    s.update_setting("unknown", SettingValue::Bool(true));
    assert!(s.settings_dirty());
    let changes = s.pending_changes();
    let keys: Vec<&str> = changes.iter().map(|c| c.key.as_str()).collect();
    assert_eq!(keys, vec!["max_downloads", "sgdb_api_key", "block_steam_updates"]);
    assert_eq!(changes[0].value, JsonValue::Number(0));
    assert_eq!(changes[1].value, JsonValue::Text("abc".to_string()));
    assert_eq!(changes[2].side_effect, Some(true));
    assert!(!accela_settings_equal(s.settings.as_ref().unwrap(), s.settings_saved.as_ref().unwrap()));
}

#[test]
fn accela_double_click() {
    let mut s = screen();
    assert!(!s.register_click("10"));
    assert!(s.register_click("10"));
    assert!(s.last_click.is_none());
    assert!(!s.register_click("10"));
    assert!(!s.register_click("20"));
    assert_eq!(s.last_click.as_ref().unwrap().0, "20");
}
