use ludusavi_sync::cloud::Remote;
use ludusavi_sync::prelude::StrictPath;
use ludusavi_sync::resource::{App, Config, CustomGame, Root, Store};
use ludusavi_sync::shortcuts::{RootHistory, Shortcut, TextHistories, TextHistory};

#[test]
fn history_limit_one_keeps_only_latest() {
    let mut h = TextHistory::new("a", 1);
    h.push("b");
    assert_eq!(h.current(), "b");
    assert_eq!(h.undo(), "b");
    h.push("c");
    assert_eq!(h.undo(), "c");
}

#[test]
fn history_undo_then_redo_returns() {
    let mut h = TextHistory::raw("x");
    h.push("y");
    h.push("z");
    assert_eq!(h.undo(), "y");
    assert_eq!(h.redo(), "z");
    assert_eq!(h.redo(), "z");
    h.apply(Shortcut::Undo);
    assert_eq!(h.current(), "y");
    h.apply(Shortcut::Redo);
    assert_eq!(h.current(), "z");
}

#[test]
fn history_clear_and_initialize() {
    let mut h = TextHistory::raw("x");
    h.push("y");
    h.clear();
    assert_eq!(h.current(), "");
    assert_eq!(h.redo(), "");
    h.initialize("fresh".to_string());
    assert_eq!(h.current(), "fresh");
    assert_eq!(h.undo(), "fresh");
    let d = TextHistory::default();
    assert_eq!(d.current(), "");
}

#[test]
fn shortcuts_fill_fields() {
    let mut h = TextHistory::path(&StrictPath::new("/one".to_string()));
    h.push("/two");
    let mut path = StrictPath::new("/two".to_string());
    Shortcut::Undo.apply_to_strict_path_field(&mut path, &mut h);
    assert_eq!(path.raw(), "/one");

    let mut text = String::new();
    Shortcut::Redo.apply_to_string_field(&mut text, &mut h);
    assert_eq!(text, "/two");

    let mut h2 = TextHistory::raw("");
    h2.push("/db");
    let mut opt: Option<StrictPath> = None;
    Shortcut::Redo.apply_to_option_strict_path_field(&mut opt, &mut h2);
    assert_eq!(opt.as_ref().unwrap().raw(), "/db");
    Shortcut::Undo.apply_to_option_strict_path_field(&mut opt, &mut h2);
    assert!(opt.is_none());
}

fn config() -> Config {
    Config {
        backup_path: StrictPath::new("/backup".to_string()),
        restore_path: StrictPath::new("/restore".to_string()),
        rclone: App { path: StrictPath::new("/bin/rclone".to_string()), arguments: "-v".to_string() },
        cloud_path: "cloud/path".to_string(),
        cloud_remote: Some(Remote::Custom { id: "my-remote".to_string() }),
        roots: vec![
            Root { store: Store::Steam, path: StrictPath::new("/steam".to_string()), lutris_database: None },
            Root {
                store: Store::Lutris,
                path: StrictPath::new("/lutris".to_string()),
                lutris_database: Some(StrictPath::new("/pga.db".to_string())),
            },
        ],
        secondary_manifests: vec!["https://example.com/m.yaml".to_string()],
        custom_games: vec![CustomGame {
            name: "Game".to_string(),
            ignore: false,
            alias: None,
            files: vec!["<home>/save".to_string()],
            registry: vec![],
            install_dir: vec!["Game".to_string()],
            wine_prefix: vec![],
        }],
        ignored_paths: vec![StrictPath::new("/tmp".to_string())],
        ignored_registry: vec!["HKCU/x".to_string()],
    }
}

#[test]
fn histories_start_from_config() {
    let h = TextHistories::new(&config());
    assert_eq!(h.backup_target.current(), "/backup");
    assert_eq!(h.restore_source.current(), "/restore");
    assert_eq!(h.rclone_executable.current(), "/bin/rclone");
    assert_eq!(h.rclone_arguments.current(), "-v");
    assert_eq!(h.cloud_path.current(), "cloud/path");
    assert_eq!(h.backup_search_game_name.current(), "");
    assert_eq!(h.roots.len(), 2);
    assert_eq!(h.roots[0].path.current(), "/steam");
    assert_eq!(h.roots[0].lutris_database.current(), "");
    assert_eq!(h.roots[1].lutris_database.current(), "/pga.db");
    assert_eq!(h.secondary_manifests[0].current(), "https://example.com/m.yaml");
    assert_eq!(h.custom_games.len(), 1);
    assert_eq!(h.custom_games[0].name.current(), "Game");
    assert_eq!(h.custom_games[0].alias.current(), "");
    assert_eq!(h.custom_games[0].files[0].current(), "<home>/save");
    assert_eq!(h.custom_games[0].install_dir[0].current(), "Game");
    assert_eq!(h.backup_filter_ignored_paths[0].current(), "/tmp");
    assert_eq!(h.backup_filter_ignored_registry[0].current(), "HKCU/x");
    // The custom remote's id is recorded on top of an empty entry.
    let mut remote_id = h.cloud_remote_id;
    assert_eq!(remote_id.current(), "my-remote");
    assert_eq!(remote_id.undo(), "");
}

#[test]
fn histories_clear_fields() {
    let mut h = TextHistories::new(&config());
    h.modal.host.push("server");
    h.modal.password.push("pw");
    h.cloud_path.push("saves/elsewhere");
    h.clear_modal_fields();
    assert_eq!(h.cloud_path.current(), "saves/elsewhere");
    assert_eq!(h.custom_games[0].name.current(), "Game");
    assert_eq!(h.modal.host.current(), "");
    assert_eq!(h.modal.password.current(), "");
    let mut root: RootHistory = RootHistory { path: TextHistory::raw("/p"), lutris_database: TextHistory::raw("/d") };
    root.clear_secondary();
    assert_eq!(root.lutris_database.current(), "");
    assert_eq!(root.path.current(), "/p");
    h.add_custom_game(&CustomGame {
        name: "Other".to_string(),
        ignore: true,
        alias: Some("Alias".to_string()),
        files: vec![],
        registry: vec!["HKLM/y".to_string()],
        install_dir: vec![],
        wine_prefix: vec!["/wine".to_string()],
    });
    assert_eq!(h.custom_games.len(), 2);
    assert_eq!(h.custom_games[1].alias.current(), "Alias");
    assert_eq!(h.custom_games[1].registry[0].current(), "HKLM/y");
    assert_eq!(h.custom_games[1].wine_prefix[0].current(), "/wine");
}
