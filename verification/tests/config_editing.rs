use ludusavi_sync::cloud::{Remote, RemoteChoice, WebDavProvider};
use ludusavi_sync::common::{GameSelection, UndoSubject};
use ludusavi_sync::control::{edit_cloud_remote, RemoteEdit};
use ludusavi_sync::editing::{
    apply_config_event, apply_undo_redo, set_custom_games_enabled, ConfigEvent, EditAction, EditDirection,
};
use ludusavi_sync::modal::{Kind, ModalInputKind, ModalStack};
use ludusavi_sync::prelude::StrictPath;
use ludusavi_sync::resource::{App, Config, CustomGame, Root, Store};
use ludusavi_sync::scan::{Change, Completeness, Enablement, Uniqueness};
use ludusavi_sync::search::{CustomGamesFilter, Filter, FilterComponent, FilterEvent, FilterKind, ManifestSelection};
use ludusavi_sync::shortcuts::{Shortcut, TextHistories, TextHistory};

fn config() -> Config {
    Config {
        backup_path: StrictPath::new("/backup".to_string()),
        restore_path: StrictPath::new("/restore".to_string()),
        rclone: App { path: StrictPath::new("rclone".to_string()), arguments: String::new() },
        cloud_path: "saves".to_string(),
        cloud_remote: Some(Remote::Custom { id: "mine".to_string() }),
        roots: vec![
            Root { store: Store::Steam, path: StrictPath::new("/steam".to_string()), lutris_database: None },
            Root { store: Store::Lutris, path: StrictPath::new("/lutris".to_string()), lutris_database: None },
        ],
        secondary_manifests: vec!["a".to_string(), "b".to_string()],
        custom_games: vec![CustomGame {
            name: "Game".to_string(),
            ignore: false,
            alias: None,
            files: vec!["f1".to_string()],
            registry: vec![],
            install_dir: vec![],
            wine_prefix: vec![],
        }],
        ignored_paths: vec![],
        ignored_registry: vec![],
    }
}

#[test]
fn text_fields_follow_their_histories() {
    let mut c = config();
    let mut h = TextHistories::new(&c);
    apply_config_event(&mut h, &mut c, ConfigEvent::BackupTarget("/elsewhere".to_string()));
    assert_eq!(c.backup_path.raw(), "/elsewhere");
    apply_undo_redo(&mut h, &mut c, Shortcut::Undo, UndoSubject::BackupTarget);
    assert_eq!(c.backup_path.raw(), "/backup");
    apply_undo_redo(&mut h, &mut c, Shortcut::Redo, UndoSubject::BackupTarget);
    assert_eq!(c.backup_path.raw(), "/elsewhere");
    apply_config_event(&mut h, &mut c, ConfigEvent::CloudPath("other".to_string()));
    apply_config_event(&mut h, &mut c, ConfigEvent::CloudRemoteId("theirs".to_string()));
    assert_eq!(c.cloud_path, "other");
    assert_eq!(c.cloud_remote, Some(Remote::Custom { id: "theirs".to_string() }));
    apply_undo_redo(&mut h, &mut c, Shortcut::Undo, UndoSubject::CloudRemoteId);
    assert_eq!(c.cloud_remote, Some(Remote::Custom { id: "mine".to_string() }));
}

#[test]
fn root_lists_stay_in_step() {
    let mut c = config();
    let mut h = TextHistories::new(&c);
    apply_config_event(&mut h, &mut c, ConfigEvent::Root(EditAction::Add));
    assert_eq!(c.roots.len(), 3);
    assert_eq!(h.roots.len(), 3);
    assert_eq!(c.roots[2].store, Store::Other);
    apply_config_event(&mut h, &mut c, ConfigEvent::Root(EditAction::Change(2, "/new".to_string())));
    assert_eq!(c.roots[2].path.raw(), "/new");
    apply_config_event(&mut h, &mut c, ConfigEvent::Root(EditAction::Move(2, EditDirection::Up)));
    assert_eq!(c.roots[1].path.raw(), "/new");
    assert_eq!(c.roots[2].path.raw(), "/lutris");
    assert_eq!(h.roots[1].path.current(), "/new");
    apply_config_event(&mut h, &mut c, ConfigEvent::Root(EditAction::Remove(0)));
    assert_eq!(c.roots.len(), 2);
    assert_eq!(h.roots[0].path.current(), "/new");
    apply_undo_redo(&mut h, &mut c, Shortcut::Undo, UndoSubject::RootPath(0));
    assert_eq!(c.roots[0].path.raw(), "");
    // The Lutris database only applies to a Lutris root.
    apply_config_event(&mut h, &mut c, ConfigEvent::RootLutrisDatabase(1, "/pga.db".to_string()));
    assert_eq!(c.roots[1].lutris_database.as_ref().map(|p| p.raw()), Some("/pga.db".to_string()));
    apply_config_event(&mut h, &mut c, ConfigEvent::RootLutrisDatabase(0, "/x.db".to_string()));
    assert!(c.roots[0].lutris_database.is_none());
}

#[test]
fn custom_game_lists_stay_in_step() {
    let mut c = config();
    let mut h = TextHistories::new(&c);
    apply_config_event(&mut h, &mut c, ConfigEvent::CustomGameFile(0, EditAction::Add));
    apply_config_event(&mut h, &mut c, ConfigEvent::CustomGameFile(0, EditAction::Change(1, "f2".to_string())));
    assert_eq!(c.custom_games[0].files, vec!["f1".to_string(), "f2".to_string()]);
    apply_config_event(&mut h, &mut c, ConfigEvent::CustomGameFile(0, EditAction::Move(0, EditDirection::Down)));
    assert_eq!(c.custom_games[0].files, vec!["f2".to_string(), "f1".to_string()]);
    assert_eq!(h.custom_games[0].files[1].current(), "f1");
    apply_config_event(&mut h, &mut c, ConfigEvent::CustomGame(EditAction::Add));
    assert_eq!(c.custom_games.len(), 2);
    assert_eq!(c.custom_games[1].name, "");
    apply_config_event(&mut h, &mut c, ConfigEvent::CustomGameAlias(1, "Real".to_string()));
    assert_eq!(c.custom_games[1].alias, Some("Real".to_string()));
    apply_config_event(&mut h, &mut c, ConfigEvent::CustomGameEnabled { index: 0, enabled: false });
    assert!(c.custom_games[0].ignore);
    set_custom_games_enabled(&mut c, &vec![0, 1], true);
    assert!(!c.custom_games[0].ignore);
    set_custom_games_enabled(&mut c, &vec![1], false);
    assert!(!c.custom_games[0].ignore);
    assert!(c.custom_games[1].ignore);
    apply_config_event(&mut h, &mut c, ConfigEvent::SecondaryManifest(EditAction::Remove(0)));
    assert_eq!(c.secondary_manifests, vec!["b".to_string()]);
    apply_config_event(&mut h, &mut c, ConfigEvent::BackupFilterIgnoredPath(EditAction::Add));
    apply_config_event(&mut h, &mut c, ConfigEvent::BackupFilterIgnoredPath(EditAction::Change(0, "/tmp".to_string())));
    assert_eq!(c.ignored_paths.iter().map(|p| p.raw()).collect::<Vec<_>>(), vec!["/tmp".to_string()]);
}

#[test]
fn modal_undo_leaves_config() {
    let mut c = config();
    let mut h = TextHistories::new(&c);
    h.modal.host.push("a");
    h.modal.host.push("b");
    apply_undo_redo(&mut h, &mut c, Shortcut::Undo, UndoSubject::ModalField(ModalInputKind::Host));
    assert_eq!(h.modal.host.current(), "a");
    assert_eq!(c.backup_path.raw(), "/backup");
}

#[test]
fn filter_events() {
    let mut f = FilterComponent {
        show: false,
        game_name: String::new(),
        uniqueness: Filter::new(Uniqueness::Unique),
        completeness: Filter::new(Completeness::Complete),
        enablement: Filter::new(Enablement::Enabled),
        change: Filter::new(Change::New),
        manifest: Filter::new(ManifestSelection { source: "Primary manifest".to_string() }),
    };
    let mut h = TextHistory::default();
    f.apply_event(&mut h, FilterEvent::Toggled);
    assert!(f.show);
    f.apply_event(&mut h, FilterEvent::EditedGameName("hal".to_string()));
    assert_eq!(f.game_name, "hal");
    assert_eq!(h.current(), "hal");
    f.apply_event(&mut h, FilterEvent::ToggledFilter { filter: FilterKind::Change, enabled: true });
    assert!(f.change.active());
    f.apply_event(&mut h, FilterEvent::EditedFilterChange(Change::Updated));
    assert_eq!(f.change.choice, Change::Updated);
    f.apply_event(&mut h, FilterEvent::Reset);
    assert_eq!(f.game_name, "");
    assert!(!f.change.active());
    assert_eq!(h.current(), "");
    assert_eq!(h.undo(), "hal");

    let mut cg = CustomGamesFilter { enabled: false, name: String::new() };
    let mut h2 = TextHistory::default();
    cg.apply_event(&mut h2, FilterEvent::Toggled);
    cg.apply_event(&mut h2, FilterEvent::EditedGameName("x".to_string()));
    cg.apply_event(&mut h2, FilterEvent::EditedFilterChange(Change::New));
    assert!(cg.enabled);
    assert_eq!(cg.name, "x");
}

#[test]
fn picking_a_remote() {
    let mut c = config();
    let mut h = TextHistories::new(&c);
    let mut m = ModalStack::new();
    assert!(matches!(edit_cloud_remote(&mut h, &mut c, &mut m, RemoteChoice::NoRemote, 5), RemoteEdit::Cleared));
    assert!(c.cloud_remote.is_none());
    assert!(matches!(edit_cloud_remote(&mut h, &mut c, &mut m, RemoteChoice::Custom, 5), RemoteEdit::Saved));
    assert_eq!(c.cloud_remote, Some(Remote::Custom { id: "ludusavi".to_string() }));
    assert_eq!(h.cloud_remote_id.current(), "ludusavi");
    assert!(matches!(edit_cloud_remote(&mut h, &mut c, &mut m, RemoteChoice::Smb, 5), RemoteEdit::Dialog));
    assert_eq!(h.modal.port.current(), "445");
    assert_eq!(m.top().map(|x| x.kind()), Some(Kind::ConfigureSmbRemote));
    match edit_cloud_remote(&mut h, &mut c, &mut m, RemoteChoice::Dropbox, 1700000000) {
        RemoteEdit::Configure(Remote::Dropbox { id }) => assert_eq!(id, "ludusavi-1700000000"),
        other => panic!("{other:?}"),
    }
    let _ = WebDavProvider::Other;
}

#[test]
fn repeated_group_names_are_listed_once() {
    let g = GameSelection::Group { games: vec!["A".to_string(), "B".to_string(), "A".to_string()] };
    assert_eq!(g.iter(), vec!["A".to_string(), "B".to_string()]);
}
