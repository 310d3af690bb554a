use ludusavi_sync::cloud::{
    validate_cloud_config, validate_cloud_path, ConfigureAction, ConfigureEvent, Rclone, Remote, RemoteChoice,
    WebDavProvider,
};
use ludusavi_sync::prelude::{Error, StrictPath};
use ludusavi_sync::resource::{App, Config};

fn ftp() -> Remote {
    Remote::Ftp {
        id: "ludusavi-1".to_string(),
        host: "example.com".to_string(),
        port: 21,
        username: "me".to_string(),
        password: "secret".to_string(),
    }
}

fn config(remote: Option<Remote>) -> Config {
    Config {
        backup_path: StrictPath::new("/backup".to_string()),
        restore_path: StrictPath::new("/restore".to_string()),
        rclone: App { path: StrictPath::new("rclone".to_string()), arguments: String::new() },
        cloud_path: "ludusavi".to_string(),
        cloud_remote: remote,
        roots: vec![],
        secondary_manifests: vec![],
        custom_games: vec![],
        ignored_paths: vec![],
        ignored_registry: vec![],
    }
}

#[test]
fn cloud_path_validation() {
    assert!(matches!(validate_cloud_path(""), Err(Error::CloudPathInvalid)));
    assert!(matches!(validate_cloud_path("/"), Err(Error::CloudPathInvalid)));
    assert!(validate_cloud_path("/games").is_ok());
    assert!(validate_cloud_path("games").is_ok());
}

#[test]
fn cloud_config_validation() {
    assert!(matches!(validate_cloud_config(&config(Some(ftp())), false, "x"), Err(Error::RcloneUnavailable)));
    assert!(matches!(validate_cloud_config(&config(None), true, "x"), Err(Error::CloudNotConfigured)));
    assert!(matches!(validate_cloud_config(&config(Some(ftp())), true, "/"), Err(Error::CloudPathInvalid)));
    assert_eq!(validate_cloud_config(&config(Some(ftp())), true, "x").unwrap(), ftp());
}

#[test]
fn remote_identity() {
    let r = ftp();
    assert_eq!(r.id(), "ludusavi-1");
    assert_eq!(r.slug(), "ftp");
    assert_eq!(Remote::GoogleDrive { id: "g".to_string() }.slug(), "drive");
    assert_eq!(Remote::Custom { id: "c".to_string() }.slug(), "");
    assert!(r.needs_configuration());
    assert!(!Remote::Custom { id: "c".to_string() }.needs_configuration());
}

#[test]
fn remote_config_args() {
    assert_eq!(
        ftp().config_args().unwrap(),
        vec!["host=example.com", "port=21", "user=me", "pass=secret"]
    );
    assert_eq!(Remote::Box { id: "b".to_string() }.config_args(), None);
    assert_eq!(Remote::GoogleDrive { id: "g".to_string() }.config_args().unwrap(), vec!["scope=drive"]);
    assert_eq!(
        Remote::OneDrive { id: "o".to_string() }.config_args().unwrap(),
        vec!["drive_type=personal", "access_scopes=Files.ReadWrite,offline_access"]
    );
    let dav = Remote::WebDav {
        id: "w".to_string(),
        url: "https://dav".to_string(),
        username: "u".to_string(),
        password: "p".to_string(),
        provider: WebDavProvider::SharepointNtlm,
    };
    assert_eq!(
        dav.config_args().unwrap(),
        vec!["url=https://dav", "user=u", "pass=p", "vendor=sharepoint-ntlm"]
    );
    let smb = Remote::Smb {
        id: "s".to_string(),
        host: "nas".to_string(),
        port: -445,
        username: "u".to_string(),
        password: "p".to_string(),
    };
    assert_eq!(smb.config_args().unwrap()[1], "port=-445");
}

#[test]
fn remote_descriptions() {
    assert_eq!(ftp().description().unwrap(), "me@example.com:21");
    let dav = Remote::WebDav {
        id: "w".to_string(),
        url: "https://dav".to_string(),
        username: "u".to_string(),
        password: "p".to_string(),
        provider: WebDavProvider::Other,
    };
    assert_eq!(dav.description().unwrap(), "Other - https://dav");
    assert_eq!(Remote::Dropbox { id: "d".to_string() }.description(), None);
}

#[test]
fn remote_ids() {
    assert_eq!(Remote::id_for_timestamp(1700000000), "ludusavi-1700000000");
    assert_eq!(Remote::id_for_timestamp(-5), "ludusavi--5");
    assert_eq!(Remote::generate_id(1712345678), "ludusavi-1712345678");
}

#[test]
fn choices_and_remotes() {
    assert_eq!(RemoteChoice::all().len(), 9);
    assert_eq!(RemoteChoice::GoogleDrive.to_string(), "Google Drive");
    assert_eq!(RemoteChoice::NoRemote.to_string(), "None");
    assert_eq!(RemoteChoice::from_remote(None), RemoteChoice::NoRemote);
    assert_eq!(RemoteChoice::from_remote(Some(&ftp())), RemoteChoice::Ftp);
    assert!(Remote::try_from_choice(RemoteChoice::NoRemote, 1).is_err());
    assert_eq!(
        Remote::try_from_choice(RemoteChoice::Custom, 1).unwrap(),
        Remote::Custom { id: "ludusavi".to_string() }
    );
    for choice in RemoteChoice::all() {
        if choice == RemoteChoice::NoRemote {
            continue;
        }
        let remote = Remote::try_from_choice(choice, 1700000000).unwrap();
        if choice != RemoteChoice::Custom {
            assert_eq!(remote.id(), "ludusavi-1700000000");
        }
        assert_eq!(RemoteChoice::from_remote(Some(&remote)), choice);
    }
    match Remote::try_from_choice(RemoteChoice::Smb, 1).unwrap() {
        Remote::Smb { host, port, username, password, .. } => {
            assert_eq!((host.as_str(), port, username.as_str(), password.as_str()), ("", 445, "", ""));
        }
        _ => panic!("wrong kind"),
    }
}

#[test]
fn webdav_providers() {
    assert_eq!(WebDavProvider::all().len(), 5);
    assert_eq!(WebDavProvider::all_cli(), vec!["other", "nextcloud", "owncloud", "sharepoint", "sharepoint-ntlm"]);
    for p in WebDavProvider::all() {
        assert_eq!(WebDavProvider::from_str(p.slug()).unwrap(), p);
    }
    assert_eq!(WebDavProvider::Owncloud.to_string(), "Owncloud");
    assert_eq!(WebDavProvider::from_str("dav").unwrap_err(), "invalid provider: dav");
}

fn words(action: ConfigureAction) -> (Vec<String>, bool) {
    match action {
        ConfigureAction::Run { args, private, .. } => (args, private),
        ConfigureAction::Finish => panic!("finished early"),
    }
}

#[test]
fn rclone_arguments_are_split_like_a_shell() {
    let app = App { path: StrictPath::new("rclone".to_string()), arguments: "--config 'my file.conf' -v".to_string() };
    let rclone = Rclone::new(app, ftp());
    assert_eq!(
        rclone.args(&vec!["ls".to_string()]),
        vec!["--config", "my file.conf", "-v", "ls"]
    );
    let broken = App { path: StrictPath::new("rclone".to_string()), arguments: "'unclosed".to_string() };
    assert_eq!(Rclone::new(broken, ftp()).args(&vec!["ls".to_string()]), vec!["ls"]);
}

#[test]
fn rclone_configuration_steps() {
    let app = App { path: StrictPath::new("rclone".to_string()), arguments: String::new() };
    let rclone = Rclone::new(app.clone(), ftp());
    let (args, private) = words(rclone.configure_remote_step(ConfigureEvent::Start));
    assert_eq!(args, vec!["obscure", "secret"]);
    assert!(private);
    let (args, private) = words(rclone.configure_remote_step(ConfigureEvent::Obscured("XYZ".to_string())));
    assert_eq!(
        args,
        vec!["config", "create", "ludusavi-1", "ftp", "host=example.com", "port=21", "user=me", "pass=XYZ"]
    );
    assert!(private);
    assert!(matches!(rclone.configure_remote_step(ConfigureEvent::Created), ConfigureAction::Finish));
    assert!(matches!(
        rclone.configure_remote_step(ConfigureEvent::Start),
        ConfigureAction::Run { obscures: true, .. }
    ));
    assert!(matches!(
        rclone.configure_remote_step(ConfigureEvent::Obscured("XYZ".to_string())),
        ConfigureAction::Run { obscures: false, .. }
    ));
    assert!(matches!(ConfigureEvent::after_run(true, "p".to_string()), ConfigureEvent::Obscured(ref x) if x == "p"));
    assert!(matches!(ConfigureEvent::after_run(false, "p".to_string()), ConfigureEvent::Created));

    let drive = Rclone::new(app.clone(), Remote::GoogleDrive { id: "g1".to_string() });
    let (args, private) = words(drive.configure_remote_step(ConfigureEvent::Start));
    assert_eq!(args, vec!["config", "create", "g1", "drive", "scope=drive"]);
    assert!(!private);

    let custom = Rclone::new(app.clone(), Remote::Custom { id: "mine".to_string() });
    assert!(matches!(custom.configure_remote_step(ConfigureEvent::Start), ConfigureAction::Finish));
    assert!(matches!(custom.unconfigure_remote_step(), ConfigureAction::Finish));

    let (args, private) = words(drive.unconfigure_remote_step());
    assert_eq!(args, vec!["config", "delete", "g1"]);
    assert!(!private);
}
