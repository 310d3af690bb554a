use ludusavi_sync::accela::{expect_event, extract_error, manifest_reply, settings_reply, tool_reply, AdapterEvent};
use ludusavi_sync::cloud::WebDavProvider;
use ludusavi_sync::modal::{active_game_lines, split_title, Modal};

fn reply(event: Option<&str>) -> AdapterEvent {
    AdapterEvent {
        event: event.map(String::from),
        message: None,
        zip: None,
        note: None,
        has_values: false,
    }
}

#[test]
fn title_splits_at_first_blank_line() {
    let (title, description) = split_title("Sync now?\n\nThis uploads\n\nyour saves.");
    assert_eq!(title, "Sync now?");
    assert_eq!(description, "This uploads\n\nyour saves.");
    let (title, description) = split_title("Only a title\nand a line");
    assert_eq!(title, "Only a title\nand a line");
    assert_eq!(description, "");
    let (title, description) = split_title("\n\n\nrest");
    assert_eq!(title, "");
    assert_eq!(description, "\nrest");
    let (title, description) = split_title("");
    assert_eq!(title, "");
    assert_eq!(description, "");
}

#[test]
fn split_title_rejoins() {
    for text in ["Title\n\nBody\n\nMore", "a\n\n", "\n\nb"] {
        let (title, description) = split_title(text);
        assert_eq!(format!("{title}\n\n{description}"), text);
        assert!(!title.contains("\n\n"));
    }
}

#[test]
fn dialogs_with_titles() {
    assert!(Modal::ConfirmSyncBackup { game: "G".to_string() }.shows_title());
    assert!(Modal::ConfigureWebDavRemote { provider: WebDavProvider::Other }.shows_title());
    assert!(Modal::ConfigureFtpRemote.shows_title());
    assert!(!Modal::Exiting.shows_title());
    assert!(!Modal::ActiveScanGames.shows_title());
    assert!(!Modal::AddGame { name: String::new(), path: String::new(), error: None }.shows_title());
}

#[test]
fn dialog_height_portions() {
    assert_eq!(Modal::NoMissingRoots.body_height_portion(), 1);
    assert_eq!(Modal::Exiting.body_height_portion(), 2);
    assert_eq!(Modal::ActiveScanGames.body_height_portion(), 2);
    assert_eq!(Modal::ConfigureSmbRemote.body_height_portion(), 2);
    assert_eq!(Modal::ConfirmSyncRestore { game: "G".to_string() }.body_height_portion(), 1);
}

#[test]
fn active_games_listed_by_start() {
    let games = vec![
        ("Later".to_string(), 10_000),
        ("Earliest".to_string(), 1_000),
        ("Long".to_string(), 10_000 - 3_723_456),
    ];
    let lines = active_game_lines(&games, 12_345);
    assert_eq!(
        lines,
        vec![
            "01:02:05.801 - Long".to_string(),
            "00:00:11.345 - Earliest".to_string(),
            "00:00:02.345 - Later".to_string(),
        ]
    );
}

#[test]
fn elapsed_time_before_start_is_negative() {
    let lines = active_game_lines(&vec![("Future".to_string(), 2_500)], 1_000);
    assert_eq!(lines, vec!["00:00:-1.-500 - Future".to_string()]);
    assert!(active_game_lines(&vec![], 0).is_empty());
}

#[test]
fn long_elapsed_times_widen_the_hours() {
    let lines = active_game_lines(&vec![("Old".to_string(), 0)], 360_000_000 + 7);
    assert_eq!(lines, vec!["100:00:00.007 - Old".to_string()]);
}

#[test]
fn adapter_errors() {
    let mut e = reply(Some("error"));
    assert_eq!(extract_error(&e), "unknown error");
    assert_eq!(expect_event(&e, "settings"), Err("unknown error".to_string()));
    e.message = Some("bad appid".to_string());
    assert_eq!(extract_error(&e), "bad appid");
    assert_eq!(manifest_reply(&e), Err("bad appid".to_string()));
}

#[test]
fn adapter_unexpected_events() {
    assert_eq!(
        expect_event(&reply(Some("progress")), "search_results"),
        Err("unexpected event: Some(\"progress\")".to_string())
    );
    assert_eq!(expect_event(&reply(None), "search_results"), Err("unexpected event: None".to_string()));
    assert_eq!(expect_event(&reply(Some("search_results")), "search_results"), Ok(()));
}

#[test]
fn adapter_manifest_replies() {
    let mut e = reply(Some("manifest_ready"));
    assert_eq!(manifest_reply(&e), Err("manifest_ready missing 'zip' field".to_string()));
    e.zip = Some("/tmp/123.zip".to_string());
    assert_eq!(manifest_reply(&e), Ok("/tmp/123.zip".to_string()));
}

#[test]
fn adapter_tool_replies() {
    let mut e = reply(Some("tool_done"));
    assert_eq!(tool_reply(&e), Ok("done".to_string()));
    e.note = Some("Steam updates blocked".to_string());
    assert_eq!(tool_reply(&e), Ok("Steam updates blocked".to_string()));
    assert_eq!(tool_reply(&reply(Some("settings"))), Err("unexpected event: Some(\"settings\")".to_string()));
}

#[test]
fn adapter_settings_replies() {
    let mut e = reply(Some("settings"));
    assert_eq!(settings_reply(&e), Err("settings event missing 'values'".to_string()));
    e.has_values = true;
    assert_eq!(settings_reply(&e), Ok(()));
}
