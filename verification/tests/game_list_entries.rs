use ludusavi_sync::common::GameSelection;
use ludusavi_sync::game_list::{FileTreeState, GameList, GameListEntry};
use ludusavi_sync::scan::{Change, Completeness, Enablement, ScanInfo, Uniqueness};
use ludusavi_sync::search::{Filter, FilterComponent, FilterKind, GameFacts, ManifestSelection};

fn search(show: bool) -> FilterComponent {
    FilterComponent {
        show,
        game_name: String::new(),
        uniqueness: Filter::new(Uniqueness::Unique),
        completeness: Filter::new(Completeness::Complete),
        enablement: Filter::new(Enablement::Enabled),
        change: Filter::new(Change::New),
        manifest: Filter::new(ManifestSelection { source: "Primary manifest".to_string() }),
    }
}

fn entry(name: &str, scanned: bool) -> GameListEntry {
    GameListEntry {
        scan_info: ScanInfo {
            game_name: name.to_string(),
            found_files: vec![format!("C:/{name}/save.dat")],
            found_registry_keys: vec![format!("HKCU/{name}")],
        },
        tree: None,
        scanned,
    }
}

fn list() -> GameList {
    GameList::new(vec![entry("alpha", true), entry("beta", true), entry("gamma", true)], search(false))
}

fn names(l: &GameList) -> Vec<String> {
    l.entries.iter().map(|e| e.scan_info.game_name.clone()).collect()
}

fn facts(name: &str, unique: bool) -> GameFacts {
    GameFacts {
        game_name: name.to_string(),
        unique,
        complete: true,
        enabled: true,
        change: Change::New,
        in_selected_manifest: true,
    }
}

#[test]
fn find_game_gives_first_position() {
    let mut l = list();
    l.entries.push(entry("beta", false));
    assert_eq!(l.find_game("beta"), Some(1));
    assert_eq!(l.find_game("alpha"), Some(0));
    assert_eq!(l.find_game("delta"), None);
}

#[test]
fn filtered_when_search_or_duplicates_shown() {
    let mut l = list();
    assert!(!l.is_filtered());
    l.search.show = true;
    assert!(l.is_filtered());
    l.search.show = false;
    l.filter_duplicates_of = Some("alpha".to_string());
    assert!(l.is_filtered());
}

#[test]
fn expanding_builds_tree_once() {
    let mut l = list();
    l.expand_game("beta");
    assert_eq!(l.entries[1].tree, Some(FileTreeState::Built));
    assert_eq!(l.entries[0].tree, None);
    l.entries[1].clear_tree();
    assert_eq!(l.entries[1].tree, Some(FileTreeState::Cleared));
    // Already expanded: nothing is built again.
    l.expand_game("beta");
    assert_eq!(l.entries[1].tree, Some(FileTreeState::Cleared));
}

#[test]
fn clearing_an_entry_without_tree_keeps_none() {
    let mut e = entry("alpha", true);
    e.clear_tree();
    assert_eq!(e.tree, None);
    e.refresh_tree();
    assert_eq!(e.tree, Some(FileTreeState::Built));
    assert!(e.scanned);
}

#[test]
fn unscanning_a_group_clears_trees_and_collapses() {
    let mut l = list();
    l.expand_game("alpha");
    l.expand_game("gamma");
    l.unscan_games(&GameSelection::group(vec!["alpha".to_string(), "beta".to_string()]));
    assert!(!l.entries[0].scanned);
    assert!(l.entries[0].scan_info.found_files.is_empty());
    assert!(l.entries[0].scan_info.found_registry_keys.is_empty());
    assert_eq!(l.entries[0].tree, Some(FileTreeState::Cleared));
    assert!(!l.entries[1].scanned);
    assert_eq!(l.entries[1].tree, None);
    assert!(l.entries[2].scanned);
    assert_eq!(l.entries[2].scan_info.found_files.len(), 1);
    assert!(l.contains_unscanned_games());
    // alpha was collapsed, so expanding it builds its tree again; gamma stays expanded.
    l.expand_game("alpha");
    assert_eq!(l.entries[0].tree, Some(FileTreeState::Built));
    l.entries[2].clear_tree();
    l.expand_game("gamma");
    assert_eq!(l.entries[2].tree, Some(FileTreeState::Cleared));
}

#[test]
fn unscanning_one_game_keeps_its_tree() {
    let mut l = list();
    l.expand_game("beta");
    l.unscan_games(&GameSelection::single("beta".to_string()));
    assert!(!l.entries[1].scanned);
    assert_eq!(l.entries[1].tree, Some(FileTreeState::Built));
    assert!(l.entries[1].scan_info.found_files.is_empty());
}

#[test]
fn no_unscanned_games_in_a_fresh_scan() {
    let l = list();
    assert!(!l.contains_unscanned_games());
}

#[test]
fn removing_a_game_refreshes_duplicates() {
    let mut l = list();
    l.entries.push(entry("alpha", false));
    l.remove_game("alpha", &vec!["gamma".to_string()]);
    assert_eq!(names(&l), vec!["beta".to_string(), "gamma".to_string()]);
    assert_eq!(l.entries[0].tree, None);
    assert_eq!(l.entries[1].tree, Some(FileTreeState::Built));
    assert_eq!(l.find_game("alpha"), None);
}

#[test]
fn clearing_empties_the_list() {
    let mut l = list();
    l.expand_game("alpha");
    l.clear();
    assert!(l.entries.is_empty());
    l.entries.push(entry("alpha", true));
    l.expand_game("alpha");
    assert_eq!(l.entries[0].tree, Some(FileTreeState::Built));
}

#[test]
fn visible_games_apply_every_filter() {
    let mut l = list();
    let all_facts = vec![facts("alpha", true), facts("beta", false), facts("gamma", true)];
    assert_eq!(
        l.visible_games(&vec![true, true, false], &all_facts, &vec![], false),
        vec!["alpha".to_string(), "beta".to_string()]
    );
    l.search.show = true;
    l.search.toggle_filter(FilterKind::Uniqueness, true);
    assert_eq!(
        l.visible_games(&vec![true, true, true], &all_facts, &vec![], false),
        vec!["alpha".to_string(), "gamma".to_string()]
    );
    l.search.show = false;
    l.filter_duplicates_of = Some("beta".to_string());
    assert_eq!(
        l.visible_games(&vec![true, true, true], &all_facts, &vec!["gamma".to_string()], false),
        vec!["beta".to_string(), "gamma".to_string()]
    );
    // A chosen game without duplicates filters nothing.
    assert_eq!(l.visible_games(&vec![true, true, true], &all_facts, &vec![], false).len(), 3);
}
