use ludusavi_sync::accela::is_double_click;
use ludusavi_sync::common::{GameSelection, Operation, Screen, ScrollSubject, TreeNodeKey};
use ludusavi_sync::icon::Icon;
use ludusavi_sync::layout::{escape_folder_name, BackupLayout};
use ludusavi_sync::notification::Notification;
use ludusavi_sync::prelude::{Error, Finality, StrictPath};
use ludusavi_sync::text::{i64_to_decimal, parse_i32, replace_all_str, str_eq, str_has_char, u64_to_decimal};

#[test]
fn folder_names_are_escaped() {
    assert_eq!(escape_folder_name("Celeste"), "Celeste");
    assert_eq!(escape_folder_name(".hidden."), "_hidden_");
    assert_eq!(escape_folder_name("a/b\\c:d*e?f\"g<h>i|j"), "a_b_c_d_e_f_g_h_i_j");
    assert_eq!(escape_folder_name("line\nbreak\r"), "line_break_");
    assert_eq!(escape_folder_name("."), "_");
    assert_eq!(escape_folder_name("a.b"), "a.b");
    assert_eq!(escape_folder_name(""), "");
    assert_eq!(escape_folder_name("nul\0x"), "nul_x");
    let once = escape_folder_name(".a:b.");
    assert_eq!(escape_folder_name(&once), once);
}

#[test]
fn backup_layout_lists_no_games() {
    let layout = BackupLayout::new(StrictPath::new("/b".to_string()));
    assert_eq!(layout.base.raw(), "/b");
    assert!(layout.restorable_game_set().is_empty());
}

#[test]
fn notifications_expire_after_their_limit() {
    let n = Notification::new("Saved".to_string());
    assert_eq!(n.text, "Saved");
    assert!(!n.expired());
    assert!(!n.expired_after(1000));
    let n = n.expires(2);
    assert!(!n.expired_after(2));
    assert!(n.expired_after(3));
    assert!(!n.expired());
}

#[test]
fn icons_have_their_code_points() {
    assert_eq!(Icon::AddCircle.as_char(), '\u{E147}');
    assert_eq!(Icon::Search.as_char() as u32, 0xe8b6);
    assert_eq!(Icon::SubdirectoryArrowRight.as_char() as u32, 0xE5DA);
}

#[test]
fn game_selections() {
    let single = GameSelection::single("A".to_string());
    assert!(single.is_single());
    assert!(single.contains("A"));
    assert!(!single.contains("B"));
    assert!(!single.is_empty());
    assert_eq!(single.iter(), vec!["A".to_string()]);
    let group = GameSelection::group(vec!["A".to_string(), "B".to_string()]);
    assert!(!group.is_single());
    assert!(group.contains("B"));
    assert!(!group.contains("C"));
    assert_eq!(group.iter().len(), 2);
    assert!(GameSelection::group(vec![]).is_empty());
}

#[test]
fn operation_state() {
    let idle = Operation::Idle;
    assert!(idle.idle());
    assert!(idle.preview());
    assert!(!idle.full());
    assert!(idle.games().is_none());
    let mut op = Operation::new_backup(Finality::Final, Some(GameSelection::single("A".to_string())));
    assert!(!op.idle());
    assert!(!op.preview());
    assert!(!op.full());
    assert!(op.games_specified());
    op.flag_cancel();
    assert!(matches!(op, Operation::Backup { cancelling: true, .. }));
    op.push_error(Error::RegistryIssue);
    assert_eq!(op.errors().unwrap().len(), 1);
    assert!(!op.should_force_new_full_backups());
    op.set_force_new_full_backups(true);
    assert!(op.should_force_new_full_backups());
    op.add_syncable_game("A".to_string());
    op.add_syncable_game("A".to_string());
    op.add_syncable_game("B".to_string());
    assert_eq!(op.syncable_games().unwrap().len(), 2);
    op.add_active_game("A".to_string(), 10);
    op.add_active_game("A".to_string(), 20);
    op.add_active_game("C".to_string(), 30);
    assert_eq!(op.active_games().unwrap()[0], ("A".to_string(), 20));
    assert_eq!(op.active_games().unwrap().len(), 2);
    op.remove_active_game("A");
    let names: Vec<&str> = op.active_games().unwrap().iter().map(|x| x.0.as_str()).collect();
    assert_eq!(names, vec!["C"]);
    let preview = Operation::new_backup(Finality::Preview, None);
    assert!(preview.preview());
    assert!(preview.full());
    assert!(!preview.games_specified());
}

#[test]
fn screens_and_tree_keys() {
    assert_eq!(ScrollSubject::from_screen(Screen::Backup), ScrollSubject::Backup);
    assert_eq!(ScrollSubject::from_screen(Screen::GameDetail("x".to_string())), ScrollSubject::GameDetail);
    assert_eq!(ScrollSubject::from_screen(Screen::CustomGames), ScrollSubject::Other);
    assert_eq!(TreeNodeKey::RegistryValue("v".to_string()).raw(), "v");
}

#[test]
fn numbers_and_strings() {
    assert_eq!(u64_to_decimal(0), "0");
    assert_eq!(u64_to_decimal(18446744073709551615), "18446744073709551615");
    assert_eq!(i64_to_decimal(i64::MIN), "-9223372036854775808");
    assert_eq!(i64_to_decimal(-7), "-7");
    assert_eq!(parse_i32("21"), Some(21));
    assert_eq!(parse_i32("+21"), Some(21));
    assert_eq!(parse_i32("-2147483648"), Some(i32::MIN));
    assert_eq!(parse_i32("2147483647"), Some(i32::MAX));
    assert_eq!(parse_i32("2147483648"), None);
    assert_eq!(parse_i32("-2147483649"), None);
    assert_eq!(parse_i32("99999999999999999999"), None);
    assert_eq!(parse_i32(""), None);
    assert_eq!(parse_i32("-"), None);
    assert_eq!(parse_i32(" 1"), None);
    assert_eq!(parse_i32("1x"), None);
    for s in ["0", "007", "-0", "+5", "12a", "", "++1", "-12", "2147483647", "4294967296"] {
        assert_eq!(parse_i32(s), s.parse::<i32>().ok(), "{s}");
    }
    assert!(str_eq("abc", "abc"));
    assert!(!str_eq("abc", "abd"));
    assert!(str_has_char("a{b", '{'));
    assert_eq!(replace_all_str("a--b--", "--", "+"), "a+b+");
    assert_eq!(replace_all_str("aaa", "aa", "b"), "ba");
    assert_eq!(replace_all_str("xyz", "q", "w"), "xyz");
}

#[test]
fn rendered_numbers_parse_back() {
    for n in [0i32, 7, -7, 21, 65535, i32::MAX, i32::MIN] {
        let text = ludusavi_sync::text::i64_to_decimal(n as i64);
        assert_eq!(text, n.to_string());
        assert_eq!(ludusavi_sync::text::parse_i32(&text), Some(n));
    }
    assert_eq!(ludusavi_sync::text::parse_i32("+42"), Some(42));
    assert_eq!(ludusavi_sync::text::parse_i32("2147483648"), None);
    assert_eq!(ludusavi_sync::text::parse_i32("-"), None);
    assert_eq!(ludusavi_sync::text::parse_i32(""), None);
}

#[test]
fn adding_then_removing_an_active_game_restores_the_list() {
    let mut op = Operation::new_backup(Finality::Final, None);
    op.add_active_game("A".to_string(), 1);
    op.add_active_game("B".to_string(), 2);
    op.add_active_game("C".to_string(), 3);
    op.remove_active_game("C");
    op.remove_active_game("Z");
    let names: Vec<&str> = op.active_games().unwrap().iter().map(|x| x.0.as_str()).collect();
    assert_eq!(names, vec!["A", "B"]);
    assert!(op.active_games().unwrap().iter().all(|x| x.1 > 0));
}

#[test]
fn group_selections_hold_each_game_once() {
    let g = GameSelection::group(vec!["B".to_string(), "A".to_string(), "B".to_string()]);
    assert_eq!(g.iter(), vec!["B".to_string(), "A".to_string()]);
    assert_eq!(GameSelection::single("X".to_string()).iter(), vec!["X".to_string()]);
    assert!(g.contains("A"));
    assert!(!g.contains("C"));
}

#[test]
fn double_click_threshold() {
    assert!(is_double_click(Some("g1"), "g1", 0));
    assert!(is_double_click(Some("g1"), "g1", 399));
    assert!(!is_double_click(Some("g1"), "g1", 400));
    assert!(!is_double_click(Some("g2"), "g1", 10));
    assert!(!is_double_click(None, "g1", 10));
}
