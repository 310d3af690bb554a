//! The English texts of the interface, and the messages built from them.
use crate::prelude::{CommandError, Error};
use crate::resource::{BackupFormat, CustomGameKind, SortKey, Store, Theme, ZipCompression};
use crate::scan::{Change, Completeness, Enablement, OperationStatus, Uniqueness};
use crate::text::{
    decimal, has_char, i64_to_decimal, lemma_replace_at_front, lemma_replace_no_first_char,
    lemma_decimal_digits, lemma_replace_skip_prefix, replace_all, replace_all_str, signed_decimal, u64_to_decimal,
};
use vstd::prelude::*;

verus! {

const PATH: &'static str = "path";
const PROCESSED_SIZE: &'static str = "processed-size";
const TOTAL_SIZE: &'static str = "total-size";
const COMMAND: &'static str = "command";
const CODE: &'static str = "code";
const MESSAGE: &'static str = "message";
const APP: &'static str = "app";
const GAME: &'static str = "game";
const VERSION: &'static str = "version";

/// The mark for an entry that a scan found new.
pub const ADD_SYMBOL: &'static str = "+";
/// The mark for an entry that a scan found changed.
pub const CHANGE_SYMBOL: &'static str = "Δ";
/// The mark for an entry that a scan found removed.
pub const REMOVAL_SYMBOL: &'static str = "x";

/// What Rust's `str::to_lowercase` makes of a text (Unicode lower-case mapping).
pub uninterp spec fn lowercase(s: Seq<char>) -> Seq<char>;

/// What Rust's `char::to_uppercase` makes of a character (one or more characters).
pub uninterp spec fn char_uppercase(c: char) -> Seq<char>;

/// What `byte_unit` shows for a number of bytes in the largest binary unit that fits,
/// with two decimals (`format!("{:.2}", Byte::from(bytes).get_appropriate_unit(Binary))`).
pub uninterp spec fn binary_size_text(bytes: u64) -> Seq<char>;

/// Calls `str::to_lowercase`; the result is named by `lowercase`.
#[verifier::external_body]
pub(crate) fn to_lowercase(s: &str) -> (r: String)
    ensures
        r@ == lowercase(s@),
{
    s.to_lowercase()
}

/// Calls `char::to_uppercase` and collects the characters; the result is named by
/// `char_uppercase`.
#[verifier::external_body]
fn char_to_uppercase(c: char) -> (r: String)
    ensures
        r@ == char_uppercase(c),
{
    c.to_uppercase().collect()
}

/// Calls `byte_unit::Byte::get_appropriate_unit` with `UnitType::Binary` and formats the
/// adjusted value with two decimals; the result is named by `binary_size_text`. The
/// crate's source shows that below 1024 bytes the unit is `B` and the value is printed
/// without decimals, followed by a space and `B`.
#[verifier::external_body]
fn byte_unit_binary(bytes: u64) -> (r: String)
    ensures
        r@ == binary_size_text(bytes),
        bytes < 1024 ==> r@ == decimal(bytes as nat) + " B"@,
{
    let adjusted = byte_unit::Byte::from(bytes).get_appropriate_unit(byte_unit::UnitType::Binary);
    format!("{adjusted:.2}")
}

/// The text lower-cased, then with its first character upper-cased.
pub open spec fn title_case_view(text: Seq<char>) -> Seq<char> {
    let lower = lowercase(text);
    if lower.len() == 0 {
        lower
    } else {
        char_uppercase(lower[0]) + lower.skip(1)
    }
}

/// The text lower-cased, then with its first character upper-cased.
pub fn title_case(text: &str) -> (r: String)
    ensures
        r@ == title_case_view(text@),
{
    let lower = to_lowercase(text);
    let n = lower.as_str().unicode_len();
    if n == 0 {
        lower
    } else {
        let first = lower.as_str().get_char(0);
        let rest = lower.as_str().substring_char(1, n);
        char_to_uppercase(first).concat(rest)
    }
}

/// The placeholder that a message template holds for the argument `key`.
pub open spec fn placeholder(key: Seq<char>) -> Seq<char> {
    "{$"@ + key + "}"@
}

/// A template with each argument's placeholder replaced by its value, the arguments
/// applied in the order in which they were set.
pub open spec fn fill_template(template: Seq<char>, items: Seq<(Seq<char>, Seq<char>)>) -> Seq<char>
    decreases items.len(),
{
    if items.len() == 0 {
        template
    } else {
        replace_all(
            fill_template(template, items.drop_last()),
            placeholder(items.last().0),
            items.last().1,
        )
    }
}

/// The named values that fill the placeholders of a message template.
pub struct LangArgs {
    items: Vec<(&'static str, String)>,
}

impl LangArgs {
    /// The arguments, as (key, value) pairs in the order in which they were set.
    pub closed spec fn items_view(&self) -> Seq<(Seq<char>, Seq<char>)> {
        self.items@.map_values(|x: (&'static str, String)| (x.0@, x.1@))
    }

    /// No arguments.
    pub fn new() -> (r: Self)
        ensures
            r.items_view() == Seq::<(Seq<char>, Seq<char>)>::empty(),
    {
        let r = LangArgs { items: Vec::new() };
        assert(r.items_view() =~= Seq::<(Seq<char>, Seq<char>)>::empty());
        r
    }

    /// Adds the argument `key` with the text `value`.
    pub fn set(&mut self, key: &'static str, value: &str)
        ensures
            final(self).items_view() == old(self).items_view().push((key@, value@)),
    {
        self.items.push((key, String::from_str(value)));
        assert(self.items_view() =~= old(self).items_view().push((key@, value@)));
    }
}

fn placeholder_for(key: &str) -> (r: String)
    ensures
        r@ == placeholder(key@),
{
    String::from_str("{$").concat(key).concat("}")
}

/// Fills the placeholders of `template` with `args`, in the order in which they were set.
fn translate_args(template: &str, args: &LangArgs) -> (r: String)
    ensures
        r@ == fill_template(template@, args.items_view()),
{
    let mut result = String::from_str(template);
    let mut i: usize = 0;
    proof {
        reveal_strlit("{$");
    }
    while i < args.items.len()
        invariant
            i <= args.items@.len(),
            args.items_view().len() == args.items@.len(),
            "{$"@ == seq!['{', '$'],
            result@ == fill_template(template@, args.items_view().take(i as int)),
        decreases args.items.len() - i,
    {
        let key = args.items[i].0;
        let ph = placeholder_for(key);
        assert(ph@.len() > 0);
        let next = replace_all_str(result.as_str(), ph.as_str(), args.items[i].1.as_str());
        assert(args.items_view().take(i + 1).drop_last() =~= args.items_view().take(i as int));
        result = next;
        i = i + 1;
    }
    assert(args.items_view().take(args.items@.len() as int) =~= args.items_view());
    result
}

/// The placeholder starts with `{` and is longer than one character.
proof fn lemma_placeholder_shape(key: Seq<char>)
    ensures
        placeholder(key).len() > 1,
        placeholder(key)[0] == '{',
{
    reveal_strlit("{$");
    reveal_strlit("}");
    assert("{$"@ =~= seq!['{', '$']);
}

/// A template with a single placeholder, and no `{` around it, becomes the text around
/// it with the value in its place.
proof fn lemma_fill_one(a: Seq<char>, key: Seq<char>, c: Seq<char>, v: Seq<char>)
    requires
        !has_char(a, '{'),
        !has_char(c, '{'),
    ensures
        fill_template(a + placeholder(key) + c, seq![(key, v)]) == a + v + c,
{
    let p = placeholder(key);
    lemma_placeholder_shape(key);
    let items = seq![(key, v)];
    assert(items.drop_last() =~= Seq::<(Seq<char>, Seq<char>)>::empty());
    assert(fill_template(a + p + c, items.drop_last()) == a + p + c);
    assert(items.last() == (key, v));
    assert(fill_template(a + p + c, items) == replace_all(a + p + c, p, v));
    assert(a + p + c =~= a + (p + c));
    lemma_replace_no_first_char(a, p, v);
    assert forall|i: int| 0 <= i < a.len() implies (#[trigger] a[i] != p[0] || (i + 1 < a.len()
        && a[i + 1] != p[1])) by {}
    lemma_replace_skip_prefix(a, p + c, p, v, 1);
    lemma_replace_at_front(p, c, v);
    lemma_replace_no_first_char(c, p, v);
    assert(a + (v + c) =~= a + v + c);
}

/// A root that a search found, as the confirmation lists it.
#[derive(Debug)]
pub struct MissingRoot {
    pub store: Store,
    /// The root's folder, as it is shown.
    pub path: String,
    /// The Lutris database file, as it is shown, for Lutris roots that name one.
    pub lutris_database: Option<String>,
}

impl Clone for MissingRoot {
    fn clone(&self) -> (r: Self)
        ensures
            r == *self,
    {
        MissingRoot {
            store: self.store,
            path: self.path.clone(),
            lutris_database: match &self.lutris_database {
                Some(db) => Some(db.clone()),
                None => None,
            },
        }
    }
}

/// The English name of a store.
pub open spec fn store_name(store: Store) -> Seq<char> {
    match store {
        Store::Ea => "EA"@,
        Store::Epic => "Epic"@,
        Store::Gog => "GOG"@,
        Store::GogGalaxy => "GOG Galaxy"@,
        Store::Heroic => "Heroic"@,
        Store::Legendary => "Legendary"@,
        Store::Lutris => "Lutris"@,
        Store::Microsoft => "Microsoft"@,
        Store::Origin => "Origin"@,
        Store::Prime => "Prime Gaming"@,
        Store::Steam => "Steam"@,
        Store::Uplay => "Uplay"@,
        Store::OtherHome => "Home folder"@,
        Store::OtherWine => "Wine prefix"@,
        Store::OtherWindows => "Windows drive"@,
        Store::OtherLinux => "Linux drive"@,
        Store::OtherMac => "Mac drive"@,
        Store::Other => "Other"@,
    }
}

/// The line that lists a missing root: `\n[<store>] <path> <database part>`.
pub open spec fn missing_root_line(root: MissingRoot) -> Seq<char> {
    "\n["@ + store_name(root.store) + "] "@ + root.path@ + " "@ + match root.lutris_database {
        Some(db) if root.store == Store::Lutris => " + "@ + db@,
        _ => Seq::empty(),
    }
}

/// The lines of all missing roots, in order.
pub open spec fn missing_root_lines(roots: Seq<MissingRoot>) -> Seq<char>
    decreases roots.len(),
{
    if roots.len() == 0 {
        Seq::empty()
    } else {
        missing_root_lines(roots.drop_last()) + missing_root_line(roots.last())
    }
}

/// The message shown for a failed command: what failed, then its output.
pub open spec fn command_error_text(error: CommandError) -> Seq<char> {
    match error {
        CommandError::Launched { command, raw } => "Command did not launch: "@ + command@ + "\n\n"@
            + raw@,
        CommandError::Terminated { command } => "Command terminated abruptly: "@ + command@,
        CommandError::Exited { command, code, stdout, stderr } => "Command failed with code "@
            + signed_decimal(code as int) + ": "@ + replace_all(
            command@,
            placeholder("code"@),
            signed_decimal(code as int),
        ) + match stdout {
            Some(out) => "\n\n"@ + out@,
            None => Seq::empty(),
        } + match stderr {
            Some(err) => "\n\n"@ + err@,
            None => Seq::empty(),
        },
    }
}

/// The views of an optional string slice.
pub open spec fn str_option_view(o: Option<&str>) -> Option<Seq<char>> {
    match o {
        Some(x) => Some(x@),
        None => None,
    }
}

/// The views of an optional string.
pub open spec fn string_option_view(o: Option<String>) -> Option<Seq<char>> {
    match o {
        Some(x) => Some(x@),
        None => None,
    }
}

/// ` (<identifier>)` when there is an identifier, else nothing.
pub open spec fn identifier_suffix(identifier: Option<Seq<char>>) -> Seq<char> {
    match identifier {
        Some(x) => " ("@ + x + ")"@,
        None => Seq::empty(),
    }
}

/// `game` for one, `games` otherwise.
pub open spec fn games_unit(n: nat) -> Seq<char> {
    if n == 1 {
        "game"@
    } else {
        "games"@
    }
}

/// The hint to preview an operation before running it.
pub open spec fn preview_hint() -> Seq<char> {
    "If you haven't already, consider doing a preview first so that there are no surprises."@
}

/// The question before a backup into `target`.
pub open spec fn confirm_backup_text(target: Seq<char>, target_exists: bool, suggest: bool) -> Seq<char> {
    let primary = "Are you sure you want to proceed with the backup? "@ + if target_exists {
        "New save data will be merged into the target folder:"@
    } else {
        "The target folder will be created:"@
    };
    primary + "\n\n"@ + target + if suggest {
        "\n\n"@ + preview_hint()
    } else {
        Seq::empty()
    }
}

/// The message shown for each error.
pub open spec fn error_text(error: Error) -> Seq<char> {
    match error {
        Error::ConfigInvalid { why } => "Error: The config file is invalid."@ + "\n"@ + why@,
        Error::ManifestInvalid { why, identifier } => "Error: The manifest file is invalid."@
            + identifier_suffix(string_option_view(identifier)) + "\n"@ + why@,
        Error::ManifestCannotBeUpdated { identifier } => "Error: Unable to check for an update to the manifest file. Is your Internet connection down?"@
            + identifier_suffix(string_option_view(identifier)),
        Error::NoSaveDataFound => "No save data found."@,
        Error::GameIsUnrecognized => "Ludusavi does not recognize this game."@,
        Error::SomeEntriesFailed => "Some entries failed to process; look for [FAILED] in the output for details. Double check whether you can access those files or whether their paths are very long."@,
        Error::CannotPrepareBackupTarget { path } => "Error: Unable to prepare backup target (either creating or emptying the folder). If you have the folder open in your file browser, try closing it: "@
            + path@,
        Error::RestorationSourceInvalid { path } => "Error: The restoration source is invalid (either doesn't exist or isn't a directory). Please double check the location: "@
            + path@,
        Error::RegistryIssue => "Error: Some registry entries were skipped."@,
        Error::UnableToOpenDir(path) => "Error: Unable to open directory:"@ + "\n\n"@ + path@,
        Error::UnableToOpenUrl(url) => "Error: Unable to open URL:"@ + "\n\n"@ + url@,
        Error::RcloneUnavailable => "Cloud backups are disabled because "@ + "Rclone"@
            + " is not available."@,
        Error::CloudNotConfigured => "Cloud backups are disabled because no cloud system is configured."@,
        Error::CloudPathInvalid => "Cloud backups are disabled because the backup path is invalid."@,
        Error::UnableToConfigureCloud(e) => "Error: "@ + "Unable to configure cloud."@ + "\n\n"@
            + command_error_text(e),
        Error::CloudConflict => "Error: "@ + "Your local and cloud backups are in conflict. Perform an upload or download to resolve this."@,
        Error::GameDidNotLaunch { why } => "Game failed to launch."@ + "\n\n"@ + "Error: "@ + why@,
    }
}

/// The interface's texts, in English.
#[derive(Clone, Copy, Debug, Default)]
pub struct Translator {}

impl Translator {
    /// The text `ludusavi`.
    pub fn app_name(&self) -> (r: String)
        ensures
            r@ == "Ludusavi"@,
    {
        String::from_str("Ludusavi")
    }

    /// The text `button-comment`.
    pub fn comment_button(&self) -> (r: String)
        ensures
            r@ == "Comment"@,
    {
        String::from_str("Comment")
    }

    /// The text `button-lock`.
    pub fn lock_button(&self) -> (r: String)
        ensures
            r@ == "Lock"@,
    {
        String::from_str("Lock")
    }

    /// The text `button-unlock`.
    pub fn unlock_button(&self) -> (r: String)
        ensures
            r@ == "Unlock"@,
    {
        String::from_str("Unlock")
    }

    /// The text `cloud-not-configured`.
    pub fn cloud_not_configured(&self) -> (r: String)
        ensures
            r@ == "Cloud backups are disabled because no cloud system is configured."@,
    {
        String::from_str("Cloud backups are disabled because no cloud system is configured.")
    }

    /// The text `cloud-path-invalid`.
    pub fn cloud_path_invalid(&self) -> (r: String)
        ensures
            r@ == "Cloud backups are disabled because the backup path is invalid."@,
    {
        String::from_str("Cloud backups are disabled because the backup path is invalid.")
    }

    /// The text `some-entries-failed`.
    pub fn some_entries_failed(&self) -> (r: String)
        ensures
            r@ == "Some entries failed to process; look for [FAILED] in the output for details. Double check whether you can access those files or whether their paths are very long."@,
    {
        String::from_str("Some entries failed to process; look for [FAILED] in the output for details. Double check whether you can access those files or whether their paths are very long.")
    }

    /// The text `badge-failed`.
    pub fn badge_failed(&self) -> (r: String)
        ensures
            r@ == "FAILED"@,
    {
        String::from_str("FAILED")
    }

    /// The text `badge-duplicates`.
    pub fn badge_duplicates(&self) -> (r: String)
        ensures
            r@ == "DUPLICATES"@,
    {
        String::from_str("DUPLICATES")
    }

    /// The text `badge-duplicated`.
    pub fn badge_duplicated(&self) -> (r: String)
        ensures
            r@ == "DUPLICATED"@,
    {
        String::from_str("DUPLICATED")
    }

    /// The text `badge-ignored`.
    pub fn badge_ignored(&self) -> (r: String)
        ensures
            r@ == "IGNORED"@,
    {
        String::from_str("IGNORED")
    }

    /// The text `button-backup`.
    pub fn backup_button(&self) -> (r: String)
        ensures
            r@ == "Back up"@,
    {
        String::from_str("Back up")
    }

    /// The text `button-restore`.
    pub fn restore_button(&self) -> (r: String)
        ensures
            r@ == "Restore"@,
    {
        String::from_str("Restore")
    }

    /// The text `button-nav-backup`.
    pub fn nav_backup_button(&self) -> (r: String)
        ensures
            r@ == "BACKUP MODE"@,
    {
        String::from_str("BACKUP MODE")
    }

    /// The text `button-nav-restore`.
    pub fn nav_restore_button(&self) -> (r: String)
        ensures
            r@ == "RESTORE MODE"@,
    {
        String::from_str("RESTORE MODE")
    }

    /// The text `button-nav-custom-games`.
    pub fn nav_custom_games_button(&self) -> (r: String)
        ensures
            r@ == "CUSTOM GAMES"@,
    {
        String::from_str("CUSTOM GAMES")
    }

    /// The text `button-nav-other`.
    pub fn nav_other_button(&self) -> (r: String)
        ensures
            r@ == "OTHER"@,
    {
        String::from_str("OTHER")
    }

    /// The text `button-customize`.
    pub fn customize_button(&self) -> (r: String)
        ensures
            r@ == "Customize"@,
    {
        String::from_str("Customize")
    }

    /// The text `no-missing-roots`.
    pub fn no_missing_roots(&self) -> (r: String)
        ensures
            r@ == "No additional roots found."@,
    {
        String::from_str("No additional roots found.")
    }

    /// The text `updating-manifest`.
    pub fn updating_manifest(&self) -> (r: String)
        ensures
            r@ == "Updating manifest..."@,
    {
        String::from_str("Updating manifest...")
    }

    /// The text `backups-are-valid`.
    pub fn backups_are_valid(&self) -> (r: String)
        ensures
            r@ == "Your backups are valid."@,
    {
        String::from_str("Your backups are valid.")
    }

    /// The text `backups-are-invalid`.
    pub fn backups_are_invalid(&self) -> (r: String)
        ensures
            r@ == "These games' backups appear to be invalid.\nDo you want to create new full backups for these games?"@,
    {
        String::from_str("These games' backups appear to be invalid.\nDo you want to create new full backups for these games?")
    }

    /// The text `button-add-game`.
    pub fn add_game_button(&self) -> (r: String)
        ensures
            r@ == "Add game"@,
    {
        String::from_str("Add game")
    }

    /// The text `button-continue`.
    pub fn continue_button(&self) -> (r: String)
        ensures
            r@ == "Continue"@,
    {
        String::from_str("Continue")
    }

    /// The text `button-cancel`.
    pub fn cancel_button(&self) -> (r: String)
        ensures
            r@ == "Cancel"@,
    {
        String::from_str("Cancel")
    }

    /// The text `button-cancelling`.
    pub fn cancelling_button(&self) -> (r: String)
        ensures
            r@ == "Cancelling..."@,
    {
        String::from_str("Cancelling...")
    }

    /// The text `button-okay`.
    pub fn okay_button(&self) -> (r: String)
        ensures
            r@ == "Okay"@,
    {
        String::from_str("Okay")
    }

    /// The text `button-select-all`.
    pub fn select_all_button(&self) -> (r: String)
        ensures
            r@ == "Select all"@,
    {
        String::from_str("Select all")
    }

    /// The text `button-deselect-all`.
    pub fn deselect_all_button(&self) -> (r: String)
        ensures
            r@ == "Deselect all"@,
    {
        String::from_str("Deselect all")
    }

    /// The text `button-enable-all`.
    pub fn enable_all_button(&self) -> (r: String)
        ensures
            r@ == "Enable all"@,
    {
        String::from_str("Enable all")
    }

    /// The text `button-disable-all`.
    pub fn disable_all_button(&self) -> (r: String)
        ensures
            r@ == "Disable all"@,
    {
        String::from_str("Disable all")
    }

    /// The text `button-exit`.
    pub fn exit_button(&self) -> (r: String)
        ensures
            r@ == "Exit"@,
    {
        String::from_str("Exit")
    }

    /// The text `button-validate`.
    pub fn validate_button(&self) -> (r: String)
        ensures
            r@ == "Validate"@,
    {
        String::from_str("Validate")
    }

    /// The text `button-override-manifest`.
    pub fn override_manifest_button(&self) -> (r: String)
        ensures
            r@ == "Override manifest"@,
    {
        String::from_str("Override manifest")
    }

    /// The text `button-extend-manifest`.
    pub fn extend_manifest_button(&self) -> (r: String)
        ensures
            r@ == "Extend manifest"@,
    {
        String::from_str("Extend manifest")
    }

    /// The text `button-sort`.
    pub fn sort_button(&self) -> (r: String)
        ensures
            r@ == "Sort"@,
    {
        String::from_str("Sort")
    }

    /// The text `button-download`.
    pub fn download_button(&self) -> (r: String)
        ensures
            r@ == "Download"@,
    {
        String::from_str("Download")
    }

    /// The text `button-upload`.
    pub fn upload_button(&self) -> (r: String)
        ensures
            r@ == "Upload"@,
    {
        String::from_str("Upload")
    }

    /// The text `button-ignore`.
    pub fn ignore_button(&self) -> (r: String)
        ensures
            r@ == "Ignore"@,
    {
        String::from_str("Ignore")
    }

    /// The text `no-roots-are-configured`.
    pub fn no_roots_are_configured(&self) -> (r: String)
        ensures
            r@ == "Add some roots to back up even more data."@,
    {
        String::from_str("Add some roots to back up even more data.")
    }

    /// The text `registry-issue`.
    pub fn registry_issue(&self) -> (r: String)
        ensures
            r@ == "Error: Some registry entries were skipped."@,
    {
        String::from_str("Error: Some registry entries were skipped.")
    }

    /// The text `unable-to-browse-file-system`.
    pub fn unable_to_browse_file_system(&self) -> (r: String)
        ensures
            r@ == "Error: Unable to browse on your system."@,
    {
        String::from_str("Error: Unable to browse on your system.")
    }

    /// The text `unable-to-configure-cloud`.
    pub fn unable_to_configure_cloud(&self) -> (r: String)
        ensures
            r@ == "Unable to configure cloud."@,
    {
        String::from_str("Unable to configure cloud.")
    }

    /// The text `cloud-synchronize-conflict`.
    pub fn cloud_synchronize_conflict(&self) -> (r: String)
        ensures
            r@ == "Your local and cloud backups are in conflict. Perform an upload or download to resolve this."@,
    {
        String::from_str("Your local and cloud backups are in conflict. Perform an upload or download to resolve this.")
    }

    /// The text `field-backup-target`.
    pub fn backup_target_label(&self) -> (r: String)
        ensures
            r@ == "Back up to:"@,
    {
        String::from_str("Back up to:")
    }

    /// The text `field-restore-source`.
    pub fn restore_source_label(&self) -> (r: String)
        ensures
            r@ == "Restore from:"@,
    {
        String::from_str("Restore from:")
    }

    /// The text `field-custom-files`.
    pub fn custom_files_label(&self) -> (r: String)
        ensures
            r@ == "Paths:"@,
    {
        String::from_str("Paths:")
    }

    /// The text `field-custom-registry`.
    pub fn custom_registry_label(&self) -> (r: String)
        ensures
            r@ == "Registry:"@,
    {
        String::from_str("Registry:")
    }

    /// The text `label-installed-name`.
    pub fn custom_installed_name_label(&self) -> (r: String)
        ensures
            r@ == "Installed name"@,
    {
        String::from_str("Installed name")
    }

    /// The text `field-sort`.
    pub fn sort_label(&self) -> (r: String)
        ensures
            r@ == "Sort:"@,
    {
        String::from_str("Sort:")
    }

    /// The text `label-game`.
    pub fn game_label(&self) -> (r: String)
        ensures
            r@ == "Game"@,
    {
        String::from_str("Game")
    }

    /// The text `label-alias`.
    pub fn alias_label(&self) -> (r: String)
        ensures
            r@ == "Alias"@,
    {
        String::from_str("Alias")
    }

    /// The text `label-original-name`.
    pub fn original_name_label(&self) -> (r: String)
        ensures
            r@ == "Original name"@,
    {
        String::from_str("Original name")
    }

    /// The text `label-source`.
    pub fn source_label(&self) -> (r: String)
        ensures
            r@ == "Source"@,
    {
        String::from_str("Source")
    }

    /// The text `label-primary-manifest`.
    pub fn primary_manifest_label(&self) -> (r: String)
        ensures
            r@ == "Primary manifest"@,
    {
        String::from_str("Primary manifest")
    }

    /// The text `label-integration`.
    pub fn integration_label(&self) -> (r: String)
        ensures
            r@ == "Integration"@,
    {
        String::from_str("Integration")
    }

    /// The text `game-name`.
    pub fn custom_game_name_placeholder(&self) -> (r: String)
        ensures
            r@ == "Name"@,
    {
        String::from_str("Name")
    }

    /// The text `game-name`.
    pub fn search_game_name_placeholder(&self) -> (r: String)
        ensures
            r@ == "Name"@,
    {
        String::from_str("Name")
    }

    /// The text `show-disabled-games`.
    pub fn show_disabled_games(&self) -> (r: String)
        ensures
            r@ == "Show disabled games"@,
    {
        String::from_str("Show disabled games")
    }

    /// The text `show-unchanged-games`.
    pub fn show_unchanged_games(&self) -> (r: String)
        ensures
            r@ == "Show unchanged games"@,
    {
        String::from_str("Show unchanged games")
    }

    /// The text `show-unscanned-games`.
    pub fn show_unscanned_games(&self) -> (r: String)
        ensures
            r@ == "Show unscanned games"@,
    {
        String::from_str("Show unscanned games")
    }

    /// The text `explanation-for-exclude-store-screenshots`.
    pub fn explanation_for_exclude_store_screenshots(&self) -> (r: String)
        ensures
            r@ == "In backups, exclude store-specific screenshots"@,
    {
        String::from_str("In backups, exclude store-specific screenshots")
    }

    /// The text `explanation-for-exclude-cloud-games`.
    pub fn explanation_for_exclude_cloud_games(&self) -> (r: String)
        ensures
            r@ == "Do not back up games with cloud support on these platforms"@,
    {
        String::from_str("Do not back up games with cloud support on these platforms")
    }

    /// The text `field-roots`.
    pub fn roots_label(&self) -> (r: String)
        ensures
            r@ == "Roots:"@,
    {
        String::from_str("Roots:")
    }

    /// The text `field-backup-excluded-items`.
    pub fn ignored_items_label(&self) -> (r: String)
        ensures
            r@ == "Backup exclusions:"@,
    {
        String::from_str("Backup exclusions:")
    }

    /// The text `field-backup-format`.
    pub fn backup_format_field(&self) -> (r: String)
        ensures
            r@ == "Format:"@,
    {
        String::from_str("Format:")
    }

    /// The text `field-backup-compression`.
    pub fn backup_compression_field(&self) -> (r: String)
        ensures
            r@ == "Compression:"@,
    {
        String::from_str("Compression:")
    }

    /// The text `field-backup-compression-level`.
    pub fn backup_compression_level_field(&self) -> (r: String)
        ensures
            r@ == "Level:"@,
    {
        String::from_str("Level:")
    }

    /// The text `label-comment`.
    pub fn comment_label(&self) -> (r: String)
        ensures
            r@ == "Comment"@,
    {
        String::from_str("Comment")
    }

    /// The text `label-backup`.
    pub fn backup_label(&self) -> (r: String)
        ensures
            r@ == "Backup"@,
    {
        String::from_str("Backup")
    }

    /// The text `label-scan`.
    pub fn scan_label(&self) -> (r: String)
        ensures
            r@ == "Scan"@,
    {
        String::from_str("Scan")
    }

    /// The text `label-executable`.
    pub fn executable_label(&self) -> (r: String)
        ensures
            r@ == "Executable"@,
    {
        String::from_str("Executable")
    }

    /// The text `label-arguments`.
    pub fn arguments_label(&self) -> (r: String)
        ensures
            r@ == "Arguments"@,
    {
        String::from_str("Arguments")
    }

    /// The text `label-file`.
    pub fn file_label(&self) -> (r: String)
        ensures
            r@ == "File"@,
    {
        String::from_str("File")
    }

    /// The text `label-url`.
    pub fn url_label(&self) -> (r: String)
        ensures
            r@ == "URL"@,
    {
        String::from_str("URL")
    }

    /// The text `label-none`.
    pub fn none_label(&self) -> (r: String)
        ensures
            r@ == "None"@,
    {
        String::from_str("None")
    }

    /// The text `label-custom`.
    pub fn custom_label(&self) -> (r: String)
        ensures
            r@ == "Custom"@,
    {
        String::from_str("Custom")
    }

    /// The text `synchronize-automatically`.
    pub fn synchronize_automatically(&self) -> (r: String)
        ensures
            r@ == "Synchronize automatically"@,
    {
        String::from_str("Synchronize automatically")
    }

    /// The text `prefer-alias-display`.
    pub fn prefer_alias_display(&self) -> (r: String)
        ensures
            r@ == "Display alias instead of original name"@,
    {
        String::from_str("Display alias instead of original name")
    }

    /// The text `skip-unconstructive-backups`.
    pub fn skip_unconstructive_backups(&self) -> (r: String)
        ensures
            r@ == "Skip backup when data would be removed, but not added or updated"@,
    {
        String::from_str("Skip backup when data would be removed, but not added or updated")
    }

    /// The text `total-games`.
    pub fn total_games(&self) -> (r: String)
        ensures
            r@ == "Games"@,
    {
        String::from_str("Games")
    }

    /// The text `label-new`.
    pub fn new_tooltip(&self) -> (r: String)
        ensures
            r@ == "New"@,
    {
        String::from_str("New")
    }

    /// The text `label-updated`.
    pub fn updated_tooltip(&self) -> (r: String)
        ensures
            r@ == "Updated"@,
    {
        String::from_str("Updated")
    }

    /// The text `label-removed`.
    pub fn removed_tooltip(&self) -> (r: String)
        ensures
            r@ == "Removed"@,
    {
        String::from_str("Removed")
    }

    /// The text `suffix-no-confirmation`.
    pub fn suffix_no_confirmation(&self) -> (r: String)
        ensures
            r@ == "no confirmation"@,
    {
        String::from_str("no confirmation")
    }

    /// The text `suffix-restart-required`.
    pub fn suffix_restart_required(&self) -> (r: String)
        ensures
            r@ == "restart required"@,
    {
        String::from_str("restart required")
    }

    /// The text `game-is-unrecognized`.
    pub fn game_is_unrecognized(&self) -> (r: String)
        ensures
            r@ == "Ludusavi does not recognize this game."@,
    {
        String::from_str("Ludusavi does not recognize this game.")
    }

    /// The text `game-has-nothing-to-restore`.
    pub fn game_has_nothing_to_restore(&self) -> (r: String)
        ensures
            r@ == "This game does not have a backup to restore."@,
    {
        String::from_str("This game does not have a backup to restore.")
    }

    /// The text `launch-game-after-error`.
    pub fn launch_game_after_error(&self) -> (r: String)
        ensures
            r@ == "Launch the game anyway?"@,
    {
        String::from_str("Launch the game anyway?")
    }

    /// The text `game-did-not-launch`.
    pub fn game_did_not_launch(&self) -> (r: String)
        ensures
            r@ == "Game failed to launch."@,
    {
        String::from_str("Game failed to launch.")
    }

    /// The text `backup-is-newer-than-current-data`.
    pub fn backup_is_newer_than_current_data(&self) -> (r: String)
        ensures
            r@ == "The existing backup is newer than the current data."@,
    {
        String::from_str("The existing backup is newer than the current data.")
    }

    /// The text `backup-is-older-than-current-data`.
    pub fn backup_is_older_than_current_data(&self) -> (r: String)
        ensures
            r@ == "The existing backup is older than the current data."@,
    {
        String::from_str("The existing backup is older than the current data.")
    }

    /// The text `new-version-check`.
    pub fn new_version_check(&self) -> (r: String)
        ensures
            r@ == "Check for application updates automatically"@,
    {
        String::from_str("Check for application updates automatically")
    }

    /// The text `custom-game-will-override`.
    pub fn custom_game_will_override(&self) -> (r: String)
        ensures
            r@ == "This custom game overrides a manifest entry"@,
    {
        String::from_str("This custom game overrides a manifest entry")
    }

    /// The text `custom-game-will-extend`.
    pub fn custom_game_will_extend(&self) -> (r: String)
        ensures
            r@ == "This custom game extends a manifest entry"@,
    {
        String::from_str("This custom game extends a manifest entry")
    }

    /// The text `operation-will-only-include-listed-games`.
    pub fn operation_will_only_include_listed_games(&self) -> (r: String)
        ensures
            r@ == "This will only process the games that are currently listed"@,
    {
        String::from_str("This will only process the games that are currently listed")
    }

    /// The field label for `theme`.
    pub fn field_theme(&self) -> (r: String)
        ensures
            r@ == "Theme"@ + ":"@,
    {
        self.field("Theme")
    }

    /// The field label for `label-manifest`.
    pub fn manifest_label(&self) -> (r: String)
        ensures
            r@ == "Manifest"@ + ":"@,
    {
        self.field("Manifest")
    }

    /// The field label for `label-checked`.
    pub fn checked_label(&self) -> (r: String)
        ensures
            r@ == "Checked"@ + ":"@,
    {
        self.field("Checked")
    }

    /// The field label for `label-updated`.
    pub fn updated_label(&self) -> (r: String)
        ensures
            r@ == "Updated"@ + ":"@,
    {
        self.field("Updated")
    }

    /// The field label for `label-filter`.
    pub fn filter_label(&self) -> (r: String)
        ensures
            r@ == "Filter"@ + ":"@,
    {
        self.field("Filter")
    }

    /// The field label for `label-threads`.
    pub fn threads_label(&self) -> (r: String)
        ensures
            r@ == "Threads"@ + ":"@,
    {
        self.field("Threads")
    }

    /// The field label for `label-remote`.
    pub fn remote_label(&self) -> (r: String)
        ensures
            r@ == "Remote"@ + ":"@,
    {
        self.field("Remote")
    }

    /// The field label for `label-remote-name`.
    pub fn remote_name_label(&self) -> (r: String)
        ensures
            r@ == "Remote name"@ + ":"@,
    {
        self.field("Remote name")
    }

    /// The field label for `label-folder`.
    pub fn folder_label(&self) -> (r: String)
        ensures
            r@ == "Folder"@ + ":"@,
    {
        self.field("Folder")
    }

    /// The field label for `label-url`.
    pub fn url_field(&self) -> (r: String)
        ensures
            r@ == "URL"@ + ":"@,
    {
        self.field("URL")
    }

    /// The field label for `label-host`.
    pub fn host_label(&self) -> (r: String)
        ensures
            r@ == "Host"@ + ":"@,
    {
        self.field("Host")
    }

    /// The field label for `label-port`.
    pub fn port_label(&self) -> (r: String)
        ensures
            r@ == "Port"@ + ":"@,
    {
        self.field("Port")
    }

    /// The field label for `label-username`.
    pub fn username_label(&self) -> (r: String)
        ensures
            r@ == "Username"@ + ":"@,
    {
        self.field("Username")
    }

    /// The field label for `label-password`.
    pub fn password_label(&self) -> (r: String)
        ensures
            r@ == "Password"@ + ":"@,
    {
        self.field("Password")
    }

    /// The field label for `label-provider`.
    pub fn provider_label(&self) -> (r: String)
        ensures
            r@ == "Provider"@ + ":"@,
    {
        self.field("Provider")
    }

    /// The badge on an entry that was redirected from `original`.
    pub fn badge_redirected_from(&self, original: &str) -> (r: String)
        ensures
            r@ == "FROM: "@ + original@,
    {
        let mut args = LangArgs::new();
        args.set(PATH, original);
        let r = translate_args("FROM: {$path}", &args);
        proof {
            reveal_strlit("FROM: {$path}");
            reveal_strlit("FROM: ");
            reveal_strlit("path");
            reveal_strlit("{$");
            reveal_strlit("}");
            assert(args.items_view() =~= seq![("path"@, original@)]);
            assert("FROM: {$path}"@ =~= "FROM: "@ + placeholder("path"@) + Seq::<char>::empty());
            lemma_fill_one("FROM: "@, "path"@, Seq::<char>::empty(), original@);
            assert("FROM: "@ + original@ + Seq::<char>::empty() =~= "FROM: "@ + original@);
        }
        r
    }

    /// The badge on an entry that is redirected to `path`.
    pub fn badge_redirecting_to(&self, path: &str) -> (r: String)
        ensures
            r@ == "TO: "@ + path@,
    {
        let mut args = LangArgs::new();
        args.set(PATH, path);
        let r = translate_args("TO: {$path}", &args);
        proof {
            reveal_strlit("TO: {$path}");
            reveal_strlit("TO: ");
            reveal_strlit("path");
            reveal_strlit("{$");
            reveal_strlit("}");
            assert(args.items_view() =~= seq![("path"@, path@)]);
            assert("TO: {$path}"@ =~= "TO: "@ + placeholder("path"@) + Seq::<char>::empty());
            lemma_fill_one("TO: "@, "path"@, Seq::<char>::empty(), path@);
            assert("TO: "@ + path@ + Seq::<char>::empty() =~= "TO: "@ + path@);
        }
        r
    }

    /// The button that leads to the Rclone download page.
    pub fn get_rclone_button(&self) -> (r: String)
        ensures
            r@ == "Get "@ + "Rclone"@,
    {
        let mut args = LangArgs::new();
        args.set(APP, "Rclone");
        let r = translate_args("Get {$app}", &args);
        proof {
            reveal_strlit("Get {$app}");
            reveal_strlit("Get ");
            reveal_strlit("app");
            reveal_strlit("{$");
            reveal_strlit("}");
            assert(args.items_view() =~= seq![("app"@, "Rclone"@)]);
            assert("Get {$app}"@ =~= "Get "@ + placeholder("app"@) + Seq::<char>::empty());
            lemma_fill_one("Get "@, "app"@, Seq::<char>::empty(), "Rclone"@);
            assert("Get "@ + "Rclone"@ + Seq::<char>::empty() =~= "Get "@ + "Rclone"@);
        }
        r
    }

    /// The error for a backup folder that could not be prepared; `target` is the folder as shown.
    pub fn cannot_prepare_backup_target(&self, target: &str) -> (r: String)
        ensures
            r@ == "Error: Unable to prepare backup target (either creating or emptying the folder). If you have the folder open in your file browser, try closing it: "@ + target@,
    {
        let mut args = LangArgs::new();
        args.set(PATH, target);
        let r = translate_args("Error: Unable to prepare backup target (either creating or emptying the folder). If you have the folder open in your file browser, try closing it: {$path}", &args);
        proof {
            reveal_strlit("Error: Unable to prepare backup target (either creating or emptying the folder). If you have the folder open in your file browser, try closing it: {$path}");
            reveal_strlit("Error: Unable to prepare backup target (either creating or emptying the folder). If you have the folder open in your file browser, try closing it: ");
            reveal_strlit("path");
            reveal_strlit("{$");
            reveal_strlit("}");
            assert(args.items_view() =~= seq![("path"@, target@)]);
            assert("Error: Unable to prepare backup target (either creating or emptying the folder). If you have the folder open in your file browser, try closing it: {$path}"@ =~= "Error: Unable to prepare backup target (either creating or emptying the folder). If you have the folder open in your file browser, try closing it: "@ + placeholder("path"@) + Seq::<char>::empty());
            lemma_fill_one("Error: Unable to prepare backup target (either creating or emptying the folder). If you have the folder open in your file browser, try closing it: "@, "path"@, Seq::<char>::empty(), target@);
            assert("Error: Unable to prepare backup target (either creating or emptying the folder). If you have the folder open in your file browser, try closing it: "@ + target@ + Seq::<char>::empty() =~= "Error: Unable to prepare backup target (either creating or emptying the folder). If you have the folder open in your file browser, try closing it: "@ + target@);
        }
        r
    }

    /// The error for a restore folder that is missing; `source` is the folder as shown.
    pub fn restoration_source_is_invalid(&self, source: &str) -> (r: String)
        ensures
            r@ == "Error: The restoration source is invalid (either doesn't exist or isn't a directory). Please double check the location: "@ + source@,
    {
        let mut args = LangArgs::new();
        args.set(PATH, source);
        let r = translate_args("Error: The restoration source is invalid (either doesn't exist or isn't a directory). Please double check the location: {$path}", &args);
        proof {
            reveal_strlit("Error: The restoration source is invalid (either doesn't exist or isn't a directory). Please double check the location: {$path}");
            reveal_strlit("Error: The restoration source is invalid (either doesn't exist or isn't a directory). Please double check the location: ");
            reveal_strlit("path");
            reveal_strlit("{$");
            reveal_strlit("}");
            assert(args.items_view() =~= seq![("path"@, source@)]);
            assert("Error: The restoration source is invalid (either doesn't exist or isn't a directory). Please double check the location: {$path}"@ =~= "Error: The restoration source is invalid (either doesn't exist or isn't a directory). Please double check the location: "@ + placeholder("path"@) + Seq::<char>::empty());
            lemma_fill_one("Error: The restoration source is invalid (either doesn't exist or isn't a directory). Please double check the location: "@, "path"@, Seq::<char>::empty(), source@);
            assert("Error: The restoration source is invalid (either doesn't exist or isn't a directory). Please double check the location: "@ + source@ + Seq::<char>::empty() =~= "Error: The restoration source is invalid (either doesn't exist or isn't a directory). Please double check the location: "@ + source@);
        }
        r
    }

    /// `Error: <message>`.
    pub fn prefix_error(&self, message: &str) -> (r: String)
        ensures
            r@ == "Error: "@ + message@,
    {
        let mut args = LangArgs::new();
        args.set(MESSAGE, message);
        let r = translate_args("Error: {$message}", &args);
        proof {
            reveal_strlit("Error: {$message}");
            reveal_strlit("Error: ");
            reveal_strlit("message");
            reveal_strlit("{$");
            reveal_strlit("}");
            assert(args.items_view() =~= seq![("message"@, message@)]);
            assert("Error: {$message}"@ =~= "Error: "@ + placeholder("message"@) + Seq::<char>::empty());
            lemma_fill_one("Error: "@, "message"@, Seq::<char>::empty(), message@);
            assert("Error: "@ + message@ + Seq::<char>::empty() =~= "Error: "@ + message@);
        }
        r
    }

    /// `Warning: <message>`.
    pub fn prefix_warning(&self, message: &str) -> (r: String)
        ensures
            r@ == "Warning: "@ + message@,
    {
        let mut args = LangArgs::new();
        args.set(MESSAGE, message);
        let r = translate_args("Warning: {$message}", &args);
        proof {
            reveal_strlit("Warning: {$message}");
            reveal_strlit("Warning: ");
            reveal_strlit("message");
            reveal_strlit("{$");
            reveal_strlit("}");
            assert(args.items_view() =~= seq![("message"@, message@)]);
            assert("Warning: {$message}"@ =~= "Warning: "@ + placeholder("message"@) + Seq::<char>::empty());
            lemma_fill_one("Warning: "@, "message"@, Seq::<char>::empty(), message@);
            assert("Warning: "@ + message@ + Seq::<char>::empty() =~= "Warning: "@ + message@);
        }
        r
    }

    /// The notice that cloud backups are off because Rclone is missing.
    pub fn rclone_unavailable(&self) -> (r: String)
        ensures
            r@ == "Cloud backups are disabled because "@ + "Rclone"@ + " is not available."@,
    {
        let mut args = LangArgs::new();
        args.set(APP, "Rclone");
        let r = translate_args("Cloud backups are disabled because {$app} is not available.", &args);
        proof {
            reveal_strlit("Cloud backups are disabled because {$app} is not available.");
            reveal_strlit("Cloud backups are disabled because ");
            reveal_strlit("app");
            reveal_strlit("{$");
            reveal_strlit("}");
            reveal_strlit(" is not available.");
            assert(args.items_view() =~= seq![("app"@, "Rclone"@)]);
            assert("Cloud backups are disabled because {$app} is not available."@ =~= "Cloud backups are disabled because "@ + placeholder("app"@) + " is not available."@);
            lemma_fill_one("Cloud backups are disabled because "@, "app"@, " is not available."@, "Rclone"@);
        }
        r
    }

    /// The question before backing up one game.
    pub fn back_up_one_game_confirm(&self, game: &str) -> (r: String)
        ensures
            r@ == "Back up save data for "@ + game@ + "?"@,
    {
        let mut args = LangArgs::new();
        args.set(GAME, game);
        let r = translate_args("Back up save data for {$game}?", &args);
        proof {
            reveal_strlit("Back up save data for {$game}?");
            reveal_strlit("Back up save data for ");
            reveal_strlit("game");
            reveal_strlit("{$");
            reveal_strlit("}");
            reveal_strlit("?");
            assert(args.items_view() =~= seq![("game"@, game@)]);
            assert("Back up save data for {$game}?"@ =~= "Back up save data for "@ + placeholder("game"@) + "?"@);
            lemma_fill_one("Back up save data for "@, "game"@, "?"@, game@);
        }
        r
    }

    /// The notice that backing up one game failed.
    pub fn back_up_one_game_failed(&self, game: &str) -> (r: String)
        ensures
            r@ == "Failed to back up save data for "@ + game@,
    {
        let mut args = LangArgs::new();
        args.set(GAME, game);
        let r = translate_args("Failed to back up save data for {$game}", &args);
        proof {
            reveal_strlit("Failed to back up save data for {$game}");
            reveal_strlit("Failed to back up save data for ");
            reveal_strlit("game");
            reveal_strlit("{$");
            reveal_strlit("}");
            assert(args.items_view() =~= seq![("game"@, game@)]);
            assert("Failed to back up save data for {$game}"@ =~= "Failed to back up save data for "@ + placeholder("game"@) + Seq::<char>::empty());
            lemma_fill_one("Failed to back up save data for "@, "game"@, Seq::<char>::empty(), game@);
            assert("Failed to back up save data for "@ + game@ + Seq::<char>::empty() =~= "Failed to back up save data for "@ + game@);
        }
        r
    }

    /// The question before restoring one game.
    pub fn restore_one_game_confirm(&self, game: &str) -> (r: String)
        ensures
            r@ == "Restore save data for "@ + game@ + "?"@,
    {
        let mut args = LangArgs::new();
        args.set(GAME, game);
        let r = translate_args("Restore save data for {$game}?", &args);
        proof {
            reveal_strlit("Restore save data for {$game}?");
            reveal_strlit("Restore save data for ");
            reveal_strlit("game");
            reveal_strlit("{$");
            reveal_strlit("}");
            reveal_strlit("?");
            assert(args.items_view() =~= seq![("game"@, game@)]);
            assert("Restore save data for {$game}?"@ =~= "Restore save data for "@ + placeholder("game"@) + "?"@);
            lemma_fill_one("Restore save data for "@, "game"@, "?"@, game@);
        }
        r
    }

    /// The notice that restoring one game failed.
    pub fn restore_one_game_failed(&self, game: &str) -> (r: String)
        ensures
            r@ == "Failed to restore save data for "@ + game@,
    {
        let mut args = LangArgs::new();
        args.set(GAME, game);
        let r = translate_args("Failed to restore save data for {$game}", &args);
        proof {
            reveal_strlit("Failed to restore save data for {$game}");
            reveal_strlit("Failed to restore save data for ");
            reveal_strlit("game");
            reveal_strlit("{$");
            reveal_strlit("}");
            assert(args.items_view() =~= seq![("game"@, game@)]);
            assert("Failed to restore save data for {$game}"@ =~= "Failed to restore save data for "@ + placeholder("game"@) + Seq::<char>::empty());
            lemma_fill_one("Failed to restore save data for "@, "game"@, Seq::<char>::empty(), game@);
            assert("Failed to restore save data for "@ + game@ + Seq::<char>::empty() =~= "Failed to restore save data for "@ + game@);
        }
        r
    }

    /// The question that offers the notes of a new release.
    pub fn new_version_available(&self, version: &str) -> (r: String)
        ensures
            r@ == "An application update is available: "@ + version@ + ". Would you like to view the release notes?"@,
    {
        let mut args = LangArgs::new();
        args.set(VERSION, version);
        let r = translate_args("An application update is available: {$version}. Would you like to view the release notes?", &args);
        proof {
            reveal_strlit("An application update is available: {$version}. Would you like to view the release notes?");
            reveal_strlit("An application update is available: ");
            reveal_strlit("version");
            reveal_strlit("{$");
            reveal_strlit("}");
            reveal_strlit(". Would you like to view the release notes?");
            assert(args.items_view() =~= seq![("version"@, version@)]);
            assert("An application update is available: {$version}. Would you like to view the release notes?"@ =~= "An application update is available: "@ + placeholder("version"@) + ". Would you like to view the release notes?"@);
            lemma_fill_one("An application update is available: "@, "version"@, ". Would you like to view the release notes?"@, version@);
        }
        r
    }

    /// The window title: the application's name and version, and the build variant if any.
    pub fn window_title(&self, version: &str, variant: Option<&str>) -> (r: String)
        ensures
            r@ == "Ludusavi"@ + " v"@ + version@ + match variant {
                Some(v) => " ("@ + v@ + ")"@,
                None => Seq::empty(),
            },
    {
        let name = self.app_name();
        let base = name.concat(" v").concat(version);
        match variant {
            Some(variant) => base.concat(" (").concat(variant).concat(")"),
            None => {
                assert(base@ + Seq::<char>::empty() =~= base@);
                base
            },
        }
    }

    /// The name of the wiki that documents where games keep their saves.
    pub fn pcgamingwiki(&self) -> (r: String)
        ensures
            r@ == "PCGamingWiki"@,
    {
        String::from_str("PCGamingWiki")
    }

    /// The message shown for an error.
    pub fn handle_error(&self, error: &Error) -> (r: String)
        ensures
            r@ == error_text(*error),
    {
        match error {
            Error::ConfigInvalid { why } => self.config_is_invalid(why.as_str()),
            Error::ManifestInvalid { why, identifier } => {
                let id: Option<&str> = match identifier {
                    Some(x) => Some(x.as_str()),
                    None => None,
                };
                self.manifest_is_invalid(why.as_str(), id)
            },
            Error::ManifestCannotBeUpdated { identifier } => {
                let id: Option<&str> = match identifier {
                    Some(x) => Some(x.as_str()),
                    None => None,
                };
                self.manifest_cannot_be_updated(id)
            },
            Error::NoSaveDataFound => self.notify_single_game_status(false),
            Error::GameIsUnrecognized => self.game_is_unrecognized(),
            Error::SomeEntriesFailed => self.some_entries_failed(),
            Error::CannotPrepareBackupTarget { path } => self.cannot_prepare_backup_target(path.as_str()),
            Error::RestorationSourceInvalid { path } => self.restoration_source_is_invalid(path.as_str()),
            Error::RegistryIssue => self.registry_issue(),
            Error::UnableToOpenDir(path) => self.unable_to_open_dir(path.as_str()),
            Error::UnableToOpenUrl(url) => self.unable_to_open_url(url.as_str()),
            Error::RcloneUnavailable => self.rclone_unavailable(),
            Error::CloudNotConfigured => self.cloud_not_configured(),
            Error::CloudPathInvalid => self.cloud_path_invalid(),
            Error::UnableToConfigureCloud(error) => {
                let head = self.prefix_error(self.unable_to_configure_cloud().as_str());
                let detail = self.handle_command_error(error);
                head.concat("\n\n").concat(detail.as_str())
            },
            Error::CloudConflict => self.prefix_error(self.cloud_synchronize_conflict().as_str()),
            Error::GameDidNotLaunch { why } => {
                let head = self.game_did_not_launch();
                let detail = self.prefix_error(why.as_str());
                head.concat("\n\n").concat(detail.as_str())
            },
        }
    }

    /// The message shown for a failed command.
    fn handle_command_error(&self, error: &CommandError) -> (r: String)
        ensures
            r@ == command_error_text(*error),
    {
        let mut args = LangArgs::new();
        args.set(COMMAND, error.command());
        proof {
            reveal_strlit("command");
            reveal_strlit("code");
            reveal_strlit("{$");
            reveal_strlit("}");
            lemma_placeholder_shape("command"@);
            lemma_placeholder_shape("code"@);
        }
        match error {
            CommandError::Launched { raw, .. } => {
                let head = translate_args("Command did not launch: {$command}", &args);
                proof {
                    reveal_strlit("Command did not launch: {$command}");
                    reveal_strlit("Command did not launch: ");
                    assert(args.items_view() =~= seq![("command"@, error.command_view())]);
                    assert("Command did not launch: {$command}"@ =~= "Command did not launch: "@
                        + placeholder("command"@) + Seq::<char>::empty());
                    lemma_fill_one(
                        "Command did not launch: "@,
                        "command"@,
                        Seq::<char>::empty(),
                        error.command_view(),
                    );
                    assert("Command did not launch: "@ + error.command_view() + Seq::<char>::empty()
                        =~= "Command did not launch: "@ + error.command_view());
                }
                head.concat("\n\n").concat(raw.as_str())
            },
            CommandError::Terminated { .. } => {
                let r = translate_args("Command terminated abruptly: {$command}", &args);
                proof {
                    reveal_strlit("Command terminated abruptly: {$command}");
                    reveal_strlit("Command terminated abruptly: ");
                    assert(args.items_view() =~= seq![("command"@, error.command_view())]);
                    assert("Command terminated abruptly: {$command}"@ =~= "Command terminated abruptly: "@
                        + placeholder("command"@) + Seq::<char>::empty());
                    lemma_fill_one(
                        "Command terminated abruptly: "@,
                        "command"@,
                        Seq::<char>::empty(),
                        error.command_view(),
                    );
                    assert("Command terminated abruptly: "@ + error.command_view()
                        + Seq::<char>::empty() =~= "Command terminated abruptly: "@
                        + error.command_view());
                }
                r
            },
            CommandError::Exited { code, stdout, stderr, .. } => {
                let code_text = i64_to_decimal(*code as i64);
                args.set(CODE, code_text.as_str());
                let mut out = translate_args("Command failed with code {$code}: {$command}", &args);
                proof {
                    let t = "Command failed with code {$code}: {$command}"@;
                    let lead = "Command failed with code "@;
                    let sep = ": "@;
                    let cmd = error.command_view();
                    let d = code_text@;
                    let pc = placeholder("command"@);
                    let pd = placeholder("code"@);
                    reveal_strlit("Command failed with code {$code}: {$command}");
                    reveal_strlit("Command failed with code ");
                    reveal_strlit(": ");
                    assert(args.items_view() =~= seq![("command"@, cmd), ("code"@, d)]);
                    let a = lead + pd + sep;
                    assert(t =~= a + pc);
                    assert(pc[4] == 'm');
                    assert(pd[4] == 'd');
                    assert forall|i: int| 0 <= i < a.len() implies (#[trigger] a[i] != pc[0] || (i + 4
                        < a.len() && a[i + 4] != pc[4])) by {
                        if i == lead.len() {
                            assert(a[i + 4] == pd[4]);
                        }
                    }
                    lemma_replace_skip_prefix(a, pc, pc, cmd, 4);
                    lemma_replace_at_front(pc, Seq::<char>::empty(), cmd);
                    assert(pc + Seq::<char>::empty() =~= pc);
                    assert(cmd + Seq::<char>::empty() =~= cmd);
                    let items = args.items_view();
                    assert(items.drop_last() =~= seq![("command"@, cmd)]);
                    assert(items.drop_last().drop_last() =~= Seq::<(Seq<char>, Seq<char>)>::empty());
                    assert(fill_template(t, items.drop_last().drop_last()) == t);
                    assert(items.drop_last().last() == ("command"@, cmd));
                    assert(replace_all(t, pc, cmd) == a + replace_all(pc + Seq::<char>::empty(), pc, cmd));
                    assert(replace_all(Seq::<char>::empty(), pc, cmd) == Seq::<char>::empty());
                    assert(replace_all(pc + Seq::<char>::empty(), pc, cmd) == cmd);
                    assert(fill_template(t, items.drop_last()) == a + cmd);
                    assert(a + cmd =~= lead + (pd + (sep + cmd)));
                    lemma_replace_no_first_char(lead, pd, d);
                    assert forall|i: int| 0 <= i < lead.len() implies (#[trigger] lead[i] != pd[0] || (i
                        + 1 < lead.len() && lead[i + 1] != pd[1])) by {}
                    lemma_replace_skip_prefix(lead, pd + (sep + cmd), pd, d, 1);
                    lemma_replace_at_front(pd, sep + cmd, d);
                    assert forall|i: int| 0 <= i < sep.len() implies (#[trigger] sep[i] != pd[0] || (i
                        + 1 < sep.len() && sep[i + 1] != pd[1])) by {}
                    lemma_replace_skip_prefix(sep, cmd, pd, d, 1);
                    assert(out@ == lead + (d + (sep + replace_all(cmd, pd, d))));
                    assert(out@ =~= lead + d + sep + replace_all(cmd, pd, d));
                }
                let ghost base = out@;
                if let Some(stdout) = stdout {
                    out.append("\n\n");
                    out.append(stdout.as_str());
                }
                let ghost with_out = out@;
                assert(with_out == base + match stdout {
                    Some(o) => "\n\n"@ + o@,
                    None => Seq::<char>::empty(),
                });
                if let Some(stderr) = stderr {
                    out.append("\n\n");
                    out.append(stderr.as_str());
                }
                assert(out@ == with_out + match stderr {
                    Some(e) => "\n\n"@ + e@,
                    None => Seq::<char>::empty(),
                });
                out
            },
        }
    }

    fn label(&self, text: &str) -> (r: String)
        ensures
            r@ == "["@ + text@ + "]"@,
    {
        String::from_str("[").concat(text).concat("]")
    }

    /// `[FAILED]`.
    pub fn label_failed(&self) -> (r: String)
        ensures
            r@ == "["@ + "FAILED"@ + "]"@,
    {
        self.label(self.badge_failed().as_str())
    }

    /// `[DUPLICATES]`.
    pub fn label_duplicates(&self) -> (r: String)
        ensures
            r@ == "["@ + "DUPLICATES"@ + "]"@,
    {
        self.label(self.badge_duplicates().as_str())
    }

    /// `[DUPLICATED]`.
    pub fn label_duplicated(&self) -> (r: String)
        ensures
            r@ == "["@ + "DUPLICATED"@ + "]"@,
    {
        self.label(self.badge_duplicated().as_str())
    }

    /// `[IGNORED]`.
    pub fn label_ignored(&self) -> (r: String)
        ensures
            r@ == "["@ + "IGNORED"@ + "]"@,
    {
        self.label(self.badge_ignored().as_str())
    }

    /// A field label: the text followed by a colon.
    pub fn field(&self, text: &str) -> (r: String)
        ensures
            r@ == text@ + ":"@,
    {
        String::from_str(text).concat(":")
    }

    /// `Back up (no confirmation)`.
    pub fn backup_button_no_confirmation(&self) -> (r: String)
        ensures
            r@ == "Back up"@ + " ("@ + "no confirmation"@ + ")"@,
    {
        self.backup_button().concat(" (").concat(self.suffix_no_confirmation().as_str()).concat(")")
    }

    /// `Restore (no confirmation)`.
    pub fn restore_button_no_confirmation(&self) -> (r: String)
        ensures
            r@ == "Restore"@ + " ("@ + "no confirmation"@ + ")"@,
    {
        self.restore_button().concat(" (").concat(self.suffix_no_confirmation().as_str()).concat(")")
    }

    /// The label for custom games: the navigation button's text in title case.
    pub fn custom_games_label(&self) -> (r: String)
        ensures
            r@ == title_case_view("CUSTOM GAMES"@),
    {
        title_case(self.nav_custom_games_button().as_str())
    }

    /// The question before adding roots that a search found, with one line per root.
    pub fn confirm_add_missing_roots(&self, roots: &Vec<MissingRoot>) -> (r: String)
        ensures
            r@ == "Add these roots?"@ + "\n"@ + missing_root_lines(roots@),
    {
        let mut msg = String::from_str("Add these roots?").concat("\n");
        let ghost head = msg@;
        let mut i: usize = 0;
        assert(roots@.take(0) =~= Seq::<MissingRoot>::empty());
        while i < roots.len()
            invariant
                i <= roots@.len(),
                head == "Add these roots?"@ + "\n"@,
                msg@ == head + missing_root_lines(roots@.take(i as int)),
            decreases roots.len() - i,
        {
            let root = &roots[i];
            let ghost before = msg@;
            msg.append("\n[");
            msg.append(self.store(&root.store).as_str());
            msg.append("] ");
            msg.append(root.path.as_str());
            msg.append(" ");
            match (&root.store, &root.lutris_database) {
                (Store::Lutris, Some(db)) => {
                    msg.append(" + ");
                    msg.append(db.as_str());
                },
                _ => {},
            }
            assert(roots@.take(i + 1).drop_last() =~= roots@.take(i as int));
            assert(msg@ =~= before + missing_root_line(roots@[i as int]));
            i = i + 1;
        }
        assert(roots@.take(roots@.len() as int) =~= roots@);
        msg
    }

    /// The error for an invalid configuration file, with the reason.
    pub fn config_is_invalid(&self, why: &str) -> (r: String)
        ensures
            r@ == "Error: The config file is invalid."@ + "\n"@ + why@,
    {
        String::from_str("Error: The config file is invalid.").concat("\n").concat(why)
    }

    /// The error for an invalid manifest, naming it when it has an identifier.
    pub fn manifest_is_invalid(&self, why: &str, identifier: Option<&str>) -> (r: String)
        ensures
            r@ == "Error: The manifest file is invalid."@ + identifier_suffix(str_option_view(identifier)) + "\n"@ + why@,
    {
        let message = String::from_str("Error: The manifest file is invalid.");
        let id = Self::identifier_text(identifier);
        message.concat(id.as_str()).concat("\n").concat(why)
    }

    fn identifier_text(identifier: Option<&str>) -> (r: String)
        ensures
            r@ == identifier_suffix(str_option_view(identifier)),
    {
        match identifier {
            Some(x) => String::from_str(" (").concat(x).concat(")"),
            None => String::new(),
        }
    }

    /// The error for a manifest update that could not be checked.
    pub fn manifest_cannot_be_updated(&self, identifier: Option<&str>) -> (r: String)
        ensures
            r@ == "Error: Unable to check for an update to the manifest file. Is your Internet connection down?"@
                + identifier_suffix(str_option_view(identifier)),
    {
        let message = String::from_str(
            "Error: Unable to check for an update to the manifest file. Is your Internet connection down?",
        );
        let id = Self::identifier_text(identifier);
        message.concat(id.as_str())
    }

    /// The error for a folder that could not be opened; `path` is the folder as resolved.
    pub fn unable_to_open_dir(&self, path: &str) -> (r: String)
        ensures
            r@ == "Error: Unable to open directory:"@ + "\n\n"@ + path@,
    {
        String::from_str("Error: Unable to open directory:").concat("\n\n").concat(path)
    }

    /// The error for a web address that could not be opened.
    pub fn unable_to_open_url(&self, url: &str) -> (r: String)
        ensures
            r@ == "Error: Unable to open URL:"@ + "\n\n"@ + url@,
    {
        String::from_str("Error: Unable to open URL:").concat("\n\n").concat(url)
    }

    /// A number of bytes in the largest binary unit that fits, with two decimals.
    pub fn adjusted_size(&self, bytes: u64) -> (r: String)
        ensures
            r@ == binary_size_text(bytes),
            bytes < 1024 ==> r@ == decimal(bytes as nat) + " B"@,
    {
        byte_unit_binary(bytes)
    }

    /// How many games an operation has processed: `<n> game(s)` when it is done, else
    /// `<processed> of <n> game(s)`.
    pub fn processed_games(&self, status: &OperationStatus) -> (r: String)
        ensures
            r@ == if status.processed_games == status.total_games {
                decimal(status.total_games as nat) + " "@ + games_unit(status.total_games as nat)
            } else {
                decimal(status.processed_games as nat) + " of "@ + decimal(status.total_games as nat)
                    + " "@ + games_unit(status.total_games as nat)
            },
    {
        let n = status.total_games;
        let unit = if n == 1 {
            "game"
        } else {
            "games"
        };
        let total = u64_to_decimal(n as u64);
        if status.processed_all_games() {
            total.concat(" ").concat(unit)
        } else {
            let processed = u64_to_decimal(status.processed_games as u64);
            processed.concat(" of ").concat(total.as_str()).concat(" ").concat(unit)
        }
    }

    /// How many bytes an operation has processed: the total when it is done, else
    /// `<processed> of <total>`, both as adjusted sizes.
    pub fn processed_bytes(&self, status: &OperationStatus) -> (r: String)
        ensures
            status.processed_bytes == status.total_bytes ==> r@ == binary_size_text(status.total_bytes),
            status.processed_bytes != status.total_bytes ==> r@ == binary_size_text(status.processed_bytes)
                + " of "@ + replace_all(
                binary_size_text(status.total_bytes),
                placeholder("processed-size"@),
                binary_size_text(status.processed_bytes),
            ),
    {
        if status.processed_all_bytes() {
            self.adjusted_size(status.total_bytes)
        } else {
            let total = self.adjusted_size(status.total_bytes);
            let processed = self.adjusted_size(status.processed_bytes);
            Self::subset_text(total.as_str(), processed.as_str())
        }
    }

    fn subset_text(total: &str, processed: &str) -> (r: String)
        ensures
            r@ == processed@ + " of "@ + replace_all(total@, placeholder("processed-size"@), processed@),
    {
        let mut args = LangArgs::new();
        args.set(TOTAL_SIZE, total);
        args.set(PROCESSED_SIZE, processed);
        let r = translate_args("{$processed-size} of {$total-size}", &args);
        proof {
            let t = "{$processed-size} of {$total-size}"@;
            let pp = placeholder("processed-size"@);
            let pt = placeholder("total-size"@);
            let sep = " of "@;
            reveal_strlit("{$processed-size} of {$total-size}");
            reveal_strlit(" of ");
            reveal_strlit("processed-size");
            reveal_strlit("total-size");
            reveal_strlit("{$");
            reveal_strlit("}");
            lemma_placeholder_shape("processed-size"@);
            lemma_placeholder_shape("total-size"@);
            let items = args.items_view();
            assert(items =~= seq![("total-size"@, total@), ("processed-size"@, processed@)]);
            let a = pp + sep;
            assert(t =~= a + pt);
            assert(pp[2] == 'p');
            assert(pt[2] == 't');
            assert forall|i: int| 0 <= i < a.len() implies (#[trigger] a[i] != pt[0] || (i + 2
                < a.len() && a[i + 2] != pt[2])) by {}
            lemma_replace_skip_prefix(a, pt, pt, total@, 2);
            lemma_replace_at_front(pt, Seq::<char>::empty(), total@);
            assert(pt + Seq::<char>::empty() =~= pt);
            assert(total@ + Seq::<char>::empty() =~= total@);
            assert(items.drop_last() =~= seq![("total-size"@, total@)]);
            assert(items.drop_last().drop_last() =~= Seq::<(Seq<char>, Seq<char>)>::empty());
            assert(fill_template(t, items.drop_last().drop_last()) == t);
            assert(items.drop_last().last() == ("total-size"@, total@));
            assert(replace_all(t, pt, total@) == a + replace_all(pt + Seq::<char>::empty(), pt, total@));
            assert(replace_all(Seq::<char>::empty(), pt, total@) == Seq::<char>::empty());
            assert(replace_all(pt + Seq::<char>::empty(), pt, total@) == total@);
            assert(fill_template(t, items.drop_last()) == a + total@);
            assert(a + total@ =~= pp + (sep + total@));
            lemma_replace_at_front(pp, sep + total@, processed@);
            assert forall|i: int| 0 <= i < sep.len() implies (#[trigger] sep[i] != pp[0] || (i + 1
                < sep.len() && sep[i + 1] != pp[1])) by {}
            lemma_replace_skip_prefix(sep, total@, pp, processed@, 1);
            assert(r@ =~= processed@ + sep + replace_all(total@, pp, processed@));
        }
        r
    }

    /// `<processed> of <total>` for two counts.
    pub fn processed_subset(&self, total: usize, processed: usize) -> (r: String)
        ensures
            r@ == decimal(processed as nat) + " of "@ + decimal(total as nat),
    {
        let total_text = u64_to_decimal(total as u64);
        let processed_text = u64_to_decimal(processed as u64);
        let r = Self::subset_text(total_text.as_str(), processed_text.as_str());
        proof {
            reveal_strlit("processed-size");
            lemma_placeholder_shape("processed-size"@);
            lemma_decimal_digits(total as nat);
            lemma_replace_no_first_char(total_text@, placeholder("processed-size"@), processed_text@);
        }
        r
    }

    /// The English name of a store.
    pub fn store(&self, store: &Store) -> (r: String)
        ensures
            r@ == store_name(*store),
    {
        match store {
            Store::Ea => String::from_str("EA"),
            Store::Epic => String::from_str("Epic"),
            Store::Gog => String::from_str("GOG"),
            Store::GogGalaxy => String::from_str("GOG Galaxy"),
            Store::Heroic => String::from_str("Heroic"),
            Store::Legendary => String::from_str("Legendary"),
            Store::Lutris => String::from_str("Lutris"),
            Store::Microsoft => String::from_str("Microsoft"),
            Store::Origin => String::from_str("Origin"),
            Store::Prime => String::from_str("Prime Gaming"),
            Store::Steam => String::from_str("Steam"),
            Store::Uplay => String::from_str("Uplay"),
            Store::OtherHome => String::from_str("Home folder"),
            Store::OtherWine => String::from_str("Wine prefix"),
            Store::OtherWindows => String::from_str("Windows drive"),
            Store::OtherLinux => String::from_str("Linux drive"),
            Store::OtherMac => String::from_str("Mac drive"),
            Store::Other => String::from_str("Other"),
        }
    }

    /// The name of a sort key.
    pub fn sort_key(&self, key: &SortKey) -> (r: String)
        ensures
            r@ == match *key {
                SortKey::Name => "Name"@,
                SortKey::Size => "Size"@,
                SortKey::Status => "Status"@,
            },
    {
        match key {
            SortKey::Name => String::from_str("Name"),
            SortKey::Size => String::from_str("Size"),
            SortKey::Status => String::from_str("Status"),
        }
    }

    /// The name of a uniqueness filter; the duplicate one is the badge in title case.
    pub fn filter_uniqueness(&self, filter: Uniqueness) -> (r: String)
        ensures
            r@ == match filter {
                Uniqueness::Unique => "Unique"@,
                Uniqueness::Duplicate => title_case_view("DUPLICATED"@),
            },
    {
        match filter {
            Uniqueness::Unique => String::from_str("Unique"),
            Uniqueness::Duplicate => title_case(self.badge_duplicated().as_str()),
        }
    }

    /// The name of a completeness filter.
    pub fn filter_completeness(&self, filter: Completeness) -> (r: String)
        ensures
            r@ == match filter {
                Completeness::Complete => "Complete"@,
                Completeness::Partial => "Partial"@,
            },
    {
        match filter {
            Completeness::Complete => String::from_str("Complete"),
            Completeness::Partial => String::from_str("Partial"),
        }
    }

    /// The name of an enablement filter.
    pub fn filter_enablement(&self, filter: Enablement) -> (r: String)
        ensures
            r@ == match filter {
                Enablement::Enabled => "Enabled"@,
                Enablement::Disabled => "Disabled"@,
            },
    {
        match filter {
            Enablement::Enabled => String::from_str("Enabled"),
            Enablement::Disabled => String::from_str("Disabled"),
        }
    }

    /// The name of a change filter.
    pub fn filter_freshness(&self, filter: Change) -> (r: String)
        ensures
            r@ == match filter {
                Change::New => "New"@,
                Change::Updated => "Updated"@,
                Change::Unscanned => "Unscanned"@,
                Change::Unchanged => "Unchanged"@,
            },
    {
        match filter {
            Change::New => String::from_str("New"),
            Change::Updated => String::from_str("Updated"),
            Change::Unscanned => String::from_str("Unscanned"),
            Change::Unchanged => String::from_str("Unchanged"),
        }
    }

    /// The name of a backup format.
    pub fn backup_format(&self, key: &BackupFormat) -> (r: String)
        ensures
            r@ == match *key {
                BackupFormat::Simple => "Simple"@,
                BackupFormat::Zip => "Zip"@,
            },
    {
        match key {
            BackupFormat::Simple => String::from_str("Simple"),
            BackupFormat::Zip => String::from_str("Zip"),
        }
    }

    /// The name of a zip compression method.
    pub fn backup_compression(&self, key: &ZipCompression) -> (r: String)
        ensures
            r@ == match *key {
                ZipCompression::Uncompressed => "None"@,
                ZipCompression::Deflate => "Deflate"@,
                ZipCompression::Bzip2 => "Bzip2"@,
                ZipCompression::Zstd => "Zstd"@,
            },
    {
        match key {
            ZipCompression::Uncompressed => String::from_str("None"),
            ZipCompression::Deflate => String::from_str("Deflate"),
            ZipCompression::Bzip2 => String::from_str("Bzip2"),
            ZipCompression::Zstd => String::from_str("Zstd"),
        }
    }

    /// The name of a theme.
    pub fn theme_name(&self, theme: &Theme) -> (r: String)
        ensures
            r@ == match *theme {
                Theme::Light => "Light"@,
                Theme::Dark => "Dark"@,
            },
    {
        match theme {
            Theme::Light => String::from_str("Light"),
            Theme::Dark => String::from_str("Dark"),
        }
    }

    /// `Original name:`.
    pub fn original_name_field(&self) -> (r: String)
        ensures
            r@ == "Original name"@ + ":"@,
    {
        self.field(self.original_name_label().as_str())
    }

    /// `Source:`.
    pub fn source_field(&self) -> (r: String)
        ensures
            r@ == "Source"@ + ":"@,
    {
        self.field(self.source_label().as_str())
    }

    /// The name of a kind of custom entry.
    pub fn custom_game_kind(&self, kind: &CustomGameKind) -> (r: String)
        ensures
            r@ == match *kind {
                CustomGameKind::Game => "Game"@,
                CustomGameKind::Alias => "Alias"@,
            },
    {
        match kind {
            CustomGameKind::Game => self.game_label(),
            CustomGameKind::Alias => self.alias_label(),
        }
    }

    /// `Override max threads (restart required)`.
    pub fn override_max_threads(&self) -> (r: String)
        ensures
            r@ == "Override max threads"@ + " ("@ + "restart required"@ + ")"@,
    {
        String::from_str("Override max threads").concat(" (").concat(
            self.suffix_restart_required().as_str(),
        ).concat(")")
    }

    /// The name of the Wine prefix store.
    pub fn wine_prefix(&self) -> (r: String)
        ensures
            r@ == "Wine prefix"@,
    {
        self.store(&Store::OtherWine)
    }

    /// `Backup:`.
    pub fn backup_field(&self) -> (r: String)
        ensures
            r@ == "Backup"@ + ":"@,
    {
        self.field(self.backup_label().as_str())
    }

    /// `Scan:`.
    pub fn scan_field(&self) -> (r: String)
        ensures
            r@ == "Scan"@ + ":"@,
    {
        self.field(self.scan_label().as_str())
    }

    /// `Rclone:`.
    pub fn rclone_label(&self) -> (r: String)
        ensures
            r@ == "Rclone"@ + ":"@,
    {
        self.field("Rclone")
    }

    fn consider_doing_a_preview(&self) -> (r: String)
        ensures
            r@ == "If you haven't already, consider doing a preview first so that there are no surprises."@,
    {
        String::from_str(
            "If you haven't already, consider doing a preview first so that there are no surprises.",
        )
    }

    /// The question before a backup into `target` (as shown): whether the folder will be
    /// merged into or created, and a hint to preview first when `suggest` is set.
    pub fn confirm_backup(&self, target: &str, target_exists: bool, suggest: bool) -> (r: String)
        ensures
            r@ == confirm_backup_text(target@, target_exists, suggest),
    {
        let action_suffix = if target_exists {
            "New save data will be merged into the target folder:"
        } else {
            "The target folder will be created:"
        };
        let primary = String::from_str("Are you sure you want to proceed with the backup? ").concat(
            action_suffix,
        );
        if suggest {
            primary.concat("\n\n").concat(target).concat("\n\n").concat(
                self.consider_doing_a_preview().as_str(),
            )
        } else {
            primary.concat("\n\n").concat(target)
        }
    }

    /// The question before a restore from `source` (as shown), with a hint to preview
    /// first when `suggest` is set.
    pub fn confirm_restore(&self, source: &str, suggest: bool) -> (r: String)
        ensures
            r@ == "Are you sure you want to proceed with the restoration?\nThis will overwrite any current files with the backups from here:"@
                + "\n\n"@ + source@ + if suggest {
                "\n\n"@ + preview_hint()
            } else {
                Seq::empty()
            },
    {
        let primary = String::from_str(
            "Are you sure you want to proceed with the restoration?\nThis will overwrite any current files with the backups from here:",
        );
        if suggest {
            primary.concat("\n\n").concat(source).concat("\n\n").concat(
                self.consider_doing_a_preview().as_str(),
            )
        } else {
            let r = primary.concat("\n\n").concat(source);
            assert(r@ + Seq::<char>::empty() =~= r@);
            r
        }
    }

    /// Whether save data was found for a single game.
    pub fn notify_single_game_status(&self, found: bool) -> (r: String)
        ensures
            found ==> r@ == "Save data found."@,
            !found ==> r@ == "No save data found."@,
    {
        if found {
            String::from_str("Save data found.")
        } else {
            String::from_str("No save data found.")
        }
    }
}

} // verus!
