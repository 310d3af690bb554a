//! The settings tab of the ACCELA integration: the settings the adapter keeps, what
//! changed since they were saved, and the double-click rule of the results list.
use crate::common::names_view;
use crate::notification::{duration_between, whole_millis};
use crate::text::str_eq;
use std::time::Instant;
use vstd::prelude::*;

verus! {

/// The tabs of the settings view.
#[derive(Clone, Copy, Debug, PartialEq, Eq, Structural)]
pub enum SettingsTab {
    Downloads,
    Integrations,
    Steam,
    Tools,
}

impl SettingsTab {
    /// The tab's title.
    pub fn label(&self) -> (r: &'static str)
        ensures
            r@ == match *self {
                SettingsTab::Downloads => "Downloads"@,
                SettingsTab::Integrations => "Integrations"@,
                SettingsTab::Steam => "Steam"@,
                SettingsTab::Tools => "Tools"@,
            },
    {
        match self {
            SettingsTab::Downloads => "Downloads",
            SettingsTab::Integrations => "Integrations",
            SettingsTab::Steam => "Steam",
            SettingsTab::Tools => "Tools",
        }
    }
}

/// The tools that the settings view can run; Steamless runs on the executable given.
#[derive(Clone, Debug)]
pub enum ToolKind {
    RegisterProtocol,
    UnregisterProtocol,
    RunSlscheevo,
    RunSteamless(String),
}

impl ToolKind {
    /// The adapter's name for the tool.
    pub fn key(&self) -> (r: &'static str)
        ensures
            r@ == match *self {
                ToolKind::RegisterProtocol => "register_protocol"@,
                ToolKind::UnregisterProtocol => "unregister_protocol"@,
                ToolKind::RunSlscheevo => "run_slscheevo"@,
                ToolKind::RunSteamless(_) => "run_steamless"@,
            },
    {
        match self {
            ToolKind::RegisterProtocol => "register_protocol",
            ToolKind::UnregisterProtocol => "unregister_protocol",
            ToolKind::RunSlscheevo => "run_slscheevo",
            ToolKind::RunSteamless(_) => "run_steamless",
        }
    }
}

/// The settings that the ACCELA adapter keeps.
#[derive(Debug)]
pub struct AccelaSettings {
    pub library_mode: bool,
    pub auto_skip_single_choice: bool,
    pub max_downloads: u32,
    pub generate_achievements: bool,
    pub use_steamless: bool,
    pub auto_apply_goldberg: bool,
    pub create_application_shortcuts: bool,
    pub morrenus_api_key: String,
    pub sgdb_api_key: String,
    pub slssteam_mode: bool,
    pub sls_config_management: bool,
    pub prompt_steam_restart: bool,
    pub block_steam_updates: bool,
}

impl Clone for AccelaSettings {
    fn clone(&self) -> (r: Self)
        ensures
            r == *self,
    {
        AccelaSettings {
            library_mode: self.library_mode,
            auto_skip_single_choice: self.auto_skip_single_choice,
            max_downloads: self.max_downloads,
            generate_achievements: self.generate_achievements,
            use_steamless: self.use_steamless,
            auto_apply_goldberg: self.auto_apply_goldberg,
            create_application_shortcuts: self.create_application_shortcuts,
            morrenus_api_key: self.morrenus_api_key.clone(),
            sgdb_api_key: self.sgdb_api_key.clone(),
            slssteam_mode: self.slssteam_mode,
            sls_config_management: self.sls_config_management,
            prompt_steam_restart: self.prompt_steam_restart,
            block_steam_updates: self.block_steam_updates,
        }
    }
}

/// Whether two copies of the settings hold the same values.
pub open spec fn settings_equal(a: AccelaSettings, b: AccelaSettings) -> bool {
    a.library_mode == b.library_mode
        && a.auto_skip_single_choice == b.auto_skip_single_choice
        && a.max_downloads == b.max_downloads
        && a.generate_achievements == b.generate_achievements
        && a.use_steamless == b.use_steamless
        && a.auto_apply_goldberg == b.auto_apply_goldberg
        && a.create_application_shortcuts == b.create_application_shortcuts
        && a.morrenus_api_key@ == b.morrenus_api_key@
        && a.sgdb_api_key@ == b.sgdb_api_key@
        && a.slssteam_mode == b.slssteam_mode
        && a.sls_config_management == b.sls_config_management
        && a.prompt_steam_restart == b.prompt_steam_restart
        && a.block_steam_updates == b.block_steam_updates
}

/// Whether two copies of the settings hold the same values.
pub fn accela_settings_equal(a: &AccelaSettings, b: &AccelaSettings) -> (r: bool)
    ensures
        r == settings_equal(*a, *b),
{
    a.library_mode == b.library_mode
        && a.auto_skip_single_choice == b.auto_skip_single_choice
        && a.max_downloads == b.max_downloads
        && a.generate_achievements == b.generate_achievements
        && a.use_steamless == b.use_steamless
        && a.auto_apply_goldberg == b.auto_apply_goldberg
        && a.create_application_shortcuts == b.create_application_shortcuts
        && a.morrenus_api_key == b.morrenus_api_key
        && a.sgdb_api_key == b.sgdb_api_key
        && a.slssteam_mode == b.slssteam_mode
        && a.sls_config_management == b.sls_config_management
        && a.prompt_steam_restart == b.prompt_steam_restart
        && a.block_steam_updates == b.block_steam_updates
}

/// The state of a search for games.
#[derive(Clone, Debug, PartialEq, Eq)]
pub enum Status {
    Idle,
    Searching,
    Error(String),
}

/// A game that a search found.
#[derive(Clone, Debug)]
pub struct GameResult {
    pub game_id: String,
    pub game_name: String,
    pub uploaded_date: Option<String>,
    pub header_image: Option<String>,
}

/// A value that the settings view edits.
#[derive(Debug)]
pub enum SettingValue {
    Bool(bool),
    Int(i64),
    Str(String),
}

/// A JSON value sent to the adapter for a setting.
#[derive(Debug, PartialEq, Eq)]
pub enum JsonValue {
    Bool(bool),
    Number(u64),
    Text(String),
}

/// One changed setting, ready to send to the adapter; `side_effect` carries the new
/// value of a setting whose change must also be applied to Steam.
#[derive(Debug)]
pub struct PendingChange {
    pub key: String,
    pub value: JsonValue,
    pub side_effect: Option<bool>,
}

/// The views of a list of pending changes.
pub open spec fn changes_view(v: Seq<PendingChange>) -> Seq<(Seq<char>, JsonValue, Option<bool>)> {
    v.map_values(|p: PendingChange| (p.key@, p.value, p.side_effect))
}

/// One entry when `changed`, else none.
#[verifier::opaque]
pub open spec fn change_entry(changed: bool, key: Seq<char>, value: JsonValue, side: Option<bool>) -> Seq<(Seq<char>, JsonValue, Option<bool>)> {
    if changed {
        seq![(key, value, side)]
    } else {
        Seq::empty()
    }
}

/// The changes from `saved` to `cur`, field by field in the settings' order, each with the
/// current value; only the Steam-updates setting carries a side effect.
pub open spec fn pending_view(cur: AccelaSettings, saved: AccelaSettings) -> Seq<(Seq<char>, JsonValue, Option<bool>)> {
    change_entry(cur.library_mode != saved.library_mode, "library_mode"@, JsonValue::Bool(cur.library_mode), None)
        + change_entry(cur.auto_skip_single_choice != saved.auto_skip_single_choice, "auto_skip_single_choice"@, JsonValue::Bool(cur.auto_skip_single_choice), None)
        + change_entry(cur.max_downloads != saved.max_downloads, "max_downloads"@, JsonValue::Number(cur.max_downloads as u64), None)
        + change_entry(cur.generate_achievements != saved.generate_achievements, "generate_achievements"@, JsonValue::Bool(cur.generate_achievements), None)
        + change_entry(cur.use_steamless != saved.use_steamless, "use_steamless"@, JsonValue::Bool(cur.use_steamless), None)
        + change_entry(cur.auto_apply_goldberg != saved.auto_apply_goldberg, "auto_apply_goldberg"@, JsonValue::Bool(cur.auto_apply_goldberg), None)
        + change_entry(cur.create_application_shortcuts != saved.create_application_shortcuts, "create_application_shortcuts"@, JsonValue::Bool(cur.create_application_shortcuts), None)
        + change_entry(cur.morrenus_api_key@ != saved.morrenus_api_key@, "morrenus_api_key"@, JsonValue::Text(cur.morrenus_api_key), None)
        + change_entry(cur.sgdb_api_key@ != saved.sgdb_api_key@, "sgdb_api_key"@, JsonValue::Text(cur.sgdb_api_key), None)
        + change_entry(cur.slssteam_mode != saved.slssteam_mode, "slssteam_mode"@, JsonValue::Bool(cur.slssteam_mode), None)
        + change_entry(cur.sls_config_management != saved.sls_config_management, "sls_config_management"@, JsonValue::Bool(cur.sls_config_management), None)
        + change_entry(cur.prompt_steam_restart != saved.prompt_steam_restart, "prompt_steam_restart"@, JsonValue::Bool(cur.prompt_steam_restart), None)
        + change_entry(cur.block_steam_updates != saved.block_steam_updates, "block_steam_updates"@, JsonValue::Bool(cur.block_steam_updates), Some(cur.block_steam_updates))
}

/// The setting `key` set to `value`, when `key` names a setting of that type; a whole
/// number for the download limit is clamped to 0..=255. Any other pair changes nothing.
pub open spec fn updated_settings(s: AccelaSettings, key: Seq<char>, value: SettingValue) -> AccelaSettings {
    match value {
        SettingValue::Bool(b) => if key == "library_mode"@ {
            AccelaSettings { library_mode: b, ..s }
        } else if key == "auto_skip_single_choice"@ {
            AccelaSettings { auto_skip_single_choice: b, ..s }
        } else if key == "generate_achievements"@ {
            AccelaSettings { generate_achievements: b, ..s }
        } else if key == "use_steamless"@ {
            AccelaSettings { use_steamless: b, ..s }
        } else if key == "auto_apply_goldberg"@ {
            AccelaSettings { auto_apply_goldberg: b, ..s }
        } else if key == "create_application_shortcuts"@ {
            AccelaSettings { create_application_shortcuts: b, ..s }
        } else if key == "slssteam_mode"@ {
            AccelaSettings { slssteam_mode: b, ..s }
        } else if key == "sls_config_management"@ {
            AccelaSettings { sls_config_management: b, ..s }
        } else if key == "prompt_steam_restart"@ {
            AccelaSettings { prompt_steam_restart: b, ..s }
        } else if key == "block_steam_updates"@ {
            AccelaSettings { block_steam_updates: b, ..s }
        } else {
            s
        },
        SettingValue::Int(n) => if key == "max_downloads"@ {
            AccelaSettings {
                max_downloads: if n < 0 {
                    0
                } else if n > 255 {
                    255
                } else {
                    n as u32
                },
                ..s
            }
        } else {
            s
        },
        SettingValue::Str(v) => if key == "morrenus_api_key"@ {
            AccelaSettings { morrenus_api_key: v, ..s }
        } else if key == "sgdb_api_key"@ {
            AccelaSettings { sgdb_api_key: v, ..s }
        } else {
            s
        },
    }
}

/// Two clicks on the same result closer together than this many milliseconds make a
/// double click.
pub const DOUBLE_CLICK_MILLIS: u128 = 400;

/// Whether a click on `game_id` completes a double click: the previous click, if any,
/// was on the same result, `elapsed` whole milliseconds ago, and that is less than
/// the threshold.
pub open spec fn double_click(previous: Option<Seq<char>>, game_id: Seq<char>, elapsed: u128) -> bool {
    previous == Some(game_id) && elapsed < DOUBLE_CLICK_MILLIS
}

/// The game id of a remembered click, if any.
pub open spec fn clicked_id(last: Option<(String, Instant)>) -> Option<Seq<char>> {
    match last {
        Some(p) => Some(p.0@),
        None => None,
    }
}

/// Whether a click on `game_id`, `elapsed` whole milliseconds after the click on
/// `previous`, completes a double click.
pub fn is_double_click(previous: Option<&str>, game_id: &str, elapsed: u128) -> (r: bool)
    ensures
        r == double_click(
            match previous {
                Some(p) => Some(p@),
                None => None,
            },
            game_id@,
            elapsed,
        ),
{
    match previous {
        Some(p) => str_eq(p, game_id) && elapsed < DOUBLE_CLICK_MILLIS,
        None => false,
    }
}

/// What the settings view of the ACCELA integration holds.
pub struct AccelaScreen {
    pub accela_path: String,
    pub python_path: String,
    pub query: String,
    pub results: Vec<GameResult>,
    pub status: Status,
    /// The last click on a result: its game id and when it happened.
    pub last_click: Option<(String, Instant)>,
    /// The settings as edited.
    pub settings: Option<AccelaSettings>,
    /// The settings as last saved.
    pub settings_saved: Option<AccelaSettings>,
    pub settings_tab: SettingsTab,
    pub api_key_visible: bool,
    pub sgdb_key_visible: bool,
    pub tool_busy: Option<String>,
    pub tool_message: Option<String>,
}

#[verifier::rlimit(100)]
fn set_bool_setting(s: &mut AccelaSettings, key: &str, b: bool)
    ensures
        *final(s) == updated_settings(*old(s), key@, SettingValue::Bool(b)),
{
    if str_eq(key, "library_mode") {
        s.library_mode = b;
    } else if str_eq(key, "auto_skip_single_choice") {
        s.auto_skip_single_choice = b;
    } else if str_eq(key, "generate_achievements") {
        s.generate_achievements = b;
    } else if str_eq(key, "use_steamless") {
        s.use_steamless = b;
    } else if str_eq(key, "auto_apply_goldberg") {
        s.auto_apply_goldberg = b;
    } else if str_eq(key, "create_application_shortcuts") {
        s.create_application_shortcuts = b;
    } else if str_eq(key, "slssteam_mode") {
        s.slssteam_mode = b;
    } else if str_eq(key, "sls_config_management") {
        s.sls_config_management = b;
    } else if str_eq(key, "prompt_steam_restart") {
        s.prompt_steam_restart = b;
    } else if str_eq(key, "block_steam_updates") {
        s.block_steam_updates = b;
    }
}

fn push_change(out: &mut Vec<PendingChange>, changed: bool, key: &str, value: JsonValue, side_effect: Option<bool>)
    ensures
        changes_view(final(out)@) == changes_view(old(out)@) + change_entry(changed, key@, value, side_effect),
{
    reveal(change_entry);
    let ghost before = out@;
    if changed {
        out.push(PendingChange { key: String::from_str(key), value, side_effect });
        assert(changes_view(out@) =~= changes_view(before) + seq![(key@, value, side_effect)]);
    } else {
        assert(changes_view(out@) =~= changes_view(before) + Seq::empty());
    }
}

impl AccelaScreen {
    /// Sets one edited setting, when settings are loaded.
    #[verifier::rlimit(40)]
    pub fn update_setting(&mut self, key: &str, value: SettingValue)
        ensures
            final(self).settings == match old(self).settings {
                Some(s) => Some(updated_settings(s, key@, value)),
                None => None,
            },
            final(self).settings_saved == old(self).settings_saved,
    {
        match &mut self.settings {
            None => {},
            Some(s) => match value {
                SettingValue::Bool(b) => set_bool_setting(s, key, b),
                SettingValue::Int(n) => {
                    if str_eq(key, "max_downloads") {
                        s.max_downloads = if n < 0 {
                            0
                        } else if n > 255 {
                            255
                        } else {
                            n as u32
                        };
                    }
                },
                SettingValue::Str(v) => {
                    if str_eq(key, "morrenus_api_key") {
                        s.morrenus_api_key = v;
                    } else if str_eq(key, "sgdb_api_key") {
                        s.sgdb_api_key = v;
                    }
                },
            },
        }
    }

    /// Whether the edited settings differ from the saved ones.
    pub fn settings_dirty(&self) -> (r: bool)
        ensures
            r == match (self.settings, self.settings_saved) {
                (Some(cur), Some(saved)) => !settings_equal(cur, saved),
                _ => false,
            },
    {
        match (&self.settings, &self.settings_saved) {
            (Some(cur), Some(saved)) => !accela_settings_equal(cur, saved),
            _ => false,
        }
    }

    /// The changed settings to send to the adapter on save, in the settings' order.
    #[verifier::rlimit(40)]
    pub fn pending_changes(&self) -> (r: Vec<PendingChange>)
        ensures
            changes_view(r@) == match (self.settings, self.settings_saved) {
                (Some(cur), Some(saved)) => pending_view(cur, saved),
                _ => Seq::empty(),
            },
    {
        let (cur, saved) = match (&self.settings, &self.settings_saved) {
            (Some(c), Some(s)) => (c, s),
            _ => {
                let v: Vec<PendingChange> = Vec::new();
                assert(changes_view(v@) =~= Seq::empty());
                return v;
            },
        };
        let mut out: Vec<PendingChange> = Vec::new();
        push_change(&mut out, cur.library_mode != saved.library_mode, "library_mode", JsonValue::Bool(cur.library_mode), None);
        push_change(&mut out, cur.auto_skip_single_choice != saved.auto_skip_single_choice, "auto_skip_single_choice", JsonValue::Bool(cur.auto_skip_single_choice), None);
        push_change(&mut out, cur.max_downloads != saved.max_downloads, "max_downloads", JsonValue::Number(cur.max_downloads as u64), None);
        push_change(&mut out, cur.generate_achievements != saved.generate_achievements, "generate_achievements", JsonValue::Bool(cur.generate_achievements), None);
        push_change(&mut out, cur.use_steamless != saved.use_steamless, "use_steamless", JsonValue::Bool(cur.use_steamless), None);
        push_change(&mut out, cur.auto_apply_goldberg != saved.auto_apply_goldberg, "auto_apply_goldberg", JsonValue::Bool(cur.auto_apply_goldberg), None);
        push_change(&mut out, cur.create_application_shortcuts != saved.create_application_shortcuts, "create_application_shortcuts", JsonValue::Bool(cur.create_application_shortcuts), None);
        push_change(&mut out, cur.morrenus_api_key != saved.morrenus_api_key, "morrenus_api_key", JsonValue::Text(cur.morrenus_api_key.clone()), None);
        push_change(&mut out, cur.sgdb_api_key != saved.sgdb_api_key, "sgdb_api_key", JsonValue::Text(cur.sgdb_api_key.clone()), None);
        push_change(&mut out, cur.slssteam_mode != saved.slssteam_mode, "slssteam_mode", JsonValue::Bool(cur.slssteam_mode), None);
        push_change(&mut out, cur.sls_config_management != saved.sls_config_management, "sls_config_management", JsonValue::Bool(cur.sls_config_management), None);
        push_change(&mut out, cur.prompt_steam_restart != saved.prompt_steam_restart, "prompt_steam_restart", JsonValue::Bool(cur.prompt_steam_restart), None);
        push_change(&mut out, cur.block_steam_updates != saved.block_steam_updates, "block_steam_updates", JsonValue::Bool(cur.block_steam_updates), Some(cur.block_steam_updates));
        assert(changes_view(out@) =~= pending_view(*cur, *saved));
        out
    }

    /// Records a click on the result `game_id` and says whether it completes a double
    /// click: the same result clicked again less than the threshold after the last
    /// click, as `is_double_click` decides over the time that passed. A double click is
    /// forgotten once reported; any other click is remembered.
    pub fn register_click(&mut self, game_id: &str) -> (r: bool)
        ensures
            exists|elapsed: u128|
                r == #[trigger] double_click(clicked_id(old(self).last_click), game_id@, elapsed),
            r ==> final(self).last_click is None,
            !r ==> (final(self).last_click matches Some(p) && p.0@ == game_id@),
            final(self).settings == old(self).settings,
            final(self).settings_saved == old(self).settings_saved,
    {
        let now = crate::notification::instant_now();
        let is_double = match &self.last_click {
            Some((prev, t)) => {
                let elapsed = whole_millis(&duration_between(t, &now));
                is_double_click(Some(prev.as_str()), game_id, elapsed)
            },
            None => is_double_click(None, game_id, 0),
        };
        if is_double {
            self.last_click = None;
        } else {
            self.last_click = Some((String::from_str(game_id), now));
        }
        is_double
    }
}

/// What the library reads of the event that the adapter printed in reply to a command:
/// its name and the text fields that replies carry, each absent when the reply has no
/// such text field.
#[derive(Clone, Debug)]
pub struct AdapterEvent {
    pub event: Option<String>,
    pub message: Option<String>,
    pub zip: Option<String>,
    pub note: Option<String>,
    /// The reply carries a `values` field.
    pub has_values: bool,
}

/// The view of an optional text.
pub open spec fn opt_text(o: Option<String>) -> Option<Seq<char>> {
    match o {
        Some(s) => Some(s@),
        None => None,
    }
}

/// What Rust's `Debug` formatting shows of an optional text (`{:?}` of an
/// `Option<&str>`).
pub uninterp spec fn debug_text(o: Option<Seq<char>>) -> Seq<char>;

/// Formats `o` with `{:?}`; the result is named by `debug_text`.
#[verifier::external_body]
fn debug_option(o: &Option<String>) -> (r: String)
    ensures
        r@ == debug_text(opt_text(*o)),
{
    format!("{:?}", o.as_deref())
}

/// The text of an error reply: its message, or "unknown error" when it has none.
pub open spec fn error_text(event: AdapterEvent) -> Seq<char> {
    match event.message {
        Some(m) => m@,
        None => "unknown error"@,
    }
}

/// What a reply says when it is not the expected one: the message of an error reply;
/// otherwise that the event was unexpected, with its name as `Debug` shows it.
pub open spec fn unexpected_text(event: AdapterEvent) -> Seq<char> {
    if opt_text(event.event) == Some("error"@) {
        error_text(event)
    } else {
        "unexpected event: "@ + debug_text(opt_text(event.event))
    }
}

/// The message of an error reply, or "unknown error".
pub fn extract_error(event: &AdapterEvent) -> (r: String)
    ensures
        r@ == error_text(*event),
{
    match &event.message {
        Some(m) => m.clone(),
        None => String::from_str("unknown error"),
    }
}

/// Checks that a reply is the event `expected`; otherwise gives the error that the reply
/// stands for.
pub fn expect_event(event: &AdapterEvent, expected: &str) -> (r: Result<(), String>)
    ensures
        r is Ok <==> opt_text(event.event) == Some(expected@),
        r matches Err(e) ==> e@ == unexpected_text(*event),
{
    match &event.event {
        Some(name) => {
            if str_eq(name.as_str(), expected) {
                return Ok(());
            }
            if str_eq(name.as_str(), "error") {
                return Err(extract_error(event));
            }
        },
        None => {},
    }
    let shown = debug_option(&event.event);
    Err(String::from_str("unexpected event: ").concat(shown.as_str()))
}

/// The archive named by a `manifest_ready` reply.
pub fn manifest_reply(event: &AdapterEvent) -> (r: Result<String, String>)
    ensures
        opt_text(event.event) == Some("manifest_ready"@) ==> match event.zip {
            Some(z) => r == Ok::<String, String>(z),
            None => r matches Err(e) && e@ == "manifest_ready missing 'zip' field"@,
        },
        opt_text(event.event) != Some("manifest_ready"@) ==> (r matches Err(e) && e@
            == unexpected_text(*event)),
{
    match expect_event(event, "manifest_ready") {
        Err(e) => Err(e),
        Ok(()) => match &event.zip {
            Some(z) => Ok(z.clone()),
            None => Err(String::from_str("manifest_ready missing 'zip' field")),
        },
    }
}

/// The note of a `tool_done` reply, or "done" when it has none.
pub fn tool_reply(event: &AdapterEvent) -> (r: Result<String, String>)
    ensures
        opt_text(event.event) == Some("tool_done"@) ==> (r matches Ok(n) && n@ == match event.note {
            Some(n) => n@,
            None => "done"@,
        }),
        opt_text(event.event) != Some("tool_done"@) ==> (r matches Err(e) && e@ == unexpected_text(
            *event,
        )),
{
    match expect_event(event, "tool_done") {
        Err(e) => Err(e),
        Ok(()) => match &event.note {
            Some(n) => Ok(n.clone()),
            None => Ok(String::from_str("done")),
        },
    }
}

/// Checks that a `settings` reply carries the settings' values.
pub fn settings_reply(event: &AdapterEvent) -> (r: Result<(), String>)
    ensures
        opt_text(event.event) == Some("settings"@) ==> if event.has_values {
            r is Ok
        } else {
            r matches Err(e) && e@ == "settings event missing 'values'"@
        },
        opt_text(event.event) != Some("settings"@) ==> (r matches Err(e) && e@ == unexpected_text(
            *event,
        )),
{
    match expect_event(event, "settings") {
        Err(e) => Err(e),
        Ok(()) => if event.has_values {
            Ok(())
        } else {
            Err(String::from_str("settings event missing 'values'"))
        },
    }
}

/// The value the adapter is sent for the setting named `key` of `s`; none for a name
/// that is not one of the settings.
#[verifier::opaque]
pub open spec fn setting_json(s: AccelaSettings, key: Seq<char>) -> Option<JsonValue> {
    if key == "library_mode"@ {
        Some(JsonValue::Bool(s.library_mode))
    } else if key == "auto_skip_single_choice"@ {
        Some(JsonValue::Bool(s.auto_skip_single_choice))
    } else if key == "max_downloads"@ {
        Some(JsonValue::Number(s.max_downloads as u64))
    } else if key == "generate_achievements"@ {
        Some(JsonValue::Bool(s.generate_achievements))
    } else if key == "use_steamless"@ {
        Some(JsonValue::Bool(s.use_steamless))
    } else if key == "auto_apply_goldberg"@ {
        Some(JsonValue::Bool(s.auto_apply_goldberg))
    } else if key == "create_application_shortcuts"@ {
        Some(JsonValue::Bool(s.create_application_shortcuts))
    } else if key == "morrenus_api_key"@ {
        Some(JsonValue::Text(s.morrenus_api_key))
    } else if key == "sgdb_api_key"@ {
        Some(JsonValue::Text(s.sgdb_api_key))
    } else if key == "slssteam_mode"@ {
        Some(JsonValue::Bool(s.slssteam_mode))
    } else if key == "sls_config_management"@ {
        Some(JsonValue::Bool(s.sls_config_management))
    } else if key == "prompt_steam_restart"@ {
        Some(JsonValue::Bool(s.prompt_steam_restart))
    } else if key == "block_steam_updates"@ {
        Some(JsonValue::Bool(s.block_steam_updates))
    } else {
        None
    }
}

/// Whether two values would be sent as the same JSON: texts by their characters.
pub open spec fn same_json(a: Option<JsonValue>, b: Option<JsonValue>) -> bool {
    match (a, b) {
        (Some(JsonValue::Text(x)), Some(JsonValue::Text(y))) => x@ == y@,
        _ => a == b,
    }
}

/// Whether some change in `changes` is for the setting `key`.
pub open spec fn changes_key(changes: Seq<(Seq<char>, JsonValue, Option<bool>)>, key: Seq<char>) -> bool {
    exists|i: int| 0 <= i < changes.len() && (#[trigger] changes[i]).0 == key
}

/// Whether each change in `changes` sends a setting's value in `cur`, and that value
/// differs from the one in `saved`.
#[verifier::opaque]
pub open spec fn sends_edited_values(
    cur: AccelaSettings,
    saved: AccelaSettings,
    changes: Seq<(Seq<char>, JsonValue, Option<bool>)>,
) -> bool {
    forall|i: int|
        0 <= i < changes.len() ==> setting_json(cur, (#[trigger] changes[i]).0) == Some(changes[i].1)
            && !same_json(setting_json(saved, changes[i].0), Some(changes[i].1))
}

proof fn lemma_sends_edited_values_concat(
    cur: AccelaSettings,
    saved: AccelaSettings,
    a: Seq<(Seq<char>, JsonValue, Option<bool>)>,
    b: Seq<(Seq<char>, JsonValue, Option<bool>)>,
)
    requires
        sends_edited_values(cur, saved, a),
        sends_edited_values(cur, saved, b),
    ensures
        sends_edited_values(cur, saved, a + b),
{
    reveal(sends_edited_values);
    assert forall|i: int| 0 <= i < (a + b).len() implies setting_json(cur, (#[trigger] (a + b)[i]).0)
        == Some((a + b)[i].1) && !same_json(setting_json(saved, (a + b)[i].0), Some((a + b)[i].1)) by {
        if i < a.len() {
            assert((a + b)[i] == a[i]);
        } else {
            assert((a + b)[i] == b[i - a.len()]);
        }
    }
}

proof fn lemma_changes_key_concat(
    a: Seq<(Seq<char>, JsonValue, Option<bool>)>,
    b: Seq<(Seq<char>, JsonValue, Option<bool>)>,
    k: Seq<char>,
)
    ensures
        changes_key(a, k) || changes_key(b, k) ==> changes_key(a + b, k),
{
    if changes_key(a, k) {
        let i = choose|i: int| 0 <= i < a.len() && (#[trigger] a[i]).0 == k;
        assert((a + b)[i] == a[i]);
    } else if changes_key(b, k) {
        let i = choose|i: int| 0 <= i < b.len() && (#[trigger] b[i]).0 == k;
        assert((a + b)[a.len() + i] == b[i]);
    }
}

proof fn lemma_entry_sends_edited_value(
    cur: AccelaSettings,
    saved: AccelaSettings,
    changed: bool,
    key: Seq<char>,
    value: JsonValue,
    saved_value: JsonValue,
    side: Option<bool>,
)
    requires
        setting_json(cur, key) == Some(value),
        setting_json(saved, key) == Some(saved_value),
        changed == !same_json(Some(saved_value), Some(value)),
    ensures
        sends_edited_values(cur, saved, change_entry(changed, key, value, side)),
        changed ==> changes_key(change_entry(changed, key, value, side), key),
{
    reveal(sends_edited_values);
    reveal(change_entry);
    if changed {
        assert(change_entry(changed, key, value, side)[0].0 == key);
    }
}

proof fn lemma_setting_json_names(s: AccelaSettings)
    ensures
        setting_json(s, "library_mode"@) == Some(JsonValue::Bool(s.library_mode)),
        setting_json(s, "auto_skip_single_choice"@) == Some(JsonValue::Bool(s.auto_skip_single_choice)),
        setting_json(s, "max_downloads"@) == Some(JsonValue::Number(s.max_downloads as u64)),
        setting_json(s, "generate_achievements"@) == Some(JsonValue::Bool(s.generate_achievements)),
        setting_json(s, "use_steamless"@) == Some(JsonValue::Bool(s.use_steamless)),
        setting_json(s, "auto_apply_goldberg"@) == Some(JsonValue::Bool(s.auto_apply_goldberg)),
        setting_json(s, "create_application_shortcuts"@) == Some(JsonValue::Bool(s.create_application_shortcuts)),
        setting_json(s, "morrenus_api_key"@) == Some(JsonValue::Text(s.morrenus_api_key)),
        setting_json(s, "sgdb_api_key"@) == Some(JsonValue::Text(s.sgdb_api_key)),
        setting_json(s, "slssteam_mode"@) == Some(JsonValue::Bool(s.slssteam_mode)),
        setting_json(s, "sls_config_management"@) == Some(JsonValue::Bool(s.sls_config_management)),
        setting_json(s, "prompt_steam_restart"@) == Some(JsonValue::Bool(s.prompt_steam_restart)),
        setting_json(s, "block_steam_updates"@) == Some(JsonValue::Bool(s.block_steam_updates)),
{
    reveal(setting_json);
    reveal_strlit("library_mode");
    reveal_strlit("auto_skip_single_choice");
    reveal_strlit("max_downloads");
    reveal_strlit("generate_achievements");
    reveal_strlit("use_steamless");
    reveal_strlit("auto_apply_goldberg");
    reveal_strlit("create_application_shortcuts");
    reveal_strlit("morrenus_api_key");
    reveal_strlit("sgdb_api_key");
    reveal_strlit("slssteam_mode");
    reveal_strlit("sls_config_management");
    reveal_strlit("prompt_steam_restart");
    reveal_strlit("block_steam_updates");
    assert("library_mode"@.len() == 12 && "library_mode"@[0] == 'l');
    assert("auto_skip_single_choice"@.len() == 23 && "auto_skip_single_choice"@[0] == 'a');
    assert("max_downloads"@.len() == 13 && "max_downloads"@[0] == 'm');
    assert("generate_achievements"@.len() == 21 && "generate_achievements"@[0] == 'g');
    assert("use_steamless"@.len() == 13 && "use_steamless"@[0] == 'u');
    assert("auto_apply_goldberg"@.len() == 19 && "auto_apply_goldberg"@[0] == 'a');
    assert("create_application_shortcuts"@.len() == 28 && "create_application_shortcuts"@[0] == 'c');
    assert("morrenus_api_key"@.len() == 16 && "morrenus_api_key"@[0] == 'm');
    assert("sgdb_api_key"@.len() == 12 && "sgdb_api_key"@[0] == 's');
    assert("slssteam_mode"@.len() == 13 && "slssteam_mode"@[0] == 's');
    assert("sls_config_management"@.len() == 21 && "sls_config_management"@[0] == 's');
    assert("prompt_steam_restart"@.len() == 20 && "prompt_steam_restart"@[0] == 'p');
    assert("block_steam_updates"@.len() == 19 && "block_steam_updates"@[0] == 'b');
}

proof fn lemma_pending_pieces(cur: AccelaSettings, saved: AccelaSettings)
    ensures
        pending_view(cur, saved) === change_entry(cur.library_mode != saved.library_mode, "library_mode"@, JsonValue::Bool(cur.library_mode), None)
            + change_entry(cur.auto_skip_single_choice != saved.auto_skip_single_choice, "auto_skip_single_choice"@, JsonValue::Bool(cur.auto_skip_single_choice), None)
            + change_entry(cur.max_downloads != saved.max_downloads, "max_downloads"@, JsonValue::Number(cur.max_downloads as u64), None)
            + change_entry(cur.generate_achievements != saved.generate_achievements, "generate_achievements"@, JsonValue::Bool(cur.generate_achievements), None)
            + change_entry(cur.use_steamless != saved.use_steamless, "use_steamless"@, JsonValue::Bool(cur.use_steamless), None)
            + change_entry(cur.auto_apply_goldberg != saved.auto_apply_goldberg, "auto_apply_goldberg"@, JsonValue::Bool(cur.auto_apply_goldberg), None)
            + change_entry(cur.create_application_shortcuts != saved.create_application_shortcuts, "create_application_shortcuts"@, JsonValue::Bool(cur.create_application_shortcuts), None)
            + change_entry(cur.morrenus_api_key@ != saved.morrenus_api_key@, "morrenus_api_key"@, JsonValue::Text(cur.morrenus_api_key), None)
            + change_entry(cur.sgdb_api_key@ != saved.sgdb_api_key@, "sgdb_api_key"@, JsonValue::Text(cur.sgdb_api_key), None)
            + change_entry(cur.slssteam_mode != saved.slssteam_mode, "slssteam_mode"@, JsonValue::Bool(cur.slssteam_mode), None)
            + change_entry(cur.sls_config_management != saved.sls_config_management, "sls_config_management"@, JsonValue::Bool(cur.sls_config_management), None)
            + change_entry(cur.prompt_steam_restart != saved.prompt_steam_restart, "prompt_steam_restart"@, JsonValue::Bool(cur.prompt_steam_restart), None)
            + change_entry(cur.block_steam_updates != saved.block_steam_updates, "block_steam_updates"@, JsonValue::Bool(cur.block_steam_updates), Some(cur.block_steam_updates)),
{
}

proof fn lemma_entries_send_edited_values_0(cur: AccelaSettings, saved: AccelaSettings)
    ensures
        sends_edited_values(cur, saved, change_entry(cur.library_mode != saved.library_mode, "library_mode"@, JsonValue::Bool(cur.library_mode), None)),
        sends_edited_values(cur, saved, change_entry(cur.auto_skip_single_choice != saved.auto_skip_single_choice, "auto_skip_single_choice"@, JsonValue::Bool(cur.auto_skip_single_choice), None)),
        sends_edited_values(cur, saved, change_entry(cur.max_downloads != saved.max_downloads, "max_downloads"@, JsonValue::Number(cur.max_downloads as u64), None)),
        cur.library_mode != saved.library_mode ==> changes_key(change_entry(cur.library_mode != saved.library_mode, "library_mode"@, JsonValue::Bool(cur.library_mode), None), "library_mode"@),
        cur.auto_skip_single_choice != saved.auto_skip_single_choice ==> changes_key(change_entry(cur.auto_skip_single_choice != saved.auto_skip_single_choice, "auto_skip_single_choice"@, JsonValue::Bool(cur.auto_skip_single_choice), None), "auto_skip_single_choice"@),
        cur.max_downloads != saved.max_downloads ==> changes_key(change_entry(cur.max_downloads != saved.max_downloads, "max_downloads"@, JsonValue::Number(cur.max_downloads as u64), None), "max_downloads"@),
{
    lemma_setting_json_names(cur);
    lemma_setting_json_names(saved);
    lemma_entry_sends_edited_value(cur, saved, cur.library_mode != saved.library_mode, "library_mode"@, JsonValue::Bool(cur.library_mode), JsonValue::Bool(saved.library_mode), None);
    lemma_entry_sends_edited_value(cur, saved, cur.auto_skip_single_choice != saved.auto_skip_single_choice, "auto_skip_single_choice"@, JsonValue::Bool(cur.auto_skip_single_choice), JsonValue::Bool(saved.auto_skip_single_choice), None);
    lemma_entry_sends_edited_value(cur, saved, cur.max_downloads != saved.max_downloads, "max_downloads"@, JsonValue::Number(cur.max_downloads as u64), JsonValue::Number(saved.max_downloads as u64), None);
}

proof fn lemma_entries_send_edited_values_1(cur: AccelaSettings, saved: AccelaSettings)
    ensures
        sends_edited_values(cur, saved, change_entry(cur.generate_achievements != saved.generate_achievements, "generate_achievements"@, JsonValue::Bool(cur.generate_achievements), None)),
        sends_edited_values(cur, saved, change_entry(cur.use_steamless != saved.use_steamless, "use_steamless"@, JsonValue::Bool(cur.use_steamless), None)),
        sends_edited_values(cur, saved, change_entry(cur.auto_apply_goldberg != saved.auto_apply_goldberg, "auto_apply_goldberg"@, JsonValue::Bool(cur.auto_apply_goldberg), None)),
        cur.generate_achievements != saved.generate_achievements ==> changes_key(change_entry(cur.generate_achievements != saved.generate_achievements, "generate_achievements"@, JsonValue::Bool(cur.generate_achievements), None), "generate_achievements"@),
        cur.use_steamless != saved.use_steamless ==> changes_key(change_entry(cur.use_steamless != saved.use_steamless, "use_steamless"@, JsonValue::Bool(cur.use_steamless), None), "use_steamless"@),
        cur.auto_apply_goldberg != saved.auto_apply_goldberg ==> changes_key(change_entry(cur.auto_apply_goldberg != saved.auto_apply_goldberg, "auto_apply_goldberg"@, JsonValue::Bool(cur.auto_apply_goldberg), None), "auto_apply_goldberg"@),
{
    lemma_setting_json_names(cur);
    lemma_setting_json_names(saved);
    lemma_entry_sends_edited_value(cur, saved, cur.generate_achievements != saved.generate_achievements, "generate_achievements"@, JsonValue::Bool(cur.generate_achievements), JsonValue::Bool(saved.generate_achievements), None);
    lemma_entry_sends_edited_value(cur, saved, cur.use_steamless != saved.use_steamless, "use_steamless"@, JsonValue::Bool(cur.use_steamless), JsonValue::Bool(saved.use_steamless), None);
    lemma_entry_sends_edited_value(cur, saved, cur.auto_apply_goldberg != saved.auto_apply_goldberg, "auto_apply_goldberg"@, JsonValue::Bool(cur.auto_apply_goldberg), JsonValue::Bool(saved.auto_apply_goldberg), None);
}

proof fn lemma_entries_send_edited_values_2(cur: AccelaSettings, saved: AccelaSettings)
    ensures
        sends_edited_values(cur, saved, change_entry(cur.create_application_shortcuts != saved.create_application_shortcuts, "create_application_shortcuts"@, JsonValue::Bool(cur.create_application_shortcuts), None)),
        sends_edited_values(cur, saved, change_entry(cur.morrenus_api_key@ != saved.morrenus_api_key@, "morrenus_api_key"@, JsonValue::Text(cur.morrenus_api_key), None)),
        sends_edited_values(cur, saved, change_entry(cur.sgdb_api_key@ != saved.sgdb_api_key@, "sgdb_api_key"@, JsonValue::Text(cur.sgdb_api_key), None)),
        cur.create_application_shortcuts != saved.create_application_shortcuts ==> changes_key(change_entry(cur.create_application_shortcuts != saved.create_application_shortcuts, "create_application_shortcuts"@, JsonValue::Bool(cur.create_application_shortcuts), None), "create_application_shortcuts"@),
        cur.morrenus_api_key@ != saved.morrenus_api_key@ ==> changes_key(change_entry(cur.morrenus_api_key@ != saved.morrenus_api_key@, "morrenus_api_key"@, JsonValue::Text(cur.morrenus_api_key), None), "morrenus_api_key"@),
        cur.sgdb_api_key@ != saved.sgdb_api_key@ ==> changes_key(change_entry(cur.sgdb_api_key@ != saved.sgdb_api_key@, "sgdb_api_key"@, JsonValue::Text(cur.sgdb_api_key), None), "sgdb_api_key"@),
{
    lemma_setting_json_names(cur);
    lemma_setting_json_names(saved);
    lemma_entry_sends_edited_value(cur, saved, cur.create_application_shortcuts != saved.create_application_shortcuts, "create_application_shortcuts"@, JsonValue::Bool(cur.create_application_shortcuts), JsonValue::Bool(saved.create_application_shortcuts), None);
    lemma_entry_sends_edited_value(cur, saved, cur.morrenus_api_key@ != saved.morrenus_api_key@, "morrenus_api_key"@, JsonValue::Text(cur.morrenus_api_key), JsonValue::Text(saved.morrenus_api_key), None);
    lemma_entry_sends_edited_value(cur, saved, cur.sgdb_api_key@ != saved.sgdb_api_key@, "sgdb_api_key"@, JsonValue::Text(cur.sgdb_api_key), JsonValue::Text(saved.sgdb_api_key), None);
}

proof fn lemma_entries_send_edited_values_3(cur: AccelaSettings, saved: AccelaSettings)
    ensures
        sends_edited_values(cur, saved, change_entry(cur.slssteam_mode != saved.slssteam_mode, "slssteam_mode"@, JsonValue::Bool(cur.slssteam_mode), None)),
        sends_edited_values(cur, saved, change_entry(cur.sls_config_management != saved.sls_config_management, "sls_config_management"@, JsonValue::Bool(cur.sls_config_management), None)),
        sends_edited_values(cur, saved, change_entry(cur.prompt_steam_restart != saved.prompt_steam_restart, "prompt_steam_restart"@, JsonValue::Bool(cur.prompt_steam_restart), None)),
        sends_edited_values(cur, saved, change_entry(cur.block_steam_updates != saved.block_steam_updates, "block_steam_updates"@, JsonValue::Bool(cur.block_steam_updates), Some(cur.block_steam_updates))),
        cur.slssteam_mode != saved.slssteam_mode ==> changes_key(change_entry(cur.slssteam_mode != saved.slssteam_mode, "slssteam_mode"@, JsonValue::Bool(cur.slssteam_mode), None), "slssteam_mode"@),
        cur.sls_config_management != saved.sls_config_management ==> changes_key(change_entry(cur.sls_config_management != saved.sls_config_management, "sls_config_management"@, JsonValue::Bool(cur.sls_config_management), None), "sls_config_management"@),
        cur.prompt_steam_restart != saved.prompt_steam_restart ==> changes_key(change_entry(cur.prompt_steam_restart != saved.prompt_steam_restart, "prompt_steam_restart"@, JsonValue::Bool(cur.prompt_steam_restart), None), "prompt_steam_restart"@),
        cur.block_steam_updates != saved.block_steam_updates ==> changes_key(change_entry(cur.block_steam_updates != saved.block_steam_updates, "block_steam_updates"@, JsonValue::Bool(cur.block_steam_updates), Some(cur.block_steam_updates)), "block_steam_updates"@),
{
    lemma_setting_json_names(cur);
    lemma_setting_json_names(saved);
    lemma_entry_sends_edited_value(cur, saved, cur.slssteam_mode != saved.slssteam_mode, "slssteam_mode"@, JsonValue::Bool(cur.slssteam_mode), JsonValue::Bool(saved.slssteam_mode), None);
    lemma_entry_sends_edited_value(cur, saved, cur.sls_config_management != saved.sls_config_management, "sls_config_management"@, JsonValue::Bool(cur.sls_config_management), JsonValue::Bool(saved.sls_config_management), None);
    lemma_entry_sends_edited_value(cur, saved, cur.prompt_steam_restart != saved.prompt_steam_restart, "prompt_steam_restart"@, JsonValue::Bool(cur.prompt_steam_restart), JsonValue::Bool(saved.prompt_steam_restart), None);
    lemma_entry_sends_edited_value(cur, saved, cur.block_steam_updates != saved.block_steam_updates, "block_steam_updates"@, JsonValue::Bool(cur.block_steam_updates), JsonValue::Bool(saved.block_steam_updates), Some(cur.block_steam_updates));
}

proof fn lemma_setting_json_domain(s: AccelaSettings, key: Seq<char>)
    ensures
        setting_json(s, key) is Some ==> key == "library_mode"@ || key == "auto_skip_single_choice"@ || key == "max_downloads"@ || key == "generate_achievements"@ || key == "use_steamless"@ || key == "auto_apply_goldberg"@ || key == "create_application_shortcuts"@ || key == "morrenus_api_key"@ || key == "sgdb_api_key"@ || key == "slssteam_mode"@ || key == "sls_config_management"@ || key == "prompt_steam_restart"@ || key == "block_steam_updates"@,
{
    reveal(setting_json);
}

/// Every pending change carries the edited value of the setting it names, and that
/// value differs from the saved one.
#[verifier::rlimit(100)]
pub proof fn law_pending_sends_edited_values(cur: AccelaSettings, saved: AccelaSettings)
    ensures
        sends_edited_values(cur, saved, pending_view(cur, saved)),
{
    lemma_entries_send_edited_values_0(cur, saved);
    lemma_entries_send_edited_values_1(cur, saved);
    lemma_entries_send_edited_values_2(cur, saved);
    lemma_entries_send_edited_values_3(cur, saved);
    let e0 = change_entry(cur.library_mode != saved.library_mode, "library_mode"@, JsonValue::Bool(cur.library_mode), None);
    let e1 = change_entry(cur.auto_skip_single_choice != saved.auto_skip_single_choice, "auto_skip_single_choice"@, JsonValue::Bool(cur.auto_skip_single_choice), None);
    let e2 = change_entry(cur.max_downloads != saved.max_downloads, "max_downloads"@, JsonValue::Number(cur.max_downloads as u64), None);
    let e3 = change_entry(cur.generate_achievements != saved.generate_achievements, "generate_achievements"@, JsonValue::Bool(cur.generate_achievements), None);
    let e4 = change_entry(cur.use_steamless != saved.use_steamless, "use_steamless"@, JsonValue::Bool(cur.use_steamless), None);
    let e5 = change_entry(cur.auto_apply_goldberg != saved.auto_apply_goldberg, "auto_apply_goldberg"@, JsonValue::Bool(cur.auto_apply_goldberg), None);
    let e6 = change_entry(cur.create_application_shortcuts != saved.create_application_shortcuts, "create_application_shortcuts"@, JsonValue::Bool(cur.create_application_shortcuts), None);
    let e7 = change_entry(cur.morrenus_api_key@ != saved.morrenus_api_key@, "morrenus_api_key"@, JsonValue::Text(cur.morrenus_api_key), None);
    let e8 = change_entry(cur.sgdb_api_key@ != saved.sgdb_api_key@, "sgdb_api_key"@, JsonValue::Text(cur.sgdb_api_key), None);
    let e9 = change_entry(cur.slssteam_mode != saved.slssteam_mode, "slssteam_mode"@, JsonValue::Bool(cur.slssteam_mode), None);
    let e10 = change_entry(cur.sls_config_management != saved.sls_config_management, "sls_config_management"@, JsonValue::Bool(cur.sls_config_management), None);
    let e11 = change_entry(cur.prompt_steam_restart != saved.prompt_steam_restart, "prompt_steam_restart"@, JsonValue::Bool(cur.prompt_steam_restart), None);
    let e12 = change_entry(cur.block_steam_updates != saved.block_steam_updates, "block_steam_updates"@, JsonValue::Bool(cur.block_steam_updates), Some(cur.block_steam_updates));
    let a0 = e0;
    lemma_sends_edited_values_concat(cur, saved, a0, e1);
    let a1 = a0 + e1;
    lemma_sends_edited_values_concat(cur, saved, a1, e2);
    let a2 = a1 + e2;
    lemma_sends_edited_values_concat(cur, saved, a2, e3);
    let a3 = a2 + e3;
    lemma_sends_edited_values_concat(cur, saved, a3, e4);
    let a4 = a3 + e4;
    lemma_sends_edited_values_concat(cur, saved, a4, e5);
    let a5 = a4 + e5;
    lemma_sends_edited_values_concat(cur, saved, a5, e6);
    let a6 = a5 + e6;
    lemma_sends_edited_values_concat(cur, saved, a6, e7);
    let a7 = a6 + e7;
    lemma_sends_edited_values_concat(cur, saved, a7, e8);
    let a8 = a7 + e8;
    lemma_sends_edited_values_concat(cur, saved, a8, e9);
    let a9 = a8 + e9;
    lemma_sends_edited_values_concat(cur, saved, a9, e10);
    let a10 = a9 + e10;
    lemma_sends_edited_values_concat(cur, saved, a10, e11);
    let a11 = a10 + e11;
    lemma_sends_edited_values_concat(cur, saved, a11, e12);
    let a12 = a11 + e12;
    lemma_pending_pieces(cur, saved);
}

proof fn lemma_pending_lists_settings_0(cur: AccelaSettings, saved: AccelaSettings)
    ensures
        cur.library_mode != saved.library_mode ==> changes_key(pending_view(cur, saved), "library_mode"@),
        cur.auto_skip_single_choice != saved.auto_skip_single_choice ==> changes_key(pending_view(cur, saved), "auto_skip_single_choice"@),
        cur.max_downloads != saved.max_downloads ==> changes_key(pending_view(cur, saved), "max_downloads"@),
        cur.generate_achievements != saved.generate_achievements ==> changes_key(pending_view(cur, saved), "generate_achievements"@),
{
    lemma_entries_send_edited_values_0(cur, saved);
    lemma_entries_send_edited_values_1(cur, saved);
    lemma_entries_send_edited_values_2(cur, saved);
    lemma_entries_send_edited_values_3(cur, saved);
    let e0 = change_entry(cur.library_mode != saved.library_mode, "library_mode"@, JsonValue::Bool(cur.library_mode), None);
    let e1 = change_entry(cur.auto_skip_single_choice != saved.auto_skip_single_choice, "auto_skip_single_choice"@, JsonValue::Bool(cur.auto_skip_single_choice), None);
    let e2 = change_entry(cur.max_downloads != saved.max_downloads, "max_downloads"@, JsonValue::Number(cur.max_downloads as u64), None);
    let e3 = change_entry(cur.generate_achievements != saved.generate_achievements, "generate_achievements"@, JsonValue::Bool(cur.generate_achievements), None);
    let e4 = change_entry(cur.use_steamless != saved.use_steamless, "use_steamless"@, JsonValue::Bool(cur.use_steamless), None);
    let e5 = change_entry(cur.auto_apply_goldberg != saved.auto_apply_goldberg, "auto_apply_goldberg"@, JsonValue::Bool(cur.auto_apply_goldberg), None);
    let e6 = change_entry(cur.create_application_shortcuts != saved.create_application_shortcuts, "create_application_shortcuts"@, JsonValue::Bool(cur.create_application_shortcuts), None);
    let e7 = change_entry(cur.morrenus_api_key@ != saved.morrenus_api_key@, "morrenus_api_key"@, JsonValue::Text(cur.morrenus_api_key), None);
    let e8 = change_entry(cur.sgdb_api_key@ != saved.sgdb_api_key@, "sgdb_api_key"@, JsonValue::Text(cur.sgdb_api_key), None);
    let e9 = change_entry(cur.slssteam_mode != saved.slssteam_mode, "slssteam_mode"@, JsonValue::Bool(cur.slssteam_mode), None);
    let e10 = change_entry(cur.sls_config_management != saved.sls_config_management, "sls_config_management"@, JsonValue::Bool(cur.sls_config_management), None);
    let e11 = change_entry(cur.prompt_steam_restart != saved.prompt_steam_restart, "prompt_steam_restart"@, JsonValue::Bool(cur.prompt_steam_restart), None);
    let e12 = change_entry(cur.block_steam_updates != saved.block_steam_updates, "block_steam_updates"@, JsonValue::Bool(cur.block_steam_updates), Some(cur.block_steam_updates));
    let a0 = e0;
    let a1 = a0 + e1;
    let a2 = a1 + e2;
    let a3 = a2 + e3;
    let a4 = a3 + e4;
    let a5 = a4 + e5;
    let a6 = a5 + e6;
    let a7 = a6 + e7;
    let a8 = a7 + e8;
    let a9 = a8 + e9;
    let a10 = a9 + e10;
    let a11 = a10 + e11;
    let a12 = a11 + e12;
    lemma_changes_key_concat(a0, e1, "library_mode"@);
    lemma_changes_key_concat(a1, e2, "library_mode"@);
    lemma_changes_key_concat(a2, e3, "library_mode"@);
    lemma_changes_key_concat(a3, e4, "library_mode"@);
    lemma_changes_key_concat(a4, e5, "library_mode"@);
    lemma_changes_key_concat(a5, e6, "library_mode"@);
    lemma_changes_key_concat(a6, e7, "library_mode"@);
    lemma_changes_key_concat(a7, e8, "library_mode"@);
    lemma_changes_key_concat(a8, e9, "library_mode"@);
    lemma_changes_key_concat(a9, e10, "library_mode"@);
    lemma_changes_key_concat(a10, e11, "library_mode"@);
    lemma_changes_key_concat(a11, e12, "library_mode"@);
    lemma_changes_key_concat(a0, e1, "auto_skip_single_choice"@);
    lemma_changes_key_concat(a1, e2, "auto_skip_single_choice"@);
    lemma_changes_key_concat(a2, e3, "auto_skip_single_choice"@);
    lemma_changes_key_concat(a3, e4, "auto_skip_single_choice"@);
    lemma_changes_key_concat(a4, e5, "auto_skip_single_choice"@);
    lemma_changes_key_concat(a5, e6, "auto_skip_single_choice"@);
    lemma_changes_key_concat(a6, e7, "auto_skip_single_choice"@);
    lemma_changes_key_concat(a7, e8, "auto_skip_single_choice"@);
    lemma_changes_key_concat(a8, e9, "auto_skip_single_choice"@);
    lemma_changes_key_concat(a9, e10, "auto_skip_single_choice"@);
    lemma_changes_key_concat(a10, e11, "auto_skip_single_choice"@);
    lemma_changes_key_concat(a11, e12, "auto_skip_single_choice"@);
    lemma_changes_key_concat(a1, e2, "max_downloads"@);
    lemma_changes_key_concat(a2, e3, "max_downloads"@);
    lemma_changes_key_concat(a3, e4, "max_downloads"@);
    lemma_changes_key_concat(a4, e5, "max_downloads"@);
    lemma_changes_key_concat(a5, e6, "max_downloads"@);
    lemma_changes_key_concat(a6, e7, "max_downloads"@);
    lemma_changes_key_concat(a7, e8, "max_downloads"@);
    lemma_changes_key_concat(a8, e9, "max_downloads"@);
    lemma_changes_key_concat(a9, e10, "max_downloads"@);
    lemma_changes_key_concat(a10, e11, "max_downloads"@);
    lemma_changes_key_concat(a11, e12, "max_downloads"@);
    lemma_changes_key_concat(a2, e3, "generate_achievements"@);
    lemma_changes_key_concat(a3, e4, "generate_achievements"@);
    lemma_changes_key_concat(a4, e5, "generate_achievements"@);
    lemma_changes_key_concat(a5, e6, "generate_achievements"@);
    lemma_changes_key_concat(a6, e7, "generate_achievements"@);
    lemma_changes_key_concat(a7, e8, "generate_achievements"@);
    lemma_changes_key_concat(a8, e9, "generate_achievements"@);
    lemma_changes_key_concat(a9, e10, "generate_achievements"@);
    lemma_changes_key_concat(a10, e11, "generate_achievements"@);
    lemma_changes_key_concat(a11, e12, "generate_achievements"@);
    lemma_pending_pieces(cur, saved);
}

proof fn lemma_pending_lists_settings_1(cur: AccelaSettings, saved: AccelaSettings)
    ensures
        cur.use_steamless != saved.use_steamless ==> changes_key(pending_view(cur, saved), "use_steamless"@),
        cur.auto_apply_goldberg != saved.auto_apply_goldberg ==> changes_key(pending_view(cur, saved), "auto_apply_goldberg"@),
        cur.create_application_shortcuts != saved.create_application_shortcuts ==> changes_key(pending_view(cur, saved), "create_application_shortcuts"@),
        cur.morrenus_api_key@ != saved.morrenus_api_key@ ==> changes_key(pending_view(cur, saved), "morrenus_api_key"@),
{
    lemma_entries_send_edited_values_0(cur, saved);
    lemma_entries_send_edited_values_1(cur, saved);
    lemma_entries_send_edited_values_2(cur, saved);
    lemma_entries_send_edited_values_3(cur, saved);
    let e0 = change_entry(cur.library_mode != saved.library_mode, "library_mode"@, JsonValue::Bool(cur.library_mode), None);
    let e1 = change_entry(cur.auto_skip_single_choice != saved.auto_skip_single_choice, "auto_skip_single_choice"@, JsonValue::Bool(cur.auto_skip_single_choice), None);
    let e2 = change_entry(cur.max_downloads != saved.max_downloads, "max_downloads"@, JsonValue::Number(cur.max_downloads as u64), None);
    let e3 = change_entry(cur.generate_achievements != saved.generate_achievements, "generate_achievements"@, JsonValue::Bool(cur.generate_achievements), None);
    let e4 = change_entry(cur.use_steamless != saved.use_steamless, "use_steamless"@, JsonValue::Bool(cur.use_steamless), None);
    let e5 = change_entry(cur.auto_apply_goldberg != saved.auto_apply_goldberg, "auto_apply_goldberg"@, JsonValue::Bool(cur.auto_apply_goldberg), None);
    let e6 = change_entry(cur.create_application_shortcuts != saved.create_application_shortcuts, "create_application_shortcuts"@, JsonValue::Bool(cur.create_application_shortcuts), None);
    let e7 = change_entry(cur.morrenus_api_key@ != saved.morrenus_api_key@, "morrenus_api_key"@, JsonValue::Text(cur.morrenus_api_key), None);
    let e8 = change_entry(cur.sgdb_api_key@ != saved.sgdb_api_key@, "sgdb_api_key"@, JsonValue::Text(cur.sgdb_api_key), None);
    let e9 = change_entry(cur.slssteam_mode != saved.slssteam_mode, "slssteam_mode"@, JsonValue::Bool(cur.slssteam_mode), None);
    let e10 = change_entry(cur.sls_config_management != saved.sls_config_management, "sls_config_management"@, JsonValue::Bool(cur.sls_config_management), None);
    let e11 = change_entry(cur.prompt_steam_restart != saved.prompt_steam_restart, "prompt_steam_restart"@, JsonValue::Bool(cur.prompt_steam_restart), None);
    let e12 = change_entry(cur.block_steam_updates != saved.block_steam_updates, "block_steam_updates"@, JsonValue::Bool(cur.block_steam_updates), Some(cur.block_steam_updates));
    let a0 = e0;
    let a1 = a0 + e1;
    let a2 = a1 + e2;
    let a3 = a2 + e3;
    let a4 = a3 + e4;
    let a5 = a4 + e5;
    let a6 = a5 + e6;
    let a7 = a6 + e7;
    let a8 = a7 + e8;
    let a9 = a8 + e9;
    let a10 = a9 + e10;
    let a11 = a10 + e11;
    let a12 = a11 + e12;
    lemma_changes_key_concat(a3, e4, "use_steamless"@);
    lemma_changes_key_concat(a4, e5, "use_steamless"@);
    lemma_changes_key_concat(a5, e6, "use_steamless"@);
    lemma_changes_key_concat(a6, e7, "use_steamless"@);
    lemma_changes_key_concat(a7, e8, "use_steamless"@);
    lemma_changes_key_concat(a8, e9, "use_steamless"@);
    lemma_changes_key_concat(a9, e10, "use_steamless"@);
    lemma_changes_key_concat(a10, e11, "use_steamless"@);
    lemma_changes_key_concat(a11, e12, "use_steamless"@);
    lemma_changes_key_concat(a4, e5, "auto_apply_goldberg"@);
    lemma_changes_key_concat(a5, e6, "auto_apply_goldberg"@);
    lemma_changes_key_concat(a6, e7, "auto_apply_goldberg"@);
    lemma_changes_key_concat(a7, e8, "auto_apply_goldberg"@);
    lemma_changes_key_concat(a8, e9, "auto_apply_goldberg"@);
    lemma_changes_key_concat(a9, e10, "auto_apply_goldberg"@);
    lemma_changes_key_concat(a10, e11, "auto_apply_goldberg"@);
    lemma_changes_key_concat(a11, e12, "auto_apply_goldberg"@);
    lemma_changes_key_concat(a5, e6, "create_application_shortcuts"@);
    lemma_changes_key_concat(a6, e7, "create_application_shortcuts"@);
    lemma_changes_key_concat(a7, e8, "create_application_shortcuts"@);
    lemma_changes_key_concat(a8, e9, "create_application_shortcuts"@);
    lemma_changes_key_concat(a9, e10, "create_application_shortcuts"@);
    lemma_changes_key_concat(a10, e11, "create_application_shortcuts"@);
    lemma_changes_key_concat(a11, e12, "create_application_shortcuts"@);
    lemma_changes_key_concat(a6, e7, "morrenus_api_key"@);
    lemma_changes_key_concat(a7, e8, "morrenus_api_key"@);
    lemma_changes_key_concat(a8, e9, "morrenus_api_key"@);
    lemma_changes_key_concat(a9, e10, "morrenus_api_key"@);
    lemma_changes_key_concat(a10, e11, "morrenus_api_key"@);
    lemma_changes_key_concat(a11, e12, "morrenus_api_key"@);
    lemma_pending_pieces(cur, saved);
}

proof fn lemma_pending_lists_settings_2(cur: AccelaSettings, saved: AccelaSettings)
    ensures
        cur.sgdb_api_key@ != saved.sgdb_api_key@ ==> changes_key(pending_view(cur, saved), "sgdb_api_key"@),
        cur.slssteam_mode != saved.slssteam_mode ==> changes_key(pending_view(cur, saved), "slssteam_mode"@),
        cur.sls_config_management != saved.sls_config_management ==> changes_key(pending_view(cur, saved), "sls_config_management"@),
{
    lemma_entries_send_edited_values_0(cur, saved);
    lemma_entries_send_edited_values_1(cur, saved);
    lemma_entries_send_edited_values_2(cur, saved);
    lemma_entries_send_edited_values_3(cur, saved);
    let e0 = change_entry(cur.library_mode != saved.library_mode, "library_mode"@, JsonValue::Bool(cur.library_mode), None);
    let e1 = change_entry(cur.auto_skip_single_choice != saved.auto_skip_single_choice, "auto_skip_single_choice"@, JsonValue::Bool(cur.auto_skip_single_choice), None);
    let e2 = change_entry(cur.max_downloads != saved.max_downloads, "max_downloads"@, JsonValue::Number(cur.max_downloads as u64), None);
    let e3 = change_entry(cur.generate_achievements != saved.generate_achievements, "generate_achievements"@, JsonValue::Bool(cur.generate_achievements), None);
    let e4 = change_entry(cur.use_steamless != saved.use_steamless, "use_steamless"@, JsonValue::Bool(cur.use_steamless), None);
    let e5 = change_entry(cur.auto_apply_goldberg != saved.auto_apply_goldberg, "auto_apply_goldberg"@, JsonValue::Bool(cur.auto_apply_goldberg), None);
    let e6 = change_entry(cur.create_application_shortcuts != saved.create_application_shortcuts, "create_application_shortcuts"@, JsonValue::Bool(cur.create_application_shortcuts), None);
    let e7 = change_entry(cur.morrenus_api_key@ != saved.morrenus_api_key@, "morrenus_api_key"@, JsonValue::Text(cur.morrenus_api_key), None);
    let e8 = change_entry(cur.sgdb_api_key@ != saved.sgdb_api_key@, "sgdb_api_key"@, JsonValue::Text(cur.sgdb_api_key), None);
    let e9 = change_entry(cur.slssteam_mode != saved.slssteam_mode, "slssteam_mode"@, JsonValue::Bool(cur.slssteam_mode), None);
    let e10 = change_entry(cur.sls_config_management != saved.sls_config_management, "sls_config_management"@, JsonValue::Bool(cur.sls_config_management), None);
    let e11 = change_entry(cur.prompt_steam_restart != saved.prompt_steam_restart, "prompt_steam_restart"@, JsonValue::Bool(cur.prompt_steam_restart), None);
    let e12 = change_entry(cur.block_steam_updates != saved.block_steam_updates, "block_steam_updates"@, JsonValue::Bool(cur.block_steam_updates), Some(cur.block_steam_updates));
    let a0 = e0;
    let a1 = a0 + e1;
    let a2 = a1 + e2;
    let a3 = a2 + e3;
    let a4 = a3 + e4;
    let a5 = a4 + e5;
    let a6 = a5 + e6;
    let a7 = a6 + e7;
    let a8 = a7 + e8;
    let a9 = a8 + e9;
    let a10 = a9 + e10;
    let a11 = a10 + e11;
    let a12 = a11 + e12;
    lemma_changes_key_concat(a7, e8, "sgdb_api_key"@);
    lemma_changes_key_concat(a8, e9, "sgdb_api_key"@);
    lemma_changes_key_concat(a9, e10, "sgdb_api_key"@);
    lemma_changes_key_concat(a10, e11, "sgdb_api_key"@);
    lemma_changes_key_concat(a11, e12, "sgdb_api_key"@);
    lemma_changes_key_concat(a8, e9, "slssteam_mode"@);
    lemma_changes_key_concat(a9, e10, "slssteam_mode"@);
    lemma_changes_key_concat(a10, e11, "slssteam_mode"@);
    lemma_changes_key_concat(a11, e12, "slssteam_mode"@);
    lemma_changes_key_concat(a9, e10, "sls_config_management"@);
    lemma_changes_key_concat(a10, e11, "sls_config_management"@);
    lemma_changes_key_concat(a11, e12, "sls_config_management"@);
    lemma_pending_pieces(cur, saved);
}

proof fn lemma_pending_lists_settings_3(cur: AccelaSettings, saved: AccelaSettings)
    ensures
        cur.prompt_steam_restart != saved.prompt_steam_restart ==> changes_key(pending_view(cur, saved), "prompt_steam_restart"@),
        cur.block_steam_updates != saved.block_steam_updates ==> changes_key(pending_view(cur, saved), "block_steam_updates"@),
{
    lemma_entries_send_edited_values_0(cur, saved);
    lemma_entries_send_edited_values_1(cur, saved);
    lemma_entries_send_edited_values_2(cur, saved);
    lemma_entries_send_edited_values_3(cur, saved);
    let e0 = change_entry(cur.library_mode != saved.library_mode, "library_mode"@, JsonValue::Bool(cur.library_mode), None);
    let e1 = change_entry(cur.auto_skip_single_choice != saved.auto_skip_single_choice, "auto_skip_single_choice"@, JsonValue::Bool(cur.auto_skip_single_choice), None);
    let e2 = change_entry(cur.max_downloads != saved.max_downloads, "max_downloads"@, JsonValue::Number(cur.max_downloads as u64), None);
    let e3 = change_entry(cur.generate_achievements != saved.generate_achievements, "generate_achievements"@, JsonValue::Bool(cur.generate_achievements), None);
    let e4 = change_entry(cur.use_steamless != saved.use_steamless, "use_steamless"@, JsonValue::Bool(cur.use_steamless), None);
    let e5 = change_entry(cur.auto_apply_goldberg != saved.auto_apply_goldberg, "auto_apply_goldberg"@, JsonValue::Bool(cur.auto_apply_goldberg), None);
    let e6 = change_entry(cur.create_application_shortcuts != saved.create_application_shortcuts, "create_application_shortcuts"@, JsonValue::Bool(cur.create_application_shortcuts), None);
    let e7 = change_entry(cur.morrenus_api_key@ != saved.morrenus_api_key@, "morrenus_api_key"@, JsonValue::Text(cur.morrenus_api_key), None);
    let e8 = change_entry(cur.sgdb_api_key@ != saved.sgdb_api_key@, "sgdb_api_key"@, JsonValue::Text(cur.sgdb_api_key), None);
    let e9 = change_entry(cur.slssteam_mode != saved.slssteam_mode, "slssteam_mode"@, JsonValue::Bool(cur.slssteam_mode), None);
    let e10 = change_entry(cur.sls_config_management != saved.sls_config_management, "sls_config_management"@, JsonValue::Bool(cur.sls_config_management), None);
    let e11 = change_entry(cur.prompt_steam_restart != saved.prompt_steam_restart, "prompt_steam_restart"@, JsonValue::Bool(cur.prompt_steam_restart), None);
    let e12 = change_entry(cur.block_steam_updates != saved.block_steam_updates, "block_steam_updates"@, JsonValue::Bool(cur.block_steam_updates), Some(cur.block_steam_updates));
    let a0 = e0;
    let a1 = a0 + e1;
    let a2 = a1 + e2;
    let a3 = a2 + e3;
    let a4 = a3 + e4;
    let a5 = a4 + e5;
    let a6 = a5 + e6;
    let a7 = a6 + e7;
    let a8 = a7 + e8;
    let a9 = a8 + e9;
    let a10 = a9 + e10;
    let a11 = a10 + e11;
    let a12 = a11 + e12;
    lemma_changes_key_concat(a10, e11, "prompt_steam_restart"@);
    lemma_changes_key_concat(a11, e12, "prompt_steam_restart"@);
    lemma_changes_key_concat(a11, e12, "block_steam_updates"@);
    lemma_pending_pieces(cur, saved);
}


proof fn lemma_pending_lists_each_setting(cur: AccelaSettings, saved: AccelaSettings)
    ensures
        cur.library_mode != saved.library_mode ==> changes_key(pending_view(cur, saved), "library_mode"@),
        cur.auto_skip_single_choice != saved.auto_skip_single_choice ==> changes_key(pending_view(cur, saved), "auto_skip_single_choice"@),
        cur.max_downloads != saved.max_downloads ==> changes_key(pending_view(cur, saved), "max_downloads"@),
        cur.generate_achievements != saved.generate_achievements ==> changes_key(pending_view(cur, saved), "generate_achievements"@),
        cur.use_steamless != saved.use_steamless ==> changes_key(pending_view(cur, saved), "use_steamless"@),
        cur.auto_apply_goldberg != saved.auto_apply_goldberg ==> changes_key(pending_view(cur, saved), "auto_apply_goldberg"@),
        cur.create_application_shortcuts != saved.create_application_shortcuts ==> changes_key(pending_view(cur, saved), "create_application_shortcuts"@),
        cur.morrenus_api_key@ != saved.morrenus_api_key@ ==> changes_key(pending_view(cur, saved), "morrenus_api_key"@),
        cur.sgdb_api_key@ != saved.sgdb_api_key@ ==> changes_key(pending_view(cur, saved), "sgdb_api_key"@),
        cur.slssteam_mode != saved.slssteam_mode ==> changes_key(pending_view(cur, saved), "slssteam_mode"@),
        cur.sls_config_management != saved.sls_config_management ==> changes_key(pending_view(cur, saved), "sls_config_management"@),
        cur.prompt_steam_restart != saved.prompt_steam_restart ==> changes_key(pending_view(cur, saved), "prompt_steam_restart"@),
        cur.block_steam_updates != saved.block_steam_updates ==> changes_key(pending_view(cur, saved), "block_steam_updates"@),
{
    lemma_pending_lists_settings_0(cur, saved);
    lemma_pending_lists_settings_1(cur, saved);
    lemma_pending_lists_settings_2(cur, saved);
    lemma_pending_lists_settings_3(cur, saved);
}

/// Every setting whose edited value differs from the saved one has a pending change; with
/// `law_pending_sends_edited_values`, applying the pending changes to the saved settings
/// gives the edited settings.
#[verifier::rlimit(100)]
pub proof fn law_pending_lists_every_edit(cur: AccelaSettings, saved: AccelaSettings)
    ensures
        forall|key: Seq<char>|
            #![trigger setting_json(cur, key)]
            setting_json(cur, key) is Some && !same_json(setting_json(saved, key), setting_json(cur, key))
                ==> changes_key(pending_view(cur, saved), key),
{
    lemma_pending_lists_each_setting(cur, saved);
    lemma_setting_json_names(cur);
    lemma_setting_json_names(saved);
    assert forall|key: Seq<char>|
        #![trigger setting_json(cur, key)]
        setting_json(cur, key) is Some && !same_json(setting_json(saved, key), setting_json(cur, key))
            implies changes_key(pending_view(cur, saved), key) by {
        lemma_setting_json_domain(cur, key);
    }
}

/// Saving has nothing to send exactly when the edited settings equal the saved ones.
pub proof fn law_pending_empty_iff_clean(cur: AccelaSettings, saved: AccelaSettings)
    ensures
        (pending_view(cur, saved).len() == 0) == settings_equal(cur, saved),
{
    reveal(change_entry);
}

} // verus!
