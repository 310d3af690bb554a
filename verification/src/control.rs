//! The application's decisions on the messages it gets: for the state and a message, the
//! next state and the effects that the program around must carry out (writing files,
//! stopping work, leaving).
use crate::common::{distinct_names, lemma_first_position, names_view, position, GameSelection, Operation};
use crate::modal::{after_show, Kind, Modal, ModalField, ModalStack, SaveMode};
use crate::shortcuts::{history_push, history_start, TextHistories};
use crate::cloud::{timestamp_remote_id, Remote, RemoteChoice};
use crate::resource::Config;
use crate::text::{i64_to_decimal, signed_decimal};
use crate::notification::Notification;
use crate::prelude::{Error, Finality};
use crate::steps::StepQueue;
use crate::text::str_eq;
use vstd::prelude::*;

verus! {

/// How one game is synchronised: its save mode, and whether changes are picked up
/// automatically.
#[derive(Clone, Copy, Debug, PartialEq, Eq, Structural)]
pub struct GameSyncConfig {
    pub mode: SaveMode,
    pub auto_sync: bool,
}

/// The setting of a game that has none: unmanaged, without automatic sync.
pub open spec fn unset_config() -> GameSyncConfig {
    GameSyncConfig { mode: SaveMode::Unmanaged, auto_sync: false }
}

/// The names of the games that have a setting, in order.
pub open spec fn setting_names(v: Seq<(String, GameSyncConfig)>) -> Seq<Seq<char>> {
    v.map_values(|p: (String, GameSyncConfig)| p.0@)
}

/// The setting of `game`, or the unset one.
pub open spec fn setting_of(v: Seq<(String, GameSyncConfig)>, game: Seq<char>) -> GameSyncConfig {
    match position(setting_names(v), game) {
        Some(i) => v[i].1,
        None => unset_config(),
    }
}

/// The settings after `game` gets `config`: its entry changes in place, or a new entry
/// comes last.
pub open spec fn with_setting(
    v: Seq<(String, GameSyncConfig)>,
    game: String,
    config: GameSyncConfig,
) -> Seq<(String, GameSyncConfig)> {
    match position(setting_names(v), game@) {
        Some(i) => v.update(i, (v[i].0, config)),
        None => v.push((game, config)),
    }
}

fn find_setting(v: &Vec<(String, GameSyncConfig)>, game: &str) -> (r: Option<usize>)
    ensures
        r matches Some(i) ==> i < v@.len() && position(setting_names(v@), game@) == Some(i as int),
        r is None ==> position(setting_names(v@), game@) is None,
{
    let mut i: usize = 0;
    while i < v.len()
        invariant
            i <= v@.len(),
            forall|j: int| 0 <= j < i ==> setting_names(v@)[j] != game@,
        decreases v.len() - i,
    {
        if str_eq(v[i].0.as_str(), game) {
            proof {
                lemma_first_position(setting_names(v@), game@, i as int);
            }
            return Some(i);
        }
        i = i + 1;
    }
    None
}

fn config_of(v: &Vec<(String, GameSyncConfig)>, game: &str) -> (r: GameSyncConfig)
    ensures
        r == setting_of(v@, game@),
{
    match find_setting(v, game) {
        Some(i) => v[i].1,
        None => GameSyncConfig { mode: SaveMode::Unmanaged, auto_sync: false },
    }
}

fn put_setting(v: &mut Vec<(String, GameSyncConfig)>, game: String, config: GameSyncConfig)
    ensures
        final(v)@ == with_setting(old(v)@, game, config),
{
    match find_setting(v, game.as_str()) {
        Some(i) => {
            let name = v[i].0.clone();
            v.set(i, (name, config));
        },
        None => v.push((game, config)),
    }
}

/// What the program around must do after a message.
#[derive(Debug, PartialEq, Eq)]
pub enum Effect {
    /// Write what waits to be saved and leave the program.
    Exit,
    /// Stop the work of the running operation.
    CancelOperation,
    /// Write the games' synchronisation settings.
    SaveSyncConfig,
    /// Delete the game's backup from the cloud.
    DeleteCloudBackup(String),
    /// Back up the game's saves as its save mode says.
    BackUpGame(String),
    /// Restore the game's saves as its save mode says.
    RestoreGame(String),
}

/// What starting a backup came to.
#[derive(Debug, PartialEq, Eq)]
pub enum BackupStart {
    /// An operation is already running: nothing starts.
    Ignored,
    /// The backup started. `clear_log` asks to empty the backup list (every game is
    /// scanned anew), `switch_to_backup` to show the backup screen, and
    /// `prepare_target` to prepare the backup folder before scanning.
    Started { clear_log: bool, switch_to_backup: bool, prepare_target: bool },
}

/// What starting a restore came to.
#[derive(Debug)]
pub enum RestoreStart {
    /// An operation is already running: nothing starts.
    Ignored,
    /// The restore source is no folder: an error is shown instead.
    ShowedError,
    /// The restore may proceed over `games`; `clear_log` asks to empty the restore list.
    Proceed { games: Option<GameSelection>, clear_log: bool },
}

/// The games that an operation covers: those asked for; when none were and the list is
/// filtered, the games that the list shows; otherwise all of them.
pub open spec fn chosen_games(
    games: Option<GameSelection>,
    log_filtered: bool,
    visible: Seq<Seq<char>>,
    chosen: Option<GameSelection>,
) -> bool {
    match games {
        Some(g) => chosen == Some(g),
        None => if log_filtered {
            chosen matches Some(GameSelection::Group { games: g }) && names_view(g@) == distinct_names(
                visible,
            )
        } else {
            chosen is None
        },
    }
}

/// The state that the application's decisions read and change.
pub struct AppState {
    pub operation: Operation,
    pub modals: ModalStack,
    /// An exit was asked for while an operation ran.
    pub exiting: bool,
    /// The steps of the running operation.
    pub steps: StepQueue<String>,
    /// The games' synchronisation settings.
    pub sync_games: Vec<(String, GameSyncConfig)>,
    /// The game whose setting is being edited, and the edited setting.
    pub pending_game_detail_name: Option<String>,
    pub pending_game_detail: Option<GameSyncConfig>,
    /// The notice shown for a moment after a change.
    pub timed_notification: Option<Notification>,
    /// The game to show once the running scan is done.
    pub jump_to_game_after_scan: Option<String>,
    /// What a synchronisation of one game that is under way shows.
    pub sync_in_progress: Option<String>,
}

/// Whether a mode keeps a copy in the cloud.
pub open spec fn in_cloud(mode: SaveMode) -> bool {
    mode == SaveMode::Cloud || mode == SaveMode::Sync
}

/// Whether changing a game from `previous` to `next` deletes backups and so needs
/// confirming: leaving the cloud for local or unmanaged, or becoming unmanaged.
pub open spec fn destructive_change(previous: SaveMode, next: SaveMode) -> bool {
    (in_cloud(previous) && (next == SaveMode::Local || next == SaveMode::Unmanaged)) || (next
        == SaveMode::Unmanaged && previous != SaveMode::Unmanaged)
}

/// The warning of the dialog that confirms a destructive change of `game` to `next`.
pub open spec fn change_warning(game: Seq<char>, next: SaveMode) -> Seq<char> {
    if next == SaveMode::Unmanaged {
        "Set \""@ + game
            + "\" to None?\n\nThe cloud backup and local backup will be deleted. This cannot be undone."@
    } else {
        "Switch \""@ + game + "\" to Local mode?\n\nThe cloud backup will be deleted. This cannot be undone."@
    }
}

/// The operation after it is flagged for cancelling.
pub open spec fn cancelled(op: Operation) -> Operation {
    match op {
        Operation::Idle => Operation::Idle,
        Operation::Backup { finality, games, errors, force_new_full_backup, syncable_games, active_games, .. } =>
            Operation::Backup {
            finality,
            cancelling: true,
            games,
            errors,
            force_new_full_backup,
            syncable_games,
            active_games,
        },
    }
}

/// The notice with `text` that expires after `seconds`.
pub open spec fn notice(n: Option<Notification>, text: Seq<char>, seconds: u64) -> bool {
    n matches Some(x) && x.text_view() == text && x.expires_view() == Some(seconds)
}

impl AppState {
    /// Cancels the running operation: it is flagged as cancelling and its waiting steps
    /// are dropped; its work must be stopped.
    pub fn cancel_operation(&mut self) -> (r: Effect)
        ensures
            r == Effect::CancelOperation,
            final(self).operation == cancelled(old(self).operation),
            final(self).steps.remaining() == 0,
            final(self).modals == old(self).modals,
            final(self).exiting == old(self).exiting,
            final(self).sync_games == old(self).sync_games,
    {
        self.steps.clear();
        self.operation.flag_cancel();
        Effect::CancelOperation
    }

    /// Ends the running operation. When an exit was asked for, the program leaves
    /// instead and nothing changes; otherwise the operation goes idle, its steps are
    /// dropped and the list of games in progress is closed.
    pub fn go_idle(&mut self) -> (r: Option<Effect>)
        ensures
            old(self).exiting ==> r == Some(Effect::Exit) && final(self).operation == old(
                self,
            ).operation && final(self).modals == old(self).modals,
            !old(self).exiting ==> {
                &&& r is None
                &&& final(self).operation is Idle
                &&& final(self).steps.remaining() == 0
                &&& final(self).modals.view() == old(self).modals.view().filter(
                    |m: Modal| m.kind_view() != Kind::ActiveScanGames,
                )
            },
            final(self).exiting == old(self).exiting,
            final(self).sync_games == old(self).sync_games,
    {
        if self.exiting {
            return Some(Effect::Exit);
        }
        self.operation = Operation::Idle;
        self.steps.clear();
        self.modals.close_specific_modal(Kind::ActiveScanGames);
        None
    }

    /// Asks to leave. With no operation running, or when the user asks again while the
    /// program is already exiting, the program leaves. Otherwise it marks itself as
    /// exiting, shows that it is, and cancels the operation.
    pub fn exit(&mut self, user: bool) -> (r: Vec<Effect>)
        ensures
            (old(self).operation is Idle || (user && old(self).exiting)) ==> {
                &&& r@ == seq![Effect::Exit]
                &&& final(self).operation == old(self).operation
                &&& final(self).modals == old(self).modals
                &&& final(self).exiting == old(self).exiting
            },
            !(old(self).operation is Idle || (user && old(self).exiting)) ==> {
                &&& r@ == seq![Effect::CancelOperation]
                &&& final(self).exiting
                &&& final(self).modals.view() == after_show(old(self).modals.view(), Modal::Exiting)
                &&& final(self).operation == cancelled(old(self).operation)
                &&& final(self).steps.remaining() == 0
            },
            final(self).sync_games == old(self).sync_games,
    {
        if self.operation.idle() || (user && self.exiting) {
            return vec![Effect::Exit];
        }
        self.exiting = true;
        self.modals.show_modal(Modal::Exiting);
        let e = self.cancel_operation();
        vec![e]
    }

    /// Turns on synchronisation for `game`: sync mode with automatic pick-up. The
    /// settings must then be written, and a notice says so.
    pub fn enable_cloud_sync(&mut self, game: String) -> (r: Vec<Effect>)
        ensures
            r@ == seq![Effect::SaveSyncConfig],
            final(self).sync_games@ == with_setting(
                old(self).sync_games@,
                game,
                GameSyncConfig { mode: SaveMode::Sync, auto_sync: true },
            ),
            notice(final(self).timed_notification, "\u{2713} Sync enabled"@, 2),
            final(self).operation == old(self).operation,
            final(self).modals == old(self).modals,
            final(self).pending_game_detail == old(self).pending_game_detail,
            final(self).pending_game_detail_name == old(self).pending_game_detail_name,
    {
        put_setting(&mut self.sync_games, game, GameSyncConfig { mode: SaveMode::Sync, auto_sync: true });
        self.timed_notification = Some(
            Notification::new(String::from_str("\u{2713} Sync enabled")).expires(2),
        );
        vec![Effect::SaveSyncConfig]
    }

    /// Starts or continues editing `game`'s setting with the save mode `mode`; the edit
    /// starts from the setting being edited, or else from the game's saved one.
    pub fn set_game_save_mode(&mut self, game: String, mode: SaveMode)
        ensures
            final(self).pending_game_detail == Some(
                GameSyncConfig {
                    mode,
                    auto_sync: match old(self).pending_game_detail {
                        Some(p) => p.auto_sync,
                        None => setting_of(old(self).sync_games@, game@).auto_sync,
                    },
                },
            ),
            final(self).pending_game_detail_name == Some(game),
            final(self).sync_games == old(self).sync_games,
            final(self).modals == old(self).modals,
            final(self).operation == old(self).operation,
    {
        let current = config_of(&self.sync_games, game.as_str());
        let mut pending = match self.pending_game_detail {
            Some(p) => p,
            None => current,
        };
        pending.mode = mode;
        self.pending_game_detail = Some(pending);
        self.pending_game_detail_name = Some(game);
    }

    /// Starts or continues editing `game`'s setting with automatic pick-up `auto_sync`;
    /// the edit starts from the setting being edited, or else from the game's saved one.
    pub fn set_game_auto_sync(&mut self, game: String, auto_sync: bool)
        ensures
            final(self).pending_game_detail == Some(
                GameSyncConfig {
                    mode: match old(self).pending_game_detail {
                        Some(p) => p.mode,
                        None => setting_of(old(self).sync_games@, game@).mode,
                    },
                    auto_sync,
                },
            ),
            final(self).pending_game_detail_name == Some(game),
            final(self).sync_games == old(self).sync_games,
            final(self).modals == old(self).modals,
            final(self).operation == old(self).operation,
    {
        let current = config_of(&self.sync_games, game.as_str());
        let mut pending = match self.pending_game_detail {
            Some(p) => p,
            None => current,
        };
        pending.auto_sync = auto_sync;
        self.pending_game_detail = Some(pending);
        self.pending_game_detail_name = Some(game);
    }

    /// Saves the edited setting. A destructive change is not saved yet: a dialog asks to
    /// confirm it, and the edit stays. Otherwise the setting is saved, the edit ends,
    /// the settings must be written, and a notice says so. With no edit, nothing happens.
    pub fn save_game_detail(&mut self) -> (r: Vec<Effect>)
        ensures
            match (old(self).pending_game_detail, old(self).pending_game_detail_name) {
                (Some(p), Some(name)) => {
                let previous = setting_of(old(self).sync_games@, name@).mode;
                if destructive_change(previous, p.mode) {
                    &&& r@.len() == 0
                    &&& final(self).sync_games == old(self).sync_games
                    &&& final(self).pending_game_detail == old(self).pending_game_detail
                    &&& final(self).pending_game_detail_name == old(self).pending_game_detail_name
                    &&& final(self).modals.view().len() > 0
                    &&& final(self).modals.view() == after_show(
                        old(self).modals.view(),
                        final(self).modals.view().last(),
                    )
                    &&& final(self).modals.view().last() matches Modal::ConfirmSyncModeChange {
                        game,
                        warning,
                        previous_mode,
                    } && game@ == name@ && warning@ == change_warning(name@, p.mode)
                        && previous_mode == previous
                } else {
                    &&& r@ == seq![Effect::SaveSyncConfig]
                    &&& final(self).sync_games@ == with_setting(old(self).sync_games@, name, p)
                    &&& final(self).pending_game_detail is None
                    &&& final(self).pending_game_detail_name is None
                    &&& final(self).modals == old(self).modals
                    &&& notice(final(self).timed_notification, "\u{2713} Saved"@, 2)
                }
            },
                _ => {
                    &&& r@.len() == 0
                    &&& final(self).sync_games == old(self).sync_games
                    &&& final(self).modals == old(self).modals
                    &&& final(self).pending_game_detail == old(self).pending_game_detail
                    &&& final(self).pending_game_detail_name == old(self).pending_game_detail_name
                },
            },
            // Leaving a mode that keeps a copy in the cloud for local or no management
            // is never saved at once: the setting stays and a dialog asks to confirm.
            old(self).pending_game_detail is Some && old(self).pending_game_detail_name is Some
                && (setting_of(old(self).sync_games@, old(self).pending_game_detail_name.unwrap()@).mode
                    == SaveMode::Cloud || setting_of(
                    old(self).sync_games@,
                    old(self).pending_game_detail_name.unwrap()@,
                ).mode == SaveMode::Sync) && (old(self).pending_game_detail.unwrap().mode == SaveMode::Local
                    || old(self).pending_game_detail.unwrap().mode == SaveMode::Unmanaged) ==> {
                &&& r@.len() == 0
                &&& final(self).sync_games == old(self).sync_games
                &&& final(self).pending_game_detail == old(self).pending_game_detail
                &&& final(self).modals.view().len() > 0
                &&& final(self).modals.view().last() is ConfirmSyncModeChange
                &&& final(self).modals.view().last()->ConfirmSyncModeChange_game@
                    == old(self).pending_game_detail_name.unwrap()@
                &&& final(self).modals.view().last()->ConfirmSyncModeChange_previous_mode
                    == setting_of(old(self).sync_games@, old(self).pending_game_detail_name.unwrap()@).mode
            },
            // Moving into a mode that keeps a copy in the cloud is saved at once.
            old(self).pending_game_detail is Some && old(self).pending_game_detail_name is Some
                && (old(self).pending_game_detail.unwrap().mode == SaveMode::Cloud
                    || old(self).pending_game_detail.unwrap().mode == SaveMode::Sync) ==> {
                &&& r@ == seq![Effect::SaveSyncConfig]
                &&& final(self).sync_games@ == with_setting(
                    old(self).sync_games@,
                    old(self).pending_game_detail_name.unwrap(),
                    old(self).pending_game_detail.unwrap(),
                )
                &&& final(self).modals == old(self).modals
            },
            final(self).operation == old(self).operation,
    {
        let name = match &self.pending_game_detail_name {
            Some(n) => n.clone(),
            None => {
                return Vec::new();
            },
        };
        let pending = match self.pending_game_detail {
            Some(p) => p,
            None => {
                return Vec::new();
            },
        };
        let previous = config_of(&self.sync_games, name.as_str()).mode;
        let leaves_cloud = (previous == SaveMode::Cloud || previous == SaveMode::Sync) && (
        pending.mode == SaveMode::Local || pending.mode == SaveMode::Unmanaged);
        let to_none = pending.mode == SaveMode::Unmanaged && previous != SaveMode::Unmanaged;
        if leaves_cloud || to_none {
            let warning = if to_none {
                String::from_str("Set \"").concat(name.as_str()).concat(
                    "\" to None?\n\nThe cloud backup and local backup will be deleted. This cannot be undone.",
                )
            } else {
                String::from_str("Switch \"").concat(name.as_str()).concat(
                    "\" to Local mode?\n\nThe cloud backup will be deleted. This cannot be undone.",
                )
            };
            let ghost before = self.modals.view();
            let modal = Modal::ConfirmSyncModeChange { game: name, warning, previous_mode: previous };
            self.modals.show_modal(modal);
            assert(self.modals.view().last() == modal);
            return Vec::new();
        }
        self.pending_game_detail_name = None;
        self.pending_game_detail = None;
        put_setting(&mut self.sync_games, name, pending);
        self.timed_notification = Some(Notification::new(String::from_str("\u{2713} Saved")).expires(2));
        vec![Effect::SaveSyncConfig]
    }

    /// Carries out a confirmed change of save mode: the edited setting is saved and the
    /// edit ends; the settings must be written and a notice says so; when the game had
    /// a copy in the cloud, that copy must be deleted. The dialog on top closes. With no
    /// edit, only the dialog closes.
    pub fn confirm_sync_mode_change(&mut self, game: String, previous_mode: SaveMode) -> (r: Vec<Effect>)
        ensures
            final(self).pending_game_detail is None,
            final(self).pending_game_detail_name is None,
            old(self).modals.view().len() > 0 ==> final(self).modals.view() == old(self).modals.view().drop_last(),
            old(self).modals.view().len() == 0 ==> final(self).modals.view() == old(self).modals.view(),
            match (old(self).pending_game_detail, old(self).pending_game_detail_name) {
                (Some(p), Some(name)) => {
                &&& final(self).sync_games@ == with_setting(old(self).sync_games@, name, p)
                &&& notice(final(self).timed_notification, "\u{2713} Saved"@, 2)
                &&& r@ == if in_cloud(previous_mode) {
                    seq![Effect::SaveSyncConfig, Effect::DeleteCloudBackup(game)]
                } else {
                    seq![Effect::SaveSyncConfig]
                }
            },
                _ => r@.len() == 0 && final(self).sync_games == old(self).sync_games,
            },
            final(self).operation == old(self).operation,
    {
        let name = self.pending_game_detail_name.take();
        let pending = self.pending_game_detail.take();
        let mut effects: Vec<Effect> = Vec::new();
        match (name, pending) {
            (Some(name), Some(pending)) => {
                put_setting(&mut self.sync_games, name, pending);
                self.timed_notification = Some(
                    Notification::new(String::from_str("\u{2713} Saved")).expires(2),
                );
                effects.push(Effect::SaveSyncConfig);
                if previous_mode == SaveMode::Cloud || previous_mode == SaveMode::Sync {
                    effects.push(Effect::DeleteCloudBackup(game));
                }
            },
            _ => {},
        }
        self.modals.close_modal();
        effects
    }

    /// Starts a backup (a preview when `preview`; `repair` forces new full backups and
    /// shows the backup screen; `jump` shows the one game asked for once it is scanned).
    /// A preview closes the dialog on top at once; a real backup closes it once the
    /// backup folder is ready (`finish_start`). Nothing at all changes while another
    /// operation runs.
    pub fn start_backup(
        &mut self,
        preview: bool,
        repair: bool,
        jump: bool,
        games: Option<GameSelection>,
        log_filtered: bool,
        visible: Vec<String>,
    ) -> (r: BackupStart)
        ensures
            !(old(self).operation is Idle) ==> r == BackupStart::Ignored && *final(self) == *old(self),
            old(self).operation is Idle ==> {
                &&& r == (BackupStart::Started {
                    clear_log: games is None && !log_filtered,
                    switch_to_backup: repair,
                    prepare_target: !preview,
                })
                &&& final(self).operation matches Operation::Backup {
                    finality,
                    cancelling,
                    games: chosen,
                    errors,
                    force_new_full_backup,
                    syncable_games,
                    active_games,
                } && finality == (if preview {
                    Finality::Preview
                } else {
                    Finality::Final
                }) && !cancelling && chosen_games(games, log_filtered, names_view(visible@), chosen)
                    && errors@.len() == 0 && force_new_full_backup == repair
                    && syncable_games@.len() == 0 && active_games@.len() == 0
                &&& final(self).jump_to_game_after_scan == match games {
                    Some(GameSelection::Single { game }) => if jump {
                        Some(game)
                    } else {
                        old(self).jump_to_game_after_scan
                    },
                    _ => old(self).jump_to_game_after_scan,
                }
                &&& final(self).modals.view() == if preview && old(self).modals.view().len() > 0 {
                    old(self).modals.view().drop_last()
                } else {
                    old(self).modals.view()
                }
                &&& final(self).steps == old(self).steps
                &&& final(self).timed_notification == old(self).timed_notification
                &&& final(self).pending_game_detail == old(self).pending_game_detail
                &&& final(self).pending_game_detail_name == old(self).pending_game_detail_name
                &&& final(self).sync_in_progress == old(self).sync_in_progress
            },
            final(self).sync_games == old(self).sync_games,
            final(self).exiting == old(self).exiting,
    {
        if !self.operation.idle() {
            return BackupStart::Ignored;
        }
        let clear_log = games.is_none() && !log_filtered;
        if jump {
            match &games {
                Some(GameSelection::Single { game }) => {
                    self.jump_to_game_after_scan = Some(game.clone());
                },
                _ => {},
            }
        }
        let chosen = match games {
            Some(g) => Some(g),
            None => if log_filtered {
                Some(GameSelection::group(visible))
            } else {
                None
            },
        };
        let finality = if preview {
            Finality::Preview
        } else {
            Finality::Final
        };
        self.operation = Operation::new_backup(finality, chosen);
        self.operation.set_force_new_full_backups(repair);
        if preview {
            self.modals.close_modal();
        }
        BackupStart::Started { clear_log, switch_to_backup: repair, prepare_target: !preview }
    }

    /// Gives up a backup that could not start: the operation ends (or the program
    /// leaves, when an exit was asked for) and the error is shown.
    pub fn abort_start(&mut self, error: Error) -> (r: Option<Effect>)
        ensures
            old(self).exiting ==> r == Some(Effect::Exit) && final(self).modals == old(self).modals,
            !old(self).exiting ==> {
                &&& r is None
                &&& final(self).operation is Idle
                &&& final(self).steps.remaining() == 0
                &&& final(self).modals.view() == after_show(
                    old(self).modals.view().filter(|m: Modal| m.kind_view() != Kind::ActiveScanGames),
                    Modal::Error { variant: error },
                )
            },
            final(self).sync_games == old(self).sync_games,
    {
        let e = self.go_idle();
        if e.is_some() {
            return e;
        }
        self.modals.show_modal(Modal::Error { variant: error });
        None
    }

    /// Completes a start once the backup folder is ready: the dialog on top closes.
    pub fn finish_start(&mut self) -> (r: Option<Modal>)
        ensures
            old(self).modals.view().len() > 0 ==> r == Some(old(self).modals.view().last())
                && final(self).modals.view() == old(self).modals.view().drop_last(),
            old(self).modals.view().len() == 0 ==> r is None && final(self).modals.view() == old(
                self,
            ).modals.view(),
            final(self).operation == old(self).operation,
            final(self).steps == old(self).steps,
            final(self).sync_games == old(self).sync_games,
    {
        self.modals.close_modal()
    }

    /// Starts a restore from the folder `path`: the notice goes and the dialog on top
    /// closes. Nothing at all changes while another operation runs; when the source is no
    /// folder, an error is shown and nothing starts.
    pub fn start_restore(
        &mut self,
        source_is_dir: bool,
        path: String,
        games: Option<GameSelection>,
        log_filtered: bool,
        visible: Vec<String>,
    ) -> (r: RestoreStart)
        ensures
            !(old(self).operation is Idle) ==> r is Ignored && *final(self) == *old(self),
            old(self).operation is Idle && !source_is_dir ==> {
                &&& r is ShowedError
                &&& final(self).timed_notification == old(self).timed_notification
                &&& final(self).modals.view() == after_show(
                    old(self).modals.view(),
                    Modal::Error { variant: Error::RestorationSourceInvalid { path } },
                )
            },
            old(self).operation is Idle && source_is_dir ==> {
                &&& r matches RestoreStart::Proceed { games: chosen, clear_log } && chosen_games(
                    games,
                    log_filtered,
                    names_view(visible@),
                    chosen,
                ) && clear_log == (games is None && !log_filtered)
                &&& final(self).modals.view() == if old(self).modals.view().len() > 0 {
                    old(self).modals.view().drop_last()
                } else {
                    old(self).modals.view()
                }
                &&& final(self).timed_notification is None
            },
            final(self).steps == old(self).steps,
            final(self).operation == old(self).operation,
            final(self).sync_games == old(self).sync_games,
    {
        if !self.operation.idle() {
            return RestoreStart::Ignored;
        }
        if !source_is_dir {
            self.modals.show_modal(Modal::Error { variant: Error::RestorationSourceInvalid { path } });
            return RestoreStart::ShowedError;
        }
        let clear_log = games.is_none() && !log_filtered;
        let chosen = match games {
            Some(g) => Some(g),
            None => if log_filtered {
                Some(GameSelection::group(visible))
            } else {
                None
            },
        };
        self.timed_notification = None;
        self.modals.close_modal();
        RestoreStart::Proceed { games: chosen, clear_log }
    }

    /// Shows a notice for three seconds; the synchronisation of one game is over.
    pub fn show_timed_notification(&mut self, message: String)
        ensures
            notice(final(self).timed_notification, message@, 3),
            final(self).sync_in_progress is None,
            final(self).modals == old(self).modals,
            final(self).operation == old(self).operation,
            final(self).sync_games == old(self).sync_games,
    {
        self.timed_notification = Some(Notification::new(message).expires(3));
        self.sync_in_progress = None;
    }

    /// Asks to confirm backing up `game`.
    pub fn request_sync_backup(&mut self, game: String)
        ensures
            final(self).modals.view() == after_show(
                old(self).modals.view(),
                Modal::ConfirmSyncBackup { game },
            ),
            final(self).operation == old(self).operation,
            final(self).sync_games == old(self).sync_games,
    {
        self.modals.show_modal(Modal::ConfirmSyncBackup { game });
    }

    /// Asks to confirm restoring `game`.
    pub fn request_sync_restore(&mut self, game: String)
        ensures
            final(self).modals.view() == after_show(
                old(self).modals.view(),
                Modal::ConfirmSyncRestore { game },
            ),
            final(self).operation == old(self).operation,
            final(self).sync_games == old(self).sync_games,
    {
        self.modals.show_modal(Modal::ConfirmSyncRestore { game });
    }

    /// Backs up `game` once confirmed: the confirmations close, the progress shows, and
    /// the backup must be carried out.
    pub fn sync_backup_game(&mut self, game: String) -> (r: Effect)
        ensures
            r == Effect::BackUpGame(game),
            final(self).sync_in_progress matches Some(t) && t@ == "\u{23f3} Backing up..."@,
            final(self).modals.view() == old(self).modals.view().filter(
                |m: Modal| m.kind_view() != Kind::ConfirmSyncBackup,
            ),
            final(self).operation == old(self).operation,
            final(self).sync_games == old(self).sync_games,
    {
        self.sync_in_progress = Some(String::from_str("\u{23f3} Backing up..."));
        self.modals.close_specific_modal(Kind::ConfirmSyncBackup);
        Effect::BackUpGame(game)
    }

    /// Restores `game` once confirmed: the confirmations close, the progress shows, and
    /// the restore must be carried out.
    pub fn sync_restore_game(&mut self, game: String) -> (r: Effect)
        ensures
            r == Effect::RestoreGame(game),
            final(self).sync_in_progress matches Some(t) && t@ == "\u{23f3} Restoring..."@,
            final(self).modals.view() == old(self).modals.view().filter(
                |m: Modal| m.kind_view() != Kind::ConfirmSyncRestore,
            ),
            final(self).operation == old(self).operation,
            final(self).sync_games == old(self).sync_games,
    {
        self.sync_in_progress = Some(String::from_str("\u{23f3} Restoring..."));
        self.modals.close_specific_modal(Kind::ConfirmSyncRestore);
        Effect::RestoreGame(game)
    }
}

/// Records an edit of a field of the remote dialogs: a text goes into that field's
/// history; a provider is picked in the WebDAV dialog on top, if it is there.
pub fn edit_modal_field(histories: &mut TextHistories, modals: &mut ModalStack, field: ModalField)
    ensures
        match field {
            ModalField::Url(t) => final(histories).modal.url.model() == history_push(
                old(histories).modal.url.model(),
                t@,
            ) && *final(modals) == *old(modals),
            ModalField::Host(t) => final(histories).modal.host.model() == history_push(
                old(histories).modal.host.model(),
                t@,
            ) && *final(modals) == *old(modals),
            ModalField::Port(t) => final(histories).modal.port.model() == history_push(
                old(histories).modal.port.model(),
                t@,
            ) && *final(modals) == *old(modals),
            ModalField::Username(t) => final(histories).modal.username.model() == history_push(
                old(histories).modal.username.model(),
                t@,
            ) && *final(modals) == *old(modals),
            ModalField::Password(t) => final(histories).modal.password.model() == history_push(
                old(histories).modal.password.model(),
                t@,
            ) && *final(modals) == *old(modals),
            ModalField::WebDavProvider(p) => *final(histories) == *old(histories) && if old(modals).view().len() > 0
                && old(modals).view().last() is ConfigureWebDavRemote {
                final(modals).view() == old(modals).view().drop_last().push(
                    Modal::ConfigureWebDavRemote { provider: p },
                )
            } else {
                final(modals).view() == old(modals).view()
            },
        },
        !(field is Url) ==> final(histories).modal.url == old(histories).modal.url,
        !(field is Host) ==> final(histories).modal.host == old(histories).modal.host,
        !(field is Port) ==> final(histories).modal.port == old(histories).modal.port,
        !(field is Username) ==> final(histories).modal.username == old(histories).modal.username,
        !(field is Password) ==> final(histories).modal.password == old(histories).modal.password,
        final(histories).cloud_path == old(histories).cloud_path,
        final(histories).backup_target == old(histories).backup_target,
        final(histories).restore_source == old(histories).restore_source,
        final(histories).custom_games == old(histories).custom_games,
        final(histories).roots == old(histories).roots,
{
    match field {
        ModalField::Url(t) => histories.modal.url.push(t.as_str()),
        ModalField::Host(t) => histories.modal.host.push(t.as_str()),
        ModalField::Port(t) => histories.modal.port.push(t.as_str()),
        ModalField::Username(t) => histories.modal.username.push(t.as_str()),
        ModalField::Password(t) => histories.modal.password.push(t.as_str()),
        ModalField::WebDavProvider(p) => modals.set_webdav_provider(p),
    }
}

/// What picking a kind of cloud remote came to.
#[derive(Debug)]
pub enum RemoteEdit {
    /// No cloud: the remote was removed; the configuration must be written.
    Cleared,
    /// A custom remote was set; the configuration must be written.
    Saved,
    /// A dialog asks for the remote's details.
    Dialog,
    /// This remote must be configured in Rclone.
    Configure(Remote),
}

/// Picks the kind of cloud remote `choice` at the time `now` (seconds since the epoch).
/// No cloud removes the remote; a custom remote is set at once and its id recorded; an
/// FTP, SMB or WebDAV remote opens its dialog with its fields reset to the new remote's
/// details; the other kinds must be configured in Rclone.
pub fn edit_cloud_remote(
    histories: &mut TextHistories,
    config: &mut Config,
    modals: &mut ModalStack,
    choice: RemoteChoice,
    now: i64,
) -> (r: RemoteEdit)
    ensures
        choice == RemoteChoice::NoRemote ==> {
            &&& r is Cleared
            &&& final(config).cloud_remote is None
            &&& *final(config) == (Config { cloud_remote: None, ..*old(config) })
            &&& *final(histories) == *old(histories)
            &&& *final(modals) == *old(modals)
        },
        choice == RemoteChoice::Custom ==> {
            &&& r is Saved
            &&& final(config).cloud_remote matches Some(Remote::Custom { id }) && id@ == "ludusavi"@
            &&& *final(config) == (Config { cloud_remote: final(config).cloud_remote, ..*old(config) })
            &&& final(histories).cloud_remote_id.model() == history_push(
                old(histories).cloud_remote_id.model(),
                "ludusavi"@,
            )
            &&& *final(histories) == (TextHistories { cloud_remote_id: final(histories).cloud_remote_id, ..*old(histories) })
            &&& *final(modals) == *old(modals)
        },
        (choice == RemoteChoice::Ftp || choice == RemoteChoice::Smb) ==> {
            &&& r is Dialog
            &&& *final(config) == *old(config)
            &&& final(histories).modal.host.model() == history_start(Seq::empty(), old(histories).modal.host.model().limit)
            &&& final(histories).modal.port.model() == history_start(
                signed_decimal(if choice == RemoteChoice::Ftp { 21 } else { 445 }),
                old(histories).modal.port.model().limit,
            )
            &&& final(histories).modal.username.model() == history_start(Seq::empty(), old(histories).modal.username.model().limit)
            &&& final(histories).modal.password.model() == history_start(Seq::empty(), old(histories).modal.password.model().limit)
            &&& final(histories).modal.url == old(histories).modal.url
            &&& *final(histories) == (TextHistories { modal: final(histories).modal, ..*old(histories) })
            &&& final(modals).view() == after_show(
                old(modals).view(),
                if choice == RemoteChoice::Ftp { Modal::ConfigureFtpRemote } else { Modal::ConfigureSmbRemote },
            )
        },
        choice == RemoteChoice::WebDav ==> {
            &&& r is Dialog
            &&& *final(config) == *old(config)
            &&& final(histories).modal.url.model() == history_start(Seq::empty(), old(histories).modal.url.model().limit)
            &&& final(histories).modal.username.model() == history_start(Seq::empty(), old(histories).modal.username.model().limit)
            &&& final(histories).modal.password.model() == history_start(Seq::empty(), old(histories).modal.password.model().limit)
            &&& final(histories).modal.host == old(histories).modal.host
            &&& final(histories).modal.port == old(histories).modal.port
            &&& *final(histories) == (TextHistories { modal: final(histories).modal, ..*old(histories) })
            &&& final(modals).view() == after_show(
                old(modals).view(),
                Modal::ConfigureWebDavRemote { provider: crate::cloud::WebDavProvider::Other },
            )
        },
        (choice == RemoteChoice::Box || choice == RemoteChoice::Dropbox || choice == RemoteChoice::GoogleDrive
            || choice == RemoteChoice::OneDrive) ==> {
            &&& r matches RemoteEdit::Configure(remote) && RemoteChoice::of(Some(remote)) == choice
                && remote.id_view() == timestamp_remote_id(now as int)
            &&& *final(config) == *old(config)
            &&& *final(histories) == *old(histories)
            &&& *final(modals) == *old(modals)
        },
{
    match Remote::try_from_choice(choice, now) {
        Err(()) => {
            config.cloud_remote = None;
            RemoteEdit::Cleared
        },
        Ok(remote) => match remote {
            Remote::Custom { id } => {
                histories.cloud_remote_id.push(id.as_str());
                config.cloud_remote = Some(Remote::Custom { id });
                RemoteEdit::Saved
            },
            Remote::Ftp { host, port, username, password, .. } => {
                assert(host@ =~= Seq::<char>::empty());
                assert(username@ =~= Seq::<char>::empty());
                assert(password@ =~= Seq::<char>::empty());
                histories.modal.host.initialize(host);
                histories.modal.port.initialize(i64_to_decimal(port as i64));
                histories.modal.username.initialize(username);
                histories.modal.password.initialize(password);
                modals.show_modal(Modal::ConfigureFtpRemote);
                RemoteEdit::Dialog
            },
            Remote::Smb { host, port, username, password, .. } => {
                assert(host@ =~= Seq::<char>::empty());
                assert(username@ =~= Seq::<char>::empty());
                assert(password@ =~= Seq::<char>::empty());
                histories.modal.host.initialize(host);
                histories.modal.port.initialize(i64_to_decimal(port as i64));
                histories.modal.username.initialize(username);
                histories.modal.password.initialize(password);
                modals.show_modal(Modal::ConfigureSmbRemote);
                RemoteEdit::Dialog
            },
            Remote::WebDav { url, username, password, provider, .. } => {
                assert(url@ =~= Seq::<char>::empty());
                assert(username@ =~= Seq::<char>::empty());
                assert(password@ =~= Seq::<char>::empty());
                histories.modal.url.initialize(url);
                histories.modal.username.initialize(username);
                histories.modal.password.initialize(password);
                modals.show_modal(Modal::ConfigureWebDavRemote { provider });
                RemoteEdit::Dialog
            },
            other => RemoteEdit::Configure(other),
        },
    }
}

} // verus!
