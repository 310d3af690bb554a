//! The dialogs of the interface: what kind each is, what it says, and what confirming
//! it asks the application to do.
use crate::cloud::{timestamp_remote_id, Remote, WebDavProvider};
use crate::lang::{error_text, missing_root_lines, MissingRoot, Translator};
use crate::prelude::Error;
use crate::shortcuts::{history_current, TextHistories};
use crate::text::{occurs_at, parse_i32, parsed_i32, signed_decimal, u64_to_decimal};
use vstd::prelude::*;

verus! {

/// How a dialog presents itself: a wait, a notice, or a question.
#[derive(Clone, Copy, Debug, PartialEq, Eq, Structural)]
pub enum ModalVariant {
    Loading,
    Info,
    Confirm,
}

/// The text fields of the remote dialogs.
#[derive(Clone, Copy, Debug, PartialEq, Eq, Structural)]
pub enum ModalInputKind {
    Url,
    Host,
    Port,
    Username,
    Password,
}

/// An edit of a field of the remote dialogs.
#[derive(Clone, Debug)]
pub enum ModalField {
    Url(String),
    Host(String),
    Port(String),
    Username(String),
    Password(String),
    WebDavProvider(WebDavProvider),
}

/// The kinds of dialog.
#[derive(Clone, Copy, Debug, PartialEq, Eq, Structural)]
pub enum Kind {
    Error,
    Errors,
    Exiting,
    NoMissingRoots,
    ConfirmAddMissingRoots,
    UpdatingManifest,
    ConfigureFtpRemote,
    ConfigureSmbRemote,
    ConfigureWebDavRemote,
    ActiveScanGames,
    ConfirmSyncBackup,
    ConfirmSyncRestore,
    ConfirmSyncModeChange,
    AddGame,
    ConfirmRemoveCustomGame,
    ConfirmRestoreSafetyBackup,
    ConfirmDeleteSafetyBackup,
    ConfirmResolveConflictKeepBoth,
    ConfirmAccelaAction,
}

/// How a game's saves are handled: not at all, kept locally, kept in the cloud, or kept
/// in sync both ways.
#[derive(Clone, Copy, Debug, PartialEq, Eq, Structural)]
pub enum SaveMode {
    Unmanaged,
    Local,
    Cloud,
    Sync,
}

/// A dialog.
#[derive(Debug)]
pub enum Modal {
    Error { variant: Error },
    Errors { errors: Vec<Error> },
    Exiting,
    NoMissingRoots,
    ConfirmAddMissingRoots(Vec<MissingRoot>),
    UpdatingManifest,
    ConfigureFtpRemote,
    ConfigureSmbRemote,
    ConfigureWebDavRemote { provider: WebDavProvider },
    ActiveScanGames,
    ConfirmSyncBackup { game: String },
    ConfirmSyncRestore { game: String },
    ConfirmRestoreSafetyBackup { game: String },
    ConfirmDeleteSafetyBackup { game: String },
    ConfirmResolveConflictKeepBoth { game: String },
    ConfirmSyncModeChange { game: String, warning: String, previous_mode: SaveMode },
    AddGame { name: String, path: String, error: Option<String> },
    ConfirmRemoveCustomGame { game: String },
}

/// What confirming a dialog asks the application to do.
#[derive(Debug)]
pub enum ModalMessage {
    CloseModal,
    SyncBackupGame(String),
    SyncRestoreGame(String),
    RestoreSafetyBackup(String),
    DeleteSafetyBackup(String),
    ResolveConflictKeepBoth(String),
    ConfirmSyncModeChange { game: String, previous_mode: SaveMode },
    AddGameConfirm,
    RemoveCustomGameConfirm(String),
    ConfirmAddMissingRoots(Vec<MissingRoot>),
    FinalizeRemote(Remote),
}

/// The messages of several errors, separated by blank lines.
pub open spec fn joined_error_texts(errors: Seq<Error>) -> Seq<char>
    decreases errors.len(),
{
    if errors.len() == 0 {
        Seq::empty()
    } else if errors.len() == 1 {
        error_text(errors[0])
    } else {
        joined_error_texts(errors.drop_last()) + "\n\n"@ + error_text(errors.last())
    }
}

impl Modal {
    /// The kind of the dialog.
    pub open spec fn kind_view(&self) -> Kind {
        match self {
            Modal::Error { .. } => Kind::Error,
            Modal::Errors { .. } => Kind::Errors,
            Modal::Exiting => Kind::Exiting,
            Modal::NoMissingRoots => Kind::NoMissingRoots,
            Modal::ConfirmAddMissingRoots(..) => Kind::ConfirmAddMissingRoots,
            Modal::UpdatingManifest => Kind::UpdatingManifest,
            Modal::ConfigureFtpRemote => Kind::ConfigureFtpRemote,
            Modal::ConfigureSmbRemote => Kind::ConfigureSmbRemote,
            Modal::ConfigureWebDavRemote { .. } => Kind::ConfigureWebDavRemote,
            Modal::ActiveScanGames => Kind::ActiveScanGames,
            Modal::ConfirmSyncBackup { .. } => Kind::ConfirmSyncBackup,
            Modal::ConfirmSyncRestore { .. } => Kind::ConfirmSyncRestore,
            Modal::ConfirmSyncModeChange { .. } => Kind::ConfirmSyncModeChange,
            Modal::AddGame { .. } => Kind::AddGame,
            Modal::ConfirmRemoveCustomGame { .. } => Kind::ConfirmRemoveCustomGame,
            Modal::ConfirmRestoreSafetyBackup { .. } => Kind::ConfirmRestoreSafetyBackup,
            Modal::ConfirmDeleteSafetyBackup { .. } => Kind::ConfirmDeleteSafetyBackup,
            Modal::ConfirmResolveConflictKeepBoth { .. } => Kind::ConfirmResolveConflictKeepBoth,
        }
    }

    /// The kind of the dialog.
    pub fn kind(&self) -> (r: Kind)
        ensures
            r == self.kind_view(),
    {
        match self {
            Modal::Error { .. } => Kind::Error,
            Modal::Errors { .. } => Kind::Errors,
            Modal::Exiting => Kind::Exiting,
            Modal::NoMissingRoots => Kind::NoMissingRoots,
            Modal::ConfirmAddMissingRoots(..) => Kind::ConfirmAddMissingRoots,
            Modal::UpdatingManifest => Kind::UpdatingManifest,
            Modal::ConfigureFtpRemote => Kind::ConfigureFtpRemote,
            Modal::ConfigureSmbRemote => Kind::ConfigureSmbRemote,
            Modal::ConfigureWebDavRemote { .. } => Kind::ConfigureWebDavRemote,
            Modal::ActiveScanGames => Kind::ActiveScanGames,
            Modal::ConfirmSyncBackup { .. } => Kind::ConfirmSyncBackup,
            Modal::ConfirmSyncRestore { .. } => Kind::ConfirmSyncRestore,
            Modal::ConfirmSyncModeChange { .. } => Kind::ConfirmSyncModeChange,
            Modal::AddGame { .. } => Kind::AddGame,
            Modal::ConfirmRemoveCustomGame { .. } => Kind::ConfirmRemoveCustomGame,
            Modal::ConfirmRestoreSafetyBackup { .. } => Kind::ConfirmRestoreSafetyBackup,
            Modal::ConfirmDeleteSafetyBackup { .. } => Kind::ConfirmDeleteSafetyBackup,
            Modal::ConfirmResolveConflictKeepBoth { .. } => Kind::ConfirmResolveConflictKeepBoth,
        }
    }

    /// Whether two dialogs of this kind may follow each other in the stack: only error
    /// dialogs may.
    pub fn stackable(&self) -> (r: bool)
        ensures
            r == (self is Error || self is Errors),
    {
        match self {
            Modal::Error { .. } => true,
            Modal::Errors { .. } => true,
            Modal::Exiting => false,
            Modal::NoMissingRoots => false,
            Modal::ConfirmAddMissingRoots(..) => false,
            Modal::UpdatingManifest => false,
            Modal::ConfigureFtpRemote => false,
            Modal::ConfigureSmbRemote => false,
            Modal::ConfigureWebDavRemote { .. } => false,
            Modal::ActiveScanGames => false,
            Modal::ConfirmSyncBackup { .. } => false,
            Modal::ConfirmSyncRestore { .. } => false,
            Modal::ConfirmSyncModeChange { .. } => false,
            Modal::AddGame { .. } => false,
            Modal::ConfirmRemoveCustomGame { .. } => false,
            Modal::ConfirmRestoreSafetyBackup { .. } => false,
            Modal::ConfirmDeleteSafetyBackup { .. } => false,
            Modal::ConfirmResolveConflictKeepBoth { .. } => false,
        }
    }

    /// How the dialog presents itself: exiting and updating are waits; errors, the
    /// missing-roots notice and the list of games in progress are notices; the rest ask.
    pub fn variant(&self) -> (r: ModalVariant)
        ensures
            r == if self is Exiting || self is UpdatingManifest {
                ModalVariant::Loading
            } else if self is Error || self is Errors || self is NoMissingRoots
                || self is ActiveScanGames {
                ModalVariant::Info
            } else {
                ModalVariant::Confirm
            },
    {
        match self {
            Self::Exiting | Self::UpdatingManifest => ModalVariant::Loading,
            Self::Error { .. } | Self::Errors { .. } | Self::NoMissingRoots | Self::ActiveScanGames => {
                ModalVariant::Info
            },
            Self::ConfirmAddMissingRoots(..)
            | Self::ConfigureFtpRemote
            | Self::ConfigureSmbRemote
            | Self::ConfigureWebDavRemote { .. } => ModalVariant::Confirm,
            Self::ConfirmSyncBackup { .. }
            | Self::ConfirmSyncRestore { .. }
            | Self::ConfirmSyncModeChange { .. }
            | Self::AddGame { .. }
            | Self::ConfirmRemoveCustomGame { .. }
            | Self::ConfirmRestoreSafetyBackup { .. }
            | Self::ConfirmDeleteSafetyBackup { .. }
            | Self::ConfirmResolveConflictKeepBoth { .. } => ModalVariant::Confirm,
        }
    }

    /// Whether the dialog shows its text as a title and a description apart: the
    /// synchronisation and safety-backup confirmations, the custom game removal, and the
    /// remote forms do; the others show their text whole.
    pub fn shows_title(&self) -> (r: bool)
        ensures
            r == (self is ConfirmSyncBackup || self is ConfirmSyncRestore
                || self is ConfirmSyncModeChange || self is ConfirmRemoveCustomGame
                || self is ConfirmRestoreSafetyBackup || self is ConfirmDeleteSafetyBackup
                || self is ConfirmResolveConflictKeepBoth || self is ConfigureFtpRemote
                || self is ConfigureSmbRemote || self is ConfigureWebDavRemote),
    {
        match self {
            Self::ConfirmSyncBackup { .. }
            | Self::ConfirmSyncRestore { .. }
            | Self::ConfirmSyncModeChange { .. }
            | Self::ConfirmRemoveCustomGame { .. }
            | Self::ConfirmRestoreSafetyBackup { .. }
            | Self::ConfirmDeleteSafetyBackup { .. }
            | Self::ConfirmResolveConflictKeepBoth { .. }
            | Self::ConfigureFtpRemote
            | Self::ConfigureSmbRemote
            | Self::ConfigureWebDavRemote { .. } => true,
            Self::Error { .. }
            | Self::Errors { .. }
            | Self::Exiting
            | Self::NoMissingRoots
            | Self::ConfirmAddMissingRoots(..)
            | Self::UpdatingManifest
            | Self::ActiveScanGames
            | Self::AddGame { .. } => false,
        }
    }

    /// The share of the window's height that the dialog's body takes: the missing-roots
    /// notice and the confirmations take one part; errors, waits, the roots to add, the
    /// remote forms and the games in progress take two.
    pub fn body_height_portion(&self) -> (r: u16)
        ensures
            r == if self is Error || self is Errors || self is Exiting
                || self is ConfirmAddMissingRoots || self is UpdatingManifest
                || self is ConfigureFtpRemote || self is ConfigureSmbRemote
                || self is ConfigureWebDavRemote || self is ActiveScanGames {
                2u16
            } else {
                1u16
            },
    {
        match self {
            Self::NoMissingRoots => 1,
            Self::Error { .. }
            | Self::Errors { .. }
            | Self::Exiting
            | Self::ConfirmAddMissingRoots(_)
            | Self::UpdatingManifest
            | Self::ConfigureFtpRemote
            | Self::ConfigureSmbRemote
            | Self::ConfigureWebDavRemote { .. }
            | Self::ActiveScanGames => 2,
            Self::ConfirmSyncBackup { .. }
            | Self::ConfirmSyncRestore { .. }
            | Self::ConfirmSyncModeChange { .. }
            | Self::AddGame { .. }
            | Self::ConfirmRemoveCustomGame { .. }
            | Self::ConfirmRestoreSafetyBackup { .. }
            | Self::ConfirmDeleteSafetyBackup { .. }
            | Self::ConfirmResolveConflictKeepBoth { .. } => 1,
        }
    }

    /// What the dialog says.
    pub open spec fn text_view(&self) -> Seq<char> {
        match self {
            Modal::Error { variant } => error_text(*variant),
            Modal::Errors { errors } => joined_error_texts(errors@),
            Modal::Exiting => "Cancelling..."@,
            Modal::NoMissingRoots => "No additional roots found."@,
            Modal::ConfirmAddMissingRoots(missing) => "Add these roots?"@ + "\n"@
                + missing_root_lines(missing@),
            Modal::UpdatingManifest => "Updating manifest..."@,
            Modal::ConfigureFtpRemote => "FTP\n\nEnter the host, port, and credentials to connect to the server."@,
            Modal::ConfigureSmbRemote => "SMB\n\nEnter the host, port, and credentials to connect to the share."@,
            Modal::ConfigureWebDavRemote { .. } => "WebDAV\n\nEnter the server URL and credentials."@,
            Modal::ActiveScanGames => Seq::empty(),
            Modal::ConfirmSyncBackup { game } => "Back up saves for \""@ + game@
                + "\"?\n\nThis will overwrite the existing backup with the current save files."@,
            Modal::ConfirmSyncRestore { game } => "Restore saves for \""@ + game@
                + "\"?\n\nThis will overwrite your current save files with the backup. This cannot be undone."@,
            Modal::ConfirmSyncModeChange { warning, .. } => warning@,
            Modal::AddGame { .. } => "Add game"@,
            Modal::ConfirmRemoveCustomGame { game } => "Remove \""@ + game@
                + "\"?\n\nThis will delete the game from the sync system, all backups (local and cloud), and cannot be undone."@,
            Modal::ConfirmRestoreSafetyBackup { game } => "Restore safety backup for \""@ + game@
                + "\"?\n\nThe current saves will be replaced with the safety backup. A new safety backup will be created with the current saves before the restore, so you can revert again if needed."@,
            Modal::ConfirmDeleteSafetyBackup { game } => "Delete safety backup for \""@ + game@
                + "\"?\n\nThe safety backup will be permanently deleted. This cannot be undone."@,
            Modal::ConfirmResolveConflictKeepBoth { game } => "Keep both versions of \""@ + game@
                + "\"?\n\nYour current local saves will be archived as a permanent snapshot under safety-backups, then the cloud version will be downloaded. You can restore the snapshot later if needed."@,
        }
    }

    fn error_texts(translator: &Translator, errors: &Vec<Error>) -> (r: String)
        ensures
            r@ == joined_error_texts(errors@),
    {
        let mut out = String::new();
        let mut i: usize = 0;
        while i < errors.len()
            invariant
                i <= errors@.len(),
                out@ == joined_error_texts(errors@.take(i as int)),
            decreases errors.len() - i,
        {
            let text = translator.handle_error(&errors[i]);
            assert(errors@.take(i + 1).drop_last() =~= errors@.take(i as int));
            if i > 0 {
                out.append("\n\n");
            } else {
                assert(errors@.take(0) =~= Seq::<Error>::empty());
            }
            out.append(text.as_str());
            i = i + 1;
        }
        assert(errors@.take(errors@.len() as int) =~= errors@);
        out
    }

    /// What the dialog says.
    pub fn text(&self, translator: &Translator) -> (r: String)
        ensures
            r@ == self.text_view(),
    {
        match self {
            Self::Error { variant } => translator.handle_error(variant),
            Self::Errors { errors } => Self::error_texts(translator, errors),
            Self::Exiting => translator.cancelling_button(),
            Self::NoMissingRoots => translator.no_missing_roots(),
            Self::ConfirmAddMissingRoots(missing) => translator.confirm_add_missing_roots(missing),
            Self::UpdatingManifest => translator.updating_manifest(),
            Self::ConfigureFtpRemote => String::from_str(
                "FTP\n\nEnter the host, port, and credentials to connect to the server.",
            ),
            Self::ConfigureSmbRemote => String::from_str(
                "SMB\n\nEnter the host, port, and credentials to connect to the share.",
            ),
            Self::ConfigureWebDavRemote { .. } => String::from_str(
                "WebDAV\n\nEnter the server URL and credentials.",
            ),
            Self::ActiveScanGames => String::new(),
            Self::ConfirmSyncBackup { game } => String::from_str("Back up saves for \"").concat(
                game.as_str(),
            ).concat("\"?\n\nThis will overwrite the existing backup with the current save files."),
            Self::ConfirmSyncRestore { game } => String::from_str("Restore saves for \"").concat(
                game.as_str(),
            ).concat(
                "\"?\n\nThis will overwrite your current save files with the backup. This cannot be undone.",
            ),
            Self::ConfirmSyncModeChange { warning, .. } => warning.clone(),
            Self::AddGame { .. } => String::from_str("Add game"),
            Self::ConfirmRemoveCustomGame { game } => String::from_str("Remove \"").concat(
                game.as_str(),
            ).concat(
                "\"?\n\nThis will delete the game from the sync system, all backups (local and cloud), and cannot be undone.",
            ),
            Self::ConfirmRestoreSafetyBackup { game } => String::from_str(
                "Restore safety backup for \"",
            ).concat(game.as_str()).concat(
                "\"?\n\nThe current saves will be replaced with the safety backup. A new safety backup will be created with the current saves before the restore, so you can revert again if needed.",
            ),
            Self::ConfirmDeleteSafetyBackup { game } => String::from_str(
                "Delete safety backup for \"",
            ).concat(game.as_str()).concat(
                "\"?\n\nThe safety backup will be permanently deleted. This cannot be undone.",
            ),
            Self::ConfirmResolveConflictKeepBoth { game } => String::from_str(
                "Keep both versions of \"",
            ).concat(game.as_str()).concat(
                "\"?\n\nYour current local saves will be archived as a permanent snapshot under safety-backups, then the cloud version will be downloaded. You can restore the snapshot later if needed.",
            ),
        }
    }

    /// Whether `r` is what confirming the dialog gives, with the remote dialogs reading
    /// the current values of their fields: the FTP and SMB dialogs need a host, a user
    /// name and a port that reads as an `i32`; the WebDAV dialog needs an address and a
    /// user name. The new remote is named after the time `now` (seconds since the epoch).
    pub open spec fn message_spec(&self, histories: TextHistories, now: i64, r: Option<ModalMessage>) -> bool {
        let host = history_current(histories.modal.host.model());
        let port = history_current(histories.modal.port.model());
        let url = history_current(histories.modal.url.model());
        let username = history_current(histories.modal.username.model());
        let password = history_current(histories.modal.password.model());
        match self {
            Modal::Error { .. } | Modal::Errors { .. } | Modal::NoMissingRoots
            | Modal::ActiveScanGames => r matches Some(ModalMessage::CloseModal),
            Modal::ConfirmSyncBackup { game } => r matches Some(ModalMessage::SyncBackupGame(g))
                && g@ == game@,
            Modal::ConfirmRestoreSafetyBackup { game } => r matches Some(
                ModalMessage::RestoreSafetyBackup(g),
            ) && g@ == game@,
            Modal::ConfirmDeleteSafetyBackup { game } => r matches Some(
                ModalMessage::DeleteSafetyBackup(g),
            ) && g@ == game@,
            Modal::ConfirmResolveConflictKeepBoth { game } => r matches Some(
                ModalMessage::ResolveConflictKeepBoth(g),
            ) && g@ == game@,
            Modal::ConfirmSyncRestore { game } => r matches Some(ModalMessage::SyncRestoreGame(g))
                && g@ == game@,
            Modal::ConfirmSyncModeChange { game, previous_mode, .. } => r matches Some(
                ModalMessage::ConfirmSyncModeChange { game: g, previous_mode: p },
            ) && g@ == game@ && p == previous_mode,
            Modal::AddGame { .. } => r matches Some(ModalMessage::AddGameConfirm),
            Modal::ConfirmRemoveCustomGame { game } => r matches Some(
                ModalMessage::RemoveCustomGameConfirm(g),
            ) && g@ == game@,
            Modal::Exiting => r is None,
            Modal::ConfirmAddMissingRoots(missing) => r matches Some(
                ModalMessage::ConfirmAddMissingRoots(m),
            ) && m@ == missing@,
            Modal::UpdatingManifest => r is None,
            Modal::ConfigureFtpRemote => if parsed_i32(port) is Some && host.len() != 0
                && username.len() != 0 {
                r matches Some(
                    ModalMessage::FinalizeRemote(Remote::Ftp { id, host: h, port: p, username: u, password: w }),
                ) && h@ == host && p == parsed_i32(port).unwrap() && u@ == username && w@
                    == password && id@ == timestamp_remote_id(now as int)
            } else {
                r is None
            },
            Modal::ConfigureSmbRemote => if parsed_i32(port) is Some && host.len() != 0
                && username.len() != 0 {
                r matches Some(
                    ModalMessage::FinalizeRemote(Remote::Smb { id, host: h, port: p, username: u, password: w }),
                ) && h@ == host && p == parsed_i32(port).unwrap() && u@ == username && w@
                    == password && id@ == timestamp_remote_id(now as int)
            } else {
                r is None
            },
            Modal::ConfigureWebDavRemote { provider } => if url.len() != 0 && username.len() != 0 {
                r matches Some(
                    ModalMessage::FinalizeRemote(
                        Remote::WebDav { id, url: a, username: u, password: w, provider: v },
                    ),
                ) && a@ == url && u@ == username && w@ == password && v == provider && id@ == timestamp_remote_id(now as int)
            } else {
                r is None
            },
        }
    }

    /// What confirming the dialog asks the application to do, if anything.
    pub fn message(&self, histories: &TextHistories, now: i64) -> (r: Option<ModalMessage>)
        ensures
            self.message_spec(*histories, now, r),
    {
        match self {
            Self::Error { .. } | Self::Errors { .. } | Self::NoMissingRoots | Self::ActiveScanGames => {
                Some(ModalMessage::CloseModal)
            },
            Self::ConfirmSyncBackup { game } => Some(ModalMessage::SyncBackupGame(game.clone())),
            Self::ConfirmRestoreSafetyBackup { game } => Some(
                ModalMessage::RestoreSafetyBackup(game.clone()),
            ),
            Self::ConfirmDeleteSafetyBackup { game } => Some(
                ModalMessage::DeleteSafetyBackup(game.clone()),
            ),
            Self::ConfirmResolveConflictKeepBoth { game } => Some(
                ModalMessage::ResolveConflictKeepBoth(game.clone()),
            ),
            Self::ConfirmSyncRestore { game } => Some(ModalMessage::SyncRestoreGame(game.clone())),
            Self::ConfirmSyncModeChange { game, previous_mode, .. } => Some(
                ModalMessage::ConfirmSyncModeChange { game: game.clone(), previous_mode: *previous_mode },
            ),
            Self::AddGame { .. } => Some(ModalMessage::AddGameConfirm),
            Self::ConfirmRemoveCustomGame { game } => Some(
                ModalMessage::RemoveCustomGameConfirm(game.clone()),
            ),
            Self::Exiting => None,
            Self::ConfirmAddMissingRoots(missing) => {
                let copy = Self::copy_roots(missing);
                Some(ModalMessage::ConfirmAddMissingRoots(copy))
            },
            Self::UpdatingManifest => None,
            Self::ConfigureFtpRemote => {
                let host = histories.modal.host.current();
                let port = histories.modal.port.current();
                let username = histories.modal.username.current();
                let password = histories.modal.password.current();
                let port = match parse_i32(port.as_str()) {
                    Some(p) => p,
                    None => {
                        return None;
                    },
                };
                if host.as_str().is_empty() || username.as_str().is_empty() {
                    None
                } else {
                    Some(
                        ModalMessage::FinalizeRemote(
                            Remote::Ftp { id: Remote::generate_id(now), host, port, username, password },
                        ),
                    )
                }
            },
            Self::ConfigureSmbRemote => {
                let host = histories.modal.host.current();
                let port = histories.modal.port.current();
                let username = histories.modal.username.current();
                let password = histories.modal.password.current();
                let port = match parse_i32(port.as_str()) {
                    Some(p) => p,
                    None => {
                        return None;
                    },
                };
                if host.as_str().is_empty() || username.as_str().is_empty() {
                    None
                } else {
                    Some(
                        ModalMessage::FinalizeRemote(
                            Remote::Smb { id: Remote::generate_id(now), host, port, username, password },
                        ),
                    )
                }
            },
            Self::ConfigureWebDavRemote { provider } => {
                let url = histories.modal.url.current();
                let username = histories.modal.username.current();
                let password = histories.modal.password.current();
                if url.as_str().is_empty() || username.as_str().is_empty() {
                    None
                } else {
                    Some(
                        ModalMessage::FinalizeRemote(
                            Remote::WebDav {
                                id: Remote::generate_id(now),
                                url,
                                username,
                                password,
                                provider: *provider,
                            },
                        ),
                    )
                }
            },
        }
    }

    fn copy_roots(roots: &Vec<MissingRoot>) -> (r: Vec<MissingRoot>)
        ensures
            r@ == roots@,
    {
        let mut out: Vec<MissingRoot> = Vec::new();
        let mut i: usize = 0;
        while i < roots.len()
            invariant
                i <= roots@.len(),
                out@ == roots@.take(i as int),
            decreases roots.len() - i,
        {
            out.push(roots[i].clone());
            assert(out@ =~= roots@.take(i + 1));
            i = i + 1;
        }
        assert(roots@.take(roots@.len() as int) =~= roots@);
        out
    }
}

/// The separator between a dialog's title and its description: a blank line.
pub open spec fn blank_line() -> Seq<char> {
    seq!['\n', '\n']
}

/// The position of the first blank line in a text, if there is one.
pub open spec fn first_blank_line(s: Seq<char>) -> Option<int> {
    if exists|i: int| occurs_at(s, i, blank_line()) {
        Some(
            choose|i: int|
                occurs_at(s, i, blank_line()) && forall|j: int|
                    0 <= j < i ==> !occurs_at(s, j, blank_line()),
        )
    } else {
        None
    }
}

/// A dialog's title: its text up to the first blank line, or all of it.
pub open spec fn title_part(s: Seq<char>) -> Seq<char> {
    match first_blank_line(s) {
        Some(i) => s.take(i),
        None => s,
    }
}

/// A dialog's description: its text after the first blank line, or nothing.
pub open spec fn description_part(s: Seq<char>) -> Seq<char> {
    match first_blank_line(s) {
        Some(i) => s.skip(i + 2),
        None => Seq::empty(),
    }
}

/// Splits a dialog's text at its first blank line into a title and a description.
pub fn split_title(full: &str) -> (r: (String, String))
    ensures
        r.0@ == title_part(full@),
        r.1@ == description_part(full@),
{
    let n = full.unicode_len();
    let mut i: usize = 0;
    while i < n && i + 1 < n
        invariant
            n == full@.len(),
            i <= n,
            forall|j: int| 0 <= j < i ==> !occurs_at(full@, j, blank_line()),
        decreases n - i,
    {
        if full.get_char(i) == '\n' && full.get_char(i + 1) == '\n' {
            assert(full@.subrange(i as int, i + 2) =~= blank_line());
            assert(occurs_at(full@, i as int, blank_line()));
            let ghost k = choose|k: int|
                occurs_at(full@, k, blank_line()) && forall|j: int|
                    0 <= j < k ==> !occurs_at(full@, j, blank_line());
            assert(k == i) by {
                if k < i {
                } else if k > i {
                }
            }
            let title = String::from_str(full.substring_char(0, i));
            let description = String::from_str(full.substring_char(i + 2, n));
            assert(full@.subrange(0, i as int) =~= full@.take(i as int));
            assert(full@.subrange(i + 2, n as int) =~= full@.skip(i + 2));
            return (title, description);
        }
        assert(!occurs_at(full@, i as int, blank_line())) by {
            if occurs_at(full@, i as int, blank_line()) {
                assert(full@.subrange(i as int, i + 2)[0] == full@[i as int]);
                assert(full@.subrange(i as int, i + 2)[1] == full@[i + 1]);
            }
        }
        i = i + 1;
    }
    assert(!exists|j: int| occurs_at(full@, j, blank_line())) by {
        if exists|j: int| occurs_at(full@, j, blank_line()) {
            let j = choose|j: int| occurs_at(full@, j, blank_line());
            assert(j < i || j + 2 > n);
        }
    }
    (String::from_str(full), String::new())
}

/// `text` padded on the left with zeros to `width` characters.
pub open spec fn zero_padded(text: Seq<char>, width: nat) -> Seq<char> {
    if text.len() >= width {
        text
    } else {
        Seq::new((width - text.len()) as nat, |i: int| '0') + text
    }
}

/// Pads `text` on the left with zeros to `width` characters.
fn pad_zeros(text: String, width: usize) -> (r: String)
    ensures
        r@ == zero_padded(text@, width as nat),
{
    let n = text.as_str().unicode_len();
    if n >= width {
        return text;
    }
    let mut zeros = String::new();
    let mut k: usize = 0;
    while k < width - n
        invariant
            n < width,
            k <= width - n,
            zeros@ == Seq::new(k as nat, |i: int| '0'),
        decreases width - n - k,
    {
        zeros.append("0");
        proof {
            reveal_strlit("0");
        }
        assert(zeros@ =~= Seq::new((k + 1) as nat, |i: int| '0'));
        k = k + 1;
    }
    zeros.concat(text.as_str())
}

/// The magnitude of an integer.
pub open spec fn magnitude(d: int) -> nat {
    if d < 0 {
        (-d) as nat
    } else {
        d as nat
    }
}

/// One part of an elapsed time: the magnitude `part` with the elapsed time's sign, in
/// base 10, padded with zeros to `width`.
pub open spec fn part_text(negative: bool, part: nat, width: nat) -> Seq<char> {
    zero_padded(
        signed_decimal(
            if negative {
                -part
            } else {
                part as int
            },
        ),
        width,
    )
}

/// A duration of `d` milliseconds as hours, minutes, seconds and milliseconds
/// (`hh:mm:ss.mmm`); each part is truncated toward zero and carries the sign of `d`.
pub open spec fn elapsed_text(d: int) -> Seq<char> {
    let m = magnitude(d);
    let negative = d < 0;
    part_text(negative, m / 3600000, 2) + seq![':'] + part_text(negative, (m / 60000) % 60, 2)
        + seq![':'] + part_text(negative, (m / 1000) % 60, 2) + seq!['.'] + part_text(
        negative,
        m % 1000,
        3,
    )
}

/// The line that lists a game in progress: how long it has run, then its name.
pub open spec fn active_line(game: Seq<char>, started: i64, now: i64) -> Seq<char> {
    elapsed_text(now - started) + seq![' ', '-', ' '] + game
}

/// `p` lists each index below `n` once.
pub open spec fn is_index_permutation(p: Seq<usize>, n: nat) -> bool {
    &&& p.len() == n
    &&& forall|k: int| 0 <= k < p.len() ==> p[k] < n
    &&& forall|a: int, b: int| 0 <= a < b < p.len() ==> p[a] != p[b]
}

/// The games at the positions `p` come in order of their start times.
pub open spec fn ordered_by_start(games: Seq<(String, i64)>, p: Seq<usize>) -> bool {
    forall|a: int, b: int| 0 <= a < b < p.len() ==> games[p[a] as int].1 <= games[p[b] as int].1
}

/// The part of an elapsed time in base 10 with the elapsed time's sign.
fn part_string(negative: bool, part: u64, width: usize) -> (r: String)
    ensures
        r@ == part_text(negative, part as nat, width as nat),
{
    let digits = u64_to_decimal(part);
    if negative && part != 0 {
        proof {
            reveal_strlit("-");
        }
        pad_zeros(String::from_str("-").concat(digits.as_str()), width)
    } else {
        pad_zeros(digits, width)
    }
}

/// How long a game started at `started` has run at `now`, both in milliseconds.
fn elapsed_string(started: i64, now: i64) -> (r: String)
    ensures
        r@ == elapsed_text(now - started),
{
    let d: i128 = now as i128 - started as i128;
    let negative = d < 0;
    let m: u128 = if negative {
        (-d) as u128
    } else {
        d as u128
    };
    assert(m == magnitude(now - started));
    assert(m < 0x2_0000_0000_0000_0000);
    let hours = part_string(negative, (m / 3600000) as u64, 2);
    let minutes = part_string(negative, ((m / 60000) % 60) as u64, 2);
    let seconds = part_string(negative, ((m / 1000) % 60) as u64, 2);
    let millis = part_string(negative, (m % 1000) as u64, 3);
    proof {
        reveal_strlit(":");
        reveal_strlit(".");
    }
    hours.concat(":").concat(minutes.as_str()).concat(":").concat(seconds.as_str()).concat(".").concat(
        millis.as_str(),
    )
}

/// The lines that list the games in progress, earliest start first, each with how long
/// it has run at `now`; times are milliseconds since the epoch. Games that started at the
/// same time may come in either order.
pub fn active_game_lines(games: &Vec<(String, i64)>, now: i64) -> (r: Vec<String>)
    ensures
        r@.len() == games@.len(),
        exists|p: Seq<usize>|
            #[trigger] is_index_permutation(p, games@.len()) && ordered_by_start(games@, p) && forall|
                k: int,
            |
                0 <= k < r@.len() ==> r@[k]@ == active_line(
                    games@[p[k] as int].0@,
                    games@[p[k] as int].1,
                    now,
                ),
{
    let n = games.len();
    let mut order: Vec<usize> = Vec::new();
    let mut i: usize = 0;
    while i < n
        invariant
            n == games@.len(),
            i <= n,
            is_index_permutation(order@, i as nat),
            ordered_by_start(games@, order@),
        decreases n - i,
    {
        let t = games[i].1;
        let mut pos: usize = 0;
        while pos < order.len() && games[order[pos]].1 <= t
            invariant
                n == games@.len(),
                i < n,
                pos <= order@.len(),
                is_index_permutation(order@, i as nat),
                forall|a: int| 0 <= a < pos ==> games@[order@[a] as int].1 <= t,
            decreases order@.len() - pos,
        {
            pos = pos + 1;
        }
        assert(forall|b: int| pos <= b < order@.len() ==> games@[order@[b] as int].1 > t) by {
            if pos < order@.len() {
                assert(games@[order@[pos as int] as int].1 > t);
            }
        }
        let ghost before = order@;
        order.insert(pos, i);
        assert(order@ =~= before.subrange(0, pos as int).push(i) + before.subrange(
            pos as int,
            before.len() as int,
        ));
        assert forall|k: int| 0 <= k < order@.len() implies order@[k] == if k < pos {
            before[k]
        } else if k == pos {
            i
        } else {
            before[k - 1]
        } by {}
        i = i + 1;
    }
    let mut r: Vec<String> = Vec::new();
    let mut k: usize = 0;
    while k < n
        invariant
            n == games@.len(),
            k <= n,
            is_index_permutation(order@, n as nat),
            ordered_by_start(games@, order@),
            r@.len() == k,
            forall|j: int|
                0 <= j < k ==> r@[j]@ == active_line(
                    games@[order@[j] as int].0@,
                    games@[order@[j] as int].1,
                    now,
                ),
        decreases n - k,
    {
        let g = order[k];
        let elapsed = elapsed_string(games[g].1, now);
        proof {
            reveal_strlit(" - ");
        }
        let line = elapsed.concat(" - ").concat(games[g].0.as_str());
        assert(line@ =~= active_line(games@[g as int].0@, games@[g as int].1, now));
        r.push(line);
        k = k + 1;
    }
    assert(is_index_permutation(order@, games@.len()));
    r
}

/// Whether dialogs of a kind stack: only error dialogs do.
pub open spec fn kind_stacks(kind: Kind) -> bool {
    kind == Kind::Error || kind == Kind::Errors
}

proof fn lemma_stacking_follows_kind(m: Modal)
    ensures
        (m is Error || m is Errors) == kind_stacks(m.kind_view()),
{
}

/// Whether `modal` takes the place of the dialog on top of `stack` rather than going
/// over it: the top one is of the same kind and that kind does not stack.
pub open spec fn replaces_top(stack: Seq<Modal>, modal: Modal) -> bool {
    stack.len() > 0 && stack.last().kind_view() == modal.kind_view() && !kind_stacks(
        modal.kind_view(),
    )
}

/// The dialogs after `modal` is shown over `stack`.
pub open spec fn after_show(stack: Seq<Modal>, modal: Modal) -> Seq<Modal> {
    if replaces_top(stack, modal) {
        stack.drop_last().push(modal)
    } else {
        stack.push(modal)
    }
}

/// No dialog that does not stack sits directly on one of its own kind.
pub open spec fn no_repeated_dialogs(stack: Seq<Modal>) -> bool {
    forall|i: int|
        0 < i < stack.len() && #[trigger] stack[i].kind_view() == stack[i - 1].kind_view()
            ==> kind_stacks(stack[i].kind_view())
}

/// The dialogs on screen; the last one is on top.
pub struct ModalStack {
    modals: Vec<Modal>,
}

impl ModalStack {
    /// The dialogs, bottom first.
    pub closed spec fn view(&self) -> Seq<Modal> {
        self.modals@
    }

    /// No dialog.
    pub fn new() -> (r: Self)
        ensures
            r.view() == Seq::<Modal>::empty(),
    {
        ModalStack { modals: Vec::new() }
    }

    /// Whether no dialog is shown.
    pub fn is_empty(&self) -> (r: bool)
        ensures
            r == (self.view().len() == 0),
    {
        self.modals.len() == 0
    }

    /// The dialog on top, if any.
    pub fn top(&self) -> (r: Option<&Modal>)
        ensures
            r == if self.view().len() == 0 {
                None
            } else {
                Some(&self.view().last())
            },
    {
        if self.modals.len() == 0 {
            None
        } else {
            Some(&self.modals[self.modals.len() - 1])
        }
    }

    /// Shows a dialog on top. A dialog of the kind already on top takes its place,
    /// unless that kind stacks (errors do).
    pub fn show_modal(&mut self, modal: Modal)
        ensures
            final(self).view() == after_show(old(self).view(), modal),
    {
        proof {
            lemma_stacking_follows_kind(modal);
        }
        let replace = if self.modals.len() == 0 {
            false
        } else {
            let last = &self.modals[self.modals.len() - 1];
            last.kind() == modal.kind() && !modal.stackable()
        };
        if replace {
            self.modals.pop();
        }
        self.modals.push(modal);
    }

    /// Picks the provider `provider` in the WebDAV dialog, when that dialog is on top;
    /// otherwise nothing changes.
    pub fn set_webdav_provider(&mut self, provider: WebDavProvider)
        ensures
            (old(self).view().len() > 0 && old(self).view().last() is ConfigureWebDavRemote)
                ==> final(self).view() == old(self).view().drop_last().push(
                Modal::ConfigureWebDavRemote { provider },
            ),
            !(old(self).view().len() > 0 && old(self).view().last() is ConfigureWebDavRemote)
                ==> final(self).view() == old(self).view(),
    {
        let n = self.modals.len();
        if n > 0 {
            let webdav = match &self.modals[n - 1] {
                Modal::ConfigureWebDavRemote { .. } => true,
                _ => false,
            };
            if webdav {
                self.modals.pop();
                self.modals.push(Modal::ConfigureWebDavRemote { provider });
            }
        }
    }

    /// Closes the dialog on top, if any, and gives it back.
    pub fn close_modal(&mut self) -> (r: Option<Modal>)
        ensures
            old(self).view().len() == 0 ==> r is None && final(self).view() == old(self).view(),
            old(self).view().len() > 0 ==> r == Some(old(self).view().last()) && final(self).view()
                == old(self).view().drop_last(),
    {
        self.modals.pop()
    }

    /// Closes every dialog of the kind `kind`; the others keep their order.
    pub fn close_specific_modal(&mut self, kind: Kind)
        ensures
            final(self).view() == old(self).view().filter(|m: Modal| m.kind_view() != kind),
    {
        let ghost orig = self.modals@;
        let ghost keep = |m: Modal| m.kind_view() != kind;
        let mut i: usize = 0;
        let ghost mut k: int = 0;
        while i < self.modals.len()
            invariant
                0 <= k <= orig.len(),
                i == orig.take(k).filter(keep).len(),
                self.modals@ == orig.take(k).filter(keep) + orig.skip(k),
                keep == (|m: Modal| m.kind_view() != kind),
            decreases self.modals@.len() - i,
        {
            let ghost done = orig.take(k).filter(keep);
            assert(k < orig.len()) by {
                if k >= orig.len() {
                    assert(orig.skip(k).len() == 0);
                }
            }
            assert(self.modals@[i as int] == orig[k]);
            assert(orig.take(k + 1) =~= orig.take(k).push(orig[k]));
            proof {
                orig.take(k).lemma_filter_push(orig[k], keep);
            }
            if self.modals[i].kind() == kind {
                self.modals.remove(i);
                assert(self.modals@ =~= done + orig.skip(k + 1));
            } else {
                assert(self.modals@ =~= done.push(orig[k]) + orig.skip(k + 1));
                i = i + 1;
            }
            proof {
                k = k + 1;
            }
        }
        assert(k == orig.len()) by {
            if k < orig.len() {
                assert(self.modals@.len() > i);
            }
        }
        assert(orig.take(k) =~= orig);
        assert(self.modals@ =~= orig.filter(keep));
    }
}

/// Confirming a dialog that names a game asks for what the dialog announced, for that
/// game: restoring synced saves restores and never backs up, backing up never restores,
/// and the safety-backup, conflict, removal and mode-change dialogs ask for their own
/// action.
pub proof fn law_confirming_asks_for_the_named_action(m: Modal, histories: TextHistories, now: i64, r: Option<ModalMessage>)
    requires
        m.message_spec(histories, now, r),
    ensures
        m matches Modal::ConfirmSyncRestore { game } ==> (r matches Some(ModalMessage::SyncRestoreGame(g))
            && g@ == game@),
        m is ConfirmSyncRestore ==> !(r matches Some(ModalMessage::SyncBackupGame(_))),
        m matches Modal::ConfirmSyncBackup { game } ==> (r matches Some(ModalMessage::SyncBackupGame(g))
            && g@ == game@),
        m is ConfirmSyncBackup ==> !(r matches Some(ModalMessage::SyncRestoreGame(_))),
        m matches Modal::ConfirmRestoreSafetyBackup { game } ==> (r matches Some(
            ModalMessage::RestoreSafetyBackup(g),
        ) && g@ == game@),
        m matches Modal::ConfirmDeleteSafetyBackup { game } ==> (r matches Some(
            ModalMessage::DeleteSafetyBackup(g),
        ) && g@ == game@),
        m matches Modal::ConfirmResolveConflictKeepBoth { game } ==> (r matches Some(
            ModalMessage::ResolveConflictKeepBoth(g),
        ) && g@ == game@),
        m matches Modal::ConfirmRemoveCustomGame { game } ==> (r matches Some(
            ModalMessage::RemoveCustomGameConfirm(g),
        ) && g@ == game@),
        m matches Modal::ConfirmSyncModeChange { game, previous_mode, .. } ==> (r matches Some(
            ModalMessage::ConfirmSyncModeChange { game: g, previous_mode: p },
        ) && g@ == game@ && p == previous_mode),
{
}

/// Showing a dialog never leaves one that does not stack directly on a dialog of its own
/// kind, if none was so before.
pub proof fn law_show_keeps_dialogs_apart(stack: Seq<Modal>, modal: Modal)
    requires
        no_repeated_dialogs(stack),
    ensures
        no_repeated_dialogs(
            if replaces_top(stack, modal) {
                stack.drop_last().push(modal)
            } else {
                stack.push(modal)
            },
        ),
{
    if replaces_top(stack, modal) {
        let after = stack.drop_last().push(modal);
        let n = stack.len() as int;
        assert forall|i: int|
            0 < i < after.len() && #[trigger] after[i].kind_view() == after[i - 1].kind_view()
                implies kind_stacks(after[i].kind_view()) by {
            if i < n - 1 {
                assert(after[i] == stack[i]);
                assert(after[i - 1] == stack[i - 1]);
            } else {
                assert(after[i] == modal);
                assert(after[i - 1] == stack[i - 1]);
                assert(stack[n - 1].kind_view() == modal.kind_view());
            }
        }
    } else {
        let after = stack.push(modal);
        let n = stack.len() as int;
        assert forall|i: int|
            0 < i < after.len() && #[trigger] after[i].kind_view() == after[i - 1].kind_view()
                implies kind_stacks(after[i].kind_view()) by {
            if i < n {
                assert(after[i] == stack[i]);
                assert(after[i - 1] == stack[i - 1]);
            } else {
                assert(after[i] == modal);
                assert(after[i - 1] == stack[n - 1]);
            }
        }
    }
}

proof fn lemma_first_blank_line_exists(s: Seq<char>, k: int)
    requires
        occurs_at(s, k, blank_line()),
    ensures
        exists|i: int|
            occurs_at(s, i, blank_line()) && forall|j: int| 0 <= j < i ==> !occurs_at(s, j, blank_line()),
    decreases k,
{
    if exists|j: int| 0 <= j < k && occurs_at(s, j, blank_line()) {
        let j = choose|j: int| 0 <= j < k && occurs_at(s, j, blank_line());
        lemma_first_blank_line_exists(s, j);
    } else {
        assert(forall|j: int| 0 <= j < k ==> !occurs_at(s, j, blank_line()));
    }
}

/// Splitting a dialog's text loses nothing: when it has a blank line, the title, the
/// blank line and the description make up the text; otherwise the title is the whole
/// text and the description is empty. The title holds no blank line.
pub proof fn law_split_title_rejoins(s: Seq<char>)
    ensures
        first_blank_line(s) is Some ==> title_part(s) + blank_line() + description_part(s) == s,
        first_blank_line(s) is None ==> title_part(s) == s && description_part(s).len() == 0,
        forall|j: int| !occurs_at(title_part(s), j, blank_line()),
{
    if exists|k: int| occurs_at(s, k, blank_line()) {
        let k = choose|k: int| occurs_at(s, k, blank_line());
        lemma_first_blank_line_exists(s, k);
        let i = first_blank_line(s)->0;
        assert(occurs_at(s, i, blank_line()));
        assert(forall|j: int| 0 <= j < i ==> !occurs_at(s, j, blank_line()));
        assert(s.take(i) + blank_line() + s.skip(i + 2) =~= s);
        assert forall|j: int| !occurs_at(title_part(s), j, blank_line()) by {
            if occurs_at(title_part(s), j, blank_line()) {
                assert(s.take(i).subrange(j, j + 2) =~= s.subrange(j, j + 2));
                assert(occurs_at(s, j, blank_line()));
            }
        }
    } else {
        assert forall|j: int| !occurs_at(title_part(s), j, blank_line()) by {
            if occurs_at(title_part(s), j, blank_line()) {
                assert(occurs_at(s, j, blank_line()));
            }
        }
    }
}

} // verus!
