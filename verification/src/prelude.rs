//! Errors that the application reports, and the path type that its editable fields hold.
use vstd::prelude::*;

verus! {

/// How an external command (such as Rclone) went wrong.
#[derive(Clone, Debug)]
pub enum CommandError {
    /// The command could not be started; `raw` is the system's explanation.
    Launched { command: String, raw: String },
    /// The command was killed before it exited.
    Terminated { command: String },
    /// The command exited with a code that was not expected.
    Exited { command: String, code: i32, stdout: Option<String>, stderr: Option<String> },
}

impl CommandError {
    /// The command line that was run, as it is shown to the user.
    pub open spec fn command_view(&self) -> Seq<char> {
        match self {
            CommandError::Launched { command, .. } => command@,
            CommandError::Terminated { command } => command@,
            CommandError::Exited { command, .. } => command@,
        }
    }

    /// The command line that was run, as it is shown to the user.
    pub fn command(&self) -> (r: &str)
        ensures
            r@ == self.command_view(),
    {
        match self {
            CommandError::Launched { command, .. } => command.as_str(),
            CommandError::Terminated { command } => command.as_str(),
            CommandError::Exited { command, .. } => command.as_str(),
        }
    }
}

/// The errors that the application shows to the user. Fields that name a location hold
/// it as the text that the message shows.
#[derive(Clone, Debug)]
pub enum Error {
    ConfigInvalid { why: String },
    ManifestInvalid { why: String, identifier: Option<String> },
    ManifestCannotBeUpdated { identifier: Option<String> },
    NoSaveDataFound,
    GameIsUnrecognized,
    SomeEntriesFailed,
    CannotPrepareBackupTarget { path: String },
    RestorationSourceInvalid { path: String },
    RegistryIssue,
    UnableToOpenDir(String),
    UnableToOpenUrl(String),
    RcloneUnavailable,
    CloudNotConfigured,
    CloudPathInvalid,
    UnableToConfigureCloud(CommandError),
    CloudConflict,
    GameDidNotLaunch { why: String },
}

/// Whether an operation only looks (a preview) or also changes files.
#[derive(Clone, Copy, Debug, PartialEq, Eq, Structural)]
pub enum Finality {
    Preview,
    Final,
}

impl Finality {
    /// Whether this is a preview.
    pub fn preview(&self) -> (r: bool)
        ensures
            r == (*self == Finality::Preview),
    {
        match self {
            Finality::Preview => true,
            Finality::Final => false,
        }
    }
}

/// A path as the user typed it into an editable field.
#[derive(Clone, Debug)]
pub struct StrictPath {
    raw: String,
}

impl View for StrictPath {
    type V = Seq<char>;

    closed spec fn view(&self) -> Seq<char> {
        self.raw@
    }
}

impl StrictPath {
    /// A path holding `raw`.
    pub fn new(raw: String) -> (r: Self)
        ensures
            r@ == raw@,
    {
        StrictPath { raw }
    }

    /// The text of the path, as typed.
    pub fn raw(&self) -> (r: String)
        ensures
            r@ == self@,
    {
        self.raw.clone()
    }

    /// Replaces the text of the path.
    pub fn reset(&mut self, raw: String)
        ensures
            final(self)@ == raw@,
    {
        self.raw = raw;
    }
}

} // verus!
