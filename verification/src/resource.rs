//! The configuration values that the interface shows and edits.
use crate::cloud::Remote;
use crate::prelude::StrictPath;
use vstd::prelude::*;

verus! {

/// The launcher or kind of location that a root belongs to.
#[derive(Clone, Copy, Debug, PartialEq, Eq, Structural)]
pub enum Store {
    Ea,
    Epic,
    Gog,
    GogGalaxy,
    Heroic,
    Legendary,
    Lutris,
    Microsoft,
    Origin,
    Prime,
    Steam,
    Uplay,
    OtherHome,
    OtherWine,
    OtherWindows,
    OtherLinux,
    OtherMac,
    Other,
}

/// What a game list is sorted by.
#[derive(Clone, Copy, Debug, PartialEq, Eq, Structural)]
pub enum SortKey {
    Name,
    Size,
    Status,
}

/// The colour scheme of the interface.
#[derive(Clone, Copy, Debug, PartialEq, Eq, Structural)]
pub enum Theme {
    Light,
    Dark,
}

/// How backups are written.
#[derive(Clone, Copy, Debug, PartialEq, Eq, Structural)]
pub enum BackupFormat {
    Simple,
    Zip,
}

/// The compression of zip backups.
#[derive(Clone, Copy, Debug, PartialEq, Eq, Structural)]
pub enum ZipCompression {
    Uncompressed,
    Deflate,
    Bzip2,
    Zstd,
}

/// Whether a custom entry describes a game or an alias for another title.
#[derive(Clone, Copy, Debug, PartialEq, Eq, Structural)]
pub enum CustomGameKind {
    Game,
    Alias,
}

/// A configured root: a folder where a launcher keeps games.
#[derive(Clone, Debug)]
pub struct Root {
    pub store: Store,
    pub path: StrictPath,
    /// The Lutris database file, for Lutris roots that name one.
    pub lutris_database: Option<StrictPath>,
}

/// A game entry that the user added or customised.
#[derive(Clone, Debug)]
pub struct CustomGame {
    pub name: String,
    pub ignore: bool,
    pub alias: Option<String>,
    pub files: Vec<String>,
    pub registry: Vec<String>,
    pub install_dir: Vec<String>,
    pub wine_prefix: Vec<String>,
}

/// An external program that the application runs, with the arguments to put first.
#[derive(Clone, Debug)]
pub struct App {
    pub path: StrictPath,
    pub arguments: String,
}

/// The configuration fields that the editable text fields start from.
#[derive(Clone, Debug)]
pub struct Config {
    pub backup_path: StrictPath,
    pub restore_path: StrictPath,
    pub rclone: App,
    pub cloud_path: String,
    pub cloud_remote: Option<Remote>,
    pub roots: Vec<Root>,
    pub secondary_manifests: Vec<String>,
    pub custom_games: Vec<CustomGame>,
    pub ignored_paths: Vec<StrictPath>,
    pub ignored_registry: Vec<String>,
}

} // verus!
