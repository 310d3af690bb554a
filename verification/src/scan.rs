//! Progress of a scan, and the choices that the game list can be filtered by.
use vstd::prelude::*;

verus! {

/// How far an operation over many games has got.
#[derive(Clone, Copy, Debug, Default)]
pub struct OperationStatus {
    pub total_games: usize,
    pub processed_games: usize,
    pub total_bytes: u64,
    pub processed_bytes: u64,
}

impl OperationStatus {
    /// Every game has been processed.
    pub fn processed_all_games(&self) -> (r: bool)
        ensures
            r == (self.processed_games == self.total_games),
    {
        self.processed_games == self.total_games
    }

    /// Every byte has been processed.
    pub fn processed_all_bytes(&self) -> (r: bool)
        ensures
            r == (self.processed_bytes == self.total_bytes),
    {
        self.processed_bytes == self.total_bytes
    }
}

/// What a scan found for one game, as far as the game list reads it: the game's name
/// and the paths of the files and registry keys that were found.
#[derive(Clone, Debug)]
pub struct ScanInfo {
    pub game_name: String,
    pub found_files: Vec<String>,
    pub found_registry_keys: Vec<String>,
}

/// Filter by whether a game's files are also claimed by another game.
#[derive(Clone, Copy, Debug, PartialEq, Eq, Structural)]
pub enum Uniqueness {
    Unique,
    Duplicate,
}

/// Filter by whether some of a game's files were deselected.
#[derive(Clone, Copy, Debug, PartialEq, Eq, Structural)]
pub enum Completeness {
    Complete,
    Partial,
}

/// Filter by whether a game is selected for the operation.
#[derive(Clone, Copy, Debug, PartialEq, Eq, Structural)]
pub enum Enablement {
    Enabled,
    Disabled,
}

/// Filter by what changed in a game since the last backup.
#[derive(Clone, Copy, Debug, PartialEq, Eq, Structural)]
pub enum Change {
    New,
    Updated,
    Unchanged,
    Unscanned,
}

} // verus!
