//! The interface's shared state: which games an action is about, the operation in
//! progress, and the screens and fields that events refer to.
use crate::modal::ModalInputKind;
use crate::prelude::{Error, Finality};
use crate::text::str_eq;
use vstd::prelude::*;

verus! {

/// The views of a list of strings.
pub open spec fn names_view(v: Seq<String>) -> Seq<Seq<char>> {
    v.map_values(|s: String| s@)
}

pub(crate) proof fn lemma_names_view_push(v: Seq<String>, s: String)
    ensures
        names_view(v.push(s)) == names_view(v).push(s@),
{
    assert(names_view(v.push(s)) =~= names_view(v).push(s@));
}

/// Whether `query` is one of the strings in `v`.
pub fn list_contains(v: &Vec<String>, query: &str) -> (r: bool)
    ensures
        r == names_view(v@).contains(query@),
{
    let mut i: usize = 0;
    while i < v.len()
        invariant
            i <= v@.len(),
            forall|j: int| 0 <= j < i ==> names_view(v@)[j] != query@,
        decreases v.len() - i,
    {
        if str_eq(v[i].as_str(), query) {
            assert(names_view(v@)[i as int] == query@);
            return true;
        }
        i = i + 1;
    }
    false
}

/// The names in `s`, each once, in the order of their first occurrence.
pub open spec fn distinct_names(s: Seq<Seq<char>>) -> Seq<Seq<char>>
    decreases s.len(),
{
    if s.len() == 0 {
        s
    } else if s.drop_last().contains(s.last()) {
        distinct_names(s.drop_last())
    } else {
        distinct_names(s.drop_last()).push(s.last())
    }
}

proof fn lemma_distinct_names_contains(s: Seq<Seq<char>>)
    ensures
        forall|x: Seq<char>| distinct_names(s).contains(x) <==> s.contains(x),
    decreases s.len(),
{
    broadcast use vstd::seq_lib::lemma_seq_contains_after_push;

    if s.len() > 0 {
        lemma_distinct_names_contains(s.drop_last());
        assert(s =~= s.drop_last().push(s.last()));
    }
}

proof fn lemma_distinct_names_unique(s: Seq<Seq<char>>)
    ensures
        distinct_names(s).no_duplicates(),
    decreases s.len(),
{
    if s.len() > 0 {
        lemma_distinct_names_unique(s.drop_last());
        lemma_distinct_names_contains(s.drop_last());
        let d = distinct_names(s.drop_last());
        if !s.drop_last().contains(s.last()) {
            assert(!d.contains(s.last()));
            let e = d.push(s.last());
            assert forall|i: int, j: int| 0 <= i < e.len() && 0 <= j < e.len() && i != j implies e[i]
                != e[j] by {
                if i == d.len() as int {
                    assert(d.contains(e[j]));
                } else if j == d.len() as int {
                    assert(d.contains(e[i]));
                }
            }
        }
    }
}

/// The strings of `v`, each once, in the order of their first occurrence.
fn distinct_copy(v: &Vec<String>) -> (r: Vec<String>)
    ensures
        names_view(r@) == distinct_names(names_view(v@)),
{
    let ghost all = names_view(v@);
    let mut kept: Vec<String> = Vec::new();
    let mut i: usize = 0;
    while i < v.len()
        invariant
            i <= v@.len(),
            all == names_view(v@),
            names_view(kept@) == distinct_names(all.take(i as int)),
        decreases v.len() - i,
    {
        assert(all.take(i + 1).drop_last() =~= all.take(i as int));
        assert(all.take(i + 1).last() == v@[i as int]@);
        proof {
            lemma_distinct_names_contains(all.take(i as int));
        }
        if !list_contains(&kept, v[i].as_str()) {
            let ghost before = kept@;
            kept.push(v[i].clone());
            proof {
                lemma_names_view_push(before, v@[i as int]);
            }
        }
        i = i + 1;
    }
    assert(all.take(v@.len() as int) =~= all);
    kept
}

/// What the application was asked to do at start-up.
#[derive(Clone, Debug, Default)]
pub struct Flags {
    pub update_manifest: bool,
    pub custom_game: Option<String>,
}

/// The games that an action is about: one game, or a group of games.
#[derive(Clone, Debug, PartialEq, Eq)]
pub enum GameSelection {
    Single { game: String },
    Group { games: Vec<String> },
}

impl GameSelection {
    /// The names of the selected games.
    pub open spec fn names(&self) -> Set<Seq<char>> {
        match self {
            GameSelection::Single { game } => set![game@],
            GameSelection::Group { games } => names_view(games@).to_set(),
        }
    }

    /// A selection of one game.
    pub fn single(game: String) -> (r: Self)
        ensures
            r == (GameSelection::Single { game }),
    {
        Self::Single { game }
    }

    /// A group selection holds each game once.
    pub open spec fn well_formed(&self) -> bool {
        match self {
            GameSelection::Single { .. } => true,
            GameSelection::Group { games } => names_view(games@).no_duplicates(),
        }
    }

    /// A selection of a group of games: each game once, in the order in which it first
    /// comes in `games`.
    pub fn group(games: Vec<String>) -> (r: Self)
        ensures
            r matches GameSelection::Group { games: g } && names_view(g@) == distinct_names(
                names_view(games@),
            ),
            r.names() == names_view(games@).to_set(),
            r.well_formed(),
    {
        let kept = distinct_copy(&games);
        proof {
            lemma_distinct_names_contains(names_view(games@));
            lemma_distinct_names_unique(names_view(games@));
        }
        let r = Self::Group { games: kept };
        assert(r.names() =~= names_view(games@).to_set());
        r
    }

    /// Whether the selection is of one game.
    pub fn is_single(&self) -> (r: bool)
        ensures
            r == self is Single,
    {
        match self {
            Self::Single { .. } => true,
            Self::Group { .. } => false,
        }
    }

    /// Whether `query` is selected.
    pub fn contains(&self, query: &str) -> (r: bool)
        ensures
            r == self.names().contains(query@),
    {
        match self {
            Self::Single { game } => str_eq(game.as_str(), query),
            Self::Group { games } => {
                let r = list_contains(games, query);
                proof {
                    if r {
                        let k = choose|k: int| 0 <= k < names_view(games@).len() && names_view(games@)[k] == query@;
                        assert(names_view(games@).to_set().contains(names_view(games@)[k]));
                    }
                }
                r
            },
        }
    }

    /// Whether no game is selected; a single selection never is empty.
    pub fn is_empty(&self) -> (r: bool)
        ensures
            r == (self.names() == Set::<Seq<char>>::empty()),
    {
        match self {
            Self::Single { game } => {
                assert(self.names().contains(game@));
                false
            },
            Self::Group { games } => {
                if games.len() == 0 {
                    assert(names_view(games@) =~= Seq::<Seq<char>>::empty());
                    assert(self.names() =~= Set::<Seq<char>>::empty());
                    true
                } else {
                    assert(self.names().contains(names_view(games@)[0]));
                    false
                }
            },
        }
    }

    /// The selected games, each once: the one game, or the group's games in the order
    /// of their first occurrence.
    pub fn iter(&self) -> (r: Vec<String>)
        ensures
            names_view(r@) == match self {
                GameSelection::Single { game } => seq![game@],
                GameSelection::Group { games } => distinct_names(names_view(games@)),
            },
            names_view(r@).no_duplicates(),
            names_view(r@).to_set() == self.names(),
    {
        match self {
            Self::Single { game } => {
                let v = vec![game.clone()];
                assert(names_view(v@) =~= seq![game@]);
                assert(names_view(v@)[0] == game@);
                assert(names_view(v@).contains(game@));
                assert(names_view(v@).to_set() =~= set![game@]);
                v
            },
            Self::Group { games } => {
                let v = distinct_copy(games);
                proof {
                    lemma_distinct_names_contains(names_view(games@));
                    lemma_distinct_names_unique(names_view(games@));
                }
                assert(names_view(v@).to_set() =~= self.names());
                v
            },
        }
    }
}

/// The names of the games in a list of (game, time) pairs.
pub open spec fn active_names(v: Seq<(String, i64)>) -> Seq<Seq<char>> {
    v.map_values(|p: (String, i64)| p.0@)
}

/// The test for names other than `title`.
pub open spec fn other_than(title: Seq<char>) -> spec_fn(Seq<char>) -> bool {
    |n: Seq<char>| n != title
}

/// The position of the first name equal to `game`, if there is one.
pub open spec fn position(names: Seq<Seq<char>>, game: Seq<char>) -> Option<int> {
    if names.contains(game) {
        Some(
            choose|i: int|
                0 <= i < names.len() && names[i] == game && forall|j: int|
                    0 <= j < i ==> names[j] != game,
        )
    } else {
        None
    }
}

pub(crate) proof fn lemma_first_position(names: Seq<Seq<char>>, game: Seq<char>, i: int)
    requires
        0 <= i < names.len(),
        names[i] == game,
        forall|j: int| 0 <= j < i ==> names[j] != game,
    ensures
        position(names, game) == Some(i),
{
    assert(names.contains(game));
    let k = choose|k: int|
        0 <= k < names.len() && names[k] == game && forall|j: int| 0 <= j < k ==> names[j] != game;
    assert(k == i);
}

fn find_active(v: &Vec<(String, i64)>, title: &str) -> (r: Option<usize>)
    ensures
        r matches Some(i) ==> i < v@.len() && position(active_names(v@), title@) == Some(i as int),
        r is None ==> position(active_names(v@), title@) is None,
{
    let mut i: usize = 0;
    while i < v.len()
        invariant
            i <= v@.len(),
            forall|j: int| 0 <= j < i ==> active_names(v@)[j] != title@,
        decreases v.len() - i,
    {
        if str_eq(v[i].0.as_str(), title) {
            proof {
                lemma_first_position(active_names(v@), title@, i as int);
            }
            return Some(i);
        }
        i = i + 1;
    }
    None
}

/// The operation in progress, if any.
#[derive(Clone, Debug)]
pub enum Operation {
    Idle,
    Backup {
        finality: Finality,
        cancelling: bool,
        games: Option<GameSelection>,
        errors: Vec<Error>,
        force_new_full_backup: bool,
        /// Games that may be synchronised once the backup is done.
        syncable_games: Vec<String>,
        /// Games being processed, each with the time (milliseconds since the epoch) it
        /// started.
        active_games: Vec<(String, i64)>,
    },
}

impl Operation {
    /// Whether no operation is running.
    pub fn idle(&self) -> (r: bool)
        ensures
            r == self is Idle,
    {
        match self {
            Operation::Idle => true,
            Operation::Backup { .. } => false,
        }
    }

    /// A new backup, not yet cancelled, with no errors and no games recorded.
    pub fn new_backup(finality: Finality, games: Option<GameSelection>) -> (r: Self)
        ensures
            r matches Operation::Backup {
                finality: f,
                cancelling,
                games: g,
                errors,
                force_new_full_backup,
                syncable_games,
                active_games,
            } && f == finality && !cancelling && g == games && errors@.len() == 0
                && !force_new_full_backup && syncable_games@.len() == 0 && active_games@.len() == 0,
    {
        Self::Backup {
            finality,
            cancelling: false,
            games,
            errors: Vec::new(),
            force_new_full_backup: false,
            syncable_games: Vec::new(),
            active_games: Vec::new(),
        }
    }

    /// Whether the operation only looks; being idle counts as looking.
    pub fn preview(&self) -> (r: bool)
        ensures
            r == match *self {
                Operation::Idle => true,
                Operation::Backup { finality, .. } => finality == Finality::Preview,
            },
    {
        match self {
            Operation::Idle => true,
            Operation::Backup { finality, .. } => finality.preview(),
        }
    }

    /// Whether the operation covers every game.
    pub fn full(&self) -> (r: bool)
        ensures
            r == match *self {
                Operation::Idle => false,
                Operation::Backup { games, .. } => games is None,
            },
    {
        match self {
            Operation::Idle => false,
            Operation::Backup { games, .. } => games.is_none(),
        }
    }

    /// The games that the operation is limited to, if it is.
    pub fn games(&self) -> (r: Option<&GameSelection>)
        ensures
            r == match *self {
                Operation::Idle => None,
                Operation::Backup { games, .. } => match games {
                    Some(g) => Some(&g),
                    None => None,
                },
            },
    {
        match self {
            Operation::Idle => None,
            Operation::Backup { games, .. } => games.as_ref(),
        }
    }

    /// Whether the operation is limited to a selection that is not empty.
    pub fn games_specified(&self) -> (r: bool)
        ensures
            r == match *self {
                Operation::Idle => false,
                Operation::Backup { games, .. } => match games {
                    Some(g) => g.names() != Set::<Seq<char>>::empty(),
                    None => false,
                },
            },
    {
        match self {
            Operation::Idle => false,
            Operation::Backup { games, .. } => match games {
                Some(xs) => !xs.is_empty(),
                None => false,
            },
        }
    }

    /// Marks a running operation as being cancelled.
    pub fn flag_cancel(&mut self)
        ensures
            *final(self) == match *old(self) {
                Operation::Idle => Operation::Idle,
                Operation::Backup {
                    finality,
                    games,
                    errors,
                    force_new_full_backup,
                    syncable_games,
                    active_games,
                    ..
                } => Operation::Backup {
                    finality,
                    cancelling: true,
                    games,
                    errors,
                    force_new_full_backup,
                    syncable_games,
                    active_games,
                },
            },
    {
        match self {
            Operation::Idle => (),
            Operation::Backup { cancelling, .. } => *cancelling = true,
        }
    }

    /// The errors that the operation has met, if it is running.
    pub fn errors(&self) -> (r: Option<&Vec<Error>>)
        ensures
            r == match *self {
                Operation::Idle => None,
                Operation::Backup { errors, .. } => Some(&errors),
            },
    {
        match self {
            Operation::Idle => None,
            Operation::Backup { errors, .. } => Some(errors),
        }
    }

    /// Records an error of a running operation.
    pub fn push_error(&mut self, error: Error)
        ensures
            *final(self) == match *old(self) {
                Operation::Idle => Operation::Idle,
                Operation::Backup {
                    finality,
                    cancelling,
                    games,
                    errors,
                    force_new_full_backup,
                    syncable_games,
                    active_games,
                } => Operation::Backup {
                    finality,
                    cancelling,
                    games,
                    errors: (*final(self))->Backup_errors,
                    force_new_full_backup,
                    syncable_games,
                    active_games,
                },
            },
            *old(self) is Backup ==> (*final(self))->Backup_errors@ == (*old(self))->Backup_errors@.push(error),
    {
        match self {
            Operation::Idle => (),
            Operation::Backup { errors, .. } => errors.push(error),
        }
    }

    /// Whether the operation must make new full backups.
    pub fn should_force_new_full_backups(&mut self) -> (r: bool)
        ensures
            *final(self) == *old(self),
            r == match *old(self) {
                Operation::Idle => false,
                Operation::Backup { force_new_full_backup, .. } => force_new_full_backup,
            },
    {
        match self {
            Operation::Idle => false,
            Operation::Backup { force_new_full_backup, .. } => *force_new_full_backup,
        }
    }

    /// Sets whether a running operation must make new full backups.
    pub fn set_force_new_full_backups(&mut self, value: bool)
        ensures
            *final(self) == match *old(self) {
                Operation::Idle => Operation::Idle,
                Operation::Backup {
                    finality,
                    cancelling,
                    games,
                    errors,
                    syncable_games,
                    active_games,
                    ..
                } => Operation::Backup {
                    finality,
                    cancelling,
                    games,
                    errors,
                    force_new_full_backup: value,
                    syncable_games,
                    active_games,
                },
            },
    {
        match self {
            Operation::Idle => (),
            Operation::Backup { force_new_full_backup, .. } => *force_new_full_backup = value,
        }
    }

    /// The games recorded as ready to synchronise, if the operation is running.
    pub fn syncable_games(&self) -> (r: Option<&Vec<String>>)
        ensures
            r == match *self {
                Operation::Idle => None,
                Operation::Backup { syncable_games, .. } => Some(&syncable_games),
            },
    {
        match self {
            Operation::Idle => None,
            Operation::Backup { syncable_games, .. } => Some(syncable_games),
        }
    }

    /// Records a game as ready to synchronise; a game is recorded once.
    pub fn add_syncable_game(&mut self, title: String)
        ensures
            *old(self) is Idle ==> *final(self) == *old(self),
            *old(self) is Backup ==> *final(self) is Backup,
            *old(self) is Backup ==> names_view(final(self)->Backup_syncable_games@)
                == if names_view(old(self)->Backup_syncable_games@).contains(title@) {
                names_view(old(self)->Backup_syncable_games@)
            } else {
                names_view(old(self)->Backup_syncable_games@).push(title@)
            },
    {
        match self {
            Operation::Idle => {},
            Operation::Backup { syncable_games, .. } => {
                if !list_contains(syncable_games, title.as_str()) {
                    let ghost before = syncable_games@;
                    syncable_games.push(title);
                    assert(names_view(syncable_games@) =~= names_view(before).push(title@));
                }
            },
        }
    }

    /// The games being processed, with their start times, if the operation is running.
    pub fn active_games(&self) -> (r: Option<&Vec<(String, i64)>>)
        ensures
            r == match *self {
                Operation::Idle => None,
                Operation::Backup { active_games, .. } => Some(&active_games),
            },
    {
        match self {
            Operation::Idle => None,
            Operation::Backup { active_games, .. } => Some(active_games),
        }
    }

    /// Records that a game started being processed at `now` (milliseconds since the
    /// epoch, read by the caller); a game already recorded gets the new time. Nothing
    /// else of the operation changes.
    pub fn add_active_game(&mut self, title: String, now: i64)
        ensures
            *old(self) is Idle ==> *final(self) == *old(self),
            *old(self) is Backup ==> *final(self) is Backup,
            *old(self) is Backup ==> active_names(final(self)->Backup_active_games@) == if active_names(
                (*old(self))->Backup_active_games@,
            ).contains(title@) {
                active_names(old(self)->Backup_active_games@)
            } else {
                active_names(old(self)->Backup_active_games@).push(title@)
            },
            *old(self) is Backup ==> final(self)->Backup_active_games@ == match position(
                active_names(old(self)->Backup_active_games@),
                title@,
            ) {
                Some(i) => old(self)->Backup_active_games@.update(
                    i,
                    (old(self)->Backup_active_games@[i].0, now),
                ),
                None => old(self)->Backup_active_games@.push((title, now)),
            },
            *old(self) is Backup ==> (active_names(old(self)->Backup_active_games@).no_duplicates()
                ==> active_names(final(self)->Backup_active_games@).no_duplicates()),
            *old(self) is Backup ==> {
                &&& final(self)->Backup_finality == old(self)->Backup_finality
                &&& final(self)->Backup_cancelling == old(self)->Backup_cancelling
                &&& final(self)->Backup_games == old(self)->Backup_games
                &&& final(self)->Backup_errors == old(self)->Backup_errors
                &&& final(self)->Backup_force_new_full_backup == old(self)->Backup_force_new_full_backup
                &&& final(self)->Backup_syncable_games == old(self)->Backup_syncable_games
            },
    {
        match self {
            Operation::Idle => {},
            Operation::Backup { active_games, .. } => {
                let ghost before = active_games@;
                match find_active(active_games, title.as_str()) {
                    Some(i) => {
                        let name = active_games[i].0.clone();
                        active_games.set(i, (name, now));
                        assert(active_names(active_games@) =~= active_names(before));
                    },
                    None => {
                        active_games.push((title, now));
                        assert(active_names(active_games@) =~= active_names(before).push(title@));
                    },
                }
            },
        }
    }

    /// Records that a game is no longer being processed.
    pub fn remove_active_game(&mut self, title: &str)
        ensures
            *old(self) is Idle ==> *final(self) == *old(self),
            *old(self) is Backup ==> *final(self) is Backup,
            *old(self) is Backup ==> active_names(final(self)->Backup_active_games@) == active_names(
                (*old(self))->Backup_active_games@,
            ).filter(other_than(title@)),
    {
        match self {
            Operation::Idle => {},
            Operation::Backup { active_games, .. } => {
                let ghost before = active_names(active_games@);
                let mut kept: Vec<(String, i64)> = Vec::new();
                let mut i: usize = 0;
                while i < active_games.len()
                    invariant
                        i <= active_games@.len(),
                        before == active_names(active_games@),
                        active_names(kept@) == before.take(i as int).filter(other_than(title@)),
                    decreases active_games.len() - i,
                {
                    let ghost t1 = before.take(i + 1);
                    assert(t1.drop_last() =~= before.take(i as int));
                    assert(t1.last() == before[i as int]);
                    proof {
                        reveal_with_fuel(Seq::<_>::filter, 1);
                    }
                    assert(t1.filter(other_than(title@)) == if other_than(title@)(before[i as int]) {
                        before.take(i as int).filter(other_than(title@)).push(before[i as int])
                    } else {
                        before.take(i as int).filter(other_than(title@))
                    });
                    let ghost kept_before = kept@;
                    if !str_eq(active_games[i].0.as_str(), title) {
                        let name = active_games[i].0.clone();
                        kept.push((name, active_games[i].1));
                        assert(active_names(kept@) =~= active_names(kept_before).push(before[i as int]));
                    }
                    i = i + 1;
                }
                assert(before.take(active_games@.len() as int) =~= before);
                *active_games = kept;
            },
        }
    }
}

/// Recording that a game which is not in progress is done changes nothing; recording
/// such a game as started and then as done leaves the games in progress as they were;
/// after recording that a game is done, it is no longer in progress.
pub proof fn law_add_then_remove_active(names: Seq<Seq<char>>, title: Seq<char>)
    ensures
        !names.contains(title) ==> names.filter(other_than(title)) == names,
        !names.contains(title) ==> names.push(title).filter(other_than(title)) == names,
        !names.filter(other_than(title)).contains(title),
    decreases names.len(),
{
    broadcast use vstd::seq_lib::lemma_seq_contains_after_push;

    let p = other_than(title);
    if names.len() == 0 {
        assert(names.filter(p) =~= Seq::<Seq<char>>::empty());
    } else {
        let front = names.drop_last();
        law_add_then_remove_active(front, title);
        assert(front.push(names.last()) =~= names);
        front.lemma_filter_push(names.last(), p);
        if !names.contains(title) {
            assert(!front.contains(title)) by {
                if front.contains(title) {
                    let i = choose|i: int| 0 <= i < front.len() && front[i] == title;
                    assert(names[i] == title);
                }
            }
            assert(names[names.len() - 1] != title);
        }
    }
    names.lemma_filter_push(title, p);
}

/// The screens of the interface.
#[derive(Clone, Debug, PartialEq, Eq)]
pub enum Screen {
    Games,
    GameDetail(String),
    ThisDevice,
    AllDevices,
    Backup,
    CustomGames,
    Other,
}

/// What a folder picker was opened for.
#[derive(Clone, Copy, Debug, PartialEq, Eq, Structural)]
pub enum BrowseSubject {
    BackupTarget,
    Root(usize),
    AddGamePath,
}

/// What a file picker was opened for.
#[derive(Clone, Copy, Debug, PartialEq, Eq, Structural)]
pub enum BrowseFileSubject {
    RcloneExecutable,
    RootLutrisDatabase(usize),
    SecondaryManifest(usize),
}

/// The text field that an undo or redo applies to.
#[derive(Clone, Copy, Debug, PartialEq, Eq, Structural)]
pub enum UndoSubject {
    BackupTarget,
    RootPath(usize),
    RootLutrisDatabase(usize),
    SecondaryManifest(usize),
    RcloneExecutable,
    RcloneArguments,
    CloudRemoteId,
    CloudPath,
    ModalField(ModalInputKind),
}

/// The scrollable areas whose positions are remembered.
#[derive(Clone, Copy, Debug, PartialEq, Eq, Structural)]
pub enum ScrollSubject {
    Backup,
    CustomGames,
    Other,
    Modal,
    GameDetail,
}

impl ScrollSubject {
    /// The scrollable area of a screen.
    pub fn from_screen(value: Screen) -> (r: Self)
        ensures
            r == match value {
                Screen::Backup => ScrollSubject::Backup,
                Screen::GameDetail(_) => ScrollSubject::GameDetail,
                _ => ScrollSubject::Other,
            },
    {
        match value {
            Screen::Backup => Self::Backup,
            Screen::GameDetail(_) => Self::GameDetail,
            Screen::Other | Screen::Games | Screen::ThisDevice | Screen::AllDevices
            | Screen::CustomGames => Self::Other,
        }
    }
}

/// A node of a game's file tree: a file, a registry key, or a registry value.
#[derive(Clone, Debug, PartialEq, Eq)]
pub enum TreeNodeKey {
    File(String),
    RegistryKey(String),
    RegistryValue(String),
}

impl TreeNodeKey {
    /// The node's text, whatever its kind.
    pub fn raw(&self) -> (r: &str)
        ensures
            r@ == match *self {
                TreeNodeKey::File(x) => x@,
                TreeNodeKey::RegistryKey(x) => x@,
                TreeNodeKey::RegistryValue(x) => x@,
            },
    {
        match self {
            Self::File(x) => x.as_str(),
            Self::RegistryKey(x) => x.as_str(),
            Self::RegistryValue(x) => x.as_str(),
        }
    }
}

} // verus!
