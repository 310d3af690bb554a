//! The list of games that a backup or restore screen shows.
use crate::common::{lemma_first_position, lemma_names_view_push, names_view, position, GameSelection};
use crate::scan::ScanInfo;
use crate::search::{FilterComponent, GameFacts};
use crate::text::str_eq;
use vstd::prelude::*;

verus! {

/// The state of an entry's file tree. The tree's nodes are built from the entry's scan
/// and from data that this library does not hold; the list records whether they were
/// built and whether they were cleared since.
#[derive(Clone, Copy, Debug, PartialEq, Eq, Structural)]
pub enum FileTreeState {
    Built,
    Cleared,
}

/// One game of the list.
pub struct GameListEntry {
    pub scan_info: ScanInfo,
    pub tree: Option<FileTreeState>,
    /// Whether the game has been scanned yet; the scan itself changes when saves are
    /// toggled, so this is kept apart.
    pub scanned: bool,
}

/// What clearing the nodes of a tree leaves.
pub open spec fn cleared(tree: Option<FileTreeState>) -> Option<FileTreeState> {
    match tree {
        Some(_) => Some(FileTreeState::Cleared),
        None => None,
    }
}

impl GameListEntry {
    /// The game's name.
    pub open spec fn name(&self) -> Seq<char> {
        self.scan_info.game_name@
    }

    /// Builds the file tree anew from the scan.
    pub fn refresh_tree(&mut self)
        ensures
            final(self).tree == Some(FileTreeState::Built),
            final(self).scan_info == old(self).scan_info,
            final(self).scanned == old(self).scanned,
    {
        self.tree = Some(FileTreeState::Built);
    }

    /// Clears the nodes of the file tree, if there is one.
    pub fn clear_tree(&mut self)
        ensures
            final(self).tree == cleared(old(self).tree),
            final(self).scan_info == old(self).scan_info,
            final(self).scanned == old(self).scanned,
    {
        if self.tree.is_some() {
            self.tree = Some(FileTreeState::Cleared);
        }
    }
}

/// The names of the entries, in list order.
pub open spec fn entry_names(entries: Seq<GameListEntry>) -> Seq<Seq<char>> {
    entries.map_values(|e: GameListEntry| e.name())
}

/// An entry with another file tree state.
pub open spec fn with_tree(e: GameListEntry, tree: Option<FileTreeState>) -> GameListEntry {
    GameListEntry { scan_info: e.scan_info, tree, scanned: e.scanned }
}

/// The entries after the first entry for `game` has had its tree built anew.
pub open spec fn refreshed_first(entries: Seq<GameListEntry>, game: Seq<char>) -> Seq<GameListEntry> {
    match position(entry_names(entries), game) {
        Some(i) => entries.update(i, with_tree(entries[i], Some(FileTreeState::Built))),
        None => entries,
    }
}

/// The entries without those for `game`, the trees of the games in `duplicates` built
/// anew, the order kept.
pub open spec fn after_removal(
    entries: Seq<GameListEntry>,
    game: Seq<char>,
    duplicates: Set<Seq<char>>,
) -> Seq<GameListEntry>
    decreases entries.len(),
{
    if entries.len() == 0 {
        Seq::empty()
    } else {
        let rest = after_removal(entries.drop_last(), game, duplicates);
        let e = entries.last();
        if e.name() == game {
            rest
        } else if duplicates.contains(e.name()) {
            rest.push(with_tree(e, Some(FileTreeState::Built)))
        } else {
            rest.push(e)
        }
    }
}

/// The names in `v` other than `name`, as a set.
fn without(v: &Vec<String>, name: &str) -> (r: Vec<String>)
    ensures
        names_view(r@).to_set() == names_view(v@).to_set().remove(name@),
        names_view(v@).no_duplicates() ==> names_view(r@).no_duplicates(),
{
    let mut r: Vec<String> = Vec::new();
    let mut i: usize = 0;
    while i < v.len()
        invariant
            i <= v@.len(),
            forall|x: Seq<char>|
                names_view(r@).contains(x) <==> (names_view(v@).take(i as int).contains(x) && x
                    != name@),
            names_view(v@).no_duplicates() ==> names_view(r@).no_duplicates(),
        decreases v.len() - i,
    {
        let ghost before = r@;
        let ghost nv = names_view(v@);
        assert(nv.take(i + 1) =~= nv.take(i as int).push(nv[i as int]));
        assert(nv[i as int] == v@[i as int]@);
        proof {
            broadcast use vstd::seq_lib::lemma_seq_contains_after_push;
        }
        if !str_eq(v[i].as_str(), name) {
            r.push(v[i].clone());
            assert(names_view(r@) =~= names_view(before).push(nv[i as int]));
            proof {
            if nv.no_duplicates() {
                assert(!nv.take(i as int).contains(nv[i as int])) by {
                    if nv.take(i as int).contains(nv[i as int]) {
                        let k = choose|k: int| 0 <= k < i && nv.take(i as int)[k] == nv[i as int];
                        assert(nv[k] == nv[i as int]);
                    }
                }
                assert(!names_view(before).contains(nv[i as int]));
                let e = names_view(r@);
                assert forall|a: int, b: int| 0 <= a < e.len() && 0 <= b < e.len() && a != b implies e[a]
                    != e[b] by {
                    if a == e.len() - 1 {
                        assert(names_view(before).contains(e[b]));
                    } else if b == e.len() - 1 {
                        assert(names_view(before).contains(e[a]));
                    }
                }
            }
            }
        } else {
            assert(r@ == before);
        }
        i = i + 1;
    }
    assert(names_view(v@).take(v@.len() as int) =~= names_view(v@));
    assert(names_view(r@).to_set() =~= names_view(v@).to_set().remove(name@));
    r
}

/// What unscanning leaves of an entry `o` that the selection holds: no files or registry
/// keys, not scanned, and, unless one game alone was unscanned, its tree cleared.
pub open spec fn unscanned(o: GameListEntry, f: GameListEntry, single: bool) -> bool {
    &&& f.scan_info.game_name == o.scan_info.game_name
    &&& f.scan_info.found_files@.len() == 0
    &&& f.scan_info.found_registry_keys@.len() == 0
    &&& !f.scanned
    &&& f.tree == if single {
        o.tree
    } else {
        cleared(o.tree)
    }
}

/// The games that the duplicate filter keeps: every game when no game is chosen or the
/// chosen game has no duplicates; otherwise the chosen game and its duplicates.
pub open spec fn duplicate_scope(chosen: Option<String>, duplicates: Seq<Seq<char>>) -> Option<
    Set<Seq<char>>,
> {
    match chosen {
        None => None,
        Some(game) => if duplicates.len() == 0 {
            None
        } else {
            Some(duplicates.to_set().insert(game@))
        },
    }
}

/// Whether an entry is listed: the configuration shows it, the search and filters keep
/// it, and the duplicate filter keeps it.
pub open spec fn listed(
    name: Seq<char>,
    shown: bool,
    facts: GameFacts,
    search: FilterComponent,
    show_deselected_games: bool,
    scope: Option<Set<Seq<char>>>,
) -> bool {
    &&& shown
    &&& search.qualifies_view(facts, show_deselected_games)
    &&& match scope {
        None => true,
        Some(games) => games.contains(name),
    }
}

/// The names of the first `n` entries that are listed, in list order.
pub open spec fn listed_names(
    entries: Seq<GameListEntry>,
    shown: Seq<bool>,
    facts: Seq<GameFacts>,
    search: FilterComponent,
    show_deselected_games: bool,
    scope: Option<Set<Seq<char>>>,
    n: int,
) -> Seq<Seq<char>>
    decreases n,
{
    if n <= 0 {
        Seq::empty()
    } else {
        let rest = listed_names(entries, shown, facts, search, show_deselected_games, scope, n - 1);
        if listed(entries[n - 1].name(), shown[n - 1], facts[n - 1], search, show_deselected_games, scope) {
            rest.push(entries[n - 1].name())
        } else {
            rest
        }
    }
}

/// The games of a backup or restore screen, with the search and filters over them.
pub struct GameList {
    pub entries: Vec<GameListEntry>,
    pub search: FilterComponent,
    /// The games whose file trees are shown, each by name.
    pub expanded_games: Vec<String>,
    pub filter_duplicates_of: Option<String>,
}

impl GameList {
    /// The entries, in list order.
    pub open spec fn entries_view(&self) -> Seq<GameListEntry> {
        self.entries@
    }

    /// The search and filters.
    pub open spec fn search_view(&self) -> FilterComponent {
        self.search
    }

    /// The game whose duplicates alone are listed, if any.
    pub open spec fn duplicates_filter(&self) -> Option<String> {
        self.filter_duplicates_of
    }

    /// The games whose file trees are shown.
    pub open spec fn expanded(&self) -> Set<Seq<char>> {
        names_view(self.expanded_games@).to_set()
    }

    /// A list with the given entries and search, no game expanded and no duplicate filter.
    pub fn new(entries: Vec<GameListEntry>, search: FilterComponent) -> (r: Self)
        ensures
            r.entries_view() == entries@,
            r.search_view() == search,
            r.expanded() == Set::<Seq<char>>::empty(),
            r.duplicates_filter() is None,
    {
        let r = GameList { entries, search, expanded_games: Vec::new(), filter_duplicates_of: None };
        assert(r.expanded() =~= Set::<Seq<char>>::empty());
        r
    }

    /// Whether the list hides some games: the search is shown, or only the duplicates of
    /// a game are listed.
    pub fn is_filtered(&self) -> (r: bool)
        ensures
            r == (self.search_view().show || self.duplicates_filter() is Some),
    {
        self.search.show || self.filter_duplicates_of.is_some()
    }

    /// The position of the first entry for `game`, if there is one.
    pub fn find_game(&self, game: &str) -> (r: Option<usize>)
        ensures
            match r {
                Some(i) => {
                    &&& i < self.entries_view().len()
                    &&& entry_names(self.entries_view())[i as int] == game@
                    &&& forall|j: int| 0 <= j < i ==> entry_names(self.entries_view())[j] != game@
                },
                None => !entry_names(self.entries_view()).contains(game@),
            },
    {
        let mut i: usize = 0;
        while i < self.entries.len()
            invariant
                i <= self.entries_view().len(),
                forall|j: int| 0 <= j < i ==> entry_names(self.entries_view())[j] != game@,
            decreases self.entries.len() - i,
        {
            if str_eq(self.entries[i].scan_info.game_name.as_str(), game) {
                return Some(i);
            }
            i = i + 1;
        }
        None
    }

    /// Shows the file tree of `game`: a game already expanded stays as it is; otherwise
    /// it is marked expanded and the first entry for it has its tree built anew.
    pub fn expand_game(&mut self, game: &str)
        ensures
            old(self).expanded().contains(game@) ==> {
                &&& final(self).entries_view() == old(self).entries_view()
                &&& final(self).expanded() == old(self).expanded()
            },
            names_view(old(self).expanded_games@).no_duplicates() ==> names_view(
                final(self).expanded_games@,
            ).no_duplicates(),
            !old(self).expanded().contains(game@) ==> {
                &&& final(self).entries_view() == refreshed_first(old(self).entries_view(), game@)
                &&& final(self).expanded() == old(self).expanded().insert(game@)
            },
            final(self).search_view() == old(self).search_view(),
            final(self).duplicates_filter() == old(self).duplicates_filter(),
    {
        let expanded = crate::common::list_contains(&self.expanded_games, game);
        if expanded {
            assert(self.expanded().contains(game@));
            return;
        }
        assert(!self.expanded().contains(game@));
        let ghost before = self.expanded_games@;
        self.expanded_games.push(game.to_string());
        assert(names_view(self.expanded_games@) =~= names_view(before).push(game@));
        proof {
            names_view(before).lemma_push_to_set_commute(game@);
        }
        match self.find_game(game) {
            Some(i) => {
                proof {
                    lemma_first_position(entry_names(self.entries@), game@, i as int);
                }
                self.entries[i].refresh_tree();
            },
            None => {},
        }
    }

    /// Forgets what was found for the selected games. When more than one game may be
    /// selected, their trees are also cleared and they are collapsed.
    pub fn unscan_games(&mut self, games: &GameSelection)
        ensures
            final(self).entries_view().len() == old(self).entries_view().len(),
            forall|i: int|
                0 <= i < old(self).entries_view().len() ==> if games.names().contains(
                    #[trigger] old(self).entries_view()[i].name(),
                ) {
                    unscanned(old(self).entries_view()[i], final(self).entries_view()[i], games is Single)
                } else {
                    final(self).entries_view()[i] == old(self).entries_view()[i]
                },
            names_view(old(self).expanded_games@).no_duplicates() ==> names_view(
                final(self).expanded_games@,
            ).no_duplicates(),
            final(self).expanded() == if games is Single {
                old(self).expanded()
            } else {
                old(self).expanded().difference(
                    games.names().intersect(entry_names(old(self).entries_view()).to_set()),
                )
            },
            final(self).search_view() == old(self).search_view(),
            final(self).duplicates_filter() == old(self).duplicates_filter(),
    {
        let ghost orig = self.entries@;
        let ghost names = entry_names(orig);
        let ghost orig_expanded = self.expanded();
        let single = games.is_single();
        let mut i: usize = 0;
        while i < self.entries.len()
            invariant
                i <= self.entries@.len(),
                self.entries@.len() == orig.len(),
                names == entry_names(orig),
                single == games is Single,
                forall|j: int|
                    0 <= j < i ==> if games.names().contains(#[trigger] orig[j].name()) {
                        unscanned(orig[j], self.entries@[j], single)
                    } else {
                        self.entries@[j] == orig[j]
                    },
                forall|j: int| i <= j < orig.len() ==> #[trigger] self.entries@[j] == orig[j],
                self.expanded() == if single {
                    orig_expanded
                } else {
                    orig_expanded.difference(games.names().intersect(names.take(i as int).to_set()))
                },
                self.search == old(self).search,
                self.filter_duplicates_of == old(self).filter_duplicates_of,
                names_view(old(self).expanded_games@).no_duplicates() ==> names_view(
                    self.expanded_games@,
                ).no_duplicates(),
            decreases self.entries.len() - i,
        {
            assert(self.entries@[i as int] == orig[i as int]);
            assert(names[i as int] == orig[i as int].name());
            assert(names.take(i + 1) =~= names.take(i as int).push(names[i as int]));
            proof {
                names.take(i as int).lemma_push_to_set_commute(names[i as int]);
            }
            let selected = games.contains(self.entries[i].scan_info.game_name.as_str());
            if selected {
                self.entries[i].scanned = false;
                self.entries[i].scan_info.found_files.clear();
                self.entries[i].scan_info.found_registry_keys.clear();
                if !single {
                    self.entries[i].clear_tree();
                    let ghost e0 = self.expanded();
                    let kept = without(&self.expanded_games, self.entries[i].scan_info.game_name.as_str());
                    self.expanded_games = kept;
                    assert(self.expanded() =~= orig_expanded.difference(
                        games.names().intersect(names.take(i + 1).to_set()),
                    ));
                }
            } else {
                assert(games.names().intersect(names.take(i + 1).to_set()) =~= games.names().intersect(
                    names.take(i as int).to_set(),
                ));
            }
            i = i + 1;
        }
        assert(names.take(orig.len() as int) =~= names);
    }

    /// Drops the entries for `game` and builds anew the trees of the games in
    /// `duplicates`, whose files the dropped game had shared.
    pub fn remove_game(&mut self, game: &str, duplicates: &Vec<String>)
        ensures
            final(self).entries_view() == after_removal(
                old(self).entries_view(),
                game@,
                names_view(duplicates@).to_set(),
            ),
            final(self).expanded() == old(self).expanded(),
            final(self).search_view() == old(self).search_view(),
            final(self).duplicates_filter() == old(self).duplicates_filter(),
    {
        let ghost orig = self.entries@;
        let ghost dups = names_view(duplicates@).to_set();
        let mut i: usize = 0;
        let ghost mut k: int = 0;
        while i < self.entries.len()
            invariant
                0 <= k <= orig.len(),
                i == after_removal(orig.take(k), game@, dups).len(),
                self.entries@ == after_removal(orig.take(k), game@, dups) + orig.skip(k),
                dups == names_view(duplicates@).to_set(),
                self.expanded_games == old(self).expanded_games,
                self.search == old(self).search,
                self.filter_duplicates_of == old(self).filter_duplicates_of,
            decreases self.entries.len() - i,
        {
            let ghost done = after_removal(orig.take(k), game@, dups);
            assert(k < orig.len()) by {
                if k >= orig.len() {
                    assert(orig.skip(k).len() == 0);
                }
            }
            assert(self.entries@[i as int] == orig[k]);
            assert(orig.take(k + 1).drop_last() =~= orig.take(k));
            assert(orig.take(k + 1).last() == orig[k]);
            if str_eq(self.entries[i].scan_info.game_name.as_str(), game) {
                self.entries.remove(i);
                assert(self.entries@ =~= done + orig.skip(k + 1));
            } else {
                let duplicated = crate::common::list_contains(
                    duplicates,
                    self.entries[i].scan_info.game_name.as_str(),
                );
                if duplicated {
                    self.entries[i].refresh_tree();
                    assert(self.entries@ =~= done.push(with_tree(orig[k], Some(FileTreeState::Built)))
                        + orig.skip(k + 1));
                } else {
                    assert(self.entries@ =~= done.push(orig[k]) + orig.skip(k + 1));
                }
                i = i + 1;
            }
            proof {
                k = k + 1;
            }
        }
        assert(k == orig.len()) by {
            if k < orig.len() {
                assert(self.entries@.len() > i);
            }
        }
        assert(orig.take(k) =~= orig);
        assert(self.entries@ =~= after_removal(orig, game@, dups));
    }

    /// The names of the games that the list shows, in list order. For each entry,
    /// `shown` says whether the configuration shows it and `facts` holds what the filters
    /// read of it; `duplicates` holds the duplicates of the game whose duplicates alone
    /// are listed, if there is such a game.
    pub fn visible_games(
        &self,
        shown: &Vec<bool>,
        facts: &Vec<GameFacts>,
        duplicates: &Vec<String>,
        show_deselected_games: bool,
    ) -> (r: Vec<String>)
        requires
            shown@.len() == self.entries_view().len(),
            facts@.len() == self.entries_view().len(),
            forall|i: int|
                0 <= i < facts@.len() ==> (#[trigger] facts@[i]).game_name@
                    == self.entries_view()[i].name(),
        ensures
            names_view(r@) == listed_names(
                self.entries_view(),
                shown@,
                facts@,
                self.search_view(),
                show_deselected_games,
                duplicate_scope(self.duplicates_filter(), names_view(duplicates@)),
                self.entries_view().len() as int,
            ),
    {
        let ghost scope = duplicate_scope(self.filter_duplicates_of, names_view(duplicates@));
        let mut scope_games: Vec<String> = Vec::new();
        let mut scoped = false;
        match &self.filter_duplicates_of {
            None => {},
            Some(game) => {
                if duplicates.len() > 0 {
                    scoped = true;
                    let mut k: usize = 0;
                    while k < duplicates.len()
                        invariant
                            k <= duplicates@.len(),
                            names_view(scope_games@) == names_view(duplicates@).take(k as int),
                        decreases duplicates.len() - k,
                    {
                        let ghost before = scope_games@;
                        scope_games.push(duplicates[k].clone());
                        proof {
                            lemma_names_view_push(before, duplicates@[k as int]);
                        }
                        assert(names_view(scope_games@) =~= names_view(duplicates@).take(k + 1));
                        k = k + 1;
                    }
                    let ghost before = scope_games@;
                    scope_games.push(game.clone());
                    proof {
                        lemma_names_view_push(before, *game);
                    }
                    assert(names_view(duplicates@).take(duplicates@.len() as int) =~= names_view(duplicates@));
                    assert(names_view(scope_games@) =~= names_view(duplicates@).push(game@));
                    proof {
                        names_view(duplicates@).lemma_push_to_set_commute(game@);
                    }
                }
            },
        }
        assert(scoped ==> scope == Some(names_view(scope_games@).to_set()));
        assert(!scoped ==> scope is None);
        let mut r: Vec<String> = Vec::new();
        let mut i: usize = 0;
        while i < self.entries.len()
            invariant
                i <= self.entries@.len(),
                shown@.len() == self.entries@.len(),
                facts@.len() == self.entries@.len(),
                scoped ==> scope == Some(names_view(scope_games@).to_set()),
                !scoped ==> scope is None,
                names_view(r@) == listed_names(
                    self.entries@,
                    shown@,
                    facts@,
                    self.search,
                    show_deselected_games,
                    scope,
                    i as int,
                ),
            decreases self.entries.len() - i,
        {
            let name = self.entries[i].scan_info.game_name.as_str();
            let in_scope = if scoped {
                crate::common::list_contains(&scope_games, name)
            } else {
                true
            };
            let keep = shown[i] && self.search.qualifies(&facts[i], show_deselected_games) && in_scope;
            if keep {
                let ghost before = r@;
                r.push(self.entries[i].scan_info.game_name.clone());
                assert(names_view(r@) =~= names_view(before).push(self.entries@[i as int].name()));
            }
            i = i + 1;
        }
        r
    }

    /// Whether some game has not been scanned yet.
    pub fn contains_unscanned_games(&self) -> (r: bool)
        ensures
            r == exists|i: int| 0 <= i < self.entries_view().len() && !#[trigger] self.entries_view()[i].scanned,
    {
        let mut i: usize = 0;
        while i < self.entries.len()
            invariant
                i <= self.entries_view().len(),
                forall|j: int| 0 <= j < i ==> #[trigger] self.entries_view()[j].scanned,
            decreases self.entries.len() - i,
        {
            if !self.entries[i].scanned {
                return true;
            }
            i = i + 1;
        }
        false
    }

    /// Empties the list and collapses every game.
    pub fn clear(&mut self)
        ensures
            final(self).entries_view().len() == 0,
            final(self).expanded() == Set::<Seq<char>>::empty(),
            final(self).search_view() == old(self).search_view(),
            final(self).duplicates_filter() == old(self).duplicates_filter(),
    {
        self.entries.clear();
        self.expanded_games.clear();
        assert(self.expanded() =~= Set::<Seq<char>>::empty());
    }
}

/// Removing a game drops exactly the entries for that game: the names that stay are the
/// others, in their order, so a search for the game finds nothing afterwards.
pub proof fn law_removal_keeps_other_games(
    entries: Seq<GameListEntry>,
    game: Seq<char>,
    duplicates: Set<Seq<char>>,
)
    ensures
        entry_names(after_removal(entries, game, duplicates)) == entry_names(entries).filter(
            |n: Seq<char>| n != game,
        ),
        !entry_names(after_removal(entries, game, duplicates)).contains(game),
    decreases entries.len(),
{
    let p = |n: Seq<char>| n != game;
    if entries.len() == 0 {
        assert(entry_names(after_removal(entries, game, duplicates)) =~= Seq::<Seq<char>>::empty());
        assert(entry_names(entries) =~= Seq::<Seq<char>>::empty());
        assert(entry_names(entries).filter(p) =~= Seq::<Seq<char>>::empty());
    } else {
        let front = entries.drop_last();
        law_removal_keeps_other_games(front, game, duplicates);
        let rest = after_removal(front, game, duplicates);
        let e = entries.last();
        assert(entry_names(entries) =~= entry_names(front).push(e.name()));
        assert(entry_names(entries).filter(p) == if p(e.name()) {
            entry_names(front).filter(p).push(e.name())
        } else {
            entry_names(front).filter(p)
        }) by {
            entry_names(front).lemma_filter_push(e.name(), p);
        }
        if e.name() != game {
            let pushed = if duplicates.contains(e.name()) {
                with_tree(e, Some(FileTreeState::Built))
            } else {
                e
            };
            assert(entry_names(rest.push(pushed)) =~= entry_names(rest).push(e.name()));
        }
    }
    let names = entry_names(after_removal(entries, game, duplicates));
    if names.contains(game) {
        let i = choose|i: int| 0 <= i < names.len() && names[i] == game;
        assert(entry_names(entries).filter(p).contains(game));
        entry_names(entries).lemma_filter_contains_rev(p, game);
    }
}

} // verus!
