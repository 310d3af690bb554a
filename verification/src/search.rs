//! The game list's search box and filters.
use crate::lang::{lowercase, to_lowercase};
use crate::scan::{Change, Completeness, Enablement, Uniqueness};
use crate::shortcuts::{history_push, TextHistory};
use fuzzy_matcher::FuzzyMatcher;
use vstd::prelude::*;

verus! {

/// What the skim fuzzy matcher (`fuzzy_matcher::skim::SkimMatcherV2::default()`) scores
/// a pattern against a text: a score when the pattern's characters occur in the text in
/// order, else nothing.
pub uninterp spec fn skim_score(choice: Seq<char>, pattern: Seq<char>) -> Option<i64>;

/// Calls `SkimMatcherV2::default().fuzzy_match(choice, pattern)`; the result is named by
/// `skim_score`.
#[verifier::external_body]
fn fuzzy_match(choice: &str, pattern: &str) -> (r: Option<i64>)
    ensures
        r == skim_score(choice@, pattern@),
{
    fuzzy_matcher::skim::SkimMatcherV2::default().fuzzy_match(choice, pattern)
}

/// The filters that can be switched on and off.
#[derive(Clone, Copy, Debug, PartialEq, Eq, Structural)]
pub enum FilterKind {
    Uniqueness,
    Completeness,
    Enablement,
    Change,
    Manifest,
}

/// The manifest that the manifest filter keeps games of, named as the picker shows it.
#[derive(Clone, Debug, PartialEq, Eq)]
pub struct ManifestSelection {
    pub source: String,
}

/// A filter: whether it is on, and what it keeps.
#[derive(Clone, Debug, PartialEq, Eq)]
pub struct Filter<T> {
    active: bool,
    pub choice: T,
}

impl<T> Filter<T> {
    /// Whether the filter is on.
    pub closed spec fn is_active(&self) -> bool {
        self.active
    }

    /// What the filter keeps when it is on.
    pub closed spec fn choice_view(&self) -> T {
        self.choice
    }

    /// A filter that is off and keeps `choice` when switched on.
    pub fn new(choice: T) -> (r: Self)
        ensures
            !r.is_active(),
            r.choice_view() == choice,
    {
        Filter { active: false, choice }
    }

    /// Whether the filter is on.
    pub fn active(&self) -> (r: bool)
        ensures
            r == self.is_active(),
    {
        self.active
    }
}

impl Uniqueness {
    /// Whether a game passes: unique games pass the unique filter, others the duplicate one.
    pub fn qualifies(&self, unique: bool) -> (r: bool)
        ensures
            r == (unique == (*self == Uniqueness::Unique)),
    {
        match self {
            Uniqueness::Unique => unique,
            Uniqueness::Duplicate => !unique,
        }
    }
}

impl Completeness {
    /// Whether a game passes: games with every file selected pass the complete filter,
    /// others the partial one.
    pub fn qualifies(&self, complete: bool) -> (r: bool)
        ensures
            r == (complete == (*self == Completeness::Complete)),
    {
        match self {
            Completeness::Complete => complete,
            Completeness::Partial => !complete,
        }
    }
}

impl Enablement {
    /// Whether a game passes: selected games pass the enabled filter, others the disabled one.
    pub fn qualifies(&self, enabled: bool) -> (r: bool)
        ensures
            r == (enabled == (*self == Enablement::Enabled)),
    {
        match self {
            Enablement::Enabled => enabled,
            Enablement::Disabled => !enabled,
        }
    }
}

impl Change {
    /// Whether a game whose change is `change` passes.
    pub fn qualifies(&self, change: Change) -> (r: bool)
        ensures
            r == (*self == change),
    {
        *self == change
    }
}

/// The facts about a game that the filters read.
pub struct GameFacts {
    pub game_name: String,
    /// No other game claims the same files.
    pub unique: bool,
    /// Every file of the game is selected.
    pub complete: bool,
    /// The game is selected for the operation.
    pub enabled: bool,
    pub change: Change,
    /// The game belongs to the manifest that the manifest filter keeps.
    pub in_selected_manifest: bool,
}

/// An event of a game list's search box and filters.
#[derive(Debug)]
pub enum FilterEvent {
    /// Show or hide the search box.
    Toggled,
    /// Switch one filter on or off.
    ToggledFilter { filter: FilterKind, enabled: bool },
    /// The searched name was edited.
    EditedGameName(String),
    /// Clear the search and switch every filter off.
    Reset,
    EditedFilterUniqueness(Uniqueness),
    EditedFilterCompleteness(Completeness),
    EditedFilterEnablement(Enablement),
    EditedFilterChange(Change),
    EditedFilterManifest(ManifestSelection),
}

/// The search box and the filters of a game list.
pub struct FilterComponent {
    pub show: bool,
    pub game_name: String,
    pub uniqueness: Filter<Uniqueness>,
    pub completeness: Filter<Completeness>,
    pub enablement: Filter<Enablement>,
    pub change: Filter<Change>,
    pub manifest: Filter<ManifestSelection>,
}

/// Whether a game's name matches the search text: an empty search matches everything;
/// otherwise both are lower-cased and fuzzily matched.
pub open spec fn name_matches(search: Seq<char>, game_name: Seq<char>) -> bool {
    search.len() == 0 || skim_score(lowercase(game_name), lowercase(search)) is Some
}

impl FilterComponent {
    /// Whether a game is shown: always when the search is hidden; otherwise its name must
    /// match and it must pass every filter that is on (the enablement filter only counts
    /// when deselected games are shown).
    pub open spec fn qualifies_view(&self, game: GameFacts, show_deselected_games: bool) -> bool {
        !self.show || {
            &&& name_matches(self.game_name@, game.game_name@)
            &&& (!self.uniqueness.is_active() || (game.unique == (self.uniqueness.choice_view()
                == Uniqueness::Unique)))
            &&& (!self.completeness.is_active() || (game.complete == (self.completeness.choice_view()
                == Completeness::Complete)))
            &&& (!show_deselected_games || !self.enablement.is_active() || (game.enabled == (
            self.enablement.choice_view() == Enablement::Enabled)))
            &&& (!self.change.is_active() || self.change.choice_view() == game.change)
            &&& (!self.manifest.is_active() || game.in_selected_manifest)
        }
    }

    /// Clears the search text and switches every filter off; the choices stay.
    pub fn reset(&mut self)
        ensures
            final(self).game_name@.len() == 0,
            !final(self).uniqueness.is_active(),
            !final(self).completeness.is_active(),
            !final(self).enablement.is_active(),
            !final(self).change.is_active(),
            !final(self).manifest.is_active(),
            final(self).show == old(self).show,
            final(self).uniqueness.choice_view() == old(self).uniqueness.choice_view(),
            final(self).completeness.choice_view() == old(self).completeness.choice_view(),
            final(self).enablement.choice_view() == old(self).enablement.choice_view(),
            final(self).change.choice_view() == old(self).change.choice_view(),
            final(self).manifest.choice_view() == old(self).manifest.choice_view(),
    {
        self.game_name = String::new();
        self.uniqueness.active = false;
        self.completeness.active = false;
        self.enablement.active = false;
        self.change.active = false;
        self.manifest.active = false;
    }

    /// Whether a game is shown.
    pub fn qualifies(&self, game: &GameFacts, show_deselected_games: bool) -> (r: bool)
        ensures
            r == self.qualifies_view(*game, show_deselected_games),
    {
        if !self.show {
            return true;
        }
        let fuzzy = if self.game_name.as_str().is_empty() {
            true
        } else {
            let choice = to_lowercase(game.game_name.as_str());
            let pattern = to_lowercase(self.game_name.as_str());
            fuzzy_match(choice.as_str(), pattern.as_str()).is_some()
        };
        let unique = !self.uniqueness.active || self.uniqueness.choice.qualifies(game.unique);
        let complete = !self.completeness.active || self.completeness.choice.qualifies(game.complete);
        let enable = !show_deselected_games || !self.enablement.active
            || self.enablement.choice.qualifies(game.enabled);
        let changed = !self.change.active || self.change.choice.qualifies(game.change);
        let manifest = !self.manifest.active || game.in_selected_manifest;
        fuzzy && unique && complete && changed && enable && manifest
    }

    /// Switches one filter on or off.
    pub fn toggle_filter(&mut self, filter: FilterKind, enabled: bool)
        ensures
            final(self).uniqueness.is_active() == if filter == FilterKind::Uniqueness {
                enabled
            } else {
                old(self).uniqueness.is_active()
            },
            final(self).completeness.is_active() == if filter == FilterKind::Completeness {
                enabled
            } else {
                old(self).completeness.is_active()
            },
            final(self).enablement.is_active() == if filter == FilterKind::Enablement {
                enabled
            } else {
                old(self).enablement.is_active()
            },
            final(self).change.is_active() == if filter == FilterKind::Change {
                enabled
            } else {
                old(self).change.is_active()
            },
            final(self).manifest.is_active() == if filter == FilterKind::Manifest {
                enabled
            } else {
                old(self).manifest.is_active()
            },
            final(self).show == old(self).show,
            final(self).game_name == old(self).game_name,
            final(self).uniqueness.choice_view() == old(self).uniqueness.choice_view(),
            final(self).completeness.choice_view() == old(self).completeness.choice_view(),
            final(self).enablement.choice_view() == old(self).enablement.choice_view(),
            final(self).change.choice_view() == old(self).change.choice_view(),
            final(self).manifest.choice_view() == old(self).manifest.choice_view(),
    {
        match filter {
            FilterKind::Uniqueness => self.uniqueness.active = enabled,
            FilterKind::Completeness => self.completeness.active = enabled,
            FilterKind::Enablement => self.enablement.active = enabled,
            FilterKind::Change => self.change.active = enabled,
            FilterKind::Manifest => self.manifest.active = enabled,
        }
    }
}

impl FilterComponent {
    /// Applies an event of the search box: showing or hiding it, switching a filter,
    /// editing the searched name (recorded in `history`), resetting (which records an
    /// empty name), or choosing what a filter keeps.
    pub fn apply_event(&mut self, history: &mut TextHistory, event: FilterEvent)
        ensures
            match event {
                FilterEvent::Toggled => {
                    &&& final(self).show == (!old(self).show)
                    &&& *final(history) == *old(history)
                    &&& *final(self) == (FilterComponent { show: final(self).show, ..*old(self) })
                },
                FilterEvent::ToggledFilter { filter, enabled } => {
                    &&& *final(history) == *old(history)
                    &&& final(self).show == old(self).show
                    &&& final(self).game_name == old(self).game_name
                    &&& final(self).uniqueness.is_active() == if filter == FilterKind::Uniqueness {
                        enabled
                    } else {
                        old(self).uniqueness.is_active()
                    }
                    &&& final(self).completeness.is_active() == if filter == FilterKind::Completeness {
                        enabled
                    } else {
                        old(self).completeness.is_active()
                    }
                    &&& final(self).enablement.is_active() == if filter == FilterKind::Enablement {
                        enabled
                    } else {
                        old(self).enablement.is_active()
                    }
                    &&& final(self).change.is_active() == if filter == FilterKind::Change {
                        enabled
                    } else {
                        old(self).change.is_active()
                    }
                    &&& final(self).manifest.is_active() == if filter == FilterKind::Manifest {
                        enabled
                    } else {
                        old(self).manifest.is_active()
                    }
                    &&& final(self).uniqueness.choice_view() == old(self).uniqueness.choice_view()
                    &&& final(self).completeness.choice_view() == old(self).completeness.choice_view()
                    &&& final(self).enablement.choice_view() == old(self).enablement.choice_view()
                    &&& final(self).change.choice_view() == old(self).change.choice_view()
                    &&& final(self).manifest.choice_view() == old(self).manifest.choice_view()
                },
                FilterEvent::EditedGameName(name) => {
                    &&& final(history).model() == history_push(old(history).model(), name@)
                    &&& *final(self) == (FilterComponent { game_name: name, ..*old(self) })
                },
                FilterEvent::Reset => {
                    &&& final(history).model() == history_push(old(history).model(), Seq::<char>::empty())
                    &&& final(self).game_name@.len() == 0
                    &&& !final(self).uniqueness.is_active()
                    &&& !final(self).completeness.is_active()
                    &&& !final(self).enablement.is_active()
                    &&& !final(self).change.is_active()
                    &&& !final(self).manifest.is_active()
                    &&& final(self).show == old(self).show
                    &&& final(self).uniqueness.choice_view() == old(self).uniqueness.choice_view()
                    &&& final(self).completeness.choice_view() == old(self).completeness.choice_view()
                    &&& final(self).enablement.choice_view() == old(self).enablement.choice_view()
                    &&& final(self).change.choice_view() == old(self).change.choice_view()
                    &&& final(self).manifest.choice_view() == old(self).manifest.choice_view()
                },
                FilterEvent::EditedFilterUniqueness(v) => *final(history) == *old(history) && final(self).uniqueness.choice_view() == v
                    && final(self).uniqueness.is_active() == old(self).uniqueness.is_active() && *final(self) == (
                FilterComponent { uniqueness: final(self).uniqueness, ..*old(self) }),
                FilterEvent::EditedFilterCompleteness(v) => *final(history) == *old(history) && final(self).completeness.choice_view() == v
                    && final(self).completeness.is_active() == old(self).completeness.is_active() && *final(self) == (
                FilterComponent { completeness: final(self).completeness, ..*old(self) }),
                FilterEvent::EditedFilterEnablement(v) => *final(history) == *old(history) && final(self).enablement.choice_view() == v
                    && final(self).enablement.is_active() == old(self).enablement.is_active() && *final(self) == (
                FilterComponent { enablement: final(self).enablement, ..*old(self) }),
                FilterEvent::EditedFilterChange(v) => *final(history) == *old(history) && final(self).change.choice_view() == v
                    && final(self).change.is_active() == old(self).change.is_active() && *final(self) == (
                FilterComponent { change: final(self).change, ..*old(self) }),
                FilterEvent::EditedFilterManifest(v) => *final(history) == *old(history) && final(self).manifest.choice_view() == v
                    && final(self).manifest.is_active() == old(self).manifest.is_active() && *final(self) == (
                FilterComponent { manifest: final(self).manifest, ..*old(self) }),
            },
    {
        match event {
            FilterEvent::Toggled => {
                self.show = !self.show;
            },
            FilterEvent::ToggledFilter { filter, enabled } => self.toggle_filter(filter, enabled),
            FilterEvent::EditedGameName(name) => {
                history.push(name.as_str());
                self.game_name = name;
            },
            FilterEvent::Reset => {
                self.reset();
                history.push("");
                proof {
                    reveal_strlit("");
                    assert(""@ =~= Seq::<char>::empty());
                }
            },
            FilterEvent::EditedFilterUniqueness(v) => {
                self.uniqueness.choice = v;
            },
            FilterEvent::EditedFilterCompleteness(v) => {
                self.completeness.choice = v;
            },
            FilterEvent::EditedFilterEnablement(v) => {
                self.enablement.choice = v;
            },
            FilterEvent::EditedFilterChange(v) => {
                self.change.choice = v;
            },
            FilterEvent::EditedFilterManifest(v) => {
                self.manifest.choice = v;
            },
        }
    }
}

/// An empty search with every filter off hides no game, which is the state a reset leaves.
pub proof fn law_reset_shows_everything(c: FilterComponent, game: GameFacts, show_deselected_games: bool)
    requires
        c.game_name@.len() == 0,
        !c.uniqueness.is_active(),
        !c.completeness.is_active(),
        !c.enablement.is_active(),
        !c.change.is_active(),
        !c.manifest.is_active(),
    ensures
        c.qualifies_view(game, show_deselected_games),
{
}

/// Which filters are on, in the order uniqueness, completeness, enablement, change and
/// manifest.
pub open spec fn filters_on(c: FilterComponent) -> (bool, bool, bool, bool, bool) {
    (
        c.uniqueness.is_active(),
        c.completeness.is_active(),
        c.enablement.is_active(),
        c.change.is_active(),
        c.manifest.is_active(),
    )
}

/// Each filter keeps the games that have what it chose. With the search shown, an empty
/// name and one filter on: the uniqueness filter keeps unique games when set to unique
/// and the others when set to duplicate; the completeness filter likewise keeps complete
/// or partial games; the enablement filter keeps selected or deselected games, and keeps
/// every game while deselected games are hidden; the change filter keeps the games whose
/// change is the chosen one; the manifest filter keeps the games of the chosen manifest.
pub proof fn law_each_filter_keeps_its_choice(c: FilterComponent, game: GameFacts, show_deselected_games: bool)
    requires
        c.show,
        c.game_name@.len() == 0,
    ensures
        filters_on(c) == (true, false, false, false, false) ==> (c.qualifies_view(game, show_deselected_games)
            <==> (game.unique <==> c.uniqueness.choice_view() == Uniqueness::Unique)),
        filters_on(c) == (false, true, false, false, false) ==> (c.qualifies_view(game, show_deselected_games)
            <==> (game.complete <==> c.completeness.choice_view() == Completeness::Complete)),
        filters_on(c) == (false, false, true, false, false) && show_deselected_games ==> (c.qualifies_view(
            game,
            show_deselected_games,
        ) <==> (game.enabled <==> c.enablement.choice_view() == Enablement::Enabled)),
        filters_on(c) == (false, false, true, false, false) && !show_deselected_games ==> c.qualifies_view(
            game,
            show_deselected_games,
        ),
        filters_on(c) == (false, false, false, true, false) ==> (c.qualifies_view(game, show_deselected_games)
            <==> game.change == c.change.choice_view()),
        filters_on(c) == (false, false, false, false, true) ==> (c.qualifies_view(game, show_deselected_games)
            <==> game.in_selected_manifest),
{
}

/// Switching a filter on never shows a game that was hidden: a game shown with the
/// uniqueness, completeness, enablement, change or manifest filter on is shown with it off.
pub proof fn law_more_filters_show_fewer_games(
    c: FilterComponent,
    d: FilterComponent,
    game: GameFacts,
    show_deselected_games: bool,
)
    requires
        c.show == d.show,
        c.game_name@ == d.game_name@,
        c.uniqueness.choice_view() == d.uniqueness.choice_view(),
        c.completeness.choice_view() == d.completeness.choice_view(),
        c.enablement.choice_view() == d.enablement.choice_view(),
        c.change.choice_view() == d.change.choice_view(),
        !c.uniqueness.is_active() ==> !d.uniqueness.is_active(),
        !c.completeness.is_active() ==> !d.completeness.is_active(),
        !c.enablement.is_active() ==> !d.enablement.is_active(),
        !c.change.is_active() ==> !d.change.is_active(),
        !c.manifest.is_active() ==> !d.manifest.is_active(),
    ensures
        c.qualifies_view(game, show_deselected_games) ==> d.qualifies_view(game, show_deselected_games),
{
}

/// The filter of the custom games screen: whether it is on, and the name searched for.
pub struct CustomGamesFilter {
    pub enabled: bool,
    pub name: String,
}

impl CustomGamesFilter {
    /// Clears the name searched for.
    pub fn reset(&mut self)
        ensures
            final(self).name@.len() == 0,
            final(self).enabled == old(self).enabled,
    {
        self.name = String::new();
    }

    /// Applies an event of the custom games' search: showing or hiding it, editing the
    /// name (recorded in `history`) or resetting it (recording an empty name); the
    /// filters of the game lists do not apply here.
    pub fn apply_event(&mut self, history: &mut TextHistory, event: FilterEvent)
        ensures
            match event {
                FilterEvent::Toggled => {
                    &&& final(self).enabled == (!old(self).enabled)
                    &&& final(self).name == old(self).name
                    &&& *final(history) == *old(history)
                },
                FilterEvent::EditedGameName(name) => final(self).name == name && final(self).enabled
                    == old(self).enabled && final(history).model() == history_push(
                    old(history).model(),
                    name@,
                ),
                FilterEvent::Reset => final(self).name@.len() == 0 && final(self).enabled == old(
                    self,
                ).enabled && final(history).model() == history_push(old(history).model(), Seq::<char>::empty()),
                _ => *final(self) == *old(self) && *final(history) == *old(history),
            },
    {
        match event {
            FilterEvent::Toggled => {
                self.enabled = !self.enabled;
            },
            FilterEvent::EditedGameName(name) => {
                history.push(name.as_str());
                self.name = name;
            },
            FilterEvent::Reset => {
                self.reset();
                history.push("");
                proof {
                    reveal_strlit("");
                    assert(""@ =~= Seq::<char>::empty());
                }
            },
            _ => {},
        }
    }
}

} // verus!
