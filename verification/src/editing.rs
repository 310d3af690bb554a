//! Edits of the configuration's text fields and lists, kept in step with the fields'
//! undo histories, and undo or redo applied back to the configuration.
use crate::common::{names_view, UndoSubject};
use crate::modal::ModalInputKind;
use crate::prelude::StrictPath;
use crate::resource::{Config, CustomGame, Root, Store};
use crate::shortcuts::{
    history_current, history_push, history_redo, history_start, history_undo, HistoryModel,
    Shortcut, TextHistories, TextHistory,
};
use vstd::prelude::*;

verus! {

broadcast use vstd::seq_lib::lemma_seq_contains_after_push;

/// Which neighbour an entry of a list trades places with.
#[derive(Clone, Copy, Debug, PartialEq, Eq, Structural)]
pub enum EditDirection {
    /// The entry before it.
    Up,
    /// The entry after it.
    Down,
}

/// An edit of a list of text fields.
#[derive(Debug)]
pub enum EditAction {
    /// A new empty entry at the end.
    Add,
    /// The entry at the index gets the text.
    Change(usize, String),
    /// The entry at the index goes.
    Remove(usize),
    /// The entry at the index trades places with a neighbour.
    Move(usize, EditDirection),
}

/// The index that an entry at `index` moves to.
pub open spec fn shifted(index: int, direction: EditDirection) -> int {
    match direction {
        EditDirection::Up => index - 1,
        EditDirection::Down => index + 1,
    }
}

/// Whether `action` can be applied to a list of `len` entries: its index, and the
/// neighbour it moves to, are in the list.
pub open spec fn action_fits(action: EditAction, len: nat) -> bool {
    match action {
        EditAction::Add => true,
        EditAction::Change(i, _) => i < len,
        EditAction::Remove(i) => i < len,
        EditAction::Move(i, d) => i < len && 0 <= shifted(i as int, d) < len,
    }
}

/// `s` with the entries at `i` and `j` traded.
pub open spec fn swapped<A>(s: Seq<A>, i: int, j: int) -> Seq<A> {
    s.update(i, s[j]).update(j, s[i])
}

/// The list `s` after `action`, a new entry being `fresh` and a changed one `changed(old
/// entry)`.
pub open spec fn edited<A>(s: Seq<A>, action: EditAction, fresh: A, changed: spec_fn(A) -> A) -> Seq<A> {
    match action {
        EditAction::Add => s.push(fresh),
        EditAction::Change(i, _) => s.update(i as int, changed(s[i as int])),
        EditAction::Remove(i) => s.remove(i as int),
        EditAction::Move(i, d) => swapped(s, i as int, shifted(i as int, d)),
    }
}

/// The models of a list of histories.
pub open spec fn models(h: Seq<TextHistory>) -> Seq<HistoryModel> {
    h.map_values(|x: TextHistory| x.model())
}

/// The text that a change action carries.
pub open spec fn change_text(action: EditAction) -> Seq<char> {
    match action {
        EditAction::Change(_, v) => v@,
        _ => Seq::empty(),
    }
}

/// The histories of a list of text fields after `action`.
pub open spec fn edited_histories(h: Seq<HistoryModel>, action: EditAction) -> Seq<HistoryModel> {
    edited(
        h,
        action,
        history_start(Seq::empty(), 100),
        |m: HistoryModel| history_push(m, change_text(action)),
    )
}

/// The texts of a list of text fields after `action`.
pub open spec fn edited_texts(t: Seq<Seq<char>>, action: EditAction) -> Seq<Seq<char>> {
    edited(t, action, Seq::empty(), |x: Seq<char>| change_text(action))
}

fn swap_adjacent<A>(v: &mut Vec<A>, i: usize, j: usize)
    requires
        i < old(v)@.len(),
        j < old(v)@.len(),
        j == i + 1 || i == j + 1,
    ensures
        final(v)@ == swapped(old(v)@, i as int, j as int),
{
    let ghost s = v@;
    let x = v.remove(i);
    v.insert(j, x);
    assert(v@ =~= swapped(s, i as int, j as int));
}

fn move_to(action_index: usize, direction: EditDirection, len: usize) -> (r: usize)
    requires
        0 <= shifted(action_index as int, direction) < len,
    ensures
        r == shifted(action_index as int, direction),
{
    match direction {
        EditDirection::Up => action_index - 1,
        EditDirection::Down => action_index + 1,
    }
}

/// Applies `action` to a list of text fields and to their histories, which stay in
/// step: a new field starts with an empty history, a changed one records its text.
pub fn edit_text_list(histories: &mut Vec<TextHistory>, values: &mut Vec<String>, action: EditAction)
    requires
        old(histories)@.len() == old(values)@.len(),
        action_fits(action, old(values)@.len()),
    ensures
        names_view(final(values)@) == edited_texts(names_view(old(values)@), action),
        models(final(histories)@) == edited_histories(models(old(histories)@), action),
        final(histories)@.len() == final(values)@.len(),
{
    let ghost h0 = histories@;
    let ghost v0 = values@;
    match action {
        EditAction::Add => {
            histories.push(TextHistory::default());
            values.push(String::new());
            assert(models(histories@) =~= edited_histories(models(h0), action));
            assert(names_view(values@) =~= edited_texts(names_view(v0), action));
        },
        EditAction::Change(i, value) => {
            histories[i].push(value.as_str());
            values.set(i, value);
            assert(models(histories@) =~= edited_histories(models(h0), action));
            assert(names_view(values@) =~= edited_texts(names_view(v0), action));
        },
        EditAction::Remove(i) => {
            histories.remove(i);
            values.remove(i);
            assert(models(histories@) =~= edited_histories(models(h0), action));
            assert(names_view(values@) =~= edited_texts(names_view(v0), action));
        },
        EditAction::Move(i, d) => {
            let j = move_to(i, d, values.len());
            swap_adjacent(histories, i, j);
            swap_adjacent(values, i, j);
            assert(models(histories@) =~= edited_histories(models(h0), action));
            assert(names_view(values@) =~= edited_texts(names_view(v0), action));
        },
    }
}

proof fn lemma_edited_pairwise<A, B>(
    s: Seq<A>,
    t: Seq<B>,
    action: EditAction,
    fa: A,
    fb: B,
    ca: spec_fn(A) -> A,
    cb: spec_fn(B) -> B,
    rel: spec_fn(A, B) -> bool,
)
    requires
        s.len() == t.len(),
        action_fits(action, s.len()),
        forall|i: int| 0 <= i < s.len() ==> #[trigger] rel(s[i], t[i]),
        rel(fa, fb),
        forall|a: A, b: B| #[trigger] rel(a, b) ==> rel(ca(a), cb(b)),
    ensures
        edited(s, action, fa, ca).len() == edited(t, action, fb, cb).len(),
        forall|i: int|
            0 <= i < edited(s, action, fa, ca).len() ==> #[trigger] rel(
                edited(s, action, fa, ca)[i],
                edited(t, action, fb, cb)[i],
            ),
{
    let es = edited(s, action, fa, ca);
    let et = edited(t, action, fb, cb);
    match action {
        EditAction::Add => {
            assert forall|i: int| 0 <= i < es.len() implies #[trigger] rel(es[i], et[i]) by {
                if i < s.len() {
                    assert(rel(s[i], t[i]));
                }
            }
        },
        EditAction::Change(k, _) => {
            assert forall|i: int| 0 <= i < es.len() implies #[trigger] rel(es[i], et[i]) by {
                assert(rel(s[i], t[i]));
            }
        },
        EditAction::Remove(k) => {
            assert forall|i: int| 0 <= i < es.len() implies #[trigger] rel(es[i], et[i]) by {
                if i < k {
                    assert(rel(s[i], t[i]));
                } else {
                    assert(rel(s[i + 1], t[i + 1]));
                }
            }
        },
        EditAction::Move(k, d) => {
            let j = shifted(k as int, d);
            assert forall|i: int| 0 <= i < es.len() implies #[trigger] rel(es[i], et[i]) by {
                assert(rel(s[i], t[i]));
                assert(rel(s[j], t[j]));
                assert(rel(s[k as int], t[k as int]));
            }
        },
    }
}

/// The texts of a list of paths.
pub open spec fn paths_view(v: Seq<StrictPath>) -> Seq<Seq<char>> {
    v.map_values(|p: StrictPath| p@)
}

/// Applies `action` to a list of path fields and to their histories, in step.
pub fn edit_path_list(histories: &mut Vec<TextHistory>, values: &mut Vec<StrictPath>, action: EditAction)
    requires
        old(histories)@.len() == old(values)@.len(),
        action_fits(action, old(values)@.len()),
    ensures
        paths_view(final(values)@) == edited_texts(paths_view(old(values)@), action),
        models(final(histories)@) == edited_histories(models(old(histories)@), action),
        final(histories)@.len() == final(values)@.len(),
{
    let ghost h0 = histories@;
    let ghost v0 = values@;
    match action {
        EditAction::Add => {
            histories.push(TextHistory::default());
            values.push(StrictPath::new(String::new()));
            assert(models(histories@) =~= edited_histories(models(h0), action));
            assert(paths_view(values@) =~= edited_texts(paths_view(v0), action));
        },
        EditAction::Change(i, value) => {
            histories[i].push(value.as_str());
            values.set(i, StrictPath::new(value));
            assert(models(histories@) =~= edited_histories(models(h0), action));
            assert(paths_view(values@) =~= edited_texts(paths_view(v0), action));
        },
        EditAction::Remove(i) => {
            histories.remove(i);
            values.remove(i);
            assert(models(histories@) =~= edited_histories(models(h0), action));
            assert(paths_view(values@) =~= edited_texts(paths_view(v0), action));
        },
        EditAction::Move(i, d) => {
            let j = move_to(i, d, values.len());
            swap_adjacent(histories, i, j);
            swap_adjacent(values, i, j);
            assert(models(histories@) =~= edited_histories(models(h0), action));
            assert(paths_view(values@) =~= edited_texts(paths_view(v0), action));
        },
    }
}

/// What the list of roots holds of each root: its store, its path and its Lutris
/// database.
pub open spec fn roots_view(v: Seq<Root>) -> Seq<(Store, Seq<char>, Option<Seq<char>>)> {
    v.map_values(
        |r: Root|
            (
                r.store,
                r.path@,
                match r.lutris_database {
                    Some(p) => Some(p@),
                    None => None,
                },
            ),
    )
}

/// The histories of the roots: of the path and of the Lutris database of each.
pub open spec fn root_models(v: Seq<crate::shortcuts::RootHistory>) -> Seq<(HistoryModel, HistoryModel)> {
    v.map_values(|h: crate::shortcuts::RootHistory| (h.path.model(), h.lutris_database.model()))
}

/// Applies `action` to the roots and their histories, in step. A new root is of the
/// store Other, with no path and no database; a change sets a root's path.
pub fn edit_roots(
    histories: &mut Vec<crate::shortcuts::RootHistory>,
    roots: &mut Vec<Root>,
    action: EditAction,
)
    requires
        old(histories)@.len() == old(roots)@.len(),
        action_fits(action, old(roots)@.len()),
    ensures
        roots_view(final(roots)@) == edited(
            roots_view(old(roots)@),
            action,
            (Store::Other, Seq::<char>::empty(), None),
            |r: (Store, Seq<char>, Option<Seq<char>>)| (r.0, change_text(action), r.2),
        ),
        root_models(final(histories)@) == edited(
            root_models(old(histories)@),
            action,
            (history_start(Seq::empty(), 100), history_start(Seq::empty(), 100)),
            |m: (HistoryModel, HistoryModel)| (history_push(m.0, change_text(action)), m.1),
        ),
        final(histories)@.len() == final(roots)@.len(),
{
    let ghost h0 = histories@;
    let ghost v0 = roots@;
    match action {
        EditAction::Add => {
            histories.push(
                crate::shortcuts::RootHistory {
                    path: TextHistory::default(),
                    lutris_database: TextHistory::default(),
                },
            );
            roots.push(
                Root { store: Store::Other, path: StrictPath::new(String::new()), lutris_database: None },
            );
        },
        EditAction::Change(i, value) => {
            histories[i].path.push(value.as_str());
            roots[i].path.reset(value);
        },
        EditAction::Remove(i) => {
            histories.remove(i);
            roots.remove(i);
        },
        EditAction::Move(i, d) => {
            let j = move_to(i, d, roots.len());
            swap_adjacent(histories, i, j);
            swap_adjacent(roots, i, j);
        },
    }
    assert(root_models(histories@) =~= edited(
        root_models(h0),
        action,
        (history_start(Seq::empty(), 100), history_start(Seq::empty(), 100)),
        |m: (HistoryModel, HistoryModel)| (history_push(m.0, change_text(action)), m.1),
    ));
    assert(roots_view(roots@) =~= edited(
        roots_view(v0),
        action,
        (Store::Other, Seq::<char>::empty(), None),
        |r: (Store, Seq<char>, Option<Seq<char>>)| (r.0, change_text(action), r.2),
    ));
}

/// What the list of custom games holds of each game.
pub open spec fn custom_view(g: CustomGame) -> (
    Seq<char>,
    bool,
    Option<Seq<char>>,
    Seq<Seq<char>>,
    Seq<Seq<char>>,
    Seq<Seq<char>>,
    Seq<Seq<char>>,
) {
    (
        g.name@,
        g.ignore,
        match g.alias {
            Some(a) => Some(a@),
            None => None,
        },
        names_view(g.files@),
        names_view(g.registry@),
        names_view(g.install_dir@),
        names_view(g.wine_prefix@),
    )
}

/// The views of a list of custom games.
pub open spec fn customs_view(v: Seq<CustomGame>) -> Seq<
    (Seq<char>, bool, Option<Seq<char>>, Seq<Seq<char>>, Seq<Seq<char>>, Seq<Seq<char>>, Seq<Seq<char>>),
> {
    v.map_values(|g: CustomGame| custom_view(g))
}

/// A new custom game: no name, selected, no alias, no entries.
pub open spec fn fresh_custom_view() -> (
    Seq<char>,
    bool,
    Option<Seq<char>>,
    Seq<Seq<char>>,
    Seq<Seq<char>>,
    Seq<Seq<char>>,
    Seq<Seq<char>>,
) {
    (Seq::empty(), false, None, Seq::empty(), Seq::empty(), Seq::empty(), Seq::empty())
}

/// What the histories of a custom game hold: its name's, its alias's, and the lengths of
/// its lists of entries.
pub open spec fn custom_history_view(h: crate::shortcuts::CustomGameHistory) -> (HistoryModel, HistoryModel, nat, nat, nat, nat) {
    (h.name.model(), h.alias.model(), h.files@.len(), h.registry@.len(), h.install_dir@.len(), h.wine_prefix@.len())
}

/// Applies `action` to the custom games and their histories, in step. A new game has
/// no name, is selected, and has no alias or entries; a change sets a game's name.
pub fn edit_custom_games(
    histories: &mut Vec<crate::shortcuts::CustomGameHistory>,
    games: &mut Vec<CustomGame>,
    action: EditAction,
)
    requires
        old(histories)@.len() == old(games)@.len(),
        action_fits(action, old(games)@.len()),
    ensures
        customs_view(final(games)@) == edited(
            customs_view(old(games)@),
            action,
            fresh_custom_view(),
            |g: (Seq<char>, bool, Option<Seq<char>>, Seq<Seq<char>>, Seq<Seq<char>>, Seq<Seq<char>>, Seq<Seq<char>>)|
                (change_text(action), g.1, g.2, g.3, g.4, g.5, g.6),
        ),
        final(histories)@.map_values(|h: crate::shortcuts::CustomGameHistory| custom_history_view(h))
            == edited(
            old(histories)@.map_values(|h: crate::shortcuts::CustomGameHistory| custom_history_view(h)),
            action,
            (history_start(Seq::empty(), 100), history_start(Seq::empty(), 100), 0nat, 0nat, 0nat, 0nat),
            |m: (HistoryModel, HistoryModel, nat, nat, nat, nat)|
                (history_push(m.0, change_text(action)), m.1, m.2, m.3, m.4, m.5),
        ),
        final(histories)@.len() == final(games)@.len(),
{
    let ghost h0 = histories@;
    let ghost v0 = games@;
    match action {
        EditAction::Add => {
            histories.push(
                crate::shortcuts::CustomGameHistory {
                    name: TextHistory::default(),
                    alias: TextHistory::default(),
                    files: Vec::new(),
                    registry: Vec::new(),
                    install_dir: Vec::new(),
                    wine_prefix: Vec::new(),
                },
            );
            games.push(
                CustomGame {
                    name: String::new(),
                    ignore: false,
                    alias: None,
                    files: Vec::new(),
                    registry: Vec::new(),
                    install_dir: Vec::new(),
                    wine_prefix: Vec::new(),
                },
            );
            let ghost g = games@.last();
            assert(names_view(g.files@) =~= Seq::<Seq<char>>::empty());
            assert(names_view(g.registry@) =~= Seq::<Seq<char>>::empty());
            assert(names_view(g.install_dir@) =~= Seq::<Seq<char>>::empty());
            assert(names_view(g.wine_prefix@) =~= Seq::<Seq<char>>::empty());
            assert(custom_view(g) == fresh_custom_view());
        },
        EditAction::Change(i, value) => {
            histories[i].name.push(value.as_str());
            games[i].name = value;
        },
        EditAction::Remove(i) => {
            histories.remove(i);
            games.remove(i);
        },
        EditAction::Move(i, d) => {
            let j = move_to(i, d, games.len());
            swap_adjacent(histories, i, j);
            swap_adjacent(games, i, j);
        },
    }
    assert(customs_view(games@) =~= edited(
        customs_view(v0),
        action,
        fresh_custom_view(),
        |g: (Seq<char>, bool, Option<Seq<char>>, Seq<Seq<char>>, Seq<Seq<char>>, Seq<Seq<char>>, Seq<Seq<char>>)|
            (change_text(action), g.1, g.2, g.3, g.4, g.5, g.6),
    ));
    assert(histories@.map_values(|h: crate::shortcuts::CustomGameHistory| custom_history_view(h)) =~= edited(
        h0.map_values(|h: crate::shortcuts::CustomGameHistory| custom_history_view(h)),
        action,
        (history_start(Seq::empty(), 100), history_start(Seq::empty(), 100), 0nat, 0nat, 0nat, 0nat),
        |m: (HistoryModel, HistoryModel, nat, nat, nat, nat)|
            (history_push(m.0, change_text(action)), m.1, m.2, m.3, m.4, m.5),
    ));
}

/// An edit of the configuration from its screens.
#[derive(Debug)]
pub enum ConfigEvent {
    BackupTarget(String),
    RestoreSource(String),
    Root(EditAction),
    RootLutrisDatabase(usize, String),
    SecondaryManifest(EditAction),
    CustomGame(EditAction),
    CustomGameAlias(usize, String),
    CustomGameFile(usize, EditAction),
    CustomGameRegistry(usize, EditAction),
    CustomGameInstallDir(usize, EditAction),
    CustomGameWinePrefix(usize, EditAction),
    CustomGameEnabled { index: usize, enabled: bool },
    BackupFilterIgnoredPath(EditAction),
    BackupFilterIgnoredRegistry(EditAction),
    RcloneExecutable(String),
    RcloneArguments(String),
    CloudRemoteId(String),
    CloudPath(String),
}

/// The histories of the configuration's lists hold one history per field.
pub open spec fn aligned(h: TextHistories, c: Config) -> bool {
    &&& h.roots@.len() == c.roots@.len()
    &&& h.secondary_manifests@.len() == c.secondary_manifests@.len()
    &&& h.custom_games@.len() == c.custom_games@.len()
    &&& forall|i: int|
        0 <= i < h.custom_games@.len() ==> {
            &&& (#[trigger] h.custom_games@[i]).files@.len() == c.custom_games@[i].files@.len()
            &&& h.custom_games@[i].registry@.len() == c.custom_games@[i].registry@.len()
            &&& h.custom_games@[i].install_dir@.len() == c.custom_games@[i].install_dir@.len()
            &&& h.custom_games@[i].wine_prefix@.len() == c.custom_games@[i].wine_prefix@.len()
        }
    &&& h.backup_filter_ignored_paths@.len() == c.ignored_paths@.len()
    &&& h.backup_filter_ignored_registry@.len() == c.ignored_registry@.len()
}

/// Whether an event's indices are in the configuration's lists.
pub open spec fn event_fits(e: ConfigEvent, c: Config) -> bool {
    match e {
        ConfigEvent::Root(a) => action_fits(a, c.roots@.len()),
        ConfigEvent::RootLutrisDatabase(i, _) => i < c.roots@.len(),
        ConfigEvent::SecondaryManifest(a) => action_fits(a, c.secondary_manifests@.len()),
        ConfigEvent::CustomGame(a) => action_fits(a, c.custom_games@.len()),
        ConfigEvent::CustomGameAlias(i, _) => i < c.custom_games@.len(),
        ConfigEvent::CustomGameFile(g, a) => g < c.custom_games@.len() && action_fits(
            a,
            c.custom_games@[g as int].files@.len(),
        ),
        ConfigEvent::CustomGameRegistry(g, a) => g < c.custom_games@.len() && action_fits(
            a,
            c.custom_games@[g as int].registry@.len(),
        ),
        ConfigEvent::CustomGameInstallDir(g, a) => g < c.custom_games@.len() && action_fits(
            a,
            c.custom_games@[g as int].install_dir@.len(),
        ),
        ConfigEvent::CustomGameWinePrefix(g, a) => g < c.custom_games@.len() && action_fits(
            a,
            c.custom_games@[g as int].wine_prefix@.len(),
        ),
        ConfigEvent::CustomGameEnabled { index, .. } => index < c.custom_games@.len(),
        ConfigEvent::BackupFilterIgnoredPath(a) => action_fits(a, c.ignored_paths@.len()),
        ConfigEvent::BackupFilterIgnoredRegistry(a) => action_fits(a, c.ignored_registry@.len()),
        _ => true,
    }
}

/// Applies an edit of a text field: the configuration gets the text and the field's
/// history records it; lists are edited together with their histories. The histories
/// stay in step with the configuration's lists.
pub fn apply_config_event(histories: &mut TextHistories, config: &mut Config, event: ConfigEvent)
    requires
        aligned(*old(histories), *old(config)),
        event_fits(event, *old(config)),
    ensures
        aligned(*final(histories), *final(config)),
        match event {
            ConfigEvent::BackupTarget(t) => {
                &&& final(config).backup_path@ == t@
                &&& *final(config) == (Config { backup_path: final(config).backup_path, ..*old(config) })
                &&& final(histories).backup_target.model() == history_push(old(histories).backup_target.model(), t@)
                &&& *final(histories) == (TextHistories { backup_target: final(histories).backup_target, ..*old(histories) })
            },
            ConfigEvent::RestoreSource(t) => {
                &&& final(config).restore_path@ == t@
                &&& *final(config) == (Config { restore_path: final(config).restore_path, ..*old(config) })
                &&& final(histories).restore_source.model() == history_push(old(histories).restore_source.model(), t@)
                &&& *final(histories) == (TextHistories { restore_source: final(histories).restore_source, ..*old(histories) })
            },
            ConfigEvent::Root(a) => {
                &&& roots_view(final(config).roots@) == edited(
                    roots_view(old(config).roots@),
                    a,
                    (Store::Other, Seq::<char>::empty(), None),
                    |r: (Store, Seq<char>, Option<Seq<char>>)| (r.0, change_text(a), r.2),
                )
                &&& root_models(final(histories).roots@) == edited(
                    root_models(old(histories).roots@),
                    a,
                    (history_start(Seq::empty(), 100), history_start(Seq::empty(), 100)),
                    |m: (HistoryModel, HistoryModel)| (history_push(m.0, change_text(a)), m.1),
                )
                &&& *final(config) == (Config { roots: final(config).roots, ..*old(config) })
                &&& *final(histories) == (TextHistories { roots: final(histories).roots, ..*old(histories) })
            },
            ConfigEvent::RootLutrisDatabase(i, t) => {
                &&& final(histories).roots@[i as int].lutris_database.model() == history_push(
                    old(histories).roots@[i as int].lutris_database.model(),
                    t@,
                )
                &&& final(histories).roots@[i as int].path == old(histories).roots@[i as int].path
                &&& final(histories).roots@.len() == old(histories).roots@.len()
                &&& forall|j: int| 0 <= j < final(histories).roots@.len() && j != i ==> final(histories).roots@[j] == old(histories).roots@[j]
                &&& *final(histories) == (TextHistories { roots: final(histories).roots, ..*old(histories) })
                &&& if old(config).roots@[i as int].store == Store::Lutris {
                    &&& final(config).roots@.len() == old(config).roots@.len()
                    &&& forall|j: int| 0 <= j < final(config).roots@.len() && j != i ==> final(config).roots@[j] == old(config).roots@[j]
                    &&& final(config).roots@[i as int].store == old(config).roots@[i as int].store
                    &&& final(config).roots@[i as int].path == old(config).roots@[i as int].path
                    &&& if t@.len() == 0 {
                        final(config).roots@[i as int].lutris_database is None
                    } else {
                        final(config).roots@[i as int].lutris_database matches Some(p) && p@ == t@
                    }
                    &&& *final(config) == (Config { roots: final(config).roots, ..*old(config) })
                } else {
                    *final(config) == *old(config)
                }
            },
            ConfigEvent::SecondaryManifest(a) => {
                &&& names_view(final(config).secondary_manifests@) == edited_texts(names_view(old(config).secondary_manifests@), a)
                &&& models(final(histories).secondary_manifests@) == edited_histories(models(old(histories).secondary_manifests@), a)
                &&& *final(config) == (Config { secondary_manifests: final(config).secondary_manifests, ..*old(config) })
                &&& *final(histories) == (TextHistories { secondary_manifests: final(histories).secondary_manifests, ..*old(histories) })
            },
            ConfigEvent::CustomGame(a) => {
                &&& customs_view(final(config).custom_games@) == edited(
                    customs_view(old(config).custom_games@),
                    a,
                    fresh_custom_view(),
                    |g: (Seq<char>, bool, Option<Seq<char>>, Seq<Seq<char>>, Seq<Seq<char>>, Seq<Seq<char>>, Seq<Seq<char>>)|
                        (change_text(a), g.1, g.2, g.3, g.4, g.5, g.6),
                )
                &&& *final(config) == (Config { custom_games: final(config).custom_games, ..*old(config) })
                &&& *final(histories) == (TextHistories { custom_games: final(histories).custom_games, ..*old(histories) })
            },
            ConfigEvent::CustomGameAlias(i, t) => {
                &&& final(config).custom_games@[i as int].alias matches Some(x) && x@ == t@
                &&& final(histories).custom_games@[i as int].alias.model() == history_push(
                    old(histories).custom_games@[i as int].alias.model(),
                    t@,
                )
                &&& *final(config) == (Config { custom_games: final(config).custom_games, ..*old(config) })
                &&& *final(histories) == (TextHistories { custom_games: final(histories).custom_games, ..*old(histories) })
            },
            ConfigEvent::CustomGameFile(g, a) => {
                &&& names_view(final(config).custom_games@[g as int].files@) == edited_texts(
                    names_view(old(config).custom_games@[g as int].files@),
                    a,
                )
                &&& models(final(histories).custom_games@[g as int].files@) == edited_histories(
                    models(old(histories).custom_games@[g as int].files@),
                    a,
                )
                &&& *final(config) == (Config { custom_games: final(config).custom_games, ..*old(config) })
                &&& *final(histories) == (TextHistories { custom_games: final(histories).custom_games, ..*old(histories) })
            },
            ConfigEvent::CustomGameRegistry(g, a) => {
                &&& names_view(final(config).custom_games@[g as int].registry@) == edited_texts(
                    names_view(old(config).custom_games@[g as int].registry@),
                    a,
                )
                &&& models(final(histories).custom_games@[g as int].registry@) == edited_histories(
                    models(old(histories).custom_games@[g as int].registry@),
                    a,
                )
                &&& *final(config) == (Config { custom_games: final(config).custom_games, ..*old(config) })
                &&& *final(histories) == (TextHistories { custom_games: final(histories).custom_games, ..*old(histories) })
            },
            ConfigEvent::CustomGameInstallDir(g, a) => {
                &&& names_view(final(config).custom_games@[g as int].install_dir@) == edited_texts(
                    names_view(old(config).custom_games@[g as int].install_dir@),
                    a,
                )
                &&& models(final(histories).custom_games@[g as int].install_dir@) == edited_histories(
                    models(old(histories).custom_games@[g as int].install_dir@),
                    a,
                )
                &&& *final(config) == (Config { custom_games: final(config).custom_games, ..*old(config) })
                &&& *final(histories) == (TextHistories { custom_games: final(histories).custom_games, ..*old(histories) })
            },
            ConfigEvent::CustomGameWinePrefix(g, a) => {
                &&& names_view(final(config).custom_games@[g as int].wine_prefix@) == edited_texts(
                    names_view(old(config).custom_games@[g as int].wine_prefix@),
                    a,
                )
                &&& models(final(histories).custom_games@[g as int].wine_prefix@) == edited_histories(
                    models(old(histories).custom_games@[g as int].wine_prefix@),
                    a,
                )
                &&& *final(config) == (Config { custom_games: final(config).custom_games, ..*old(config) })
                &&& *final(histories) == (TextHistories { custom_games: final(histories).custom_games, ..*old(histories) })
            },
            ConfigEvent::CustomGameEnabled { index, enabled } => {
                &&& final(config).custom_games@.len() == old(config).custom_games@.len()
                &&& final(config).custom_games@[index as int].ignore == !enabled
                &&& final(config).custom_games@[index as int].name == old(config).custom_games@[index as int].name
                &&& forall|j: int| 0 <= j < final(config).custom_games@.len() && j != index ==> final(config).custom_games@[j] == old(config).custom_games@[j]
                &&& *final(config) == (Config { custom_games: final(config).custom_games, ..*old(config) })
                &&& *final(histories) == *old(histories)
            },
            ConfigEvent::BackupFilterIgnoredPath(a) => {
                &&& paths_view(final(config).ignored_paths@) == edited_texts(paths_view(old(config).ignored_paths@), a)
                &&& models(final(histories).backup_filter_ignored_paths@) == edited_histories(models(old(histories).backup_filter_ignored_paths@), a)
                &&& *final(config) == (Config { ignored_paths: final(config).ignored_paths, ..*old(config) })
                &&& *final(histories) == (TextHistories { backup_filter_ignored_paths: final(histories).backup_filter_ignored_paths, ..*old(histories) })
            },
            ConfigEvent::BackupFilterIgnoredRegistry(a) => {
                &&& names_view(final(config).ignored_registry@) == edited_texts(names_view(old(config).ignored_registry@), a)
                &&& models(final(histories).backup_filter_ignored_registry@) == edited_histories(models(old(histories).backup_filter_ignored_registry@), a)
                &&& *final(config) == (Config { ignored_registry: final(config).ignored_registry, ..*old(config) })
                &&& *final(histories) == (TextHistories { backup_filter_ignored_registry: final(histories).backup_filter_ignored_registry, ..*old(histories) })
            },
            ConfigEvent::RcloneExecutable(t) => {
                &&& final(config).rclone.path@ == t@
                &&& final(config).rclone.arguments == old(config).rclone.arguments
                &&& *final(config) == (Config { rclone: final(config).rclone, ..*old(config) })
                &&& final(histories).rclone_executable.model() == history_push(old(histories).rclone_executable.model(), t@)
                &&& *final(histories) == (TextHistories { rclone_executable: final(histories).rclone_executable, ..*old(histories) })
            },
            ConfigEvent::RcloneArguments(t) => {
                &&& final(config).rclone.arguments@ == t@
                &&& final(config).rclone.path == old(config).rclone.path
                &&& *final(config) == (Config { rclone: final(config).rclone, ..*old(config) })
                &&& final(histories).rclone_arguments.model() == history_push(old(histories).rclone_arguments.model(), t@)
                &&& *final(histories) == (TextHistories { rclone_arguments: final(histories).rclone_arguments, ..*old(histories) })
            },
            ConfigEvent::CloudRemoteId(t) => {
                &&& final(histories).cloud_remote_id.model() == history_push(old(histories).cloud_remote_id.model(), t@)
                &&& *final(histories) == (TextHistories { cloud_remote_id: final(histories).cloud_remote_id, ..*old(histories) })
                &&& if old(config).cloud_remote matches Some(crate::cloud::Remote::Custom { .. }) {
                    &&& final(config).cloud_remote matches Some(crate::cloud::Remote::Custom { id }) && id@ == t@
                    &&& *final(config) == (Config { cloud_remote: final(config).cloud_remote, ..*old(config) })
                } else {
                    *final(config) == *old(config)
                }
            },
            ConfigEvent::CloudPath(t) => {
                &&& final(config).cloud_path@ == t@
                &&& *final(config) == (Config { cloud_path: final(config).cloud_path, ..*old(config) })
                &&& final(histories).cloud_path.model() == history_push(old(histories).cloud_path.model(), t@)
                &&& *final(histories) == (TextHistories { cloud_path: final(histories).cloud_path, ..*old(histories) })
            },
        },
{
    match event {
        ConfigEvent::BackupTarget(t) => {
            histories.backup_target.push(t.as_str());
            config.backup_path.reset(t);
        },
        ConfigEvent::RestoreSource(t) => {
            histories.restore_source.push(t.as_str());
            config.restore_path.reset(t);
        },
        ConfigEvent::Root(a) => edit_roots(&mut histories.roots, &mut config.roots, a),
        ConfigEvent::RootLutrisDatabase(i, t) => {
            histories.roots[i].lutris_database.push(t.as_str());
            if config.roots[i].store == Store::Lutris {
                config.roots[i].lutris_database = if t.as_str().is_empty() {
                    None
                } else {
                    Some(StrictPath::new(t))
                };
            }
        },
        ConfigEvent::SecondaryManifest(a) => edit_text_list(
            &mut histories.secondary_manifests,
            &mut config.secondary_manifests,
            a,
        ),
        ConfigEvent::CustomGame(a) => {
            let ghost hs = histories.custom_games@;
            let ghost cs = config.custom_games@;
            edit_custom_games(&mut histories.custom_games, &mut config.custom_games, a);
            proof {
                let fc = |g: CustomGame| custom_view(g);
                let fh = |h: crate::shortcuts::CustomGameHistory| custom_history_view(h);
                let rel = |g: (Seq<char>, bool, Option<Seq<char>>, Seq<Seq<char>>, Seq<Seq<char>>, Seq<Seq<char>>, Seq<Seq<char>>), h: (HistoryModel, HistoryModel, nat, nat, nat, nat)|
                    g.3.len() == h.2 && g.4.len() == h.3 && g.5.len() == h.4 && g.6.len() == h.5;
                assert forall|i: int| 0 <= i < cs.len() implies #[trigger] rel(customs_view(cs)[i], hs.map_values(fh)[i]) by {
                    assert(hs[i].files@.len() == cs[i].files@.len());
                }
                lemma_edited_pairwise(
                    customs_view(cs),
                    hs.map_values(fh),
                    a,
                    fresh_custom_view(),
                    (history_start(Seq::empty(), 100), history_start(Seq::empty(), 100), 0nat, 0nat, 0nat, 0nat),
                    |g: (Seq<char>, bool, Option<Seq<char>>, Seq<Seq<char>>, Seq<Seq<char>>, Seq<Seq<char>>, Seq<Seq<char>>)|
                        (change_text(a), g.1, g.2, g.3, g.4, g.5, g.6),
                    |m: (HistoryModel, HistoryModel, nat, nat, nat, nat)|
                        (history_push(m.0, change_text(a)), m.1, m.2, m.3, m.4, m.5),
                    rel,
                );
                assert forall|i: int| 0 <= i < histories.custom_games@.len() implies {
                    &&& (#[trigger] histories.custom_games@[i]).files@.len() == config.custom_games@[i].files@.len()
                    &&& histories.custom_games@[i].registry@.len() == config.custom_games@[i].registry@.len()
                    &&& histories.custom_games@[i].install_dir@.len() == config.custom_games@[i].install_dir@.len()
                    &&& histories.custom_games@[i].wine_prefix@.len() == config.custom_games@[i].wine_prefix@.len()
                } by {
                    assert(rel(customs_view(config.custom_games@)[i], histories.custom_games@.map_values(fh)[i]));
                }
            }
        },
        ConfigEvent::CustomGameAlias(i, t) => {
            histories.custom_games[i].alias.push(t.as_str());
            config.custom_games[i].alias = Some(t);
        },
        ConfigEvent::CustomGameFile(g, a) => edit_text_list(
            &mut histories.custom_games[g].files,
            &mut config.custom_games[g].files,
            a,
        ),
        ConfigEvent::CustomGameRegistry(g, a) => edit_text_list(
            &mut histories.custom_games[g].registry,
            &mut config.custom_games[g].registry,
            a,
        ),
        ConfigEvent::CustomGameInstallDir(g, a) => edit_text_list(
            &mut histories.custom_games[g].install_dir,
            &mut config.custom_games[g].install_dir,
            a,
        ),
        ConfigEvent::CustomGameWinePrefix(g, a) => edit_text_list(
            &mut histories.custom_games[g].wine_prefix,
            &mut config.custom_games[g].wine_prefix,
            a,
        ),
        ConfigEvent::CustomGameEnabled { index, enabled } => {
            config.custom_games[index].ignore = !enabled;
        },
        ConfigEvent::BackupFilterIgnoredPath(a) => edit_path_list(
            &mut histories.backup_filter_ignored_paths,
            &mut config.ignored_paths,
            a,
        ),
        ConfigEvent::BackupFilterIgnoredRegistry(a) => edit_text_list(
            &mut histories.backup_filter_ignored_registry,
            &mut config.ignored_registry,
            a,
        ),
        ConfigEvent::RcloneExecutable(t) => {
            histories.rclone_executable.push(t.as_str());
            config.rclone.path.reset(t);
        },
        ConfigEvent::RcloneArguments(t) => {
            histories.rclone_arguments.push(t.as_str());
            config.rclone.arguments = t;
        },
        ConfigEvent::CloudRemoteId(t) => {
            histories.cloud_remote_id.push(t.as_str());
            match &mut config.cloud_remote {
                Some(crate::cloud::Remote::Custom { id }) => {
                    *id = t;
                },
                _ => {},
            }
        },
        ConfigEvent::CloudPath(t) => {
            histories.cloud_path.push(t.as_str());
            config.cloud_path = t;
        },
    }
}

/// A history after the shortcut.
pub open spec fn after_shortcut(m: HistoryModel, shortcut: Shortcut) -> HistoryModel {
    match shortcut {
        Shortcut::Undo => history_undo(m),
        Shortcut::Redo => history_redo(m),
    }
}

/// Whether the subject of an undo names fields that exist.
pub open spec fn subject_fits(subject: UndoSubject, h: TextHistories, c: Config) -> bool {
    match subject {
        UndoSubject::RootPath(i) => i < c.roots@.len() && i < h.roots@.len(),
        UndoSubject::RootLutrisDatabase(i) => i < c.roots@.len() && i < h.roots@.len(),
        UndoSubject::SecondaryManifest(i) => i < c.secondary_manifests@.len() && i
            < h.secondary_manifests@.len(),
        _ => true,
    }
}

/// Undoes or redoes in the history of a field, and puts the history's current text back
/// into the configuration. The Lutris database only changes for a Lutris root, and the
/// remote id only for a custom remote (their histories stay as they are otherwise).
pub fn apply_undo_redo(
    histories: &mut TextHistories,
    config: &mut Config,
    shortcut: Shortcut,
    subject: UndoSubject,
)
    requires
        subject_fits(subject, *old(histories), *old(config)),
    ensures
        match subject {
            UndoSubject::BackupTarget => {
                &&& final(histories).backup_target.model() == after_shortcut(old(histories).backup_target.model(), shortcut)
                &&& final(config).backup_path@ == history_current(final(histories).backup_target.model())
                &&& *final(config) == (Config { backup_path: final(config).backup_path, ..*old(config) })
                &&& *final(histories) == (TextHistories { backup_target: final(histories).backup_target, ..*old(histories) })
            },
            UndoSubject::RootPath(i) => {
                &&& final(histories).roots@[i as int].path.model() == after_shortcut(
                    old(histories).roots@[i as int].path.model(),
                    shortcut,
                )
                &&& final(config).roots@[i as int].path@ == history_current(final(histories).roots@[i as int].path.model())
                &&& final(config).roots@.len() == old(config).roots@.len()
                &&& final(config).roots@[i as int].store == old(config).roots@[i as int].store
                &&& final(config).roots@[i as int].lutris_database == old(config).roots@[i as int].lutris_database
                &&& forall|j: int| 0 <= j < final(config).roots@.len() && j != i ==> final(config).roots@[j] == old(config).roots@[j]
                &&& *final(config) == (Config { roots: final(config).roots, ..*old(config) })
                &&& *final(histories) == (TextHistories { roots: final(histories).roots, ..*old(histories) })
            },
            UndoSubject::RootLutrisDatabase(i) => if old(config).roots@[i as int].store == Store::Lutris {
                &&& final(histories).roots@[i as int].lutris_database.model() == after_shortcut(
                    old(histories).roots@[i as int].lutris_database.model(),
                    shortcut,
                )
                &&& (history_current(final(histories).roots@[i as int].lutris_database.model()).len() == 0
                    ==> final(config).roots@[i as int].lutris_database is None)
                &&& (history_current(final(histories).roots@[i as int].lutris_database.model()).len() != 0
                    ==> (final(config).roots@[i as int].lutris_database matches Some(p) && p@ == history_current(
                    final(histories).roots@[i as int].lutris_database.model(),
                )))
                &&& final(config).roots@.len() == old(config).roots@.len()
                &&& final(config).roots@[i as int].path == old(config).roots@[i as int].path
                &&& forall|j: int| 0 <= j < final(config).roots@.len() && j != i ==> final(config).roots@[j] == old(config).roots@[j]
                &&& *final(config) == (Config { roots: final(config).roots, ..*old(config) })
                &&& *final(histories) == (TextHistories { roots: final(histories).roots, ..*old(histories) })
            } else {
                *final(config) == *old(config) && *final(histories) == *old(histories)
            },
            UndoSubject::SecondaryManifest(i) => {
                &&& final(histories).secondary_manifests@[i as int].model() == after_shortcut(
                    old(histories).secondary_manifests@[i as int].model(),
                    shortcut,
                )
                &&& final(config).secondary_manifests@ == old(config).secondary_manifests@.update(
                    i as int,
                    final(config).secondary_manifests@[i as int],
                )
                &&& final(config).secondary_manifests@[i as int]@ == history_current(
                    final(histories).secondary_manifests@[i as int].model(),
                )
                &&& *final(config) == (Config { secondary_manifests: final(config).secondary_manifests, ..*old(config) })
                &&& *final(histories) == (TextHistories { secondary_manifests: final(histories).secondary_manifests, ..*old(histories) })
            },
            UndoSubject::RcloneExecutable => {
                &&& final(histories).rclone_executable.model() == after_shortcut(old(histories).rclone_executable.model(), shortcut)
                &&& final(config).rclone.path@ == history_current(final(histories).rclone_executable.model())
                &&& final(config).rclone.arguments == old(config).rclone.arguments
                &&& *final(config) == (Config { rclone: final(config).rclone, ..*old(config) })
                &&& *final(histories) == (TextHistories { rclone_executable: final(histories).rclone_executable, ..*old(histories) })
            },
            UndoSubject::RcloneArguments => {
                &&& final(histories).rclone_arguments.model() == after_shortcut(old(histories).rclone_arguments.model(), shortcut)
                &&& final(config).rclone.arguments@ == history_current(final(histories).rclone_arguments.model())
                &&& final(config).rclone.path == old(config).rclone.path
                &&& *final(config) == (Config { rclone: final(config).rclone, ..*old(config) })
                &&& *final(histories) == (TextHistories { rclone_arguments: final(histories).rclone_arguments, ..*old(histories) })
            },
            UndoSubject::CloudRemoteId => if old(config).cloud_remote matches Some(crate::cloud::Remote::Custom { .. }) {
                &&& final(histories).cloud_remote_id.model() == after_shortcut(old(histories).cloud_remote_id.model(), shortcut)
                &&& final(config).cloud_remote matches Some(crate::cloud::Remote::Custom { id }) && id@
                    == history_current(final(histories).cloud_remote_id.model())
                &&& *final(config) == (Config { cloud_remote: final(config).cloud_remote, ..*old(config) })
                &&& *final(histories) == (TextHistories { cloud_remote_id: final(histories).cloud_remote_id, ..*old(histories) })
            } else {
                *final(config) == *old(config) && *final(histories) == *old(histories)
            },
            UndoSubject::CloudPath => {
                &&& final(histories).cloud_path.model() == after_shortcut(old(histories).cloud_path.model(), shortcut)
                &&& final(config).cloud_path@ == history_current(final(histories).cloud_path.model())
                &&& *final(config) == (Config { cloud_path: final(config).cloud_path, ..*old(config) })
                &&& *final(histories) == (TextHistories { cloud_path: final(histories).cloud_path, ..*old(histories) })
            },
            UndoSubject::ModalField(kind) => {
                &&& *final(config) == *old(config)
                &&& final(histories).modal.url.model() == if kind == ModalInputKind::Url {
                    after_shortcut(old(histories).modal.url.model(), shortcut)
                } else {
                    old(histories).modal.url.model()
                }
                &&& final(histories).modal.host.model() == if kind == ModalInputKind::Host {
                    after_shortcut(old(histories).modal.host.model(), shortcut)
                } else {
                    old(histories).modal.host.model()
                }
                &&& final(histories).modal.port.model() == if kind == ModalInputKind::Port {
                    after_shortcut(old(histories).modal.port.model(), shortcut)
                } else {
                    old(histories).modal.port.model()
                }
                &&& final(histories).modal.username.model() == if kind == ModalInputKind::Username {
                    after_shortcut(old(histories).modal.username.model(), shortcut)
                } else {
                    old(histories).modal.username.model()
                }
                &&& final(histories).modal.password.model() == if kind == ModalInputKind::Password {
                    after_shortcut(old(histories).modal.password.model(), shortcut)
                } else {
                    old(histories).modal.password.model()
                }
                &&& *final(histories) == (TextHistories { modal: final(histories).modal, ..*old(histories) })
            },
        },
{
    match subject {
        UndoSubject::BackupTarget => shortcut.apply_to_strict_path_field(
            &mut config.backup_path,
            &mut histories.backup_target,
        ),
        UndoSubject::RootPath(i) => shortcut.apply_to_strict_path_field(
            &mut config.roots[i].path,
            &mut histories.roots[i].path,
        ),
        UndoSubject::RootLutrisDatabase(i) => {
            if config.roots[i].store == Store::Lutris {
                shortcut.apply_to_option_strict_path_field(
                    &mut config.roots[i].lutris_database,
                    &mut histories.roots[i].lutris_database,
                );
            }
        },
        UndoSubject::SecondaryManifest(i) => {
            let value = match shortcut {
                Shortcut::Undo => histories.secondary_manifests[i].undo(),
                Shortcut::Redo => histories.secondary_manifests[i].redo(),
            };
            config.secondary_manifests.set(i, value);
        },
        UndoSubject::RcloneExecutable => shortcut.apply_to_strict_path_field(
            &mut config.rclone.path,
            &mut histories.rclone_executable,
        ),
        UndoSubject::RcloneArguments => shortcut.apply_to_string_field(
            &mut config.rclone.arguments,
            &mut histories.rclone_arguments,
        ),
        UndoSubject::CloudRemoteId => {
            match &mut config.cloud_remote {
                Some(crate::cloud::Remote::Custom { id }) => {
                    shortcut.apply_to_string_field(id, &mut histories.cloud_remote_id);
                },
                _ => {},
            }
        },
        UndoSubject::CloudPath => shortcut.apply_to_string_field(
            &mut config.cloud_path,
            &mut histories.cloud_path,
        ),
        UndoSubject::ModalField(kind) => match kind {
            ModalInputKind::Url => histories.modal.url.apply(shortcut),
            ModalInputKind::Host => histories.modal.host.apply(shortcut),
            ModalInputKind::Port => histories.modal.port.apply(shortcut),
            ModalInputKind::Username => histories.modal.username.apply(shortcut),
            ModalInputKind::Password => histories.modal.password.apply(shortcut),
        },
    }
}

/// Whether the index `j` is among `indices`.
pub open spec fn listed_index(indices: Seq<usize>, j: int) -> bool {
    exists|m: int| 0 <= m < indices.len() && #[trigger] indices[m] as int == j
}

/// Selects (or deselects) the custom games at `indices`: a selected game is not
/// ignored. The other games, and everything else, stay as they are.
pub fn set_custom_games_enabled(config: &mut Config, indices: &Vec<usize>, enabled: bool)
    requires
        forall|k: int| 0 <= k < indices@.len() ==> #[trigger] indices@[k] < old(config).custom_games@.len(),
    ensures
        final(config).custom_games@.len() == old(config).custom_games@.len(),
        forall|j: int|
            0 <= j < final(config).custom_games@.len() ==> {
                &&& (#[trigger] final(config).custom_games@[j]).ignore == if listed_index(indices@, j) {
                    !enabled
                } else {
                    old(config).custom_games@[j].ignore
                }
                &&& final(config).custom_games@[j].name == old(config).custom_games@[j].name
                &&& final(config).custom_games@[j].alias == old(config).custom_games@[j].alias
                &&& final(config).custom_games@[j].files == old(config).custom_games@[j].files
                &&& final(config).custom_games@[j].registry == old(config).custom_games@[j].registry
                &&& final(config).custom_games@[j].install_dir == old(config).custom_games@[j].install_dir
                &&& final(config).custom_games@[j].wine_prefix == old(config).custom_games@[j].wine_prefix
            },
        *final(config) == (Config { custom_games: final(config).custom_games, ..*old(config) }),
{
    let ghost orig = config.custom_games@;
    let mut k: usize = 0;
    while k < indices.len()
        invariant
            k <= indices@.len(),
            forall|m: int| 0 <= m < indices@.len() ==> #[trigger] indices@[m] < orig.len(),
            config.custom_games@.len() == orig.len(),
            forall|j: int|
                0 <= j < orig.len() ==> {
                    &&& (#[trigger] config.custom_games@[j]).ignore == if listed_index(indices@.take(k as int), j) {
                        !enabled
                    } else {
                        orig[j].ignore
                    }
                    &&& config.custom_games@[j].name == orig[j].name
                    &&& config.custom_games@[j].alias == orig[j].alias
                    &&& config.custom_games@[j].files == orig[j].files
                    &&& config.custom_games@[j].registry == orig[j].registry
                    &&& config.custom_games@[j].install_dir == orig[j].install_dir
                    &&& config.custom_games@[j].wine_prefix == orig[j].wine_prefix
                },
            *config == (Config { custom_games: config.custom_games, ..*old(config) }),
        decreases indices.len() - k,
    {
        let i = indices[k];
        let ghost before = config.custom_games@;
        config.custom_games[i].ignore = !enabled;
        assert(indices@.take(k + 1) =~= indices@.take(k as int).push(i));
        assert forall|j: int| 0 <= j < orig.len() implies {
            &&& (#[trigger] config.custom_games@[j]).ignore == if listed_index(indices@.take(k + 1), j) {
                !enabled
            } else {
                orig[j].ignore
            }
            &&& config.custom_games@[j].name == orig[j].name
            &&& config.custom_games@[j].alias == orig[j].alias
            &&& config.custom_games@[j].files == orig[j].files
            &&& config.custom_games@[j].registry == orig[j].registry
            &&& config.custom_games@[j].install_dir == orig[j].install_dir
            &&& config.custom_games@[j].wine_prefix == orig[j].wine_prefix
        } by {
            assert(before[j] == if j == i as int { before[j] } else { config.custom_games@[j] });
            let t = indices@.take(k as int);
            assert(indices@.take(k + 1)[k as int] == i);
            if j == i as int {
                assert(listed_index(indices@.take(k + 1), j));
            } else {
                if listed_index(indices@.take(k + 1), j) {
                    let t1 = indices@.take(k + 1);
                    let m = choose|m: int| 0 <= m < t1.len() && #[trigger] t1[m] as int == j;
                    assert(m < k);
                    assert(t[m] == indices@.take(k + 1)[m]);
                }
                if listed_index(t, j) {
                    let m = choose|m: int| 0 <= m < t.len() && #[trigger] t[m] as int == j;
                    assert(indices@.take(k + 1)[m] == t[m]);
                }
            }
        }
        k = k + 1;
    }
    assert(indices@.take(indices@.len() as int) =~= indices@);
}

} // verus!
