//! Undo and redo for the editable text fields: each field keeps a bounded history of
//! the values it has held and a position in it.
use crate::cloud::Remote;
use crate::prelude::StrictPath;
use crate::resource::{Config, CustomGame};
use std::collections::VecDeque;
use vstd::std_specs::vecdeque::VecDequeAdditionalSpecFns;
use vstd::prelude::*;

verus! {

broadcast use vstd::std_specs::vecdeque::group_vec_dequeue_axioms;

/// The two keyboard shortcuts of a text field.
#[derive(Clone, Copy, Debug, PartialEq, Eq, Structural)]
pub enum Shortcut {
    Undo,
    Redo,
}

/// What a text history holds: its entries, oldest first, the position of the current
/// one, and the greatest number of entries it keeps.
pub struct HistoryModel {
    pub entries: Seq<Seq<char>>,
    pub position: nat,
    pub limit: nat,
}

/// A history is well formed when it holds at least one entry, points at one of them,
/// and holds no more than its limit (or one entry, when the limit is below one).
pub open spec fn history_wf(m: HistoryModel) -> bool {
    &&& 1 <= m.entries.len()
    &&& m.position < m.entries.len()
    &&& m.entries.len() <= if m.limit < 1 { 1 } else { m.limit }
}

/// A history holding only `initial`.
pub open spec fn history_start(initial: Seq<char>, limit: nat) -> HistoryModel {
    HistoryModel { entries: seq![initial], position: 0, limit }
}

/// The entry at the current position.
pub open spec fn history_current(m: HistoryModel) -> Seq<char> {
    m.entries[m.position as int]
}

/// Recording `text`: nothing changes when it is already the current entry. Otherwise the
/// entries after the current one are dropped, the oldest entry is dropped when the
/// limit would be passed, and `text` becomes the newest and current entry.
pub open spec fn history_push(m: HistoryModel, text: Seq<char>) -> HistoryModel {
    if text == history_current(m) {
        m
    } else {
        let kept = m.entries.take(m.position + 1int);
        let kept = if m.position + 1 >= m.limit {
            kept.drop_first()
        } else {
            kept
        };
        let entries = kept.push(text);
        HistoryModel { entries, position: (entries.len() - 1) as nat, limit: m.limit }
    }
}

/// Stepping back one entry, staying at the oldest.
pub open spec fn history_undo(m: HistoryModel) -> HistoryModel {
    HistoryModel {
        position: if m.position == 0 {
            0
        } else {
            (m.position - 1) as nat
        },
        ..m
    }
}

/// Stepping forward one entry, staying at the newest.
pub open spec fn history_redo(m: HistoryModel) -> HistoryModel {
    HistoryModel {
        position: if m.position + 1 < m.entries.len() {
            m.position + 1
        } else {
            (m.entries.len() - 1) as nat
        },
        ..m
    }
}

/// The bounded history of the values of one text field.
pub struct TextHistory {
    history: VecDeque<String>,
    limit: usize,
    position: usize,
}

impl TextHistory {
    /// What the history holds.
    pub closed spec fn model(&self) -> HistoryModel {
        HistoryModel {
            entries: self.history@.map_values(|s: String| s@),
            position: self.position as nat,
            limit: self.limit as nat,
        }
    }

    #[verifier::type_invariant]
    closed spec fn well_formed(&self) -> bool {
        history_wf(self.model())
    }

    /// A history holding only `initial`, keeping at most `limit` entries.
    pub fn new(initial: &str, limit: usize) -> (r: Self)
        ensures
            r.model() == history_start(initial@, limit as nat),
            history_wf(r.model()),
    {
        let mut history = VecDeque::<String>::new();
        history.push_back(String::from_str(initial));
        let r = Self { history, limit, position: 0 };
        assert(r.model().entries =~= seq![initial@]);
        r
    }

    /// A history holding only `initial`, keeping at most 100 entries.
    pub fn raw(initial: &str) -> (r: Self)
        ensures
            r.model() == history_start(initial@, 100),
    {
        Self::new(initial, 100)
    }

    /// A history holding only the text of the path `initial`, keeping at most 100 entries.
    pub fn path(initial: &StrictPath) -> (r: Self)
        ensures
            r.model() == history_start(initial@, 100),
    {
        let text = initial.raw();
        Self::new(text.as_str(), 100)
    }

    /// Records `text` as the newest value, unless it is the current one.
    pub fn push(&mut self, text: &str)
        ensures
            final(self).model() == history_push(old(self).model(), text@),
            history_wf(final(self).model()),
    {
        proof {
            use_type_invariant(&*self);
        }
        let current = self.current();
        if crate::text::str_eq(current.as_str(), text) {
            return;
        }
        let ghost m = self.model();
        let mut history = self.history.clone();
        assert forall|i: int| 0 <= i < history@.len() implies history@[i] == self.history@[i] by {
            assert(cloned::<String>(self.history[i], history[i]));
        }
        assert(history@ =~= self.history@);
        if self.position + 1 < history.len() {
            history.truncate(self.position + 1);
        }
        assert(history@.map_values(|s: String| s@) =~= m.entries.take(m.position + 1int));
        if self.position + 1 >= self.limit {
            history.pop_front();
            assert(history@.map_values(|s: String| s@) =~= m.entries.take(m.position
                + 1int).drop_first());
        }
        let ghost kept = history@.map_values(|s: String| s@);
        history.push_back(String::from_str(text));
        assert(history@.map_values(|s: String| s@) =~= kept.push(text@));
        let position = history.len() - 1;
        *self = TextHistory { history, limit: self.limit, position };
    }

    /// The current value.
    pub fn current(&self) -> (r: String)
        ensures
            r@ == history_current(self.model()),
            history_wf(self.model()),
    {
        proof {
            use_type_invariant(self);
        }
        if self.position < self.history.len() {
            self.history[self.position].clone()
        } else {
            String::new()
        }
    }

    /// Forgets everything, holding only the empty text.
    pub fn clear(&mut self)
        ensures
            final(self).model() == history_start(Seq::<char>::empty(), old(self).model().limit),
    {
        self.initialize(String::new());
    }

    /// Forgets everything, holding only `value`.
    pub fn initialize(&mut self, value: String)
        ensures
            final(self).model() == history_start(value@, old(self).model().limit),
    {
        let mut history = VecDeque::<String>::new();
        history.push_back(value);
        *self = TextHistory { history, limit: self.limit, position: 0 };
        assert(self.model().entries =~= seq![value@]);
    }

    /// Steps back one value (staying at the oldest) and returns the new current value.
    pub fn undo(&mut self) -> (r: String)
        ensures
            final(self).model() == history_undo(old(self).model()),
            history_wf(final(self).model()),
            r@ == history_current(final(self).model()),
    {
        proof {
            use_type_invariant(&*self);
        }
        self.position = if self.position == 0 {
            0
        } else {
            self.position - 1
        };
        self.current()
    }

    /// Steps forward one value (staying at the newest) and returns the new current value.
    pub fn redo(&mut self) -> (r: String)
        ensures
            final(self).model() == history_redo(old(self).model()),
            history_wf(final(self).model()),
            r@ == history_current(final(self).model()),
    {
        proof {
            use_type_invariant(&*self);
        }
        self.position = if self.position + 1 < self.history.len() {
            self.position + 1
        } else {
            self.history.len() - 1
        };
        self.current()
    }

    /// Undoes or redoes, as the shortcut says.
    pub fn apply(&mut self, shortcut: Shortcut)
        ensures
            final(self).model() == match shortcut {
                Shortcut::Undo => history_undo(old(self).model()),
                Shortcut::Redo => history_redo(old(self).model()),
            },
    {
        match shortcut {
            Shortcut::Undo => {
                self.undo();
            },
            Shortcut::Redo => {
                self.redo();
            },
        }
    }
}

impl Default for TextHistory {
    fn default() -> (r: Self)
        ensures
            r.model() == history_start(Seq::<char>::empty(), 100),
    {
        proof {
            reveal_strlit("");
            assert(""@ =~= Seq::<char>::empty());
        }
        Self::new("", 100)
    }
}

impl Shortcut {
    /// Undoes or redoes in `history` and puts the resulting value into the path field.
    pub fn apply_to_strict_path_field(&self, config: &mut StrictPath, history: &mut TextHistory)
        ensures
            final(history).model() == match *self {
                Shortcut::Undo => history_undo(old(history).model()),
                Shortcut::Redo => history_redo(old(history).model()),
            },
            final(config)@ == history_current(final(history).model()),
    {
        match self {
            Shortcut::Undo => {
                config.reset(history.undo());
            },
            Shortcut::Redo => {
                config.reset(history.redo());
            },
        }
    }

    /// Undoes or redoes in `history` and puts the resulting value into the optional path
    /// field, which becomes empty when the value is empty.
    pub fn apply_to_option_strict_path_field(&self, config: &mut Option<StrictPath>, history: &mut TextHistory)
        ensures
            final(history).model() == match *self {
                Shortcut::Undo => history_undo(old(history).model()),
                Shortcut::Redo => history_redo(old(history).model()),
            },
            history_current(final(history).model()).len() == 0 ==> *final(config) is None,
            history_current(final(history).model()).len() != 0 ==> (*final(config) matches Some(p)
                && p@ == history_current(final(history).model())),
    {
        let value = match self {
            Shortcut::Undo => history.undo(),
            Shortcut::Redo => history.redo(),
        };
        if value.as_str().is_empty() {
            *config = None;
        } else {
            match config {
                Some(config) => config.reset(value),
                None => *config = Some(StrictPath::new(value)),
            }
        }
    }

    /// Undoes or redoes in `history` and puts the resulting value into the text field.
    pub fn apply_to_string_field(&self, config: &mut String, history: &mut TextHistory)
        ensures
            final(history).model() == match *self {
                Shortcut::Undo => history_undo(old(history).model()),
                Shortcut::Redo => history_redo(old(history).model()),
            },
            final(config)@ == history_current(final(history).model()),
    {
        match self {
            Shortcut::Undo => {
                *config = history.undo();
            },
            Shortcut::Redo => {
                *config = history.redo();
            },
        }
    }
}

/// After recording a text, it is the current value.
pub proof fn law_push_then_current(m: HistoryModel, text: Seq<char>)
    requires
        history_wf(m),
    ensures
        history_current(history_push(m, text)) == text,
{
}

/// Recording the current value again changes nothing.
pub proof fn law_push_duplicate(m: HistoryModel)
    requires
        history_wf(m),
    ensures
        history_push(m, history_current(m)) == m,
{
}

/// Recording keeps the history well formed: it never holds more than its limit.
pub proof fn law_push_keeps_bound(m: HistoryModel, text: Seq<char>)
    requires
        history_wf(m),
    ensures
        history_wf(history_push(m, text)),
{
}

/// Undo and redo keep the history well formed and leave its entries unchanged.
pub proof fn law_undo_redo_keep_entries(m: HistoryModel)
    requires
        history_wf(m),
    ensures
        history_wf(history_undo(m)),
        history_wf(history_redo(m)),
        history_undo(m).entries == m.entries,
        history_redo(m).entries == m.entries,
{
}

/// Redo after an undo that moved returns to where the history was.
pub proof fn law_redo_undoes_undo(m: HistoryModel)
    requires
        history_wf(m),
        m.position > 0,
    ensures
        history_redo(history_undo(m)) == m,
{
}

/// Undo after a redo that moved returns to where the history was.
pub proof fn law_undo_undoes_redo(m: HistoryModel)
    requires
        history_wf(m),
        m.position + 1 < m.entries.len(),
    ensures
        history_undo(history_redo(m)) == m,
{
}

/// Undo at the oldest value and redo at the newest change nothing.
pub proof fn law_ends_are_fixed(m: HistoryModel)
    requires
        history_wf(m),
    ensures
        m.position == 0 ==> history_undo(m) == m,
        m.position + 1 == m.entries.len() ==> history_redo(m) == m,
{
}

/// Recording a new value drops the values that could have been redone: redo right after
/// it changes nothing.
pub proof fn law_push_drops_redos(m: HistoryModel, text: Seq<char>)
    requires
        history_wf(m),
        text != history_current(m),
    ensures
        history_redo(history_push(m, text)) == history_push(m, text),
{
}

/// The histories of a root's fields.
pub struct RootHistory {
    pub path: TextHistory,
    pub lutris_database: TextHistory,
}

impl RootHistory {
    /// Clears the Lutris database field.
    pub fn clear_secondary(&mut self)
        ensures
            final(self).path.model() == old(self).path.model(),
            final(self).lutris_database.model() == history_start(
                Seq::<char>::empty(),
                old(self).lutris_database.model().limit,
            ),
    {
        self.lutris_database.clear();
    }
}

/// The histories of a custom game's fields.
pub struct CustomGameHistory {
    pub name: TextHistory,
    pub alias: TextHistory,
    pub files: Vec<TextHistory>,
    pub registry: Vec<TextHistory>,
    pub install_dir: Vec<TextHistory>,
    pub wine_prefix: Vec<TextHistory>,
}

/// The histories of the fields of the cloud remote dialog.
pub struct ModalHistory {
    pub url: TextHistory,
    pub host: TextHistory,
    pub port: TextHistory,
    pub username: TextHistory,
    pub password: TextHistory,
}

/// Whether the histories start fresh from `texts`, one each, in order.
pub open spec fn fresh_from(h: Seq<TextHistory>, texts: Seq<Seq<char>>) -> bool {
    &&& h.len() == texts.len()
    &&& forall|i: int| 0 <= i < h.len() ==> #[trigger] h[i].model() == history_start(texts[i], 100)
}

/// The histories of every editable text field.
pub struct TextHistories {
    pub backup_target: TextHistory,
    pub restore_source: TextHistory,
    pub backup_search_game_name: TextHistory,
    pub custom_games_search_game_name: TextHistory,
    pub roots: Vec<RootHistory>,
    pub secondary_manifests: Vec<TextHistory>,
    pub custom_games: Vec<CustomGameHistory>,
    pub backup_filter_ignored_paths: Vec<TextHistory>,
    pub backup_filter_ignored_registry: Vec<TextHistory>,
    pub rclone_executable: TextHistory,
    pub rclone_arguments: TextHistory,
    pub cloud_remote_id: TextHistory,
    pub cloud_path: TextHistory,
    pub modal: ModalHistory,
}

/// Whether the histories of a custom game start fresh from its fields.
pub open spec fn custom_game_fresh(h: CustomGameHistory, game: CustomGame) -> bool {
    &&& h.name.model() == history_start(game.name@, 100)
    &&& h.alias.model() == history_start(
        match game.alias {
            Some(a) => a@,
            None => Seq::empty(),
        },
        100,
    )
    &&& fresh_from(h.files@, game.files@.map_values(|s: String| s@))
    &&& fresh_from(h.registry@, game.registry@.map_values(|s: String| s@))
    &&& fresh_from(h.install_dir@, game.install_dir@.map_values(|s: String| s@))
    &&& fresh_from(h.wine_prefix@, game.wine_prefix@.map_values(|s: String| s@))
}

fn fresh_histories(texts: &Vec<String>) -> (r: Vec<TextHistory>)
    ensures
        fresh_from(r@, texts@.map_values(|s: String| s@)),
{
    let mut out: Vec<TextHistory> = Vec::new();
    let mut i: usize = 0;
    while i < texts.len()
        invariant
            i <= texts@.len(),
            fresh_from(out@, texts@.map_values(|s: String| s@).take(i as int)),
        decreases texts.len() - i,
    {
        out.push(TextHistory::raw(texts[i].as_str()));
        i = i + 1;
    }
    assert(texts@.map_values(|s: String| s@).take(texts@.len() as int) =~= texts@.map_values(
        |s: String| s@,
    ));
    out
}

fn fresh_path_histories(paths: &Vec<StrictPath>) -> (r: Vec<TextHistory>)
    ensures
        fresh_from(r@, paths@.map_values(|p: StrictPath| p@)),
{
    let mut out: Vec<TextHistory> = Vec::new();
    let mut i: usize = 0;
    while i < paths.len()
        invariant
            i <= paths@.len(),
            fresh_from(out@, paths@.map_values(|p: StrictPath| p@).take(i as int)),
        decreases paths.len() - i,
    {
        out.push(TextHistory::path(&paths[i]));
        i = i + 1;
    }
    assert(paths@.map_values(|p: StrictPath| p@).take(paths@.len() as int) =~= paths@.map_values(
        |p: StrictPath| p@,
    ));
    out
}

fn empty_modal_history() -> (r: ModalHistory)
    ensures
        r.url.model() == history_start(Seq::<char>::empty(), 100),
        r.host.model() == history_start(Seq::<char>::empty(), 100),
        r.port.model() == history_start(Seq::<char>::empty(), 100),
        r.username.model() == history_start(Seq::<char>::empty(), 100),
        r.password.model() == history_start(Seq::<char>::empty(), 100),
{
    ModalHistory {
        url: TextHistory::default(),
        host: TextHistory::default(),
        port: TextHistory::default(),
        username: TextHistory::default(),
        password: TextHistory::default(),
    }
}

impl TextHistories {
    /// Histories for every field, each holding only the field's configured value; the
    /// remote id field starts empty and then records the id of a custom remote.
    pub fn new(config: &Config) -> (r: Self)
        ensures
            r.backup_target.model() == history_start(config.backup_path@, 100),
            r.restore_source.model() == history_start(config.restore_path@, 100),
            r.backup_search_game_name.model() == history_start(Seq::<char>::empty(), 100),
            r.custom_games_search_game_name.model() == history_start(Seq::<char>::empty(), 100),
            r.rclone_executable.model() == history_start(config.rclone.path@, 100),
            r.rclone_arguments.model() == history_start(config.rclone.arguments@, 100),
            r.cloud_path.model() == history_start(config.cloud_path@, 100),
            r.cloud_remote_id.model() == match config.cloud_remote {
                Some(Remote::Custom { id }) => history_push(
                    history_start(Seq::<char>::empty(), 100),
                    id@,
                ),
                _ => history_start(Seq::<char>::empty(), 100),
            },
            r.roots@.len() == config.roots@.len(),
            forall|i: int|
                0 <= i < r.roots@.len() ==> #[trigger] r.roots@[i].path.model() == history_start(
                    config.roots@[i].path@,
                    100,
                ) && r.roots@[i].lutris_database.model() == history_start(
                    match config.roots@[i].lutris_database {
                        Some(p) => p@,
                        None => Seq::empty(),
                    },
                    100,
                ),
            fresh_from(r.secondary_manifests@, config.secondary_manifests@.map_values(|s: String| s@)),
            r.custom_games@.len() == config.custom_games@.len(),
            forall|i: int|
                0 <= i < r.custom_games@.len() ==> custom_game_fresh(
                    #[trigger] r.custom_games@[i],
                    config.custom_games@[i],
                ),
            fresh_from(r.backup_filter_ignored_paths@, config.ignored_paths@.map_values(|p: StrictPath| p@)),
            fresh_from(r.backup_filter_ignored_registry@, config.ignored_registry@.map_values(|s: String| s@)),
            r.modal.url.model() == history_start(Seq::<char>::empty(), 100),
            r.modal.host.model() == history_start(Seq::<char>::empty(), 100),
            r.modal.port.model() == history_start(Seq::<char>::empty(), 100),
            r.modal.username.model() == history_start(Seq::<char>::empty(), 100),
            r.modal.password.model() == history_start(Seq::<char>::empty(), 100),
    {
        let mut roots: Vec<RootHistory> = Vec::new();
        let mut i: usize = 0;
        while i < config.roots.len()
            invariant
                i <= config.roots@.len(),
                roots@.len() == i,
                forall|j: int|
                    0 <= j < i ==> #[trigger] roots@[j].path.model() == history_start(
                        config.roots@[j].path@,
                        100,
                    ) && roots@[j].lutris_database.model() == history_start(
                        match config.roots@[j].lutris_database {
                            Some(p) => p@,
                            None => Seq::empty(),
                        },
                        100,
                    ),
            decreases config.roots.len() - i,
        {
            let root = &config.roots[i];
            let lutris_database = match &root.lutris_database {
                Some(p) => TextHistory::path(p),
                None => TextHistory::default(),
            };
            roots.push(RootHistory { path: TextHistory::path(&root.path), lutris_database });
            i = i + 1;
        }
        let mut custom_games: Vec<CustomGameHistory> = Vec::new();
        let mut histories = Self {
            backup_target: TextHistory::path(&config.backup_path),
            restore_source: TextHistory::path(&config.restore_path),
            backup_search_game_name: TextHistory::default(),
            custom_games_search_game_name: TextHistory::default(),
            roots,
            secondary_manifests: fresh_histories(&config.secondary_manifests),
            custom_games,
            backup_filter_ignored_paths: fresh_path_histories(&config.ignored_paths),
            backup_filter_ignored_registry: fresh_histories(&config.ignored_registry),
            rclone_executable: TextHistory::path(&config.rclone.path),
            rclone_arguments: TextHistory::raw(config.rclone.arguments.as_str()),
            cloud_remote_id: TextHistory::default(),
            cloud_path: TextHistory::raw(config.cloud_path.as_str()),
            modal: empty_modal_history(),
        };
        let mut k: usize = 0;
        while k < config.custom_games.len()
            invariant
                k <= config.custom_games@.len(),
                histories.custom_games@.len() == k,
                forall|j: int|
                    0 <= j < k ==> custom_game_fresh(
                        #[trigger] histories.custom_games@[j],
                        config.custom_games@[j],
                    ),
                histories.backup_target.model() == history_start(config.backup_path@, 100),
                histories.restore_source.model() == history_start(config.restore_path@, 100),
                histories.backup_search_game_name.model() == history_start(Seq::<char>::empty(), 100),
                histories.custom_games_search_game_name.model() == history_start(
                    Seq::<char>::empty(),
                    100,
                ),
                histories.rclone_executable.model() == history_start(config.rclone.path@, 100),
                histories.rclone_arguments.model() == history_start(config.rclone.arguments@, 100),
                histories.cloud_path.model() == history_start(config.cloud_path@, 100),
                histories.cloud_remote_id.model() == history_start(Seq::<char>::empty(), 100),
                histories.roots@.len() == config.roots@.len(),
                forall|j: int|
                    0 <= j < histories.roots@.len() ==> #[trigger] histories.roots@[j].path.model()
                        == history_start(config.roots@[j].path@, 100)
                        && histories.roots@[j].lutris_database.model() == history_start(
                        match config.roots@[j].lutris_database {
                            Some(p) => p@,
                            None => Seq::empty(),
                        },
                        100,
                    ),
                fresh_from(
                    histories.secondary_manifests@,
                    config.secondary_manifests@.map_values(|s: String| s@),
                ),
                fresh_from(
                    histories.backup_filter_ignored_paths@,
                    config.ignored_paths@.map_values(|p: StrictPath| p@),
                ),
                fresh_from(
                    histories.backup_filter_ignored_registry@,
                    config.ignored_registry@.map_values(|s: String| s@),
                ),
                histories.modal.url.model() == history_start(Seq::<char>::empty(), 100),
                histories.modal.host.model() == history_start(Seq::<char>::empty(), 100),
                histories.modal.port.model() == history_start(Seq::<char>::empty(), 100),
                histories.modal.username.model() == history_start(Seq::<char>::empty(), 100),
                histories.modal.password.model() == history_start(Seq::<char>::empty(), 100),
            decreases config.custom_games.len() - k,
        {
            histories.add_custom_game(&config.custom_games[k]);
            k = k + 1;
        }
        if let Some(Remote::Custom { id }) = &config.cloud_remote {
            histories.cloud_remote_id.push(id.as_str());
        }
        histories
    }

    /// Adds fresh histories for the fields of a new custom game.
    pub fn add_custom_game(&mut self, game: &CustomGame)
        ensures
            final(self).custom_games@.len() == old(self).custom_games@.len() + 1,
            forall|i: int|
                0 <= i < old(self).custom_games@.len() ==> #[trigger] final(self).custom_games@[i]
                    == old(self).custom_games@[i],
            custom_game_fresh(final(self).custom_games@[old(self).custom_games@.len() as int], *game),
            final(self).backup_target == old(self).backup_target,
            final(self).restore_source == old(self).restore_source,
            final(self).backup_search_game_name == old(self).backup_search_game_name,
            final(self).custom_games_search_game_name == old(self).custom_games_search_game_name,
            final(self).roots == old(self).roots,
            final(self).secondary_manifests == old(self).secondary_manifests,
            final(self).backup_filter_ignored_paths == old(self).backup_filter_ignored_paths,
            final(self).backup_filter_ignored_registry == old(self).backup_filter_ignored_registry,
            final(self).rclone_executable == old(self).rclone_executable,
            final(self).rclone_arguments == old(self).rclone_arguments,
            final(self).cloud_remote_id == old(self).cloud_remote_id,
            final(self).cloud_path == old(self).cloud_path,
            final(self).modal == old(self).modal,
    {
        proof {
            reveal_strlit("");
            assert(""@ =~= Seq::<char>::empty());
        }
        let alias = match &game.alias {
            Some(a) => TextHistory::raw(a.as_str()),
            None => TextHistory::raw(""),
        };
        let history = CustomGameHistory {
            name: TextHistory::raw(game.name.as_str()),
            alias,
            files: fresh_histories(&game.files),
            registry: fresh_histories(&game.registry),
            install_dir: fresh_histories(&game.install_dir),
            wine_prefix: fresh_histories(&game.wine_prefix),
        };
        self.custom_games.push(history);
    }

    /// Clears every field of the cloud remote dialog; the other histories stay as they
    /// are.
    pub fn clear_modal_fields(&mut self)
        ensures
            final(self).modal.url.model() == history_start(Seq::<char>::empty(), old(self).modal.url.model().limit),
            final(self).modal.host.model() == history_start(Seq::<char>::empty(), old(self).modal.host.model().limit),
            final(self).modal.port.model() == history_start(Seq::<char>::empty(), old(self).modal.port.model().limit),
            final(self).modal.username.model() == history_start(
                Seq::<char>::empty(),
                old(self).modal.username.model().limit,
            ),
            final(self).modal.password.model() == history_start(
                Seq::<char>::empty(),
                old(self).modal.password.model().limit,
            ),
            final(self).backup_target == old(self).backup_target,
            final(self).restore_source == old(self).restore_source,
            final(self).backup_search_game_name == old(self).backup_search_game_name,
            final(self).custom_games_search_game_name == old(self).custom_games_search_game_name,
            final(self).roots == old(self).roots,
            final(self).secondary_manifests == old(self).secondary_manifests,
            final(self).custom_games == old(self).custom_games,
            final(self).backup_filter_ignored_paths == old(self).backup_filter_ignored_paths,
            final(self).backup_filter_ignored_registry == old(self).backup_filter_ignored_registry,
            final(self).rclone_executable == old(self).rclone_executable,
            final(self).rclone_arguments == old(self).rclone_arguments,
            final(self).cloud_remote_id == old(self).cloud_remote_id,
            final(self).cloud_path == old(self).cloud_path,
    {
        self.modal.url.clear();
        self.modal.host.clear();
        self.modal.port.clear();
        self.modal.username.clear();
        self.modal.password.clear();
    }
}

} // verus!
