//! Folder names made safe for the file system, and the record of a backup folder.
use crate::prelude::StrictPath;
use std::collections::BTreeSet;
use vstd::prelude::*;

verus! {

/// Characters that no file or folder name may hold on the supported systems.
pub open spec fn invalid_file_char(c: char) -> bool {
    c == '\\' || c == '/' || c == ':' || c == '*' || c == '?' || c == '"' || c == '<' || c == '>'
        || c == '|' || c == '\0'
}

/// Whether the character at `i` of `name` must be replaced: a leading or trailing dot,
/// a character that file names cannot hold, or a line break.
pub open spec fn must_escape(name: Seq<char>, i: int) -> bool {
    let c = name[i];
    (i == 0 && c == '.') || (i == name.len() - 1 && c == '.') || invalid_file_char(c) || c == '\n'
        || c == '\r'
}

/// `name` with every character that must be replaced turned into `_`.
pub open spec fn escaped_folder_name(name: Seq<char>) -> Seq<char> {
    Seq::new(name.len(), |i: int| if must_escape(name, i) { '_' } else { name[i] })
}

fn needs_escape(c: char, first: bool, last: bool) -> (r: bool)
    ensures
        r == ((first && c == '.') || (last && c == '.') || invalid_file_char(c) || c == '\n' || c
            == '\r'),
{
    (first && c == '.') || (last && c == '.') || c == '\\' || c == '/' || c == ':' || c == '*' || c
        == '?' || c == '"' || c == '<' || c == '>' || c == '|' || c == '\0' || c == '\n' || c == '\r'
}

/// A folder name for `name`: a leading or trailing dot (which hides a folder or confuses
/// Windows Explorer), characters that file names cannot hold, and line breaks each become
/// `_`. The name keeps its length.
pub fn escape_folder_name(name: &str) -> (r: String)
    ensures
        r@ == escaped_folder_name(name@),
{
    let n = name.unicode_len();
    let mut out = String::new();
    let mut i: usize = 0;
    proof {
        reveal_strlit("_");
    }
    while i < n
        invariant
            n == name@.len(),
            i <= n,
            "_"@ == seq!['_'],
            out@ == escaped_folder_name(name@).take(i as int),
        decreases n - i,
    {
        let c = name.get_char(i);
        if needs_escape(c, i == 0, i + 1 == n) {
            out.append("_");
        } else {
            out.append(name.substring_char(i, i + 1));
        }
        assert(out@ =~= escaped_folder_name(name@).take(i + 1));
        i = i + 1;
    }
    assert(escaped_folder_name(name@).take(n as int) =~= escaped_folder_name(name@));
    out
}

/// Escaping keeps the length, and escaping twice changes nothing more.
pub proof fn law_escape_idempotent(name: Seq<char>)
    ensures
        escaped_folder_name(name).len() == name.len(),
        escaped_folder_name(escaped_folder_name(name)) == escaped_folder_name(name),
{
    let e = escaped_folder_name(name);
    assert(escaped_folder_name(e) =~= e);
}

/// An escaped name holds no character that file names cannot hold, no line break, and
/// neither starts nor ends with a dot.
pub proof fn law_escape_is_safe(name: Seq<char>)
    ensures
        forall|i: int|
            0 <= i < name.len() ==> !#[trigger] must_escape(escaped_folder_name(name), i),
{
}

/// The record of the folder that backups go to. Games are kept one archive per game,
/// so it lists no game folders.
#[derive(Clone, Debug)]
pub struct BackupLayout {
    pub base: StrictPath,
}

impl BackupLayout {
    /// The record of the backup folder `base`.
    pub fn new(base: StrictPath) -> (r: Self)
        ensures
            r.base@ == base@,
    {
        Self { base }
    }

    /// The games that have backups laid out in folders: none.
    pub fn restorable_game_set(&self) -> (r: BTreeSet<String>)
        ensures
            r@ == Set::<String>::empty(),
    {
        BTreeSet::new()
    }
}

} // verus!
