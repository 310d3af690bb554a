# ludusavi_sync

Verified parts of Ludusavi Sync's interface, a tool that keeps PC game saves in sync
across devices through an Rclone remote. The library holds the parts of the interface's
logic that do not depend on the scan engine, the widgets or the synchronisation daemon:
texts, remotes and their configuration steps, dialogs, filters, the game list's entries,
undo histories and configuration edits, per-game save modes, and the start, cancelling
and end of operations.
Their contracts are proved by Verus; the program around it starts the outside programs
(Rclone and the ACCELA adapter) that the library cannot start itself.

- `src/` — the library:
  - `text` — decimal rendering, parsing, comparison and replacement of texts;
  - `lang` — every text of the interface and the messages built from templates;
  - `prelude`, `resource`, `scan` — errors, paths, configuration fields and scan data;
  - `cloud` — remotes, their validation and the Rclone configuration steps;
  - `common`, `modal`, `steps` — selections, the operation in progress, dialogs and
    their stack, and the bounded running of an operation's steps;
  - `control` — the application's decisions on messages: exiting, cancelling, per-game
    save modes, picking a cloud remote, and starting backups and restores;
  - `editing` — edits of the configuration's fields and lists (roots, manifests, custom
    games, exclusions), kept in step with their undo histories, and undo or redo applied
    back to the configuration;
  - `shortcuts` — undo and redo of the text fields;
  - `search`, `game_list` — the game list's filters and entries;
  - `layout`, `icon`, `notification`, `accela` — folder names, icons, notices, and the
    ACCELA settings and adapter replies.
- `tests/` — tests of the library on concrete values.
- `app/` — the command-line program: it runs Rclone and the adapter and hands their
  answers to the library.
