# rippy

A clipboard history manager for macOS with a vim-style picker, written in Verus.

- `src/` is the verified library:
  - `text`: trimming, integer parsing and printing, UTF-8 lengths, lines and paths;
  - `config`: the hotkey configuration, keycodes and modifier masks;
  - `hotkey`, `terminal`: matching hotkey events, choosing a terminal and the script that
    opens the picker in it;
  - `conn`: the SQLite connection (through `rusqlite`) and the record of the requests made
    of it;
  - `db`: the history store, a model of its table with the laws it keeps, and content
    hashes (`sha2`, `hex`);
  - `filter`, `tui`: fuzzy ranking (`fuzzy-matcher`) and the picker's state machine;
  - `watcher`, `daemon`, `clipboard`, `cli`: what the daemon records, pid files, pasteboard
    readings and the command-line listings;
  - `service`: the launchd property list of the background service.
- `app/` is the `rippy` program around it: argument parsing, the terminal UI loop and drawing,
  the daemon process, the pasteboard commands, launchd and the macOS event tap.
- `tests/` exercises the library on concrete values.
