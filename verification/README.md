# codex_notice

CodeX Notice watches the local Codex Desktop state for finished tasks and posts
macOS notifications according to ordered user rules.

- `src/` is the library, verified with Verus: the rule engine (`rules`), the
  plan for processing a detected task (`processor`), the bookkeeping of a scan
  (`scanner`) and of a notification pass (`notifications::local`), merge
  summaries (`scheduler`), the decoding of Codex state rows and the choice of
  state database files (`detection::codex_sqlite`), the pure parts of the
  storage layer (`storage`), the runtime settings (`runtime`) and shared text
  functions (`text`). Each public function states its result in its contract;
  the library's laws are public proof functions beside the code they speak of.
- `app/` is the program around it: SQLite storage, reading the Codex state
  files, running `osascript`, the background loop and the window commands, with
  serializable copies of the library's types. The tauri window shell is not
  built here, so the program runs the background loop alone.
- `tests/` runs the library on concrete values.
