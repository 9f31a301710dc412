pub mod codex_sqlite;
