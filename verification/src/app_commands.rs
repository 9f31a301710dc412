use vstd::prelude::*;

verus! {

/// What the diagnostics page shows.
#[derive(Debug, Clone, PartialEq, Eq)]
pub struct AppDiagnostics {
    pub database_path: String,
    pub codex_directory: String,
    pub rule_count: usize,
    pub event_count: usize,
}

} // verus!
