use std::path::PathBuf;

use vstd::prelude::*;

use crate::notifications::local::DispatchSummary;
use crate::scanner::ScanSummary;

verus! {

/// `std::path::PathBuf`, carried through the configuration as it is.
#[verifier::external_type_specification]
#[verifier::external_body]
pub struct ExPathBuf(PathBuf);

/// A copy of a path, by `PathBuf::clone`, which copies the path's bytes: the
/// copy is the same path.
#[verifier::external_body]
fn copy_path(path: &PathBuf) -> (copy: PathBuf)
    ensures
        copy == *path,
{
    path.clone()
}

/// How long a delayed task waits before its merged notification is due.
pub const DEFAULT_DELAY_TTL_SECONDS: i64 = 86_400;

/// How often the background loop scans.
pub const DEFAULT_SCAN_INTERVAL_SECONDS: u64 = 30;

/// Settings of one scan-and-notify pass.
pub struct RuntimeConfig {
    pub app_database_path: PathBuf,
    pub codex_directory: PathBuf,
    pub now_epoch_seconds: i64,
    pub delay_ttl_seconds: i64,
}

/// Settings of the background loop. It waits `scan_interval_seconds` whole
/// seconds plus `scan_interval_subsec_nanos` nanoseconds between passes: the
/// two parts of a `std::time::Duration`, which `Duration::new` takes.
pub struct RuntimeLoopConfig {
    pub app_database_path: PathBuf,
    pub codex_directory: PathBuf,
    pub delay_ttl_seconds: i64,
    pub scan_interval_seconds: u64,
    pub scan_interval_subsec_nanos: u32,
}

impl RuntimeLoopConfig {
    /// The settings of the pass that runs at `now_epoch_seconds`.
    pub fn to_runtime_config(&self, now_epoch_seconds: i64) -> (config: RuntimeConfig)
        ensures
            config.app_database_path == self.app_database_path,
            config.codex_directory == self.codex_directory,
            config.now_epoch_seconds == now_epoch_seconds,
            config.delay_ttl_seconds == self.delay_ttl_seconds,
    {
        RuntimeConfig {
            app_database_path: copy_path(&self.app_database_path),
            codex_directory: copy_path(&self.codex_directory),
            now_epoch_seconds,
            delay_ttl_seconds: self.delay_ttl_seconds,
        }
    }
}

/// The default loop settings for the given database path and Codex directory:
/// delayed tasks wait a day and the loop scans every 30 seconds.
pub fn default_runtime_loop_config(app_database_path: PathBuf, codex_directory: PathBuf) -> (config:
    RuntimeLoopConfig)
    ensures
        config.app_database_path == app_database_path,
        config.codex_directory == codex_directory,
        config.delay_ttl_seconds == DEFAULT_DELAY_TTL_SECONDS,
        config.scan_interval_seconds == DEFAULT_SCAN_INTERVAL_SECONDS,
        config.scan_interval_subsec_nanos == 0,
{
    RuntimeLoopConfig {
        app_database_path,
        codex_directory,
        delay_ttl_seconds: DEFAULT_DELAY_TTL_SECONDS,
        scan_interval_seconds: DEFAULT_SCAN_INTERVAL_SECONDS,
        scan_interval_subsec_nanos: 0,
    }
}

/// What one pass did.
pub struct RuntimeSummary {
    pub scan: ScanSummary,
    pub notifications: DispatchSummary,
}

} // verus!
