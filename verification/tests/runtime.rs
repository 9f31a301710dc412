use std::path::PathBuf;

use codex_notice::runtime::{default_runtime_loop_config, RuntimeLoopConfig};

#[test]
fn runtime_loop_config_builds_iteration_config_with_current_time() {
    let temp = tempfile::tempdir().expect("create temp directory");
    let loop_config = RuntimeLoopConfig {
        app_database_path: temp.path().join("app.sqlite"),
        codex_directory: temp.path().join("codex"),
        delay_ttl_seconds: 600,
        scan_interval_seconds: 15,
        scan_interval_subsec_nanos: 0,
    };

    let config = loop_config.to_runtime_config(12_345);

    assert_eq!(config.app_database_path, loop_config.app_database_path);
    assert_eq!(config.codex_directory, loop_config.codex_directory);
    assert_eq!(config.now_epoch_seconds, 12_345);
    assert_eq!(config.delay_ttl_seconds, 600);
}

#[test]
fn default_loop_config_waits_a_day_and_scans_every_thirty_seconds() {
    let config = default_runtime_loop_config(PathBuf::from("/tmp/app.sqlite"), PathBuf::from("/tmp/codex"));

    assert_eq!(config.app_database_path, PathBuf::from("/tmp/app.sqlite"));
    assert_eq!(config.codex_directory, PathBuf::from("/tmp/codex"));
    assert_eq!(config.delay_ttl_seconds, 86_400);
    assert_eq!(config.scan_interval_seconds, 30);
    assert_eq!(config.scan_interval_subsec_nanos, 0);
}

#[test]
fn loop_config_carries_sub_second_intervals() {
    let loop_config = RuntimeLoopConfig {
        app_database_path: PathBuf::from("/tmp/app.sqlite"),
        codex_directory: PathBuf::from("/tmp/codex"),
        delay_ttl_seconds: 60,
        scan_interval_seconds: 0,
        scan_interval_subsec_nanos: 500_000_000,
    };

    assert_eq!(loop_config.scan_interval_subsec_nanos, 500_000_000);
    assert_eq!(loop_config.to_runtime_config(7).now_epoch_seconds, 7);
}
