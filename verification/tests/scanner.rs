use codex_notice::scanner::{scan_begin, scan_step, ScanStep, ScanSummary};

#[test]
fn scan_skips_recorded_tasks_and_processes_new_ones() {
    let summary = scan_begin(3);
    let (summary, first) = scan_step(summary, true);
    let (summary, second) = scan_step(summary, false);
    let (summary, third) = scan_step(summary, false);

    assert_eq!(first, ScanStep::SkipExisting);
    assert_eq!(second, ScanStep::Process);
    assert_eq!(third, ScanStep::Process);
    assert_eq!(summary, ScanSummary { discovered: 3, skipped_existing: 1, processed: 2 });
}

#[test]
fn empty_scan_counts_nothing() {
    assert_eq!(scan_begin(0), ScanSummary { discovered: 0, skipped_existing: 0, processed: 0 });
}
