use nono_cli::error::NonoError;
use nono_cli::supervisor_macos::{compute_nproc_soft_limit, MacosResourceLimits, ResourceLimits};
use std::cell::Cell;

fn no_query() -> Result<u64, NonoError> {
    panic!("the process count must not be read without a process limit")
}

#[test]
fn new_rejects_cpu_percent() {
    let limits = ResourceLimits {
        cpu_percent: Some(50),
        memory_bytes: None,
        max_processes: None,
        timeout_secs: None,
    };
    let err = MacosResourceLimits::new(&limits, no_query).unwrap_err();
    assert!(
        matches!(
            err,
            NonoError::NotSupportedOnPlatform {
                ref feature
            } if feature == "cpu_percent_macos"
        ),
        "expected NotSupportedOnPlatform {{ feature: \"cpu_percent_macos\" }}, got: {err:?}"
    );
}

#[test]
fn new_with_all_none_is_ok() {
    let limits = ResourceLimits::default();
    let result = MacosResourceLimits::new(&limits, no_query);
    assert!(result.is_ok(), "all-None limits should succeed: {result:?}");
    let r = result.unwrap();
    assert!(r.memory_bytes().is_none());
    assert!(r.max_processes().is_none());
    assert_eq!(r.baseline_uid_count(), 0, "no max_processes → baseline should be 0");
}

#[test]
fn new_with_max_processes_reads_baseline() {
    let limits = ResourceLimits {
        cpu_percent: None,
        memory_bytes: None,
        max_processes: Some(5),
        timeout_secs: None,
    };
    let reads = Cell::new(0u32);
    let result = MacosResourceLimits::new(&limits, || {
        reads.set(reads.get() + 1);
        Ok(42)
    });
    assert!(result.is_ok(), "max_processes set → new() should succeed: {result:?}");
    let r = result.unwrap();
    assert!(r.baseline_uid_count() > 0, "expected baseline_uid_count > 0");
    assert_eq!(r.baseline_uid_count(), 42);
    assert_eq!(reads.get(), 1);
    assert_eq!(r.nproc_limit(None), Some(47));
    assert_eq!(r.nproc_limit(Some(45)), Some(45));
}

#[test]
fn failed_baseline_read_aborts_before_launch() {
    let limits = ResourceLimits {
        cpu_percent: None,
        memory_bytes: Some(1 << 28),
        max_processes: Some(5),
        timeout_secs: Some(60),
    };
    let err = MacosResourceLimits::new(&limits, || {
        Err(NonoError::SandboxInit("proc_listpids(PROC_UID_ONLY) failed: denied".to_string()))
    })
    .unwrap_err();
    assert_eq!(
        err,
        NonoError::SandboxInit("proc_listpids(PROC_UID_ONLY) failed: denied".to_string())
    );
}

#[test]
fn memory_only_limits_keep_no_process_limit() {
    let limits = ResourceLimits {
        memory_bytes: Some(256 * 1024 * 1024),
        ..ResourceLimits::default()
    };
    let r = MacosResourceLimits::new(&limits, no_query).unwrap();
    assert_eq!(r.memory_bytes(), Some(268_435_456));
    assert_eq!(r.nproc_limit(Some(10)), None);
}

#[test]
fn nproc_limit_saturates_and_respects_hard_limit() {
    assert_eq!(compute_nproc_soft_limit(100, 5, None), 105);
    assert_eq!(compute_nproc_soft_limit(100, 5, Some(1000)), 105);
    assert_eq!(compute_nproc_soft_limit(100, 5, Some(102)), 102);
    assert_eq!(compute_nproc_soft_limit(u64::MAX - 1, 5, None), u64::MAX);
}
