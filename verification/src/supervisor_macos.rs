//! macOS resource limits of a supervised launch: which requested limits
//! macOS can enforce, the per-user process baseline that the process limit
//! is counted from, and the `RLIMIT_NPROC` value the child is given.
//!
//! The baseline is read from the kernel by the caller before `fork()`; the
//! decision of when it is needed and what follows from it is made here.
use crate::error::NonoError;
use vstd::prelude::*;

verus! {

/// The resource limits requested for a launch.
#[derive(Debug, Clone, Copy, PartialEq, Eq, Default)]
pub struct ResourceLimits {
    /// CPU share in percent (`--cpu-percent`).
    pub cpu_percent: Option<u32>,
    /// Address-space limit in bytes (`--memory`).
    pub memory_bytes: Option<u64>,
    /// Additional processes the agent may create (`--max-processes`).
    pub max_processes: Option<u32>,
    /// Wall-clock limit in seconds (`--timeout`), enforced by the watchdog.
    pub timeout_secs: Option<u64>,
}

/// The limits applied to the child on macOS before `execve`.
#[derive(Debug)]
pub struct MacosResourceLimits {
    memory_bytes: Option<u64>,
    max_processes: Option<u32>,
    baseline_uid_count: u64,
}

impl MacosResourceLimits {
    /// The address-space limit in bytes.
    pub closed spec fn memory_bytes_spec(self) -> Option<u64> {
        self.memory_bytes
    }

    /// The number of additional processes allowed.
    pub closed spec fn max_processes_spec(self) -> Option<u32> {
        self.max_processes
    }

    /// The per-user process count read before `fork()`.
    pub closed spec fn baseline_spec(self) -> u64 {
        self.baseline_uid_count
    }

    /// Builds the limits for a launch. A CPU share is refused: macOS has no
    /// per-process CPU quota. The per-user process count is read through
    /// `count_uid_processes` only when a process limit is requested, and a
    /// failure to read it aborts the launch before any child exists.
    pub fn new<F>(limits: &ResourceLimits, count_uid_processes: F) -> (res: Result<MacosResourceLimits, NonoError>)
        where
            F: FnOnce() -> Result<u64, NonoError>,
        requires
            call_requires(count_uid_processes, ()),
        ensures
            limits.cpu_percent is Some ==> (res matches Err(NonoError::NotSupportedOnPlatform { feature })
                && feature@ == "cpu_percent_macos"@),
            limits.cpu_percent is None && limits.max_processes is None ==> (res matches Ok(r)
                && r.memory_bytes_spec() == limits.memory_bytes && r.max_processes_spec() is None
                && r.baseline_spec() == 0),
            limits.cpu_percent is None && limits.max_processes is Some ==> exists|o: Result<u64, NonoError>|
                #[trigger] call_ensures(count_uid_processes, (), o) && match o {
                    Err(e) => res == Err::<MacosResourceLimits, NonoError>(e),
                    Ok(n) => res matches Ok(r) && r.memory_bytes_spec() == limits.memory_bytes
                        && r.max_processes_spec() == limits.max_processes && r.baseline_spec() == n,
                },
    {
        if limits.cpu_percent.is_some() {
            return Err(NonoError::NotSupportedOnPlatform { feature: String::from_str("cpu_percent_macos") });
        }
        let baseline_uid_count = if limits.max_processes.is_some() {
            match count_uid_processes() {
                Ok(n) => n,
                Err(e) => return Err(e),
            }
        } else {
            0
        };
        Ok(MacosResourceLimits {
            memory_bytes: limits.memory_bytes,
            max_processes: limits.max_processes,
            baseline_uid_count,
        })
    }

    /// The per-user process count read before `fork()`.
    pub fn baseline_uid_count(&self) -> (r: u64)
        ensures
            r == self.baseline_spec(),
    {
        self.baseline_uid_count
    }

    /// The address-space limit in bytes, if any.
    pub fn memory_bytes(&self) -> (r: Option<u64>)
        ensures
            r == self.memory_bytes_spec(),
    {
        self.memory_bytes
    }

    /// The number of additional processes allowed, if limited.
    pub fn max_processes(&self) -> (r: Option<u32>)
        ensures
            r == self.max_processes_spec(),
    {
        self.max_processes
    }

    /// The `RLIMIT_NPROC` value (soft and hard) for the child, given the
    /// current hard limit when it is known and finite; `None` when no
    /// process limit was requested.
    pub fn nproc_limit(&self, existing_hard: Option<u64>) -> (r: Option<u64>)
        ensures
            self.max_processes_spec() is None ==> r is None,
            self.max_processes_spec() matches Some(n) ==> (r == Some(
                nproc_soft_limit(self.baseline_spec(), n, existing_hard),
            )),
    {
        match self.max_processes {
            None => None,
            Some(n) => Some(compute_nproc_soft_limit(self.baseline_uid_count, n, existing_hard)),
        }
    }
}

/// The process limit for `n` more processes over `baseline`: the sum,
/// saturating at `u64::MAX`, capped at the current hard limit where that is
/// known and finite (raising above it would fail).
pub open spec fn nproc_soft_limit(baseline: u64, n: u32, existing_hard: Option<u64>) -> u64 {
    let target: u64 = if baseline + n > u64::MAX { u64::MAX } else { (baseline + n) as u64 };
    match existing_hard {
        Some(h) => if target <= h { target } else { h },
        None => target,
    }
}

/// Computes the process limit for `n` more processes over `baseline`.
pub fn compute_nproc_soft_limit(baseline: u64, n: u32, existing_hard: Option<u64>) -> (r: u64)
    ensures
        r == nproc_soft_limit(baseline, n, existing_hard),
{
    let target = baseline.saturating_add(n as u64);
    let hard = match existing_hard {
        Some(h) => h,
        None => target,
    };
    if target <= hard {
        target
    } else {
        hard
    }
}

/// The child never gets more than `n` processes over the baseline, and
/// never more than an existing finite hard limit.
pub proof fn lemma_nproc_limit_bounds(baseline: u64, n: u32, existing_hard: Option<u64>)
    ensures
        nproc_soft_limit(baseline, n, existing_hard) <= baseline + n,
        existing_hard matches Some(h) ==> nproc_soft_limit(baseline, n, existing_hard) <= h,
        existing_hard is None && baseline + n <= u64::MAX ==> nproc_soft_limit(baseline, n, existing_hard)
            == baseline + n,
{
}

} // verus!
