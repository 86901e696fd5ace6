//! Deciding whether a targeted process has stopped, without mistaking a new
//! process that reuses its pid for the old one.
use vstd::prelude::*;
use crate::signal::KillError;
use crate::snapshot::{ProcessInfo, open_process, process_stat, stat_fields};

verus! {

/// Interval between two probes of a process that is still running, in milliseconds.
pub const POLL_INTERVAL_MS: u64 = 1000;

/// Why a wait for a process to stop was cut short.
#[derive(Debug)]
pub enum WaitStopError {
    SendSignal0 { pid: i32, source: KillError },
    GetProcessInfo { pid: i32, source: procfs::ProcError },
    GetProcessStats { pid: i32, source: procfs::ProcError },
}

/// What a probe saw at the pid of a snapshot.
#[derive(Debug, Clone, Copy, PartialEq, Eq, Structural)]
pub enum Liveness {
    /// No process holds the pid.
    Gone,
    /// A process holds the pid; it started at `start_time`.
    Running { start_time: u64 },
}

/// The process of a snapshot started at `start_time` has stopped when its pid
/// is free or is held by a process that started at another time.
pub open spec fn stopped_spec(start_time: u64, seen: Liveness) -> bool {
    match seen {
        Liveness::Gone => true,
        Liveness::Running { start_time: t } => t != start_time,
    }
}

/// What a wait does after one probe.
#[derive(Debug, Clone, Copy, PartialEq, Eq, Structural)]
pub enum WaitStep {
    /// The process has stopped: the wait is over.
    Stopped,
    /// The time allowed has run out: the wait is over, and that is no failure.
    TimedOut,
    /// Sleep for the poll interval, then probe again.
    Poll,
}

pub open spec fn wait_step_spec(stopped: bool, elapsed_ms: u64, timeout_ms: u64) -> WaitStep {
    if stopped {
        WaitStep::Stopped
    } else if elapsed_ms > timeout_ms {
        WaitStep::TimedOut
    } else {
        WaitStep::Poll
    }
}

/// The step after a probe of the target, when `elapsed_ms` have passed
/// since the wait began: a failed probe ends the wait with its error.
pub fn next_wait_step(probe: Result<bool, WaitStopError>, elapsed_ms: u64, timeout_ms: u64) -> (r: Result<
    WaitStep,
    WaitStopError,
>)
    ensures
        probe matches Ok(stopped) ==> r == Ok::<WaitStep, WaitStopError>(wait_step_spec(stopped, elapsed_ms, timeout_ms)),
        probe matches Err(e) ==> r == Err::<WaitStep, WaitStopError>(e),
{
    match probe {
        Err(e) => Err(e),
        Ok(stopped) => if stopped {
            Ok(WaitStep::Stopped)
        } else if elapsed_ms > timeout_ms {
            Ok(WaitStep::TimedOut)
        } else {
            Ok(WaitStep::Poll)
        },
    }
}

/// A pid held by a process whose start time differs from the snapshot's
/// counts as stopped, whatever time has passed: the new holder is never taken
/// for the old process, and the wait ends at once.
pub proof fn lemma_reused_pid_ends_wait(start_time: u64, holder_start_time: u64, elapsed_ms: u64, timeout_ms: u64)
    requires
        holder_start_time != start_time,
    ensures
        stopped_spec(start_time, Liveness::Running { start_time: holder_start_time }),
        wait_step_spec(
            stopped_spec(start_time, Liveness::Running { start_time: holder_start_time }),
            elapsed_ms,
            timeout_ms,
        ) == WaitStep::Stopped,
{
}

/// A freed pid ends the wait at once, whatever time has passed.
pub proof fn lemma_free_pid_ends_wait(start_time: u64, elapsed_ms: u64, timeout_ms: u64)
    ensures
        wait_step_spec(stopped_spec(start_time, Liveness::Gone), elapsed_ms, timeout_ms) == WaitStep::Stopped,
{
}

/// Probing a process that keeps running unchanged (same pid, same start
/// time) gives the same verdict every time, "not stopped", and the wait keeps
/// polling for as long as the timeout has not passed.
pub proof fn lemma_unchanged_process_keeps_polling(start_time: u64, probes: Seq<(Liveness, u64)>, timeout_ms: u64)
    requires
        forall|i: int| 0 <= i < probes.len() ==> (#[trigger] probes[i]).0 == (Liveness::Running { start_time }),
    ensures
        forall|i: int, j: int|
            0 <= i < probes.len() && 0 <= j < probes.len() ==> stopped_spec(start_time, (#[trigger] probes[i]).0)
                == stopped_spec(start_time, (#[trigger] probes[j]).0),
        forall|i: int| 0 <= i < probes.len() ==> !stopped_spec(start_time, (#[trigger] probes[i]).0),
        forall|i: int|
            0 <= i < probes.len() && (#[trigger] probes[i]).1 <= timeout_ms ==> wait_step_spec(
                stopped_spec(start_time, probes[i].0),
                probes[i].1,
                timeout_ms,
            ) == WaitStep::Poll,
{
}

impl ProcessInfo {
    /// Whether this snapshot's process has stopped, given what was seen at its pid.
    pub fn stopped_given(&self, seen: Liveness) -> (r: bool)
        ensures
            r == stopped_spec(self@.start_time, seen),
    {
        match seen {
            Liveness::Gone => true,
            Liveness::Running { start_time } => start_time != self.start_time(),
        }
    }

    /// Whether this snapshot's process has stopped, given the outcome of a
    /// liveness probe (signal 0) sent to its pid. When the pid is occupied,
    /// the start time of its holder is read from the process table.
    pub fn has_stopped(&self, probe: Result<(), KillError>) -> (r: Result<bool, WaitStopError>)
        ensures
            probe matches Err(KillError::NotFound { .. }) ==> r == Ok::<bool, WaitStopError>(true),
            probe matches Err(e) ==> !(e is NotFound) ==> r == Err::<bool, WaitStopError>(
                WaitStopError::SendSignal0 { pid: self@.pid, source: e },
            ),
            probe is Ok ==> (r matches Err(e) ==> (e is GetProcessInfo || e is GetProcessStats)),
            r matches Err(WaitStopError::GetProcessInfo { pid, .. }) ==> pid == self@.pid,
            r matches Err(WaitStopError::GetProcessStats { pid, .. }) ==> pid == self@.pid,
    {
        let pid = self.pid();
        match probe {
            Err(KillError::NotFound { .. }) => return Ok(true),
            Err(e) => return Err(WaitStopError::SendSignal0 { pid, source: e }),
            Ok(()) => {},
        }
        let process = match open_process(pid) {
            Ok(p) => p,
            Err(source) => return Err(WaitStopError::GetProcessInfo { pid, source }),
        };
        let stat = match process_stat(&process) {
            Ok(s) => s,
            Err(source) => return Err(WaitStopError::GetProcessStats { pid, source }),
        };
        let (_, _, start_time) = stat_fields(&stat);
        Ok(self.stopped_given(Liveness::Running { start_time }))
    }
}

} // verus!
