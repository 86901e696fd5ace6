//! What to do about the processes found under the watched command name.
use vstd::prelude::*;
use crate::snapshot::ProcessInfo;

verus! {

/// The watched command name does not name exactly one process.
#[derive(Debug)]
pub enum TargetError {
    /// More than one process has the name; there is no rule to pick one.
    MultipleFound { processes: Vec<ProcessInfo> },
    /// No process has the name.
    ProcessNotFound,
}

/// Whether a resident size of `rss` bytes is over a threshold of `threshold` bytes.
pub fn exceeds_threshold(rss: u64, threshold: u64) -> (r: bool)
    ensures
        r == (rss > threshold),
{
    rss > threshold
}

/// The one process found, or why there is not exactly one.
pub fn select_target(processes: Vec<ProcessInfo>) -> (r: Result<ProcessInfo, TargetError>)
    ensures
        processes@.len() == 1 ==> r == Ok::<ProcessInfo, TargetError>(processes@[0]),
        processes@.len() == 0 ==> r == Err::<ProcessInfo, TargetError>(TargetError::ProcessNotFound),
        processes@.len() > 1 ==> r == Err::<ProcessInfo, TargetError>(TargetError::MultipleFound { processes }),
{
    if processes.len() > 1 {
        return Err(TargetError::MultipleFound { processes });
    }
    let mut processes = processes;
    match processes.pop() {
        Some(p) => Ok(p),
        None => Err(TargetError::ProcessNotFound),
    }
}

/// What to do about the processes found under the watched name, with a
/// threshold of `threshold` bytes: the process to restart, `None` when its
/// memory is within the threshold, or why there is no single target.
pub fn decide(processes: Vec<ProcessInfo>, threshold: u64) -> (r: Result<Option<ProcessInfo>, TargetError>)
    ensures
        processes@.len() == 1 ==> r == (if processes@[0]@.rss > threshold {
            Ok::<Option<ProcessInfo>, TargetError>(Some(processes@[0]))
        } else {
            Ok::<Option<ProcessInfo>, TargetError>(None)
        }),
        processes@.len() == 0 ==> r == Err::<Option<ProcessInfo>, TargetError>(TargetError::ProcessNotFound),
        processes@.len() > 1 ==> r == Err::<Option<ProcessInfo>, TargetError>(
            TargetError::MultipleFound { processes },
        ),
{
    let target = match select_target(processes) {
        Ok(t) => t,
        Err(e) => return Err(e),
    };
    if exceeds_threshold(target.rss(), threshold) {
        Ok(Some(target))
    } else {
        Ok(None)
    }
}

} // verus!
