//! Outcomes of delivering a signal to a process.
use vstd::prelude::*;

verus! {

/// The liveness probe: checks existence and permission, delivers nothing.
pub const PROBE_SIGNAL: i32 = 0;

/// The standard graceful-termination signal (Linux numbering).
pub const SIGTERM: i32 = 15;

/// `errno` for an invalid signal number (Linux numbering, as are the two below).
pub const EINVAL: i32 = 22;

/// `errno` for a caller without permission to signal the target.
pub const EPERM: i32 = 1;

/// `errno` for a process (or group) that does not exist.
pub const ESRCH: i32 = 3;

/// Why a signal could not be delivered.
#[derive(Debug, PartialEq, Eq, Structural)]
pub enum KillError {
    InvalidSignal { signal: i32 },
    PermissionDenied { signal: i32, pid: i32 },
    NotFound { pid: i32 },
}

/// Whether `kill(2)` may report this pair of return value and `errno`.
pub open spec fn documented_kill_result(ret: i32, errno: i32) -> bool {
    ret == 0 || (ret == -1 && (errno == EINVAL || errno == EPERM || errno == ESRCH))
}

/// Whether `kill(2)` may report this pair of return value and `errno`;
/// any other pair breaks its documented contract.
pub fn is_documented_kill_result(ret: i32, errno: i32) -> (r: bool)
    ensures
        r == documented_kill_result(ret, errno),
{
    ret == 0 || (ret == -1 && (errno == EINVAL || errno == EPERM || errno == ESRCH))
}

/// What `kill(pid, signal)` returning `ret` with `errno` means.
pub open spec fn kill_meaning(pid: i32, signal: i32, ret: i32, errno: i32) -> Result<(), KillError> {
    if ret == 0 {
        Ok(())
    } else if errno == EINVAL {
        Err(KillError::InvalidSignal { signal })
    } else if errno == EPERM {
        Err(KillError::PermissionDenied { signal, pid })
    } else {
        Err(KillError::NotFound { pid })
    }
}

/// Translates the raw result of `kill(pid, signal)` into a typed outcome.
pub fn kill_outcome(pid: i32, signal: i32, ret: i32, errno: i32) -> (r: Result<(), KillError>)
    requires
        documented_kill_result(ret, errno),
    ensures
        r == kill_meaning(pid, signal, ret, errno),
{
    if ret == 0 {
        Ok(())
    } else if errno == EINVAL {
        Err(KillError::InvalidSignal { signal })
    } else if errno == EPERM {
        Err(KillError::PermissionDenied { signal, pid })
    } else {
        Err(KillError::NotFound { pid })
    }
}

} // verus!
