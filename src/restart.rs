//! The terminate-and-replace sequence, as a state machine: the caller
//! performs each action it is handed and feeds back what came of it.
use vstd::prelude::*;
use crate::launch::LaunchError;
use crate::signal::{KillError, SIGTERM};
use crate::snapshot::{FindProcessError, ProcessInfo};
use crate::stop::WaitStopError;

verus! {

/// Time a relaunched process is given to start before it is looked for, in milliseconds.
pub const GRACE_PERIOD_MS: u64 = 5000;

/// A failure of the restart itself.
#[derive(Debug)]
pub enum RestartError {
    /// The termination signal could not be sent.
    Terminate { source: KillError },
    /// Waiting for the old process to stop failed.
    WaitStop { source: WaitStopError },
    /// The replacement could not be spawned.
    LaunchProcess { source: LaunchError },
}

/// A failure of the check that follows a restart.
#[derive(Debug)]
pub enum CheckError {
    CheckFindProcesses { source: FindProcessError },
    CheckLaunchProcess { source: LaunchError },
}

/// Why a restart sequence ended without success.
#[derive(Debug)]
pub enum RestartFailure {
    Restart(RestartError),
    Check(CheckError),
}

/// How a restart sequence ended well, with the pid of the replacement.
#[derive(Debug, Clone, Copy, PartialEq, Eq, Structural)]
pub enum Completion {
    /// Relaunched; no check was asked for.
    Relaunched { pid: i32 },
    /// Relaunched, and the replacement was found running after the grace period.
    Verified { pid: i32 },
    /// The first replacement was not found; this pid is that of the one
    /// corrective relaunch, which is not checked again.
    Recovered { pid: i32 },
}

/// Where a restart sequence stands.
#[derive(Debug, Clone, Copy, PartialEq, Eq, Structural)]
pub enum Phase {
    Terminating,
    WaitingForStop,
    Relaunching,
    Verifying { pid: i32 },
    Recovering,
    Finished,
}

/// What the caller does next.
#[derive(Debug)]
pub enum Action {
    /// Send `signal` to `pid`; feed back `Event::Terminated`.
    SendSignal { pid: i32, signal: i32 },
    /// Wait for the target to stop, up to the timeout; feed back `Event::Waited`.
    WaitStop,
    /// Spawn the command with the target's captured environment; feed back `Event::Launched`.
    Launch,
    /// Sleep `after_ms`, then find the processes of the target's command name;
    /// feed back `Event::Discovered`.
    Discover { after_ms: u64 },
    /// The sequence is over.
    Finish(Result<Completion, RestartFailure>),
}

/// What came of an action.
#[derive(Debug)]
pub enum Event {
    Terminated(Result<(), KillError>),
    Waited(Result<(), WaitStopError>),
    Launched(Result<i32, LaunchError>),
    Discovered(Result<Vec<ProcessInfo>, FindProcessError>),
}

/// The event that answers the action of each phase.
pub open spec fn answers(phase: Phase, event: Event) -> bool {
    match phase {
        Phase::Terminating => event is Terminated,
        Phase::WaitingForStop => event is Waited,
        Phase::Relaunching => event is Launched,
        Phase::Verifying { .. } => event is Discovered,
        Phase::Recovering => event is Launched,
        Phase::Finished => false,
    }
}

/// Whether some snapshot in `processes` has pid `pid`.
pub open spec fn listed(processes: Seq<ProcessInfo>, pid: i32) -> bool {
    exists|i: int| 0 <= i < processes.len() && (#[trigger] processes[i])@.pid == pid
}

/// The phase and action that follow `event` in `phase`, for a target with
/// pid `pid`, when a check after relaunch is asked for or not (`verify`).
pub open spec fn next(phase: Phase, verify: bool, event: Event) -> (Phase, Action) {
    match (phase, event) {
        (Phase::Terminating, Event::Terminated(Ok(()))) => (Phase::WaitingForStop, Action::WaitStop),
        (Phase::Terminating, Event::Terminated(Err(e))) => (
            Phase::Finished,
            Action::Finish(Err(RestartFailure::Restart(RestartError::Terminate { source: e }))),
        ),
        (Phase::WaitingForStop, Event::Waited(Ok(()))) => (Phase::Relaunching, Action::Launch),
        (Phase::WaitingForStop, Event::Waited(Err(e))) => (
            Phase::Finished,
            Action::Finish(Err(RestartFailure::Restart(RestartError::WaitStop { source: e }))),
        ),
        (Phase::Relaunching, Event::Launched(Ok(p))) => if verify {
            (Phase::Verifying { pid: p }, Action::Discover { after_ms: GRACE_PERIOD_MS })
        } else {
            (Phase::Finished, Action::Finish(Ok(Completion::Relaunched { pid: p })))
        },
        (Phase::Relaunching, Event::Launched(Err(e))) => (
            Phase::Finished,
            Action::Finish(Err(RestartFailure::Restart(RestartError::LaunchProcess { source: e }))),
        ),
        (Phase::Verifying { pid }, Event::Discovered(Ok(v))) => if listed(v@, pid) {
            (Phase::Finished, Action::Finish(Ok(Completion::Verified { pid })))
        } else {
            (Phase::Recovering, Action::Launch)
        },
        (Phase::Verifying { .. }, Event::Discovered(Err(e))) => (
            Phase::Finished,
            Action::Finish(Err(RestartFailure::Check(CheckError::CheckFindProcesses { source: e }))),
        ),
        (Phase::Recovering, Event::Launched(Ok(p))) => (
            Phase::Finished,
            Action::Finish(Ok(Completion::Recovered { pid: p })),
        ),
        (Phase::Recovering, Event::Launched(Err(e))) => (
            Phase::Finished,
            Action::Finish(Err(RestartFailure::Check(CheckError::CheckLaunchProcess { source: e }))),
        ),
        // an event that does not answer the phase's action: excluded by `step`'s `requires`
        (_, _) => (phase, Action::WaitStop),
    }
}

/// A replacement is launched only once the wait for the old process is over
/// (stopped or timed out), or as the corrective relaunch after a check that
/// did not find the first replacement.
pub proof fn lemma_launch_follows_wait_or_check(phase: Phase, verify: bool, event: Event)
    requires
        answers(phase, event),
        next(phase, verify, event).1 is Launch,
    ensures
        (phase == Phase::WaitingForStop && event matches Event::Waited(Ok(()))) || (phase is Verifying
            && event is Discovered),
{
}

/// After the corrective relaunch the sequence is over, whatever its outcome:
/// there is no second check and no further relaunch.
pub proof fn lemma_corrective_relaunch_is_last(verify: bool, event: Event)
    requires
        answers(Phase::Recovering, event),
    ensures
        next(Phase::Recovering, verify, event).0 == Phase::Finished,
        next(Phase::Recovering, verify, event).1 is Finish,
{
}

/// A restart that fails to send the termination signal ends there, without
/// waiting or launching anything.
pub proof fn lemma_failed_termination_ends(verify: bool, e: KillError)
    ensures
        next(Phase::Terminating, verify, Event::Terminated(Err(e))).0 == Phase::Finished,
        next(Phase::Terminating, verify, Event::Terminated(Err(e))).1 is Finish,
{
}

/// Whether some snapshot in `processes` has pid `pid`.
pub fn is_listed(processes: &Vec<ProcessInfo>, pid: i32) -> (r: bool)
    ensures
        r == listed(processes@, pid),
{
    let mut i: usize = 0;
    while i < processes.len()
        invariant
            0 <= i <= processes@.len(),
            forall|j: int| 0 <= j < i ==> (#[trigger] processes@[j])@.pid != pid,
        decreases processes@.len() - i,
    {
        if processes[i].pid() == pid {
            return true;
        }
        i = i + 1;
    }
    false
}

/// A restart of one process: terminate it, wait for it to stop, relaunch
/// it with its captured environment and, if asked, check the relaunch.
pub struct Restart {
    target: ProcessInfo,
    verify: bool,
    phase: Phase,
}

impl Restart {
    pub closed spec fn target_spec(&self) -> ProcessInfo {
        self.target
    }

    pub closed spec fn verify_spec(&self) -> bool {
        self.verify
    }

    pub closed spec fn phase_spec(&self) -> Phase {
        self.phase
    }

    /// Starts the restart of `target`. The first action is always the
    /// termination signal to the target's pid.
    pub fn begin(target: ProcessInfo, verify: bool) -> (r: (Restart, Action))
        ensures
            r.0.target_spec() == target,
            r.0.verify_spec() == verify,
            r.0.phase_spec() == Phase::Terminating,
            r.1 == (Action::SendSignal { pid: target@.pid, signal: SIGTERM }),
    {
        let pid = target.pid();
        (Restart { target, verify, phase: Phase::Terminating }, Action::SendSignal { pid, signal: SIGTERM })
    }

    /// The snapshot of the process being restarted; its environment is the
    /// one the replacement gets.
    pub fn target(&self) -> (r: &ProcessInfo)
        ensures
            r == self.target_spec(),
    {
        &self.target
    }

    /// Where the sequence stands.
    pub fn phase(&self) -> (r: Phase)
        ensures
            r == self.phase_spec(),
    {
        self.phase
    }

    /// Whether `event` is the one that answers the current action.
    pub fn accepts(&self, event: &Event) -> (r: bool)
        ensures
            r == answers(self.phase_spec(), *event),
    {
        match (self.phase, event) {
            (Phase::Terminating, Event::Terminated(_)) => true,
            (Phase::WaitingForStop, Event::Waited(_)) => true,
            (Phase::Relaunching, Event::Launched(_)) => true,
            (Phase::Verifying { .. }, Event::Discovered(_)) => true,
            (Phase::Recovering, Event::Launched(_)) => true,
            _ => false,
        }
    }

    /// Moves on by what came of the last action, and hands out the next one.
    pub fn step(&mut self, event: Event) -> (a: Action)
        requires
            answers(old(self).phase_spec(), event),
        ensures
            final(self).target_spec() == old(self).target_spec(),
            final(self).verify_spec() == old(self).verify_spec(),
            (final(self).phase_spec(), a) == next(old(self).phase_spec(), old(self).verify_spec(), event),
    {
        let (phase, action) = match (self.phase, event) {
            (Phase::Terminating, Event::Terminated(Ok(()))) => (Phase::WaitingForStop, Action::WaitStop),
            (Phase::Terminating, Event::Terminated(Err(e))) => (
                Phase::Finished,
                Action::Finish(Err(RestartFailure::Restart(RestartError::Terminate { source: e }))),
            ),
            (Phase::WaitingForStop, Event::Waited(Ok(()))) => (Phase::Relaunching, Action::Launch),
            (Phase::WaitingForStop, Event::Waited(Err(e))) => (
                Phase::Finished,
                Action::Finish(Err(RestartFailure::Restart(RestartError::WaitStop { source: e }))),
            ),
            (Phase::Relaunching, Event::Launched(Ok(p))) => if self.verify {
                (Phase::Verifying { pid: p }, Action::Discover { after_ms: GRACE_PERIOD_MS })
            } else {
                (Phase::Finished, Action::Finish(Ok(Completion::Relaunched { pid: p })))
            },
            (Phase::Relaunching, Event::Launched(Err(e))) => (
                Phase::Finished,
                Action::Finish(Err(RestartFailure::Restart(RestartError::LaunchProcess { source: e }))),
            ),
            (Phase::Verifying { pid }, Event::Discovered(Ok(v))) => if is_listed(&v, pid) {
                (Phase::Finished, Action::Finish(Ok(Completion::Verified { pid })))
            } else {
                (Phase::Recovering, Action::Launch)
            },
            (Phase::Verifying { .. }, Event::Discovered(Err(e))) => (
                Phase::Finished,
                Action::Finish(Err(RestartFailure::Check(CheckError::CheckFindProcesses { source: e }))),
            ),
            (Phase::Recovering, Event::Launched(Ok(p))) => (
                Phase::Finished,
                Action::Finish(Ok(Completion::Recovered { pid: p })),
            ),
            (Phase::Recovering, Event::Launched(Err(e))) => (
                Phase::Finished,
                Action::Finish(Err(RestartFailure::Check(CheckError::CheckLaunchProcess { source: e }))),
            ),
            (phase, _) => (phase, Action::WaitStop),  // not reached: see `requires`
        };
        self.phase = phase;
        action
    }
}

} // verus!
