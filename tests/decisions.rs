use procwatch::launch::LaunchError;
use procwatch::restart::{Action, Completion, Event, Phase, Restart, RestartError, RestartFailure, CheckError, is_listed, GRACE_PERIOD_MS};
use procwatch::signal::{kill_outcome, KillError, SIGTERM, EINVAL, EPERM, ESRCH};
use procwatch::snapshot::{ProcessInfo, rss_in_bytes};
use procwatch::stop::{next_wait_step, Liveness, WaitStep, WaitStopError};
use procwatch::watch::{decide, exceeds_threshold, select_target, TargetError};

fn env_of_target() -> Vec<(Vec<u8>, Vec<u8>)> {
    vec![
        (b"PATH".to_vec(), b"/usr/bin".to_vec()),
        (b"MODE".to_vec(), b"prod\xff".to_vec()),
    ]
}

fn snapshot(pid: i32, rss: u64, start_time: u64) -> ProcessInfo {
    ProcessInfo::new(pid, "server".to_string(), rss, start_time, env_of_target())
}

fn launch_error() -> LaunchError {
    LaunchError { source: std::io::Error::new(std::io::ErrorKind::NotFound, "no such file") }
}

#[test]
fn under_threshold_takes_no_action() {
    let r = decide(vec![snapshot(100, 50_000_000, 7)], 100_000_000);
    assert!(matches!(r, Ok(None)));
}

#[test]
fn threshold_is_strictly_exceeded() {
    assert!(exceeds_threshold(100_000_001, 100_000_000));
    assert!(!exceeds_threshold(100_000_000, 100_000_000));
    assert!(!exceeds_threshold(0, 0));
    let r = decide(vec![snapshot(100, 100_000_000, 7)], 100_000_000);
    assert!(matches!(r, Ok(None)));
}

#[test]
fn two_matches_are_ambiguous() {
    let r = decide(vec![snapshot(100, 100_000_000, 7), snapshot(101, 10, 9)], 50_000_000);
    match r {
        Err(TargetError::MultipleFound { processes }) => {
            assert_eq!(processes.len(), 2);
            assert_eq!(processes[0].pid(), 100);
            assert_eq!(processes[1].pid(), 101);
        }
        other => panic!("unexpected: {:?}", other),
    }
}

#[test]
fn no_match_is_not_found() {
    assert!(matches!(select_target(vec![]), Err(TargetError::ProcessNotFound)));
    assert!(matches!(decide(vec![], 1), Err(TargetError::ProcessNotFound)));
}

#[test]
fn single_match_is_selected() {
    let t = select_target(vec![snapshot(5, 1, 2)]).unwrap();
    assert_eq!(t.pid(), 5);
    assert_eq!(t.command(), "server");
    assert_eq!(t.rss(), 1);
    assert_eq!(t.start_time(), 2);
    assert_eq!(t.env(), &env_of_target());
}

#[test]
fn over_threshold_restarts_with_original_environment() {
    let target = decide(vec![snapshot(100, 100_000_000, 7)], 50_000_000).unwrap().unwrap();
    let (mut restart, first) = Restart::begin(target, false);
    assert!(matches!(first, Action::SendSignal { pid: 100, signal } if signal == SIGTERM));
    let a = restart.step(Event::Terminated(Ok(())));
    assert!(matches!(a, Action::WaitStop));
    // the process exits within two seconds: the probe finds its pid free
    let stopped = restart.target().has_stopped(Err(KillError::NotFound { pid: 100 })).unwrap();
    assert!(stopped);
    assert_eq!(next_wait_step(Ok(stopped), 2_000, 60_000).unwrap(), WaitStep::Stopped);
    let a = restart.step(Event::Waited(Ok(())));
    assert!(matches!(a, Action::Launch));
    assert_eq!(restart.target().env(), &env_of_target());
    let a = restart.step(Event::Launched(Ok(200)));
    assert!(matches!(a, Action::Finish(Ok(Completion::Relaunched { pid: 200 }))));
    assert_eq!(restart.phase(), Phase::Finished);
}

#[test]
fn ignored_termination_times_out_and_still_relaunches() {
    let target = snapshot(100, 100_000_000, 7);
    let (mut restart, _) = Restart::begin(target, false);
    restart.step(Event::Terminated(Ok(())));
    let stopped = restart.target().stopped_given(Liveness::Running { start_time: 7 });
    assert!(!stopped);
    assert_eq!(next_wait_step(Ok(stopped), 30_000, 60_000).unwrap(), WaitStep::Poll);
    assert_eq!(next_wait_step(Ok(stopped), 60_000, 60_000).unwrap(), WaitStep::Poll);
    assert_eq!(next_wait_step(Ok(stopped), 60_001, 60_000).unwrap(), WaitStep::TimedOut);
    let a = restart.step(Event::Waited(Ok(())));
    assert!(matches!(a, Action::Launch));
    let a = restart.step(Event::Launched(Ok(300)));
    assert!(matches!(a, Action::Finish(Ok(Completion::Relaunched { pid: 300 }))));
}

#[test]
fn crashed_replacement_gets_one_corrective_relaunch() {
    let (mut restart, _) = Restart::begin(snapshot(100, 100_000_000, 7), true);
    restart.step(Event::Terminated(Ok(())));
    restart.step(Event::Waited(Ok(())));
    let a = restart.step(Event::Launched(Ok(200)));
    assert!(matches!(a, Action::Discover { after_ms } if after_ms == GRACE_PERIOD_MS));
    assert_eq!(GRACE_PERIOD_MS, 5_000);
    assert_eq!(restart.phase(), Phase::Verifying { pid: 200 });
    // the replacement crashed: only an unrelated process carries the name
    let a = restart.step(Event::Discovered(Ok(vec![snapshot(150, 10, 3)])));
    assert!(matches!(a, Action::Launch));
    assert_eq!(restart.phase(), Phase::Recovering);
    let a = restart.step(Event::Launched(Ok(201)));
    assert!(matches!(a, Action::Finish(Ok(Completion::Recovered { pid: 201 }))));
    assert_eq!(restart.phase(), Phase::Finished);
    assert!(!restart.accepts(&Event::Discovered(Ok(vec![]))));
    assert!(!restart.accepts(&Event::Launched(Ok(202))));
}

#[test]
fn running_replacement_is_verified() {
    let (mut restart, _) = Restart::begin(snapshot(100, 100_000_000, 7), true);
    restart.step(Event::Terminated(Ok(())));
    restart.step(Event::Waited(Ok(())));
    restart.step(Event::Launched(Ok(200)));
    let a = restart.step(Event::Discovered(Ok(vec![snapshot(150, 10, 3), snapshot(200, 10, 9)])));
    assert!(matches!(a, Action::Finish(Ok(Completion::Verified { pid: 200 }))));
}

#[test]
fn failed_corrective_relaunch_is_a_check_error() {
    let (mut restart, _) = Restart::begin(snapshot(100, 100_000_000, 7), true);
    restart.step(Event::Terminated(Ok(())));
    restart.step(Event::Waited(Ok(())));
    restart.step(Event::Launched(Ok(200)));
    restart.step(Event::Discovered(Ok(vec![])));
    let a = restart.step(Event::Launched(Err(launch_error())));
    assert!(matches!(a, Action::Finish(Err(RestartFailure::Check(CheckError::CheckLaunchProcess { .. })))));
}

#[test]
fn failed_discovery_is_a_check_error() {
    let (mut restart, _) = Restart::begin(snapshot(100, 100_000_000, 7), true);
    restart.step(Event::Terminated(Ok(())));
    restart.step(Event::Waited(Ok(())));
    restart.step(Event::Launched(Ok(200)));
    let err = procwatch::snapshot::FindProcessError::GetProcessList { source: procfs::ProcError::Other("x".to_string()) };
    let a = restart.step(Event::Discovered(Err(err)));
    assert!(matches!(a, Action::Finish(Err(RestartFailure::Check(CheckError::CheckFindProcesses { .. })))));
}

#[test]
fn failed_termination_stops_the_restart() {
    let (mut restart, _) = Restart::begin(snapshot(100, 100_000_000, 7), true);
    let a = restart.step(Event::Terminated(Err(KillError::PermissionDenied { signal: SIGTERM, pid: 100 })));
    assert!(matches!(
        a,
        Action::Finish(Err(RestartFailure::Restart(RestartError::Terminate { source: KillError::PermissionDenied { pid: 100, .. } })))
    ));
    assert_eq!(restart.phase(), Phase::Finished);
}

#[test]
fn failed_wait_stops_the_restart() {
    let (mut restart, _) = Restart::begin(snapshot(100, 100_000_000, 7), false);
    restart.step(Event::Terminated(Ok(())));
    let e = WaitStopError::SendSignal0 { pid: 100, source: KillError::PermissionDenied { signal: 0, pid: 100 } };
    let a = restart.step(Event::Waited(Err(e)));
    assert!(matches!(a, Action::Finish(Err(RestartFailure::Restart(RestartError::WaitStop { .. })))));
}

#[test]
fn failed_relaunch_stops_the_restart() {
    let (mut restart, _) = Restart::begin(snapshot(100, 100_000_000, 7), true);
    restart.step(Event::Terminated(Ok(())));
    restart.step(Event::Waited(Ok(())));
    let a = restart.step(Event::Launched(Err(launch_error())));
    assert!(matches!(a, Action::Finish(Err(RestartFailure::Restart(RestartError::LaunchProcess { .. })))));
}

#[test]
fn events_out_of_turn_are_refused() {
    let (restart, _) = Restart::begin(snapshot(100, 1, 7), false);
    assert!(restart.accepts(&Event::Terminated(Ok(()))));
    assert!(!restart.accepts(&Event::Waited(Ok(()))));
    assert!(!restart.accepts(&Event::Launched(Ok(1))));
}

#[test]
fn listed_pids() {
    let v = vec![snapshot(1, 0, 0), snapshot(2, 0, 0)];
    assert!(is_listed(&v, 2));
    assert!(!is_listed(&v, 3));
    assert!(!is_listed(&vec![], 1));
}

#[test]
fn kill_results_map_to_outcomes() {
    assert_eq!(kill_outcome(10, 0, 0, 0), Ok(()));
    assert_eq!(kill_outcome(10, 99, -1, EINVAL), Err(KillError::InvalidSignal { signal: 99 }));
    assert_eq!(kill_outcome(10, SIGTERM, -1, EPERM), Err(KillError::PermissionDenied { signal: SIGTERM, pid: 10 }));
    assert_eq!(kill_outcome(10, 0, -1, ESRCH), Err(KillError::NotFound { pid: 10 }));
    assert_eq!((SIGTERM, EINVAL, EPERM, ESRCH), (libc::SIGTERM, libc::EINVAL, libc::EPERM, libc::ESRCH));
}

#[test]
fn stop_verdicts() {
    let s = snapshot(100, 1, 7);
    assert!(s.stopped_given(Liveness::Gone));
    assert!(s.stopped_given(Liveness::Running { start_time: 8 }));
    assert!(!s.stopped_given(Liveness::Running { start_time: 7 }));
    assert_eq!(s.has_stopped(Err(KillError::NotFound { pid: 100 })).unwrap(), true);
    let e = s.has_stopped(Err(KillError::PermissionDenied { signal: 0, pid: 100 }));
    assert!(matches!(e, Err(WaitStopError::SendSignal0 { pid: 100, source: KillError::PermissionDenied { .. } })));
    let e = s.has_stopped(Err(KillError::InvalidSignal { signal: 0 }));
    assert!(matches!(e, Err(WaitStopError::SendSignal0 { pid: 100, source: KillError::InvalidSignal { .. } })));
}

#[test]
fn repeated_probes_of_unchanged_process_keep_polling() {
    let s = snapshot(100, 1, 7);
    for elapsed in [0u64, 1_000, 2_000, 59_000, 60_000] {
        let stopped = s.stopped_given(Liveness::Running { start_time: 7 });
        assert!(!stopped);
        assert_eq!(next_wait_step(Ok(stopped), elapsed, 60_000).unwrap(), WaitStep::Poll);
    }
}

#[test]
fn reused_pid_ends_the_wait_at_once() {
    let s = snapshot(100, 1, 7);
    let stopped = s.stopped_given(Liveness::Running { start_time: 12_345 });
    assert!(stopped);
    assert_eq!(next_wait_step(Ok(stopped), 0, 60_000).unwrap(), WaitStep::Stopped);
}

#[test]
fn rss_pages_to_bytes() {
    assert_eq!(rss_in_bytes(3, 4096), Some(12_288));
    assert_eq!(rss_in_bytes(0, 4096), Some(0));
    assert_eq!(rss_in_bytes(24_415, 4096), Some(100_003_840));
    assert_eq!(rss_in_bytes(u64::MAX, 2), None);
    assert_eq!(rss_in_bytes(u64::MAX, 1), Some(u64::MAX));
}

#[test]
fn failed_probe_ends_the_wait_with_its_error() {
    let e = WaitStopError::GetProcessStats { pid: 4, source: procfs::ProcError::Other("x".to_string()) };
    assert!(matches!(next_wait_step(Err(e), 0, 60_000), Err(WaitStopError::GetProcessStats { pid: 4, .. })));
}
