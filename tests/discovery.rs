use procwatch::snapshot::{collect_matches, EntryReading, FindProcessError};

fn read(pid: i32, comm: &str, pages: u64, start_time: u64, env: Option<Vec<(Vec<u8>, Vec<u8>)>>) -> EntryReading {
    EntryReading::Read { pid, comm: comm.to_string(), pages, start_time, env }
}

fn env(v: &str) -> Option<Vec<(Vec<u8>, Vec<u8>)>> {
    Some(vec![(b"ID".to_vec(), v.as_bytes().to_vec())])
}

fn denied() -> procfs::ProcError {
    procfs::ProcError::PermissionDenied(None)
}

#[test]
fn readings_without_match_give_empty_set() {
    let rs = vec![read(1, "init", 10, 1, None), EntryReading::Vanished, read(2, "bash", 5, 2, None)];
    let found = collect_matches(rs, "server", 4096).unwrap();
    assert!(found.is_empty());
    assert!(collect_matches(vec![], "server", 4096).unwrap().is_empty());
}

#[test]
fn every_match_is_kept_in_order_with_bytes() {
    let rs = vec![
        read(7, "server", 3, 70, env("a")),
        read(8, "other", 1, 80, None),
        EntryReading::Vanished,
        read(9, "server", 24_415, 90, env("b")),
    ];
    let found = collect_matches(rs, "server", 4096).unwrap();
    assert_eq!(found.len(), 2);
    assert_eq!((found[0].pid(), found[0].rss(), found[0].start_time()), (7, 12_288, 70));
    assert_eq!((found[1].pid(), found[1].rss(), found[1].start_time()), (9, 100_003_840, 90));
    assert_eq!(found[0].command(), "server");
    assert_eq!(found[1].env(), &env("b").unwrap());
}

#[test]
fn name_must_match_exactly() {
    let rs = vec![read(1, "serverx", 1, 1, None), read(2, "serve", 1, 1, None)];
    assert!(collect_matches(rs, "server", 4096).unwrap().is_empty());
}

#[test]
fn failed_reads_name_their_pid() {
    let r = collect_matches(vec![EntryReading::StatFailed { pid: 5, source: denied() }], "server", 4096);
    assert!(matches!(r, Err(FindProcessError::GetStat { pid: 5, .. })));
    let r = collect_matches(vec![EntryReading::EnvFailed { pid: 6, source: denied() }], "server", 4096);
    assert!(matches!(r, Err(FindProcessError::GetEnv { pid: 6, .. })));
    let r = collect_matches(vec![EntryReading::ListFailed { source: denied() }], "server", 4096);
    assert!(matches!(r, Err(FindProcessError::GetProcess { .. })));
}

#[test]
fn first_failure_ends_discovery() {
    let rs = vec![
        read(1, "server", 1, 1, env("a")),
        EntryReading::StatFailed { pid: 2, source: denied() },
        EntryReading::EnvFailed { pid: 3, source: denied() },
    ];
    assert!(matches!(collect_matches(rs, "server", 4096), Err(FindProcessError::GetStat { pid: 2, .. })));
}

#[test]
fn oversized_match_is_an_rss_error() {
    let rs = vec![read(4, "server", u64::MAX, 1, env("a"))];
    assert!(matches!(collect_matches(rs, "server", 4096), Err(FindProcessError::RssBytes { pid: 4, pages: u64::MAX })));
    let rs = vec![read(4, "other", u64::MAX, 1, None)];
    assert!(collect_matches(rs, "server", 4096).unwrap().is_empty());
}
