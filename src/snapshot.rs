//! Point-in-time records of live processes, read from the process table.
use vstd::prelude::*;

verus! {

#[verifier::external_type_specification]
#[verifier::external_body]
pub struct ExProcError(procfs::ProcError);

#[verifier::external_type_specification]
#[verifier::external_body]
pub struct ExProcess(procfs::process::Process);

#[verifier::external_type_specification]
#[verifier::external_body]
pub struct ExStat(procfs::process::Stat);

/// A failed read of the process table, split by whether the process had
/// already gone (a race with its exit) or the read itself failed.
#[derive(Debug)]
pub enum ProcReadError {
    Vanished(procfs::ProcError),
    Failed(procfs::ProcError),
}

/// Relies on `procfs::ProcError`'s variants: `NotFound` is what a read of a
/// process that has exited reports.
#[verifier::external_body]
fn classify(e: procfs::ProcError) -> ProcReadError {
    match e {
        procfs::ProcError::NotFound(p) => ProcReadError::Vanished(procfs::ProcError::NotFound(p)),
        other => ProcReadError::Failed(other),
    }
}

/// Relies on `procfs::process::all_processes`: the pids of the entries of
/// `/proc`, or the error met on an entry. Each opened entry is dropped at
/// once, so no descriptors are held.
#[verifier::external_body]
fn list_pids() -> Result<Vec<Result<i32, procfs::ProcError>>, procfs::ProcError> {
    match procfs::process::all_processes() {
        Ok(entries) => Ok(entries.map(|e| e.map(|p| p.pid())).collect()),
        Err(e) => Err(e),
    }
}

/// Relies on `procfs::process::Process::new`: opens `/proc/<pid>`.
#[verifier::external_body]
pub(crate) fn open_process(pid: i32) -> Result<procfs::process::Process, procfs::ProcError> {
    procfs::process::Process::new(pid)
}

/// Relies on `procfs::process::Process::stat`: parses `/proc/<pid>/stat`.
#[verifier::external_body]
pub(crate) fn process_stat(p: &procfs::process::Process) -> Result<procfs::process::Stat, procfs::ProcError> {
    p.stat()
}

/// Relies on `procfs::process::Stat`'s fields `comm`, `rss` (in pages) and
/// `starttime` (clock ticks after boot).
#[verifier::external_body]
pub(crate) fn stat_fields(s: &procfs::process::Stat) -> (String, u64, u64) {
    (s.comm.clone(), s.rss, s.starttime)
}

/// Relies on `procfs::process::Process::environ`: the variables of
/// `/proc/<pid>/environ` as a `HashMap`, whose names are distinct; each name
/// and value is handed out as its raw bytes.
#[verifier::external_body]
fn process_environ(p: &procfs::process::Process) -> (r: Result<Vec<(Vec<u8>, Vec<u8>)>, procfs::ProcError>)
    ensures
        r matches Ok(env) ==> distinct_names(env@),
{
    let vars = p.environ()?;
    Ok(vars.into_iter().map(|(k, v)| (k.into_encoded_bytes(), v.into_encoded_bytes())).collect())
}

/// No two variables of `env` have the same name.
pub open spec fn distinct_names(env: Seq<(Vec<u8>, Vec<u8>)>) -> bool {
    forall|i: int, j: int| 0 <= i < j < env.len() ==> (#[trigger] env[i]).0@ != (#[trigger] env[j]).0@
}

/// What a snapshot holds, as plain values.
pub struct SnapshotView {
    pub pid: i32,
    pub command: Seq<char>,
    pub rss: u64,
    pub start_time: u64,
    pub env: Seq<(Vec<u8>, Vec<u8>)>,
}

/// One process instance as seen at one instant. The pair `(pid, start_time)`
/// identifies the instance; the pid alone does not, as pids are reused.
#[derive(Debug)]
pub struct ProcessInfo {
    pid: i32,
    rss: u64,
    env: Vec<(Vec<u8>, Vec<u8>)>,
    start_time: u64,
    command: String,
}

impl View for ProcessInfo {
    type V = SnapshotView;

    closed spec fn view(&self) -> SnapshotView {
        SnapshotView {
            pid: self.pid,
            command: self.command@,
            rss: self.rss,
            start_time: self.start_time,
            env: self.env@,
        }
    }
}

impl ProcessInfo {
    /// A snapshot of the given facts. Variable names in `env` are distinct.
    pub fn new(pid: i32, command: String, rss: u64, start_time: u64, env: Vec<(Vec<u8>, Vec<u8>)>) -> (r: Self)
        requires
            distinct_names(env@),
        ensures
            r@ == (SnapshotView { pid, command: command@, rss, start_time, env: env@ }),
    {
        ProcessInfo { pid, rss, env, start_time, command }
    }

    /// PID of the process.
    pub fn pid(&self) -> (r: i32)
        ensures
            r == self@.pid,
    {
        self.pid
    }

    /// Environment variables of the process, as captured: pairs of name and
    /// value bytes, names distinct.
    pub fn env(&self) -> (r: &Vec<(Vec<u8>, Vec<u8>)>)
        ensures
            r@ == self@.env,
    {
        &self.env
    }

    /// Short executable name as the process table reports it.
    pub fn command(&self) -> (r: &str)
        ensures
            r@ == self@.command,
    {
        self.command.as_str()
    }

    /// Resident set size in bytes.
    pub fn rss(&self) -> (r: u64)
        ensures
            r == self@.rss,
    {
        self.rss
    }

    /// Start time of the process, in clock ticks after boot.
    pub fn start_time(&self) -> (r: u64)
        ensures
            r == self@.start_time,
    {
        self.start_time
    }
}

/// Why the process table could not be read.
#[derive(Debug)]
pub enum FindProcessError {
    GetProcessList { source: procfs::ProcError },
    GetProcess { source: procfs::ProcError },
    GetEnv { source: procfs::ProcError, pid: i32 },
    GetStat { source: procfs::ProcError, pid: i32 },
    RssBytes { pid: i32, pages: u64 },
}

/// `pages` memory pages of `page_size` bytes each, in bytes; `None` when
/// that does not fit in a `u64`.
pub fn rss_in_bytes(pages: u64, page_size: u64) -> (r: Option<u64>)
    ensures
        r is Some <==> pages * page_size <= u64::MAX,
        r matches Some(b) ==> b == pages * page_size,
{
    pages.checked_mul(page_size)
}

/// What was read of one entry of the process table, as plain values.
#[derive(Debug)]
pub enum EntryReading {
    /// The process exited before its details could be read.
    Vanished,
    /// The listing could not open the entry.
    ListFailed { source: procfs::ProcError },
    /// The entry at `pid` could not be opened, or its `stat` could not be read.
    StatFailed { pid: i32, source: procfs::ProcError },
    /// The entry's environment could not be read.
    EnvFailed { pid: i32, source: procfs::ProcError },
    /// The entry's facts: its name, resident size in pages, start time, and
    /// its environment when it was read (only for the name looked for).
    Read { pid: i32, comm: String, pages: u64, start_time: u64, env: Option<Vec<(Vec<u8>, Vec<u8>)>> },
}

/// A reading that holds an environment exactly when the entry has the name
/// looked for, and then one with distinct names.
pub open spec fn well_formed_reading(e: EntryReading, name: Seq<char>) -> bool {
    match e {
        EntryReading::Read { comm, env, .. } => (comm@ == name <==> env is Some) && (env matches Some(v)
            ==> distinct_names(v@)),
        _ => true,
    }
}

/// What one reading contributes to discovery: a snapshot, nothing (another
/// name, or a process that vanished), or the error of a failed read.
pub open spec fn entry_result(e: EntryReading, name: Seq<char>, page_size: u64) -> Result<
    Option<SnapshotView>,
    FindProcessError,
> {
    match e {
        EntryReading::Vanished => Ok(None),
        EntryReading::ListFailed { source } => Err(FindProcessError::GetProcess { source }),
        EntryReading::StatFailed { pid, source } => Err(FindProcessError::GetStat { source, pid }),
        EntryReading::EnvFailed { pid, source } => Err(FindProcessError::GetEnv { source, pid }),
        EntryReading::Read { pid, comm, pages, start_time, env } => if comm@ != name {
            Ok(None)
        } else if pages * page_size > u64::MAX {
            Err(FindProcessError::RssBytes { pid, pages })
        } else {
            Ok(
                Some(
                    SnapshotView {
                        pid,
                        command: comm@,
                        rss: (pages * page_size) as u64,
                        start_time,
                        env: env.unwrap()@,
                    },
                ),
            )
        },
    }
}

/// Discovery over the readings in order: the snapshots of the matching
/// entries, in order, or the error of the first failed read.
pub open spec fn collected(rs: Seq<EntryReading>, name: Seq<char>, page_size: u64) -> Result<
    Seq<SnapshotView>,
    FindProcessError,
>
    decreases rs.len(),
{
    if rs.len() == 0 {
        Ok(Seq::empty())
    } else {
        match collected(rs.drop_last(), name, page_size) {
            Err(e) => Err(e),
            Ok(found) => match entry_result(rs.last(), name, page_size) {
                Err(e) => Err(e),
                Ok(None) => Ok(found),
                Ok(Some(s)) => Ok(found.push(s)),
            },
        }
    }
}

/// The views of a sequence of snapshots.
pub open spec fn views(v: Seq<ProcessInfo>) -> Seq<SnapshotView> {
    v.map_values(|p: ProcessInfo| p@)
}

/// Once a prefix of the readings fails, every longer prefix fails the same way.
proof fn lemma_error_persists(rs: Seq<EntryReading>, name: Seq<char>, page_size: u64, k: int, m: int)
    requires
        0 <= k <= m <= rs.len(),
        collected(rs.subrange(0, k), name, page_size) is Err,
    ensures
        collected(rs.subrange(0, m), name, page_size) == collected(rs.subrange(0, k), name, page_size),
    decreases m - k,
{
    if m > k {
        lemma_error_persists(rs, name, page_size, k, m - 1);
        assert(rs.subrange(0, m).drop_last() =~= rs.subrange(0, m - 1));
    }
}

/// When no reading has the name looked for and none failed, discovery
/// succeeds with no snapshot: absence alone is never an error.
pub proof fn lemma_no_match_is_empty(rs: Seq<EntryReading>, name: Seq<char>, page_size: u64)
    requires
        forall|i: int|
            0 <= i < rs.len() ==> (#[trigger] rs[i]) is Vanished || (rs[i] matches EntryReading::Read {
                comm,
                ..
            } && comm@ != name),
    ensures
        collected(rs, name, page_size) == Ok::<Seq<SnapshotView>, FindProcessError>(Seq::empty()),
    decreases rs.len(),
{
    if rs.len() > 0 {
        let init = rs.drop_last();
        assert forall|i: int| 0 <= i < init.len() implies (#[trigger] init[i]) is Vanished || (
        init[i] matches EntryReading::Read { comm, .. } && comm@ != name) by {
            assert(init[i] == rs[i]);
        }
        lemma_no_match_is_empty(init, name, page_size);
        assert(rs.last() == rs[rs.len() - 1]);
    }
}

/// Discovery fails only where some read failed, or where a matching entry's
/// size in bytes does not fit in a `u64`; never on the number of matches.
pub proof fn lemma_error_needs_failed_read(rs: Seq<EntryReading>, name: Seq<char>, page_size: u64)
    requires
        collected(rs, name, page_size) is Err,
    ensures
        exists|i: int|
            0 <= i < rs.len() && (#[trigger] entry_result(rs[i], name, page_size)) is Err,
    decreases rs.len(),
{
    let init = rs.drop_last();
    if collected(init, name, page_size) is Err {
        lemma_error_needs_failed_read(init, name, page_size);
        let i = choose|i: int| 0 <= i < init.len() && (#[trigger] entry_result(init[i], name, page_size)) is Err;
        assert(init[i] == rs[i]);
    } else {
        assert(entry_result(rs[rs.len() - 1], name, page_size) is Err);
    }
}

/// Discovery over readings taken in order: the snapshots of the entries
/// that have the name `cmd_name`, in order, with their resident size turned
/// from pages of `page_size` bytes into bytes; entries that vanished are
/// skipped; the first failed read ends it with that read's error.
pub fn collect_matches(readings: Vec<EntryReading>, cmd_name: &str, page_size: u64) -> (r: Result<
    Vec<ProcessInfo>,
    FindProcessError,
>)
    requires
        forall|i: int| 0 <= i < readings@.len() ==> well_formed_reading(#[trigger] readings@[i], cmd_name@),
    ensures
        r matches Ok(v) ==> collected(readings@, cmd_name@, page_size) == Ok::<
            Seq<SnapshotView>,
            FindProcessError,
        >(views(v@)),
        r matches Err(e) ==> collected(readings@, cmd_name@, page_size) == Err::<
            Seq<SnapshotView>,
            FindProcessError,
        >(e),
{
    let wanted = cmd_name.to_string();
    proof {
        broadcast use vstd::string::group_string_axioms;
    }
    let ghost all = readings@;
    let mut rest = readings;
    let mut found: Vec<ProcessInfo> = Vec::new();
    let ghost mut k: int = 0;
    proof {
        assert(all.subrange(0, all.len() as int) =~= all);
        assert(views(found@) =~= Seq::<SnapshotView>::empty());
    }
    while rest.len() > 0
        invariant
            wanted@ == cmd_name@,
            all == readings@,
            0 <= k <= all.len(),
            rest@ == all.subrange(k, all.len() as int),
            forall|i: int| 0 <= i < all.len() ==> well_formed_reading(#[trigger] all[i], cmd_name@),
            collected(all.subrange(0, k), cmd_name@, page_size) == Ok::<Seq<SnapshotView>, FindProcessError>(
                views(found@),
            ),
        decreases rest@.len(),
    {
        let entry = rest.remove(0);
        proof {
            assert(entry == all[k]);
            assert(all.subrange(0, k + 1).drop_last() =~= all.subrange(0, k));
            assert(all.subrange(0, k + 1).last() == all[k]);
        }
        let failure = match entry {
            EntryReading::Vanished => None,
            EntryReading::ListFailed { source } => Some(FindProcessError::GetProcess { source }),
            EntryReading::StatFailed { pid, source } => Some(FindProcessError::GetStat { source, pid }),
            EntryReading::EnvFailed { pid, source } => Some(FindProcessError::GetEnv { source, pid }),
            EntryReading::Read { pid, comm, pages, start_time, env } => {
                if comm != wanted {
                    None
                } else {
                    match rss_in_bytes(pages, page_size) {
                        None => Some(FindProcessError::RssBytes { pid, pages }),
                        Some(rss) => {
                            let env = env.unwrap();
                            let info = ProcessInfo::new(pid, comm, rss, start_time, env);
                            let ghost before = found@;
                            let ghost iv = info@;
                            found.push(info);
                            proof {
                                assert(views(found@) =~= views(before).push(iv));
                            }
                            None
                        },
                    }
                }
            },
        };
        proof {
            assert(failure matches Some(e) ==> collected(all.subrange(0, k + 1), cmd_name@, page_size) == Err::<
                Seq<SnapshotView>,
                FindProcessError,
            >(e));
            k = k + 1;
        }
        if let Some(e) = failure {
            proof {
                lemma_error_persists(all, cmd_name@, page_size, k, all.len() as int);
                assert(all.subrange(0, all.len() as int) =~= all);
            }
            return Err(e);
        }
    }
    proof {
        assert(all.subrange(0, k) =~= all);
    }
    Ok(found)
}

/// Reads the entry of the process table at `pid`: its `stat`, and its
/// environment when its name is `cmd_name`. The process is let go before
/// this returns.
fn read_entry(pid: i32, cmd_name: &String) -> (r: EntryReading)
    ensures
        well_formed_reading(r, cmd_name@),
        r matches EntryReading::Read { pid: p, .. } ==> p == pid,
        r matches EntryReading::StatFailed { pid: p, .. } ==> p == pid,
        r matches EntryReading::EnvFailed { pid: p, .. } ==> p == pid,
{
    let process = match open_process(pid) {
        Ok(p) => p,
        Err(e) => {
            return match classify(e) {
                ProcReadError::Vanished(_) => EntryReading::Vanished,
                ProcReadError::Failed(source) => EntryReading::StatFailed { pid, source },
            };
        },
    };
    let stat = match process_stat(&process) {
        Ok(s) => s,
        Err(e) => {
            return match classify(e) {
                ProcReadError::Vanished(_) => EntryReading::Vanished,
                ProcReadError::Failed(source) => EntryReading::StatFailed { pid, source },
            };
        },
    };
    let (comm, pages, start_time) = stat_fields(&stat);
    if comm != *cmd_name {
        return EntryReading::Read { pid, comm, pages, start_time, env: None };
    }
    match process_environ(&process) {
        Ok(env) => EntryReading::Read { pid, comm, pages, start_time, env: Some(env) },
        Err(e) => match classify(e) {
            ProcReadError::Vanished(_) => EntryReading::Vanished,
            ProcReadError::Failed(source) => EntryReading::EnvFailed { pid, source },
        },
    }
}

/// Every live process whose command name is exactly `cmd_name`, with its
/// resident memory converted from pages of `page_size` bytes to bytes.
/// The table is listed first (pids only), then each entry is read in turn;
/// what comes out of the readings is `collect_matches`'s result.
pub fn find_processes(cmd_name: &str, page_size: u64) -> (r: Result<Vec<ProcessInfo>, FindProcessError>)
    ensures
        r matches Ok(v) ==> exists|rs: Seq<EntryReading>|
            #[trigger] collected(rs, cmd_name@, page_size) == Ok::<Seq<SnapshotView>, FindProcessError>(
                views(v@),
            ),
        r matches Err(e) ==> e is GetProcessList || exists|rs: Seq<EntryReading>|
            #[trigger] collected(rs, cmd_name@, page_size) == Err::<Seq<SnapshotView>, FindProcessError>(e),
{
    let pids = match list_pids() {
        Ok(pids) => pids,
        Err(source) => return Err(FindProcessError::GetProcessList { source }),
    };
    let wanted = cmd_name.to_string();
    proof {
        broadcast use vstd::string::group_string_axioms;
    }
    let mut readings: Vec<EntryReading> = Vec::new();
    for listed in pids
        invariant
            wanted@ == cmd_name@,
            forall|i: int| 0 <= i < readings@.len() ==> well_formed_reading(#[trigger] readings@[i], cmd_name@),
    {
        let reading = match listed {
            Ok(pid) => read_entry(pid, &wanted),
            Err(e) => match classify(e) {
                ProcReadError::Vanished(_) => EntryReading::Vanished,
                ProcReadError::Failed(source) => EntryReading::ListFailed { source },
            },
        };
        readings.push(reading);
    }
    let ghost rs = readings@;
    let r = collect_matches(readings, cmd_name, page_size);
    proof {
        if r is Ok {
            assert(collected(rs, cmd_name@, page_size) is Ok);
        } else {
            assert(collected(rs, cmd_name@, page_size) is Err);
        }
    }
    r
}

} // verus!
