//! The settings of one run of the watchdog.
use vstd::prelude::*;

verus! {

#[verifier::external_type_specification]
#[verifier::external_body]
pub struct ExPathBuf(std::path::PathBuf);

/// Settings of one run: which process to watch, its memory limit, and how
/// to replace it.
#[derive(Debug)]
pub struct Args {
    /// Command name of the process (`comm` in `/proc/<pid>/stat`).
    pub name: String,
    /// Resident set size limit, in bytes.
    pub threshold: u64,
    /// How long to wait for the process to stop after the termination signal.
    pub timeout: std::time::Duration,
    /// Path of the logging configuration.
    pub log_config: std::path::PathBuf,
    /// Whether to check that the relaunched process is running.
    pub check: bool,
    /// Command that relaunches the process.
    pub command: String,
    /// Arguments of that command.
    pub args: Vec<String>,
}

} // verus!
