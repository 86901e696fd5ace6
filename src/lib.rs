//! Memory-threshold watchdog: finds a process by command name, reads its
//! resident memory, and when that exceeds a threshold terminates the process
//! and relaunches it with its original environment.
//!
//! The library holds the decisions; the I/O that carries them out (sending
//! signals, spawning, sleeping) is done by the caller.

pub mod signal;
pub mod snapshot;
pub mod stop;
pub mod launch;
pub mod restart;
pub mod watch;
pub mod args;
