//! Failures of spawning a replacement process.
use vstd::prelude::*;

verus! {

#[verifier::external_type_specification]
#[verifier::external_body]
pub struct ExIoError(std::io::Error);

/// A replacement process could not be spawned.
#[derive(Debug)]
pub struct LaunchError {
    pub source: std::io::Error,
}

} // verus!
