//! The ways an operation of the orchestrator can fail.

use vstd::prelude::*;

verus! {

/// Why an operation was aborted. There is no local recovery and no retry:
/// every failure ends the enclosing operation.
#[derive(Clone, Copy, Debug, PartialEq, Eq, Structural)]
pub enum MigrationError {
    /// The address of the workload-management endpoint is missing.
    Configuration,
    /// Enumerating the workloads, or creating a checkpoint, failed.
    Client,
    /// The session, the transfer subchannel or a remote file operation failed.
    Transfer,
    /// The archive could not be built, read or extracted.
    Archive,
}

} // verus!
