//! The migration capability: checkpoint, then relocate.

use crate::address::HostAddress;
use crate::step::{Event, Step};
use vstd::prelude::*;

verus! {

/// A backend that can capture the state of its workloads and relocate it to
/// another host. A driving loop calls `checkpoint` to its end, then `migrate`
/// to its end; each is advanced one event at a time, as [`crate::step`]
/// describes, and only one operation is in flight at a time.
pub trait Migration {
    /// One decision of the operation that captures the current state of all
    /// managed workloads into the backend's registry. Each finished run
    /// replaces the registry of the run before.
    fn checkpoint(&mut self, event: Event) -> Step<()>;

    /// One decision of the operation that transfers the captured state to
    /// the host `ip_addr`. It does not ask whether `checkpoint` ran before.
    fn migrate(&mut self, ip_addr: HostAddress, event: Event) -> Step<()>;
}

} // verus!
