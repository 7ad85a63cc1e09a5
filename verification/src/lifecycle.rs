//! Stack-level lifecycle events.

use vstd::prelude::*;

verus! {

/// Events emitted when a program's run state crosses into or out of
/// RUNNING, and when the read-on-init scan has settled.
#[derive(Debug, Clone, Copy, PartialEq, Eq, Structural)]
#[non_exhaustive]
pub enum LifecycleEvent {
    /// The application program transitioned to RUNNING.
    ApplicationStarted,
    /// The application program transitioned out of RUNNING.
    ApplicationStopped,
    /// The PEI program transitioned to RUNNING.
    PeiStarted,
    /// The PEI program transitioned out of RUNNING.
    PeiStopped,
    /// The application layer's read-on-init scan has settled.
    ReadOnInitComplete,
}

} // verus!
