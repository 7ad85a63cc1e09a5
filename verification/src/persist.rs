//! Advisory persistence notifications from the stack to the storage task.

use vstd::prelude::*;

verus! {

/// Why the stack suggests an on-demand save.
#[derive(Debug, Clone, Copy, PartialEq, Eq, Structural)]
pub enum PersistRequest {
    /// The load state machines completed a download (loading to loaded).
    EtsDownloadComplete,
}

} // verus!
