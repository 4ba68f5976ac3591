use vstd::prelude::*;

verus! {

/// Why a server could not be put together. These errors arise before any
/// connection exists.
#[derive(Debug, PartialEq, Eq)]
pub enum ConstructionError {
    /// A route with this path is registered already.
    DuplicatePath(String),
    /// The heartbeat timeout is less than twice the heartbeat interval.
    TimeoutTooShort,
}

} // verus!
