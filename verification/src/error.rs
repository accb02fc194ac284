use vstd::prelude::*;

verus! {

/// Why a table operation, a capability call or an invocation cycle failed.
#[derive(Clone, Copy, Debug, PartialEq, Eq, Structural)]
pub enum AddonError {
    /// The handle names no entry: it was never given out, or it was retired.
    InvalidHandle,
    /// The table holds as many live handles as it admits, or has no fresh
    /// handle left to give out.
    CapacityExceeded,
    /// The guest hook faulted before it returned.
    GuestTrap,
}

} // verus!
