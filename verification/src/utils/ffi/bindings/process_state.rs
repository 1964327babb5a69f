//! Process state constants.

use vstd::prelude::*;

verus! {

/// Process being created by fork.
pub const P_SIDL: u8 = 1;
/// Running.
pub const P_SRUN: u8 = 2;
/// Sleeping on an address.
pub const P_SSLEEP: u8 = 3;
/// Process debugging or suspension.
pub const P_SSTOP: u8 = 4;
/// Awaiting collection by parent.
pub const P_SZOMB: u8 = 5;

} // verus!
