//! IOKit return codes.

use vstd::prelude::*;

verus! {

/// Success.
pub const K_IORETURN_SUCCESS: i32 = 0;
/// General error.
pub const K_IORETURN_ERROR: i32 = 0x2bc;
/// Timeout.
pub const K_IORETURN_TIMEOUT: i32 = 0x2d0;

} // verus!
