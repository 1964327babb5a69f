//! Access to the hardware services of the machine.

use vstd::prelude::*;
use std::sync::Arc;
use crate::error::Error;
use crate::temperature::types::Fan;

verus! {

/// Access to IOKit hardware services.
///
/// Implementations talk to the System Management Controller; tests substitute their own.
pub trait IOKit {
    /// All fans of the machine, in SMC order.
    fn get_all_fans(&self) -> Result<Vec<Fan>, Error>;
}

/// Another handle to the same IOKit service.
///
/// Calls `<Arc as Clone>::clone`, which std documents to point to the same allocation.
#[verifier::external_body]
pub(crate) fn share_iokit(io_kit: &Arc<Box<dyn IOKit>>) -> (r: Arc<Box<dyn IOKit>>)
    ensures
        r == *io_kit,
{
    io_kit.clone()
}

} // verus!
