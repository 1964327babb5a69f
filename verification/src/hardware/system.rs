//! The entry point to the hardware services of the machine.

use vstd::prelude::*;
use std::sync::Arc;
use crate::hardware::iokit::{share_iokit, IOKit};

verus! {

/// Holds the IOKit service that hardware monitors read.
pub struct System {
    io_kit: Arc<Box<dyn IOKit>>,
}

impl System {
    /// The IOKit service.
    pub closed spec fn spec_io_kit(&self) -> Arc<Box<dyn IOKit>> {
        self.io_kit
    }

    /// A system reading hardware through `io_kit`.
    pub fn new(io_kit: Arc<Box<dyn IOKit>>) -> (r: Self)
        ensures
            r.spec_io_kit() == io_kit,
    {
        System { io_kit }
    }

    /// Another handle to the IOKit service.
    pub fn io_kit(&self) -> (r: Arc<Box<dyn IOKit>>)
        ensures
            r == self.spec_io_kit(),
    {
        share_iokit(&self.io_kit)
    }
}

} // verus!
