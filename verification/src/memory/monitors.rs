//! Monitors of memory usage and swap.

use vstd::prelude::*;
use std::sync::Arc;
use crate::error::Error;
use crate::hardware::iokit::IOKit;
use crate::memory::types::{
    memory_amounts, spec_memory_amounts, MemoryAmounts, PageStates, SwapSpace,
};
use crate::traits::hardware::HardwareMonitor;

verus! {

/// The total physical memory that is reported: 16 GiB.
pub const REPORTED_TOTAL_MEMORY: u64 = 17179869184;

/// The page size that is reported: 4 KiB.
pub const REPORTED_PAGE_SIZE: u64 = 4096;

/// The page states that are reported.
pub open spec fn reported_page_states() -> PageStates {
    PageStates { active: 1048576, inactive: 524288, wired: 2097152, free: 524288, compressed: 262144 }
}

/// The swap space that is reported: 4 GiB, of which 512 MiB are used.
pub open spec fn reported_swap_space() -> SwapSpace {
    SwapSpace { total: 4294967296, used: 536870912, free: 3758096384 }
}

/// The amounts of memory that are reported.
pub open spec fn reported_memory_amounts() -> MemoryAmounts {
    spec_memory_amounts(REPORTED_TOTAL_MEMORY, reported_page_states(), REPORTED_PAGE_SIZE)
}

/// The figures shared by the memory monitors.
pub struct BaseMemoryMonitor {
    iokit: Arc<Box<dyn IOKit>>,
}

impl BaseMemoryMonitor {
    /// The IOKit service of the monitor.
    pub closed spec fn spec_io_kit(&self) -> Arc<Box<dyn IOKit>> {
        self.iokit
    }

    /// A monitor reading `iokit`.
    pub fn new(iokit: Arc<Box<dyn IOKit>>) -> (r: Self)
        ensures
            r.spec_io_kit() == iokit,
    {
        BaseMemoryMonitor { iokit }
    }

    /// The total physical memory in bytes.
    pub fn total_memory(&self) -> (r: Result<u64, Error>)
        ensures
            r == Ok::<u64, Error>(REPORTED_TOTAL_MEMORY),
    {
        Ok(REPORTED_TOTAL_MEMORY)
    }

    /// The page size in bytes.
    pub fn page_size(&self) -> (r: Result<u64, Error>)
        ensures
            r == Ok::<u64, Error>(REPORTED_PAGE_SIZE),
    {
        Ok(REPORTED_PAGE_SIZE)
    }

    /// The numbers of pages in each state.
    pub fn vm_statistics(&self) -> (r: Result<PageStates, Error>)
        ensures
            r == Ok::<PageStates, Error>(reported_page_states()),
    {
        Ok(PageStates { active: 1048576, inactive: 524288, wired: 2097152, free: 524288, compressed: 262144 })
    }

    /// The amounts of swap space in bytes.
    pub fn swap_space(&self) -> (r: Result<SwapSpace, Error>)
        ensures
            r == Ok::<SwapSpace, Error>(reported_swap_space()),
    {
        Ok(SwapSpace { total: 4294967296, used: 536870912, free: 3758096384 })
    }

    /// The amounts of memory in bytes: the page states at the reported page size,
    /// out of the total memory.
    pub fn memory_amounts(&self) -> (r: Result<MemoryAmounts, Error>)
        ensures
            r == Ok::<MemoryAmounts, Error>(reported_memory_amounts()),
    {
        let total = match self.total_memory() {
            Ok(t) => t,
            Err(e) => return Err(e),
        };
        let page_states = match self.vm_statistics() {
            Ok(p) => p,
            Err(e) => return Err(e),
        };
        let page_size: u64 = REPORTED_PAGE_SIZE;
        Ok(memory_amounts(total, page_states, page_size))
    }
}

/// Monitors how much of the system memory is used.
pub struct MemoryUsageMonitor {
    base: BaseMemoryMonitor,
}

impl MemoryUsageMonitor {
    /// The IOKit service of the monitor.
    pub closed spec fn spec_io_kit(&self) -> Arc<Box<dyn IOKit>> {
        self.base.spec_io_kit()
    }

    /// A monitor reading `iokit`.
    pub fn new(iokit: Arc<Box<dyn IOKit>>) -> (r: Self)
        ensures
            r.spec_io_kit() == iokit,
    {
        MemoryUsageMonitor { base: BaseMemoryMonitor::new(iokit) }
    }

    /// The amounts of memory in bytes.
    pub fn memory_amounts(&self) -> (r: Result<MemoryAmounts, Error>)
        ensures
            r == Ok::<MemoryAmounts, Error>(reported_memory_amounts()),
    {
        self.base.memory_amounts()
    }

    /// The total memory in bytes.
    pub fn total(&self) -> (r: Result<u64, Error>)
        ensures
            r == Ok::<u64, Error>(reported_memory_amounts().total),
    {
        match self.base.memory_amounts() {
            Ok(a) => Ok(a.total),
            Err(e) => Err(e),
        }
    }

    /// The used memory in bytes.
    pub fn used(&self) -> (r: Result<u64, Error>)
        ensures
            r == Ok::<u64, Error>(reported_memory_amounts().used),
    {
        match self.base.memory_amounts() {
            Ok(a) => Ok(a.used),
            Err(e) => Err(e),
        }
    }

    /// The available memory in bytes: the free memory.
    pub fn available(&self) -> (r: Result<u64, Error>)
        ensures
            r == Ok::<u64, Error>(reported_memory_amounts().free),
    {
        match self.base.memory_amounts() {
            Ok(a) => Ok(a.free),
            Err(e) => Err(e),
        }
    }

    /// The numbers of pages in each state.
    pub fn page_states(&self) -> (r: Result<PageStates, Error>)
        ensures
            r == Ok::<PageStates, Error>(reported_page_states()),
    {
        self.base.vm_statistics()
    }

    /// The amounts of swap space in bytes.
    pub fn swap_space(&self) -> (r: Result<SwapSpace, Error>)
        ensures
            r == Ok::<SwapSpace, Error>(reported_swap_space()),
    {
        self.base.swap_space()
    }
}

/// Monitors the swap space.
pub struct SwapMonitor {
    base: BaseMemoryMonitor,
}

impl SwapMonitor {
    /// The IOKit service of the monitor.
    pub closed spec fn spec_io_kit(&self) -> Arc<Box<dyn IOKit>> {
        self.base.spec_io_kit()
    }

    /// A monitor reading `iokit`.
    pub fn new(iokit: Arc<Box<dyn IOKit>>) -> (r: Self)
        ensures
            r.spec_io_kit() == iokit,
    {
        SwapMonitor { base: BaseMemoryMonitor::new(iokit) }
    }

    /// The total swap space in bytes.
    pub fn total(&self) -> (r: Result<u64, Error>)
        ensures
            r == Ok::<u64, Error>(reported_swap_space().total),
    {
        match self.base.swap_space() {
            Ok(s) => Ok(s.total),
            Err(e) => Err(e),
        }
    }

    /// The used swap space in bytes.
    pub fn used(&self) -> (r: Result<u64, Error>)
        ensures
            r == Ok::<u64, Error>(reported_swap_space().used),
    {
        match self.base.swap_space() {
            Ok(s) => Ok(s.used),
            Err(e) => Err(e),
        }
    }

    /// The available swap space in bytes.
    pub fn available(&self) -> (r: Result<u64, Error>)
        ensures
            r == Ok::<u64, Error>(reported_swap_space().free),
    {
        match self.base.swap_space() {
            Ok(s) => Ok(s.free),
            Err(e) => Err(e),
        }
    }

    /// The amounts of memory in bytes.
    pub fn memory_amounts(&self) -> (r: Result<MemoryAmounts, Error>)
        ensures
            r == Ok::<MemoryAmounts, Error>(reported_memory_amounts()),
    {
        self.base.memory_amounts()
    }

    /// The numbers of pages in each state.
    pub fn page_states(&self) -> (r: Result<PageStates, Error>)
        ensures
            r == Ok::<PageStates, Error>(reported_page_states()),
    {
        self.base.vm_statistics()
    }

    /// The amounts of swap space in bytes.
    pub fn swap_space(&self) -> (r: Result<SwapSpace, Error>)
        ensures
            r == Ok::<SwapSpace, Error>(reported_swap_space()),
    {
        self.base.swap_space()
    }
}

impl HardwareMonitor for MemoryUsageMonitor {
    open spec fn spec_name(&self) -> Seq<char> {
        "Memory Usage Monitor"@
    }

    open spec fn spec_hardware_type(&self) -> Seq<char> {
        "Memory"@
    }

    open spec fn spec_device_id(&self) -> Seq<char> {
        "memory0"@
    }

    fn name(&self) -> (r: Result<String, Error>)
        ensures
            r is Ok,
    {
        Ok("Memory Usage Monitor".to_owned())
    }

    fn hardware_type(&self) -> (r: Result<String, Error>)
        ensures
            r is Ok,
    {
        Ok("Memory".to_owned())
    }

    fn device_id(&self) -> (r: Result<String, Error>)
        ensures
            r is Ok,
    {
        Ok("memory0".to_owned())
    }
}

impl HardwareMonitor for SwapMonitor {
    open spec fn spec_name(&self) -> Seq<char> {
        "Swap Usage Monitor"@
    }

    open spec fn spec_hardware_type(&self) -> Seq<char> {
        "Memory"@
    }

    open spec fn spec_device_id(&self) -> Seq<char> {
        "swap0"@
    }

    fn name(&self) -> (r: Result<String, Error>)
        ensures
            r is Ok,
    {
        Ok("Swap Usage Monitor".to_owned())
    }

    fn hardware_type(&self) -> (r: Result<String, Error>)
        ensures
            r is Ok,
    {
        Ok("Memory".to_owned())
    }

    fn device_id(&self) -> (r: Result<String, Error>)
        ensures
            r is Ok,
    {
        Ok("swap0".to_owned())
    }
}

} // verus!
