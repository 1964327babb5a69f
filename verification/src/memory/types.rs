//! Memory pressure levels, page states and amounts of memory.

use vstd::prelude::*;

verus! {

/// How constrained the memory of the machine is.
#[derive(Debug, PartialEq, Eq, Clone, Copy, Structural)]
#[non_exhaustive]
pub enum PressureLevel {
    /// Sufficient memory is available.
    Normal,
    /// Memory is becoming constrained.
    Warning,
    /// The system is under severe memory constraints.
    Critical,
}

/// The display name of a pressure level.
pub open spec fn pressure_level_name(l: PressureLevel) -> Seq<char> {
    match l {
        PressureLevel::Normal => "Normal"@,
        PressureLevel::Warning => "Warning"@,
        PressureLevel::Critical => "Critical"@,
    }
}

impl PressureLevel {
    /// The display name of the pressure level.
    pub fn to_string(&self) -> (r: String)
        ensures
            r@ == pressure_level_name(*self),
    {
        match self {
            PressureLevel::Normal => "Normal".to_owned(),
            PressureLevel::Warning => "Warning".to_owned(),
            PressureLevel::Critical => "Critical".to_owned(),
        }
    }
}

/// Numbers of memory pages in each state.
#[derive(Debug, PartialEq, Eq, Structural, Clone, Copy)]
pub struct PageStates {
    /// Pages actively in use.
    pub active: u64,
    /// Pages not accessed recently but still in RAM.
    pub inactive: u64,
    /// Pages that cannot be paged out.
    pub wired: u64,
    /// Pages immediately available.
    pub free: u64,
    /// Pages compressed to save physical RAM.
    pub compressed: u64,
}

impl Default for PageStates {
    fn default() -> (r: Self)
        ensures
            r == (PageStates { active: 0, inactive: 0, wired: 0, free: 0, compressed: 0 }),
    {
        PageStates { active: 0, inactive: 0, wired: 0, free: 0, compressed: 0 }
    }
}

/// Amounts of swap space in bytes.
#[derive(Debug, PartialEq, Eq, Structural, Clone, Copy)]
pub struct SwapSpace {
    /// Total swap space.
    pub total: u64,
    /// Used swap space.
    pub used: u64,
    /// Available swap space.
    pub free: u64,
}

/// Amounts of memory in bytes, with the page states they were computed from.
#[derive(Debug, PartialEq, Eq, Structural, Clone, Copy)]
pub struct MemoryAmounts {
    /// Total physical memory.
    pub total: u64,
    /// Free memory.
    pub free: u64,
    /// Used memory: all that is not free.
    pub used: u64,
    /// Active memory.
    pub active: u64,
    /// Inactive memory.
    pub inactive: u64,
    /// Wired memory.
    pub wired: u64,
    /// Compressed memory.
    pub compressed: u64,
    /// The page size.
    pub page_size: u64,
    /// The page states.
    pub page_states: PageStates,
}

/// Whether the byte amounts of `page_states` at `page_size` fit in 64 bits and the free
/// memory does not exceed `total`.
pub open spec fn amounts_fit(total: u64, page_states: PageStates, page_size: u64) -> bool {
    &&& page_states.free * page_size <= total
    &&& page_states.active * page_size <= u64::MAX
    &&& page_states.inactive * page_size <= u64::MAX
    &&& page_states.wired * page_size <= u64::MAX
    &&& page_states.compressed * page_size <= u64::MAX
}

/// The amounts of memory that `page_states` at `page_size` make of `total` bytes.
pub open spec fn spec_memory_amounts(total: u64, page_states: PageStates, page_size: u64) -> MemoryAmounts {
    MemoryAmounts {
        total,
        free: (page_states.free * page_size) as u64,
        used: (total - page_states.free * page_size) as u64,
        active: (page_states.active * page_size) as u64,
        inactive: (page_states.inactive * page_size) as u64,
        wired: (page_states.wired * page_size) as u64,
        compressed: (page_states.compressed * page_size) as u64,
        page_size,
        page_states,
    }
}

/// The amounts of memory that `page_states` at `page_size` make of `total` bytes:
/// each state's pages times the page size, and as used all memory that is not free.
pub fn memory_amounts(total: u64, page_states: PageStates, page_size: u64) -> (r: MemoryAmounts)
    requires
        amounts_fit(total, page_states, page_size),
    ensures
        r == spec_memory_amounts(total, page_states, page_size),
        r.used + r.free == r.total,
{
    let free = page_states.free * page_size;
    MemoryAmounts {
        total,
        free,
        used: total - free,
        active: page_states.active * page_size,
        inactive: page_states.inactive * page_size,
        wired: page_states.wired * page_size,
        compressed: page_states.compressed * page_size,
        page_size,
        page_states,
    }
}

} // verus!
