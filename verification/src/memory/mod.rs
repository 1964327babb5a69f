//! Memory usage, page states and swap.

pub mod monitors;
pub mod types;

pub use monitors::{BaseMemoryMonitor, MemoryUsageMonitor, SwapMonitor};
pub use types::{MemoryAmounts, PageStates, PressureLevel, SwapSpace};
