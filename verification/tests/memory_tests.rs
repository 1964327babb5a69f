use darwin_metrics::error::Error;
use darwin_metrics::hardware::iokit::IOKit;
use darwin_metrics::memory::monitors::BaseMemoryMonitor;
use darwin_metrics::memory::types::memory_amounts;
use darwin_metrics::memory::{MemoryUsageMonitor, PageStates, PressureLevel, SwapMonitor};
use darwin_metrics::temperature::types::Fan;
use darwin_metrics::traits::HardwareMonitor;
use std::sync::Arc;

struct NoFans;

impl IOKit for NoFans {
    fn get_all_fans(&self) -> Result<Vec<Fan>, Error> {
        Ok(Vec::new())
    }
}

fn kit() -> Arc<Box<dyn IOKit>> {
    Arc::new(Box::new(NoFans))
}

#[test]
fn pressure_level_names() {
    assert_eq!(PressureLevel::Normal.to_string(), "Normal");
    assert_eq!(PressureLevel::Warning.to_string(), "Warning");
    assert_eq!(PressureLevel::Critical.to_string(), "Critical");
}

#[test]
fn page_states_default_to_zero() {
    let p = PageStates::default();
    assert_eq!(p, PageStates { active: 0, inactive: 0, wired: 0, free: 0, compressed: 0 });
}

#[test]
fn amounts_are_pages_times_page_size() {
    let p = PageStates { active: 3, inactive: 2, wired: 1, free: 4, compressed: 5 };
    let a = memory_amounts(100_000, p, 4096);
    assert_eq!(a.free, 16384);
    assert_eq!(a.used, 100_000 - 16384);
    assert_eq!(a.active, 12288);
    assert_eq!(a.inactive, 8192);
    assert_eq!(a.wired, 4096);
    assert_eq!(a.compressed, 20480);
    assert_eq!(a.used + a.free, a.total);
}

#[test]
fn memory_usage_monitor_reports_the_figures() {
    let m = MemoryUsageMonitor::new(kit());
    assert_eq!(m.total().unwrap(), 16 * 1024 * 1024 * 1024);
    assert_eq!(m.available().unwrap(), 512 * 1024 * 4096);
    assert_eq!(m.used().unwrap(), 16 * 1024 * 1024 * 1024 - 512 * 1024 * 4096);
    assert_eq!(m.page_states().unwrap().wired, 2048 * 1024);
    assert_eq!(m.name().unwrap(), "Memory Usage Monitor");
    assert_eq!(m.hardware_type().unwrap(), "Memory");
    assert_eq!(m.device_id().unwrap(), "memory0");
}

#[test]
fn swap_monitor_reports_the_swap() {
    let s = SwapMonitor::new(kit());
    assert_eq!(s.total().unwrap(), 4 * 1024 * 1024 * 1024);
    assert_eq!(s.used().unwrap(), 512 * 1024 * 1024);
    assert_eq!(s.available().unwrap(), 3584 * 1024 * 1024);
    assert_eq!(s.name().unwrap(), "Swap Usage Monitor");
    assert_eq!(s.device_id().unwrap(), "swap0");
}

#[test]
fn base_monitor_figures() {
    let b = BaseMemoryMonitor::new(kit());
    assert_eq!(b.page_size().unwrap(), 4096);
    assert_eq!(b.total_memory().unwrap(), 17179869184);
    assert_eq!(b.memory_amounts().unwrap().page_size, 4096);
}
