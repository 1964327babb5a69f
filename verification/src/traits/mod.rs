//! Monitoring interfaces.

pub mod hardware;

pub use hardware::{
    ByteMetricsMonitor, DiskMountMonitor, HardwareMonitor, NetworkInterfaceMonitor, PowerEventMonitor,
    ProcessInfoMonitor, ProcessRelationshipMonitor, RateMonitor, StorageMonitor, SystemInfoMonitor,
    SystemResourceMonitor, SystemUptimeMonitor,
};
