//! Monitoring interfaces implemented by the hardware and system monitors.

use vstd::prelude::*;
use crate::error::Error;

verus! {

/// State of a network interface.
pub trait NetworkInterfaceMonitor {
    /// Whether the interface is up and running.
    spec fn spec_is_active(&self) -> bool;

    /// Whether the interface supports broadcast.
    spec fn spec_supports_broadcast(&self) -> bool;

    /// Whether the interface supports multicast.
    spec fn spec_supports_multicast(&self) -> bool;

    /// Whether the interface is a loopback interface.
    spec fn spec_is_loopback(&self) -> bool;

    /// Whether the interface is wireless.
    spec fn spec_is_wireless(&self) -> bool;

    /// The display name of the interface type.
    spec fn spec_interface_type(&self) -> Seq<char>;

    /// The MAC address, if known.
    spec fn spec_mac_address(&self) -> Option<Seq<char>>;

    /// Whether the interface is up and running.
    fn is_active(&self) -> (r: Result<bool, Error>)
        ensures
            r matches Ok(b) ==> b == self.spec_is_active(),
    ;

    /// Whether the interface supports broadcast.
    fn supports_broadcast(&self) -> (r: Result<bool, Error>)
        ensures
            r matches Ok(b) ==> b == self.spec_supports_broadcast(),
    ;

    /// Whether the interface supports multicast.
    fn supports_multicast(&self) -> (r: Result<bool, Error>)
        ensures
            r matches Ok(b) ==> b == self.spec_supports_multicast(),
    ;

    /// Whether the interface is a loopback interface.
    fn is_loopback(&self) -> (r: Result<bool, Error>)
        ensures
            r matches Ok(b) ==> b == self.spec_is_loopback(),
    ;

    /// Whether the interface is wireless.
    fn is_wireless(&self) -> (r: Result<bool, Error>)
        ensures
            r matches Ok(b) ==> b == self.spec_is_wireless(),
    ;

    /// The display name of the interface type.
    fn interface_type(&self) -> (r: Result<String, Error>)
        ensures
            r matches Ok(s) ==> s@ == self.spec_interface_type(),
    ;

    /// The MAC address, if known.
    fn mac_address(&self) -> (r: Result<Option<String>, Error>)
        ensures
            r matches Ok(m) ==> match m {
                Some(s) => self.spec_mac_address() == Some(s@),
                None => self.spec_mac_address() is None,
            },
    ;
}

} // verus!

verus! {

/// Static information about the system.
pub trait SystemInfoMonitor {
    /// The host name.
    spec fn spec_hostname(&self) -> Seq<char>;

    /// The architecture name.
    spec fn spec_architecture(&self) -> Seq<char>;

    /// The OS version.
    spec fn spec_os_version(&self) -> Seq<char>;

    /// The kernel version.
    spec fn spec_kernel_version(&self) -> Seq<char>;

    /// The host name.
    fn hostname(&self) -> (r: Result<String, Error>)
        ensures
            r matches Ok(s) ==> s@ == self.spec_hostname(),
    ;

    /// The architecture name.
    fn architecture(&self) -> (r: Result<String, Error>)
        ensures
            r matches Ok(s) ==> s@ == self.spec_architecture(),
    ;

    /// The OS version.
    fn os_version(&self) -> (r: Result<String, Error>)
        ensures
            r matches Ok(s) ==> s@ == self.spec_os_version(),
    ;

    /// The kernel version.
    fn kernel_version(&self) -> (r: Result<String, Error>)
        ensures
            r matches Ok(s) ==> s@ == self.spec_kernel_version(),
    ;
}

/// Uptime of the system.
pub trait SystemUptimeMonitor {
    /// The boot time in seconds since the Unix epoch.
    spec fn spec_boot_time(&self) -> u64;

    /// Seconds since boot.
    fn uptime_seconds(&self) -> Result<u64, Error>;

    /// The boot time in seconds since the Unix epoch.
    fn boot_time(&self) -> (r: Result<u64, Error>)
        ensures
            r matches Ok(t) ==> t == self.spec_boot_time(),
    ;
}

} // verus!

verus! {

/// Identification of a monitored hardware component.
pub trait HardwareMonitor {
    /// The component's name.
    spec fn spec_name(&self) -> Seq<char>;

    /// The component's hardware type.
    spec fn spec_hardware_type(&self) -> Seq<char>;

    /// The component's device identifier.
    spec fn spec_device_id(&self) -> Seq<char>;

    /// The component's name.
    fn name(&self) -> (r: Result<String, Error>)
        ensures
            r matches Ok(s) ==> s@ == self.spec_name(),
    ;

    /// The component's hardware type.
    fn hardware_type(&self) -> (r: Result<String, Error>)
        ensures
            r matches Ok(s) ==> s@ == self.spec_hardware_type(),
    ;

    /// The component's device identifier.
    fn device_id(&self) -> (r: Result<String, Error>)
        ensures
            r matches Ok(s) ==> s@ == self.spec_device_id(),
    ;
}

} // verus!

verus! {

/// Power-related events of the system.
pub trait PowerEventMonitor {
    /// The number of thermal throttling events.
    spec fn spec_thermal_event_count(&self) -> u32;

    /// Whether the system is preventing sleep.
    spec fn spec_is_sleep_prevented(&self) -> bool;

    /// The time since the last wake from sleep.
    fn time_since_wake(&self) -> Result<std::time::Duration, Error>;

    /// The number of thermal throttling events.
    fn thermal_event_count(&self) -> (r: Result<u32, Error>)
        ensures
            r matches Ok(n) ==> n == self.spec_thermal_event_count(),
    ;

    /// The time until the next scheduled sleep, if one is scheduled.
    fn time_until_sleep(&self) -> Result<Option<std::time::Duration>, Error>;

    /// Whether the system is preventing sleep.
    fn is_sleep_prevented(&self) -> (r: Result<bool, Error>)
        ensures
            r matches Ok(b) ==> b == self.spec_is_sleep_prevented(),
    ;
}

} // verus!

verus! {

/// Byte-based measurements, such as memory or storage.
pub trait ByteMetricsMonitor {
    /// The total number of bytes.
    fn total_bytes(&self) -> Result<u64, Error>;

    /// The number of bytes in use.
    fn used_bytes(&self) -> Result<u64, Error>;

    /// The number of free bytes.
    fn free_bytes(&self) -> Result<u64, Error>;
}

/// Rate-based measurements, such as network or disk throughput.
pub trait RateMonitor<T> {
    /// The current rate.
    fn rate(&self) -> Result<T, Error>;

    /// The average rate over the last `seconds` seconds.
    fn average_rate(&self, seconds: u64) -> Result<T, Error>;
}

/// Storage capacity.
pub trait StorageMonitor {
    /// The total capacity.
    fn total_capacity(&self) -> Result<u64, Error>;

    /// The available capacity.
    fn available_capacity(&self) -> Result<u64, Error>;

    /// The capacity in use.
    fn used_capacity(&self) -> Result<u64, Error>;
}

/// CPU and memory resources of the system.
pub trait SystemResourceMonitor {
    /// The number of physical CPU cores.
    fn physical_cpu_count(&self) -> Result<u32, Error>;

    /// The number of logical CPU cores.
    fn logical_cpu_count(&self) -> Result<u32, Error>;

    /// The physical memory in bytes.
    fn total_memory(&self) -> Result<u64, Error>;

    /// The swap space in bytes.
    fn total_swap(&self) -> Result<u64, Error>;
}

/// A mounted disk.
pub trait DiskMountMonitor: HardwareMonitor {
    /// The mount point path.
    fn mount_point(&self) -> Result<String, Error>;

    /// The file system type.
    fn filesystem_type(&self) -> Result<String, Error>;

    /// Whether the disk is mounted.
    fn is_mounted(&self) -> Result<bool, Error>;

    /// The mount options.
    fn mount_options(&self) -> Result<Vec<String>, Error>;

    /// Whether this is the boot volume.
    fn is_boot_volume(&self) -> Result<bool, Error>;

    /// Whether the volume is read-only.
    fn is_readonly(&self) -> Result<bool, Error>;

    /// Whether the volume is removable.
    fn is_removable(&self) -> Result<bool, Error>;

    /// Whether the volume is a network volume.
    fn is_network(&self) -> Result<bool, Error>;
}

/// Identity of a process.
pub trait ProcessInfoMonitor {
    /// The process ID.
    fn pid(&self) -> Result<u32, Error>;

    /// The process name.
    fn name(&self) -> Result<String, Error>;

    /// The parent process ID, if any.
    fn parent_pid(&self) -> Result<Option<u32>, Error>;

    /// The time the process started.
    fn start_time(&self) -> Result<std::time::SystemTime, Error>;

    /// Whether this is a system process.
    fn is_system_process(&self) -> Result<bool, Error>;
}

/// Relationships of a process to other processes.
pub trait ProcessRelationshipMonitor {
    /// The IDs of the child processes.
    fn child_pids(&self) -> Result<Vec<u32>, Error>;

    /// The IDs of the processes with the same parent.
    fn sibling_pids(&self) -> Result<Vec<u32>, Error>;

    /// The distance from the init process in the process tree.
    fn tree_depth(&self) -> Result<u32, Error>;

    /// The process group ID.
    fn process_group_id(&self) -> Result<u32, Error>;
}

} // verus!
