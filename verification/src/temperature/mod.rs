//! Temperature and fan monitoring.

pub mod factory;
pub mod monitors;
pub mod types;

use vstd::prelude::*;
use std::sync::Arc;
use crate::error::Error;
use crate::hardware::iokit::{share_iokit, IOKit};
use crate::hardware::system::System;
use crate::temperature::factory::{sensor_kinds, TemperatureMonitorFactory};
use crate::temperature::monitors::{
    create_monitor, spec_monitor_type_for, AmbientTemperatureMonitor,
    BatteryTemperatureMonitor, CpuTemperatureMonitor, FanMonitor, GpuTemperatureMonitor,
    SensorMonitor, SsdTemperatureMonitor,
};
use crate::temperature::types::{Fan, MonitorType};

verus! {

/// Whether `e` is the error reported for a monitor name that selects no sensor.
pub open spec fn is_unavailable_monitor(e: Error, monitor_type: Seq<char>) -> bool {
    e matches Error::NotAvailable { resource, reason }
        && resource@ == "Temperature monitor '"@ + monitor_type + "'"@
        && reason@ == "Monitor type not available"@
}

fn monitor_by_name(io_kit: &Arc<Box<dyn IOKit>>, monitor_type: &str) -> (r: Result<SensorMonitor, Error>)
    ensures
        match spec_monitor_type_for(monitor_type@) {
            Some(k) => r matches Ok(m) && m.kind() == k && m.spec_io_kit() == *io_kit,
            None => r matches Err(e) && is_unavailable_monitor(e, monitor_type@),
        },
{
    match create_monitor(monitor_type, share_iokit(io_kit)) {
        Some(m) => Ok(m),
        None => {
            let mut resource = String::new();
            resource.append("Temperature monitor '");
            resource.append(monitor_type);
            resource.append("'");
            Err(Error::NotAvailable { resource, reason: "Monitor type not available".to_owned() })
        },
    }
}

/// One monitor of each sensor kind that the factory creates, in the factory's order
/// (CPU, GPU, ambient, battery, SSD), each reading `io_kit`.
fn monitors_by_name(io_kit: &Arc<Box<dyn IOKit>>, factory: &TemperatureMonitorFactory) -> (r: Result<
    Vec<SensorMonitor>,
    Error,
>)
    ensures
        r matches Ok(v) && v@.len() == sensor_kinds().len() && forall|i: int|
            0 <= i < v@.len() ==> #[trigger] v@[i].kind() == sensor_kinds()[i] && v@[i].spec_io_kit()
                == *io_kit,
{
    let monitors = factory.create_all();
    let mut result: Vec<SensorMonitor> = Vec::new();
    let mut i: usize = 0;
    while i < monitors.len()
        invariant
            i <= monitors@.len(),
            monitors@.len() == sensor_kinds().len(),
            forall|j: int| 0 <= j < monitors@.len() ==> #[trigger] monitors@[j].kind() == sensor_kinds()[j],
            result@.len() == i,
            forall|j: int|
                0 <= j < i ==> #[trigger] result@[j].kind() == sensor_kinds()[j] && result@[j].spec_io_kit()
                    == *io_kit,
        decreases monitors@.len() - i,
    {
        let kind = monitors[i].monitor_type();
        proof {
            assert(monitors@[i as int].kind() == sensor_kinds()[i as int]);
            assert(!(sensor_kinds()[i as int] is Fan));
        }
        result.push(SensorMonitor::of_kind(kind, share_iokit(io_kit)));
        i = i + 1;
    }
    Ok(result)
}

/// Entry point to the temperature monitors of a machine.
pub struct TemperatureFactory {
    iokit: Arc<Box<dyn IOKit>>,
    factory: TemperatureMonitorFactory,
}

/// Entry point to the temperature monitors of a machine.
pub struct Temperature {
    iokit: Arc<Box<dyn IOKit>>,
    factory: TemperatureMonitorFactory,
}

impl TemperatureFactory {
    /// The IOKit service the monitors read.
    pub closed spec fn spec_io_kit(&self) -> Arc<Box<dyn IOKit>> {
        self.iokit
    }

    /// Whether the inner factory reads the same service.
    pub closed spec fn well_formed(&self) -> bool {
        self.factory.spec_io_kit() == self.iokit
    }

    /// Monitors reading `iokit`.
    pub fn with_iokit(iokit: Arc<Box<dyn IOKit>>) -> (r: Self)
        ensures
            r.spec_io_kit() == iokit,
            r.well_formed(),
    {
        let factory = TemperatureMonitorFactory::new(share_iokit(&iokit));
        TemperatureFactory { iokit, factory }
    }

    /// Monitors reading the IOKit service of `system`.
    pub fn new_with_system(system: &System) -> (r: Result<Self, Error>)
        ensures
            r matches Ok(t) && t.spec_io_kit() == system.spec_io_kit() && t.well_formed(),
    {
        Ok(Self::with_iokit(system.io_kit()))
    }

    /// A monitor of the CPU temperature.
    pub fn cpu_monitor(&self) -> (r: CpuTemperatureMonitor)
        ensures
            r.spec_io_kit() == self.spec_io_kit(),
    {
        CpuTemperatureMonitor::new(share_iokit(&self.iokit))
    }

    /// A monitor of the GPU temperature.
    pub fn gpu_monitor(&self) -> (r: GpuTemperatureMonitor)
        ensures
            r.spec_io_kit() == self.spec_io_kit(),
    {
        GpuTemperatureMonitor::new(share_iokit(&self.iokit))
    }

    /// A monitor of the ambient temperature.
    pub fn ambient_monitor(&self) -> (r: AmbientTemperatureMonitor)
        ensures
            r.spec_io_kit() == self.spec_io_kit(),
    {
        AmbientTemperatureMonitor::new(share_iokit(&self.iokit))
    }

    /// A monitor of the battery temperature.
    pub fn battery_monitor(&self) -> (r: BatteryTemperatureMonitor)
        ensures
            r.spec_io_kit() == self.spec_io_kit(),
    {
        BatteryTemperatureMonitor::new(share_iokit(&self.iokit))
    }

    /// A monitor of the SSD temperature.
    pub fn ssd_monitor(&self) -> (r: SsdTemperatureMonitor)
        ensures
            r.spec_io_kit() == self.spec_io_kit(),
    {
        SsdTemperatureMonitor::new(share_iokit(&self.iokit))
    }

    /// A monitor of the first fan.
    pub fn fan_monitor(&self) -> (r: FanMonitor)
        ensures
            r.spec_io_kit() == self.spec_io_kit(),
            r.spec_index() == 0,
    {
        FanMonitor::new(share_iokit(&self.iokit), 0)
    }

    /// The monitor that a name selects, compared without regard to case: `cpu`,
    /// `gpu`, `ambient`, `battery` or `ssd`; any other name is not available.
    pub fn create_monitor(&self, monitor_type: &str) -> (r: Result<SensorMonitor, Error>)
        ensures
            match spec_monitor_type_for(monitor_type@) {
                Some(k) => r matches Ok(m) && m.kind() == k && m.spec_io_kit() == self.spec_io_kit(),
                None => r matches Err(e) && is_unavailable_monitor(e, monitor_type@),
            },
    {
        monitor_by_name(&self.iokit, monitor_type)
    }

    /// All available temperature monitors: one of each sensor kind, in the order CPU,
    /// GPU, ambient, battery, SSD, each reading this IOKit service.
    pub fn get_all_monitors(&self) -> (r: Result<Vec<SensorMonitor>, Error>)
        ensures
            r matches Ok(v) && v@.len() == 5 && forall|i: int|
                0 <= i < 5 ==> #[trigger] v@[i].kind() == sensor_kinds()[i] && v@[i].spec_io_kit()
                    == self.spec_io_kit(),
    {
        monitors_by_name(&self.iokit, &self.factory)
    }
}

impl Temperature {
    /// The IOKit service the monitors read.
    pub closed spec fn spec_io_kit(&self) -> Arc<Box<dyn IOKit>> {
        self.iokit
    }

    /// Whether the inner factory reads the same service.
    pub closed spec fn well_formed(&self) -> bool {
        self.factory.spec_io_kit() == self.iokit
    }

    /// Monitors reading `iokit`.
    pub fn with_iokit(iokit: Arc<Box<dyn IOKit>>) -> (r: Self)
        ensures
            r.spec_io_kit() == iokit,
            r.well_formed(),
    {
        let factory = TemperatureMonitorFactory::new(share_iokit(&iokit));
        Temperature { iokit, factory }
    }

    /// Monitors reading the IOKit service of `system`.
    pub fn new_with_system(system: &System) -> (r: Result<Self, Error>)
        ensures
            r matches Ok(t) && t.spec_io_kit() == system.spec_io_kit() && t.well_formed(),
    {
        Ok(Self::with_iokit(system.io_kit()))
    }

    /// A monitor of the CPU temperature.
    pub fn cpu_monitor(&self) -> (r: CpuTemperatureMonitor)
        ensures
            r.spec_io_kit() == self.spec_io_kit(),
    {
        CpuTemperatureMonitor::new(share_iokit(&self.iokit))
    }

    /// A monitor of the GPU temperature.
    pub fn gpu_monitor(&self) -> (r: GpuTemperatureMonitor)
        ensures
            r.spec_io_kit() == self.spec_io_kit(),
    {
        GpuTemperatureMonitor::new(share_iokit(&self.iokit))
    }

    /// A monitor of the ambient temperature.
    pub fn ambient_monitor(&self) -> (r: AmbientTemperatureMonitor)
        ensures
            r.spec_io_kit() == self.spec_io_kit(),
    {
        AmbientTemperatureMonitor::new(share_iokit(&self.iokit))
    }

    /// A monitor of the battery temperature.
    pub fn battery_monitor(&self) -> (r: BatteryTemperatureMonitor)
        ensures
            r.spec_io_kit() == self.spec_io_kit(),
    {
        BatteryTemperatureMonitor::new(share_iokit(&self.iokit))
    }

    /// A monitor of the SSD temperature.
    pub fn ssd_monitor(&self) -> (r: SsdTemperatureMonitor)
        ensures
            r.spec_io_kit() == self.spec_io_kit(),
    {
        SsdTemperatureMonitor::new(share_iokit(&self.iokit))
    }

    /// A monitor of the first fan.
    pub fn fan_monitor(&self) -> (r: FanMonitor)
        ensures
            r.spec_io_kit() == self.spec_io_kit(),
            r.spec_index() == 0,
    {
        FanMonitor::new(share_iokit(&self.iokit), 0)
    }

    /// The monitor that a name selects, compared without regard to case: `cpu`,
    /// `gpu`, `ambient`, `battery` or `ssd`; any other name is not available.
    pub fn create_monitor(&self, monitor_type: &str) -> (r: Result<SensorMonitor, Error>)
        ensures
            match spec_monitor_type_for(monitor_type@) {
                Some(k) => r matches Ok(m) && m.kind() == k && m.spec_io_kit() == self.spec_io_kit(),
                None => r matches Err(e) && is_unavailable_monitor(e, monitor_type@),
            },
    {
        monitor_by_name(&self.iokit, monitor_type)
    }

    /// All available temperature monitors: one of each sensor kind, in the order CPU,
    /// GPU, ambient, battery, SSD, each reading this IOKit service.
    pub fn get_all_monitors(&self) -> (r: Result<Vec<SensorMonitor>, Error>)
        ensures
            r matches Ok(v) && v@.len() == 5 && forall|i: int|
                0 <= i < 5 ==> #[trigger] v@[i].kind() == sensor_kinds()[i] && v@[i].spec_io_kit()
                    == self.spec_io_kit(),
    {
        monitors_by_name(&self.iokit, &self.factory)
    }
}

/// A fan with the given name and speeds; its target speed is unknown and set to zero.
pub fn create_fan(name: String, speed: u32, min_speed: u32, max_speed: u32) -> (r: Fan)
    ensures
        r.name == name,
        r.speed_rpm == speed,
        r.min_speed == min_speed,
        r.max_speed == max_speed,
        r.target_speed == 0,
{
    Fan { name, speed_rpm: speed, min_speed, max_speed, target_speed: 0 }
}

} // verus!
