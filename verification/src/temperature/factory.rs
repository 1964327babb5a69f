//! Creation of temperature monitors by kind.

use vstd::prelude::*;
use std::sync::Arc;
use crate::error::Error;
use crate::hardware::iokit::{share_iokit, IOKit};
use crate::temperature::monitors::SensorMonitor;
use crate::temperature::types::{lemma_sensor_lower_names, monitor_type_name, MonitorType};
use crate::utils::text::{ascii_lower, same_text};

verus! {

/// The sensor kind a name selects exactly: `cpu`, `gpu`, `ambient`, `battery` or `ssd`.
pub open spec fn spec_factory_kind(name: Seq<char>) -> Option<MonitorType> {
    if name == "cpu"@ {
        Some(MonitorType::Cpu)
    } else if name == "gpu"@ {
        Some(MonitorType::Gpu)
    } else if name == "ambient"@ {
        Some(MonitorType::Ambient)
    } else if name == "battery"@ {
        Some(MonitorType::Battery)
    } else if name == "ssd"@ {
        Some(MonitorType::Ssd)
    } else {
        None
    }
}

/// The sensor kinds, in the order in which all monitors are created.
pub open spec fn sensor_kinds() -> Seq<MonitorType> {
    seq![MonitorType::Cpu, MonitorType::Gpu, MonitorType::Ambient, MonitorType::Battery, MonitorType::Ssd]
}

/// The kind a name selects is the sensor kind whose display name the name is, in lower
/// case: each sensor kind is selected by its own lower-case name, and by no other name,
/// so distinct names select distinct kinds; no name selects a fan.
pub proof fn law_factory_kind_is_lower_name(name: Seq<char>)
    ensures
        spec_factory_kind(name) matches Some(k) ==> name == ascii_lower(monitor_type_name(k)),
        spec_factory_kind(name) matches Some(k) ==> !(k is Fan),
        forall|i: int|
            0 <= i < sensor_kinds().len() ==> spec_factory_kind(
                ascii_lower(monitor_type_name(#[trigger] sensor_kinds()[i])),
            ) == Some(sensor_kinds()[i]),
{
    lemma_sensor_lower_names();
    reveal_strlit("cpu");
    reveal_strlit("gpu");
    reveal_strlit("ambient");
    reveal_strlit("battery");
    reveal_strlit("ssd");
    assert forall|i: int| 0 <= i < sensor_kinds().len() implies spec_factory_kind(
        ascii_lower(monitor_type_name(#[trigger] sensor_kinds()[i])),
    ) == Some(sensor_kinds()[i]) by {
        assert(i == 0 || i == 1 || i == 2 || i == 3 || i == 4);
    }
}

fn factory_kind(name: &str) -> (r: Option<MonitorType>)
    ensures
        r == spec_factory_kind(name@),
{
    if same_text(name, "cpu") {
        Some(MonitorType::Cpu)
    } else if same_text(name, "gpu") {
        Some(MonitorType::Gpu)
    } else if same_text(name, "ambient") {
        Some(MonitorType::Ambient)
    } else if same_text(name, "battery") {
        Some(MonitorType::Battery)
    } else if same_text(name, "ssd") {
        Some(MonitorType::Ssd)
    } else {
        None
    }
}

/// Creates temperature monitors that share one IOKit service.
pub struct TemperatureMonitorFactory {
    io_kit: Arc<Box<dyn IOKit>>,
}

impl TemperatureMonitorFactory {
    /// The IOKit service the monitors will read.
    pub closed spec fn spec_io_kit(&self) -> Arc<Box<dyn IOKit>> {
        self.io_kit
    }

    /// Creates a factory for monitors that read `io_kit`.
    pub fn new(io_kit: Arc<Box<dyn IOKit>>) -> (r: Self)
        ensures
            r.spec_io_kit() == io_kit,
    {
        TemperatureMonitorFactory { io_kit }
    }

    /// Creates the monitor of the kind named exactly `cpu`, `gpu`, `ambient`,
    /// `battery` or `ssd`; any other name is an invalid monitor type.
    pub fn create(&self, monitor_type: &str) -> (r: Result<SensorMonitor, Error>)
        ensures
            match spec_factory_kind(monitor_type@) {
                Some(k) => r matches Ok(m) && m.kind() == k && m.spec_io_kit() == self.spec_io_kit(),
                None => r matches Err(Error::InvalidMonitorType(s)) && s@ == monitor_type@,
            },
    {
        match factory_kind(monitor_type) {
            Some(k) => Ok(SensorMonitor::of_kind(k, share_iokit(&self.io_kit))),
            None => Err(Error::InvalidMonitorType(monitor_type.to_owned())),
        }
    }

    /// Creates one monitor of each sensor kind: CPU, GPU, ambient, battery and SSD.
    pub fn create_all(&self) -> (r: Vec<SensorMonitor>)
        ensures
            r@.len() == sensor_kinds().len(),
            forall|i: int| 0 <= i < r@.len() ==> #[trigger] r@[i].kind() == sensor_kinds()[i]
                && r@[i].spec_io_kit() == self.spec_io_kit(),
    {
        let mut v: Vec<SensorMonitor> = Vec::new();
        v.push(SensorMonitor::of_kind(MonitorType::Cpu, share_iokit(&self.io_kit)));
        v.push(SensorMonitor::of_kind(MonitorType::Gpu, share_iokit(&self.io_kit)));
        v.push(SensorMonitor::of_kind(MonitorType::Ambient, share_iokit(&self.io_kit)));
        v.push(SensorMonitor::of_kind(MonitorType::Battery, share_iokit(&self.io_kit)));
        v.push(SensorMonitor::of_kind(MonitorType::Ssd, share_iokit(&self.io_kit)));
        v
    }
}

} // verus!
