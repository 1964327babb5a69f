//! Types describing temperature sensors, fans and thermal levels.

use vstd::prelude::*;
use crate::utils::text::{append_decimal, ascii_lower, decimal};

verus! {

/// Where a temperature sensor sits.
#[derive(Debug, Clone)]
pub enum SensorLocation {
    /// CPU.
    Cpu,
    /// GPU.
    Gpu,
    /// System memory.
    Memory,
    /// Storage.
    Storage,
    /// Battery.
    Battery,
    /// Heatsink.
    Heatsink,
    /// Inside the case.
    Ambient,
    /// Any other sensor, by name.
    Other(String),
}

/// The kind of a temperature monitor.
#[derive(Debug, Clone, Copy, PartialEq, Eq, Structural)]
pub enum MonitorType {
    /// CPU temperature.
    Cpu,
    /// GPU temperature.
    Gpu,
    /// Ambient temperature.
    Ambient,
    /// Battery temperature.
    Battery,
    /// SSD temperature.
    Ssd,
    /// A fan, by index.
    Fan(usize),
}

/// The display name of a monitor type.
pub open spec fn monitor_type_name(t: MonitorType) -> Seq<char> {
    match t {
        MonitorType::Cpu => "CPU"@,
        MonitorType::Gpu => "GPU"@,
        MonitorType::Ambient => "Ambient"@,
        MonitorType::Battery => "Battery"@,
        MonitorType::Ssd => "SSD"@,
        MonitorType::Fan(i) => "Fan "@ + decimal(i as nat),
    }
}

/// The lower-case display names of the sensor kinds.
pub proof fn lemma_sensor_lower_names()
    ensures
        ascii_lower(monitor_type_name(MonitorType::Cpu)) == "cpu"@,
        ascii_lower(monitor_type_name(MonitorType::Gpu)) == "gpu"@,
        ascii_lower(monitor_type_name(MonitorType::Ambient)) == "ambient"@,
        ascii_lower(monitor_type_name(MonitorType::Battery)) == "battery"@,
        ascii_lower(monitor_type_name(MonitorType::Ssd)) == "ssd"@,
        "cpu"@ != "gpu"@ && "cpu"@ != "ambient"@ && "cpu"@ != "battery"@ && "cpu"@ != "ssd"@,
        "gpu"@ != "ambient"@ && "gpu"@ != "battery"@ && "gpu"@ != "ssd"@,
        "ambient"@ != "battery"@ && "ambient"@ != "ssd"@ && "battery"@ != "ssd"@,
{
    reveal_strlit("CPU");
    reveal_strlit("GPU");
    reveal_strlit("Ambient");
    reveal_strlit("Battery");
    reveal_strlit("SSD");
    reveal_strlit("cpu");
    reveal_strlit("gpu");
    reveal_strlit("ambient");
    reveal_strlit("battery");
    reveal_strlit("ssd");
    assert(ascii_lower("CPU"@) =~= "cpu"@);
    assert(ascii_lower("GPU"@) =~= "gpu"@);
    assert(ascii_lower("Ambient"@) =~= "ambient"@);
    assert(ascii_lower("Battery"@) =~= "battery"@);
    assert(ascii_lower("SSD"@) =~= "ssd"@);
    assert("cpu"@[0] != "gpu"@[0] && "cpu"@[0] != "ssd"@[0] && "gpu"@[0] != "ssd"@[0]);
    assert("ambient"@[0] != "battery"@[0]);
}

impl MonitorType {
    /// The display name of the monitor type.
    pub fn to_string(&self) -> (r: String)
        ensures
            r@ == monitor_type_name(*self),
    {
        match self {
            MonitorType::Cpu => "CPU".to_owned(),
            MonitorType::Gpu => "GPU".to_owned(),
            MonitorType::Ambient => "Ambient".to_owned(),
            MonitorType::Battery => "Battery".to_owned(),
            MonitorType::Ssd => "SSD".to_owned(),
            MonitorType::Fan(i) => {
                let mut s = String::new();
                s.append("Fan ");
                append_decimal(&mut s, *i as u64);
                s
            },
        }
    }
}

/// A fan: its name and speeds in RPM.
#[derive(Debug, Clone)]
pub struct Fan {
    /// Fan identifier.
    pub name: String,
    /// Current speed in RPM.
    pub speed_rpm: u32,
    /// Minimum speed in RPM.
    pub min_speed: u32,
    /// Maximum speed in RPM.
    pub max_speed: u32,
    /// Target speed in RPM.
    pub target_speed: u32,
}

impl Fan {
    /// A fan with an empty name and every speed at zero.
    pub fn default() -> (r: Self)
        ensures
            r.name@.len() == 0,
            r.speed_rpm == 0,
            r.min_speed == 0,
            r.max_speed == 0,
            r.target_speed == 0,
    {
        Fan { name: String::new(), speed_rpm: 0, min_speed: 0, max_speed: 0, target_speed: 0 }
    }
}

/// Thermal level of the device.
#[derive(Debug, Clone, Copy, PartialEq, Eq, Structural)]
pub enum ThermalLevel {
    /// Normal operating temperature.
    Normal,
    /// Warning temperature level.
    Warning,
    /// Critical temperature level.
    Critical,
}

} // verus!
