//! Temperature and fan monitors.

use vstd::prelude::*;
use std::sync::Arc;
use crate::error::Error;
use crate::traits::hardware::HardwareMonitor;
use crate::hardware::iokit::IOKit;
use crate::temperature::types::{lemma_sensor_lower_names, monitor_type_name, Fan, MonitorType};
use crate::utils::text::{append_decimal, ascii_lower, ascii_lower_equals, decimal};

verus! {

/// Which speed of a fan to report.
#[derive(Debug, Clone, Copy, PartialEq, Eq, Structural)]
pub enum FanSpeed {
    /// The current speed.
    Current,
    /// The minimum speed.
    Minimum,
    /// The maximum speed.
    Maximum,
}

/// The selected speed of a fan.
pub open spec fn fan_speed(f: Fan, which: FanSpeed) -> u32 {
    match which {
        FanSpeed::Current => f.speed_rpm,
        FanSpeed::Minimum => f.min_speed,
        FanSpeed::Maximum => f.max_speed,
    }
}

/// Whether `e` is the error reported for a fan index that does not exist.
pub open spec fn is_fan_not_found(e: Error, index: usize) -> bool {
    e matches Error::NotAvailable { resource, reason } && resource@ == "Fan "@ + decimal(
        index as nat,
    ) && reason@ == "Not found"@
}

/// Reads one speed of the fan at `index` among `fans`; fails when there is no such fan.
pub fn fan_speed_at(fans: &Vec<Fan>, index: usize, which: FanSpeed) -> (r: Result<u32, Error>)
    ensures
        index < fans@.len() ==> r == Ok::<u32, Error>(fan_speed(fans@[index as int], which)),
        index >= fans@.len() ==> (r matches Err(e) && is_fan_not_found(e, index)),
{
    if index < fans.len() {
        let f = &fans[index];
        match which {
            FanSpeed::Current => Ok(f.speed_rpm),
            FanSpeed::Minimum => Ok(f.min_speed),
            FanSpeed::Maximum => Ok(f.max_speed),
        }
    } else {
        let mut resource = String::new();
        resource.append("Fan ");
        append_decimal(&mut resource, index as u64);
        Err(Error::NotAvailable { resource, reason: "Not found".to_owned() })
    }
}

/// Monitors one fan.
pub struct FanMonitor {
    io_kit: Arc<Box<dyn IOKit>>,
    index: usize,
}

impl FanMonitor {
    /// The IOKit service the monitor reads.
    pub closed spec fn spec_io_kit(&self) -> Arc<Box<dyn IOKit>> {
        self.io_kit
    }

    /// The index of the monitored fan.
    pub closed spec fn spec_index(&self) -> usize {
        self.index
    }

    /// Creates a monitor of the fan at `index`.
    pub fn new(io_kit: Arc<Box<dyn IOKit>>, index: usize) -> (r: Self)
        ensures
            r.spec_io_kit() == io_kit,
            r.spec_index() == index,
    {
        FanMonitor { io_kit, index }
    }

    /// The index of the monitored fan.
    pub fn index(&self) -> (r: usize)
        ensures
            r == self.spec_index(),
    {
        self.index
    }

    fn read_speed(&self, which: FanSpeed) -> (r: Result<u32, Error>)
        ensures
            r matches Ok(v) ==> exists|fans: Seq<Fan>|
                self.spec_index() < fans.len() && v == fan_speed(fans[self.spec_index() as int], which),
    {
        let fans = self.io_kit.get_all_fans()?;
        let r = fan_speed_at(&fans, self.index, which);
        proof {
            if r is Ok {
                assert(self.spec_index() < fans@.len());
            }
        }
        r
    }

    /// The current fan speed in RPM, as the hardware reports it; fails when the
    /// hardware cannot be read or has no fan at the index.
    pub fn speed_rpm(&self) -> (r: Result<u32, Error>)
        ensures
            r matches Ok(v) ==> exists|fans: Seq<Fan>|
                self.spec_index() < fans.len() && v == fans[self.spec_index() as int].speed_rpm,
    {
        self.read_speed(FanSpeed::Current)
    }

    /// The minimum fan speed in RPM; see [`FanMonitor::speed_rpm`].
    pub fn min_speed(&self) -> (r: Result<u32, Error>)
        ensures
            r matches Ok(v) ==> exists|fans: Seq<Fan>|
                self.spec_index() < fans.len() && v == fans[self.spec_index() as int].min_speed,
    {
        self.read_speed(FanSpeed::Minimum)
    }

    /// The maximum fan speed in RPM; see [`FanMonitor::speed_rpm`].
    pub fn max_speed(&self) -> (r: Result<u32, Error>)
        ensures
            r matches Ok(v) ==> exists|fans: Seq<Fan>|
                self.spec_index() < fans.len() && v == fans[self.spec_index() as int].max_speed,
    {
        self.read_speed(FanSpeed::Maximum)
    }

    /// The fan's name: `Fan` and its index.
    pub fn fan_name(&self) -> (r: Result<String, Error>)
        ensures
            r matches Ok(s) && s@ == "Fan "@ + decimal(self.spec_index() as nat),
    {
        let mut s = String::new();
        s.append("Fan ");
        append_decimal(&mut s, self.index as u64);
        Ok(s)
    }
}

/// Monitor for CPU temperature.
pub struct CpuTemperatureMonitor {
    io_kit: Arc<Box<dyn IOKit>>,
}

/// Monitor for GPU temperature.
pub struct GpuTemperatureMonitor {
    io_kit: Arc<Box<dyn IOKit>>,
}

/// Monitor for ambient temperature.
pub struct AmbientTemperatureMonitor {
    io_kit: Arc<Box<dyn IOKit>>,
}

/// Monitor for battery temperature.
pub struct BatteryTemperatureMonitor {
    io_kit: Arc<Box<dyn IOKit>>,
}

/// Monitor for SSD temperature.
pub struct SsdTemperatureMonitor {
    io_kit: Arc<Box<dyn IOKit>>,
}

impl CpuTemperatureMonitor {
    /// The IOKit service the monitor reads.
    pub closed spec fn spec_io_kit(&self) -> Arc<Box<dyn IOKit>> {
        self.io_kit
    }

    /// Creates a CPU temperature monitor.
    pub fn new(io_kit: Arc<Box<dyn IOKit>>) -> (r: Self)
        ensures
            r.spec_io_kit() == io_kit,
    {
        CpuTemperatureMonitor { io_kit }
    }
}

impl GpuTemperatureMonitor {
    /// The IOKit service the monitor reads.
    pub closed spec fn spec_io_kit(&self) -> Arc<Box<dyn IOKit>> {
        self.io_kit
    }

    /// Creates a GPU temperature monitor.
    pub fn new(io_kit: Arc<Box<dyn IOKit>>) -> (r: Self)
        ensures
            r.spec_io_kit() == io_kit,
    {
        GpuTemperatureMonitor { io_kit }
    }
}

impl AmbientTemperatureMonitor {
    /// The IOKit service the monitor reads.
    pub closed spec fn spec_io_kit(&self) -> Arc<Box<dyn IOKit>> {
        self.io_kit
    }

    /// Creates an ambient temperature monitor.
    pub fn new(io_kit: Arc<Box<dyn IOKit>>) -> (r: Self)
        ensures
            r.spec_io_kit() == io_kit,
    {
        AmbientTemperatureMonitor { io_kit }
    }
}

impl BatteryTemperatureMonitor {
    /// The IOKit service the monitor reads.
    pub closed spec fn spec_io_kit(&self) -> Arc<Box<dyn IOKit>> {
        self.io_kit
    }

    /// Creates a battery temperature monitor.
    pub fn new(io_kit: Arc<Box<dyn IOKit>>) -> (r: Self)
        ensures
            r.spec_io_kit() == io_kit,
    {
        BatteryTemperatureMonitor { io_kit }
    }
}

impl SsdTemperatureMonitor {
    /// The IOKit service the monitor reads.
    pub closed spec fn spec_io_kit(&self) -> Arc<Box<dyn IOKit>> {
        self.io_kit
    }

    /// Creates an SSD temperature monitor.
    pub fn new(io_kit: Arc<Box<dyn IOKit>>) -> (r: Self)
        ensures
            r.spec_io_kit() == io_kit,
    {
        SsdTemperatureMonitor { io_kit }
    }
}

/// The temperature monitor kind a name selects, compared without regard to ASCII
/// case: `cpu`, `gpu`, `ambient`, `battery` or `ssd`.
pub open spec fn spec_monitor_type_for(name: Seq<char>) -> Option<MonitorType> {
    let l = ascii_lower(name);
    if l == "cpu"@ {
        Some(MonitorType::Cpu)
    } else if l == "gpu"@ {
        Some(MonitorType::Gpu)
    } else if l == "ambient"@ {
        Some(MonitorType::Ambient)
    } else if l == "battery"@ {
        Some(MonitorType::Battery)
    } else if l == "ssd"@ {
        Some(MonitorType::Ssd)
    } else {
        None
    }
}

/// A name selects the sensor kind whose display name it is, compared without regard to
/// ASCII case; distinct kinds need names that differ in more than case, and no name
/// selects a fan.
pub proof fn law_monitor_type_is_name(name: Seq<char>)
    ensures
        spec_monitor_type_for(name) matches Some(k) ==> ascii_lower(name) == ascii_lower(
            monitor_type_name(k),
        ),
        spec_monitor_type_for(name) matches Some(k) ==> !(k is Fan),
        spec_monitor_type_for(monitor_type_name(MonitorType::Cpu)) == Some(MonitorType::Cpu),
        spec_monitor_type_for(monitor_type_name(MonitorType::Gpu)) == Some(MonitorType::Gpu),
        spec_monitor_type_for(monitor_type_name(MonitorType::Ambient)) == Some(MonitorType::Ambient),
        spec_monitor_type_for(monitor_type_name(MonitorType::Battery)) == Some(MonitorType::Battery),
        spec_monitor_type_for(monitor_type_name(MonitorType::Ssd)) == Some(MonitorType::Ssd),
{
    lemma_sensor_lower_names();
    reveal_strlit("cpu");
    reveal_strlit("gpu");
    reveal_strlit("ambient");
    reveal_strlit("battery");
    reveal_strlit("ssd");
}

/// The temperature monitor kind that a name selects, or `None` for an unknown name.
///
/// The name is compared after lower-casing; only ASCII letters can lower-case to the
/// letters of the known names, so ASCII lower-casing decides as full lower-casing does.
pub fn monitor_type_for(name: &str) -> (r: Option<MonitorType>)
    ensures
        r == spec_monitor_type_for(name@),
{
    if ascii_lower_equals(name, "cpu") {
        Some(MonitorType::Cpu)
    } else if ascii_lower_equals(name, "gpu") {
        Some(MonitorType::Gpu)
    } else if ascii_lower_equals(name, "ambient") {
        Some(MonitorType::Ambient)
    } else if ascii_lower_equals(name, "battery") {
        Some(MonitorType::Battery)
    } else if ascii_lower_equals(name, "ssd") {
        Some(MonitorType::Ssd)
    } else {
        None
    }
}

} // verus!

verus! {

impl HardwareMonitor for CpuTemperatureMonitor {
    open spec fn spec_name(&self) -> Seq<char> {
        "CPU Temperature Monitor"@
    }

    open spec fn spec_hardware_type(&self) -> Seq<char> {
        "CPU"@
    }

    open spec fn spec_device_id(&self) -> Seq<char> {
        "cpu0"@
    }

    fn name(&self) -> (r: Result<String, Error>)
        ensures
            r is Ok,
    {
        Ok("CPU Temperature Monitor".to_owned())
    }

    fn hardware_type(&self) -> (r: Result<String, Error>)
        ensures
            r is Ok,
    {
        Ok("CPU".to_owned())
    }

    fn device_id(&self) -> (r: Result<String, Error>)
        ensures
            r is Ok,
    {
        Ok("cpu0".to_owned())
    }
}

impl HardwareMonitor for GpuTemperatureMonitor {
    open spec fn spec_name(&self) -> Seq<char> {
        "GPU Temperature Monitor"@
    }

    open spec fn spec_hardware_type(&self) -> Seq<char> {
        "GPU"@
    }

    open spec fn spec_device_id(&self) -> Seq<char> {
        "gpu0"@
    }

    fn name(&self) -> (r: Result<String, Error>)
        ensures
            r is Ok,
    {
        Ok("GPU Temperature Monitor".to_owned())
    }

    fn hardware_type(&self) -> (r: Result<String, Error>)
        ensures
            r is Ok,
    {
        Ok("GPU".to_owned())
    }

    fn device_id(&self) -> (r: Result<String, Error>)
        ensures
            r is Ok,
    {
        Ok("gpu0".to_owned())
    }
}

impl HardwareMonitor for AmbientTemperatureMonitor {
    open spec fn spec_name(&self) -> Seq<char> {
        "Ambient Temperature Monitor"@
    }

    open spec fn spec_hardware_type(&self) -> Seq<char> {
        "Ambient"@
    }

    open spec fn spec_device_id(&self) -> Seq<char> {
        "ambient0"@
    }

    fn name(&self) -> (r: Result<String, Error>)
        ensures
            r is Ok,
    {
        Ok("Ambient Temperature Monitor".to_owned())
    }

    fn hardware_type(&self) -> (r: Result<String, Error>)
        ensures
            r is Ok,
    {
        Ok("Ambient".to_owned())
    }

    fn device_id(&self) -> (r: Result<String, Error>)
        ensures
            r is Ok,
    {
        Ok("ambient0".to_owned())
    }
}

impl HardwareMonitor for BatteryTemperatureMonitor {
    open spec fn spec_name(&self) -> Seq<char> {
        "Battery Temperature Monitor"@
    }

    open spec fn spec_hardware_type(&self) -> Seq<char> {
        "Battery"@
    }

    open spec fn spec_device_id(&self) -> Seq<char> {
        "battery0"@
    }

    fn name(&self) -> (r: Result<String, Error>)
        ensures
            r is Ok,
    {
        Ok("Battery Temperature Monitor".to_owned())
    }

    fn hardware_type(&self) -> (r: Result<String, Error>)
        ensures
            r is Ok,
    {
        Ok("Battery".to_owned())
    }

    fn device_id(&self) -> (r: Result<String, Error>)
        ensures
            r is Ok,
    {
        Ok("battery0".to_owned())
    }
}

impl HardwareMonitor for SsdTemperatureMonitor {
    open spec fn spec_name(&self) -> Seq<char> {
        "SSD Temperature Monitor"@
    }

    open spec fn spec_hardware_type(&self) -> Seq<char> {
        "SSD"@
    }

    open spec fn spec_device_id(&self) -> Seq<char> {
        "ssd0"@
    }

    fn name(&self) -> (r: Result<String, Error>)
        ensures
            r is Ok,
    {
        Ok("SSD Temperature Monitor".to_owned())
    }

    fn hardware_type(&self) -> (r: Result<String, Error>)
        ensures
            r is Ok,
    {
        Ok("SSD".to_owned())
    }

    fn device_id(&self) -> (r: Result<String, Error>)
        ensures
            r is Ok,
    {
        Ok("ssd0".to_owned())
    }
}

} // verus!

verus! {

/// One temperature monitor of any of the sensor kinds.
pub enum SensorMonitor {
    /// CPU temperature.
    Cpu(CpuTemperatureMonitor),
    /// GPU temperature.
    Gpu(GpuTemperatureMonitor),
    /// Ambient temperature.
    Ambient(AmbientTemperatureMonitor),
    /// Battery temperature.
    Battery(BatteryTemperatureMonitor),
    /// SSD temperature.
    Ssd(SsdTemperatureMonitor),
}

impl SensorMonitor {
    /// The kind of sensor the monitor reads.
    pub open spec fn kind(&self) -> MonitorType {
        match self {
            SensorMonitor::Cpu(_) => MonitorType::Cpu,
            SensorMonitor::Gpu(_) => MonitorType::Gpu,
            SensorMonitor::Ambient(_) => MonitorType::Ambient,
            SensorMonitor::Battery(_) => MonitorType::Battery,
            SensorMonitor::Ssd(_) => MonitorType::Ssd,
        }
    }

    /// The IOKit service the monitor reads.
    pub open spec fn spec_io_kit(&self) -> Arc<Box<dyn IOKit>> {
        match self {
            SensorMonitor::Cpu(m) => m.spec_io_kit(),
            SensorMonitor::Gpu(m) => m.spec_io_kit(),
            SensorMonitor::Ambient(m) => m.spec_io_kit(),
            SensorMonitor::Battery(m) => m.spec_io_kit(),
            SensorMonitor::Ssd(m) => m.spec_io_kit(),
        }
    }

    /// A monitor of the given sensor kind; `kind` names a sensor, not a fan.
    pub fn of_kind(kind: MonitorType, io_kit: Arc<Box<dyn IOKit>>) -> (r: Self)
        requires
            !(kind is Fan),
        ensures
            r.kind() == kind,
            r.spec_io_kit() == io_kit,
    {
        match kind {
            MonitorType::Cpu => SensorMonitor::Cpu(CpuTemperatureMonitor::new(io_kit)),
            MonitorType::Gpu => SensorMonitor::Gpu(GpuTemperatureMonitor::new(io_kit)),
            MonitorType::Ambient => SensorMonitor::Ambient(AmbientTemperatureMonitor::new(io_kit)),
            MonitorType::Battery => SensorMonitor::Battery(BatteryTemperatureMonitor::new(io_kit)),
            _ => SensorMonitor::Ssd(SsdTemperatureMonitor::new(io_kit)),
        }
    }

    /// The kind of sensor the monitor reads.
    pub fn monitor_type(&self) -> (r: MonitorType)
        ensures
            r == self.kind(),
    {
        match self {
            SensorMonitor::Cpu(_) => MonitorType::Cpu,
            SensorMonitor::Gpu(_) => MonitorType::Gpu,
            SensorMonitor::Ambient(_) => MonitorType::Ambient,
            SensorMonitor::Battery(_) => MonitorType::Battery,
            SensorMonitor::Ssd(_) => MonitorType::Ssd,
        }
    }
}

/// The name a monitor of the given kind reports.
pub open spec fn sensor_monitor_name(kind: MonitorType) -> Seq<char> {
    match kind {
        MonitorType::Cpu => "CPU Temperature Monitor"@,
        MonitorType::Gpu => "GPU Temperature Monitor"@,
        MonitorType::Ambient => "Ambient Temperature Monitor"@,
        MonitorType::Battery => "Battery Temperature Monitor"@,
        _ => "SSD Temperature Monitor"@,
    }
}

impl HardwareMonitor for SensorMonitor {
    open spec fn spec_name(&self) -> Seq<char> {
        sensor_monitor_name(self.kind())
    }

    open spec fn spec_hardware_type(&self) -> Seq<char> {
        match self {
            SensorMonitor::Cpu(m) => m.spec_hardware_type(),
            SensorMonitor::Gpu(m) => m.spec_hardware_type(),
            SensorMonitor::Ambient(m) => m.spec_hardware_type(),
            SensorMonitor::Battery(m) => m.spec_hardware_type(),
            SensorMonitor::Ssd(m) => m.spec_hardware_type(),
        }
    }

    open spec fn spec_device_id(&self) -> Seq<char> {
        match self {
            SensorMonitor::Cpu(m) => m.spec_device_id(),
            SensorMonitor::Gpu(m) => m.spec_device_id(),
            SensorMonitor::Ambient(m) => m.spec_device_id(),
            SensorMonitor::Battery(m) => m.spec_device_id(),
            SensorMonitor::Ssd(m) => m.spec_device_id(),
        }
    }

    fn name(&self) -> (r: Result<String, Error>)
        ensures
            r is Ok,
    {
        match self {
            SensorMonitor::Cpu(m) => m.name(),
            SensorMonitor::Gpu(m) => m.name(),
            SensorMonitor::Ambient(m) => m.name(),
            SensorMonitor::Battery(m) => m.name(),
            SensorMonitor::Ssd(m) => m.name(),
        }
    }

    fn hardware_type(&self) -> (r: Result<String, Error>)
        ensures
            r is Ok,
    {
        match self {
            SensorMonitor::Cpu(m) => m.hardware_type(),
            SensorMonitor::Gpu(m) => m.hardware_type(),
            SensorMonitor::Ambient(m) => m.hardware_type(),
            SensorMonitor::Battery(m) => m.hardware_type(),
            SensorMonitor::Ssd(m) => m.hardware_type(),
        }
    }

    fn device_id(&self) -> (r: Result<String, Error>)
        ensures
            r is Ok,
    {
        match self {
            SensorMonitor::Cpu(m) => m.device_id(),
            SensorMonitor::Gpu(m) => m.device_id(),
            SensorMonitor::Ambient(m) => m.device_id(),
            SensorMonitor::Battery(m) => m.device_id(),
            SensorMonitor::Ssd(m) => m.device_id(),
        }
    }
}

/// Creates the temperature monitor that a name selects, compared without regard to
/// case; `None` for a name that selects no sensor.
pub fn create_monitor(monitor_type: &str, io_kit: Arc<Box<dyn IOKit>>) -> (r: Option<SensorMonitor>)
    ensures
        match spec_monitor_type_for(monitor_type@) {
            Some(k) => r matches Some(m) && m.kind() == k && m.spec_io_kit() == io_kit,
            None => r is None,
        },
{
    match monitor_type_for(monitor_type) {
        Some(k) => Some(SensorMonitor::of_kind(k, io_kit)),
        None => None,
    }
}

} // verus!
