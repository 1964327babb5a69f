//! Power state, power management and power events.
//!
//! Readings that are measured in watts or percent are floating-point and are made by
//! the host application; this module holds the power sources, errors and the readings
//! that are whole numbers or flags.

use vstd::prelude::*;
use std::time::{Duration, SystemTime};
use crate::error::Error;
use crate::hardware::iokit::IOKit;
use crate::traits::hardware::PowerEventMonitor;
use crate::utils::clock::{duration_from_secs, system_time_now, system_time_since};

verus! {

/// Errors that can occur during power management operations.
#[derive(Debug)]
pub enum PowerError {
    /// A system call failed.
    SystemCallFailed,
    /// Invalid data was provided or received.
    InvalidData,
    /// The requested operation is not supported.
    NotSupported,
    /// A service-related error occurred.
    ServiceError(String),
    /// An I/O error occurred.
    IOError,
    /// A system error occurred.
    SystemError,
    /// An invalid argument was provided.
    InvalidArgument,
    /// An unsupported operation was attempted.
    UnsupportedOperation,
}

/// The description of a power error.
pub open spec fn power_error_text(e: PowerError) -> Seq<char> {
    match e {
        PowerError::SystemCallFailed => "System call failed"@,
        PowerError::InvalidData => "Invalid data"@,
        PowerError::NotSupported => "Operation not supported"@,
        PowerError::ServiceError(m) => "Service error: "@ + m@,
        PowerError::IOError => "I/O error"@,
        PowerError::SystemError => "System error"@,
        PowerError::InvalidArgument => "Invalid argument"@,
        PowerError::UnsupportedOperation => "Unsupported operation"@,
    }
}

/// The power error that a crate error becomes.
pub open spec fn power_error_of(err: Error) -> PowerError {
    match err {
        Error::IoError { .. } => PowerError::IOError,
        Error::SystemError { .. } => PowerError::SystemError,
        Error::InvalidData { .. } => PowerError::InvalidData,
        Error::InvalidArgument { .. } => PowerError::InvalidArgument,
        Error::NotImplemented { .. } => PowerError::UnsupportedOperation,
        Error::ServiceNotFound { message } => PowerError::ServiceError(message),
        _ => PowerError::SystemCallFailed,
    }
}

impl PowerError {
    /// The description of the error.
    pub fn to_string(&self) -> (r: String)
        ensures
            r@ == power_error_text(*self),
    {
        match self {
            PowerError::SystemCallFailed => "System call failed".to_owned(),
            PowerError::InvalidData => "Invalid data".to_owned(),
            PowerError::NotSupported => "Operation not supported".to_owned(),
            PowerError::ServiceError(m) => {
                let mut s = String::new();
                s.append("Service error: ");
                s.append(m.as_str());
                s
            },
            PowerError::IOError => "I/O error".to_owned(),
            PowerError::SystemError => "System error".to_owned(),
            PowerError::InvalidArgument => "Invalid argument".to_owned(),
            PowerError::UnsupportedOperation => "Unsupported operation".to_owned(),
        }
    }
}

impl From<Error> for PowerError {
    /// I/O, system, invalid-data, invalid-argument and not-implemented errors keep their
    /// kind, a missing service becomes a service error with its message, and every
    /// other error a failed system call.
    fn from(err: Error) -> (r: PowerError) {
        match err {
            Error::IoError { .. } => PowerError::IOError,
            Error::SystemError { .. } => PowerError::SystemError,
            Error::InvalidData { .. } => PowerError::InvalidData,
            Error::InvalidArgument { .. } => PowerError::InvalidArgument,
            Error::NotImplemented { .. } => PowerError::UnsupportedOperation,
            Error::ServiceNotFound { message } => PowerError::ServiceError(message),
            _ => PowerError::SystemCallFailed,
        }
    }
}

impl vstd::std_specs::convert::FromSpecImpl<Error> for PowerError {
    open spec fn obeys_from_spec() -> bool {
        true
    }

    open spec fn from_spec(err: Error) -> PowerError {
        power_error_of(err)
    }
}

/// Where the power of the machine comes from.
#[derive(Debug, Clone, Copy, PartialEq, Eq, Structural)]
pub enum PowerState {
    /// Running on battery power.
    Battery,
    /// Running on external power.
    AC,
    /// Running on external power and charging.
    Charging,
    /// The power state could not be determined.
    Unknown,
}

/// Reads power consumption of the components of the machine.
pub struct PowerConsumptionMonitorImpl {}

/// Reads the power state of the machine.
pub struct PowerStateMonitorImpl {}

/// Reads the power management state of the machine.
pub struct PowerManagementMonitorImpl {}

/// Tracks power events: wake time and thermal events.
pub struct PowerEventMonitorImpl {
    last_wake_time: SystemTime,
    thermal_events: u32,
}

/// Entry point to the power monitors. Creating it connects to nothing; each monitor
/// reaches the hardware when it is read.
pub struct Power {}

/// The power state that is reported: external power.
pub open spec fn reported_power_state() -> PowerState {
    PowerState::AC
}

/// Whether the reported power state says the machine runs on battery.
pub open spec fn reported_on_battery() -> bool {
    reported_power_state() == PowerState::Battery
}

/// Whether the reported power state says the battery is charging.
pub open spec fn reported_charging() -> bool {
    reported_power_state() == PowerState::Charging
}

/// The power-state readings agree with each other: the machine is on battery exactly
/// when the state is `Battery`, charging exactly when it is `Charging`, and never both.
pub proof fn law_power_readings_agree()
    ensures
        reported_on_battery() <==> reported_power_state() is Battery,
        reported_charging() <==> reported_power_state() is Charging,
        !(reported_on_battery() && reported_charging()),
{
}

/// The minutes of battery time that are reported as remaining.
pub const REPORTED_TIME_REMAINING_MINUTES: u32 = 180;

/// The thermal pressure, in percent, that is reported.
pub const REPORTED_THERMAL_PRESSURE: u32 = 25;

/// The seconds until the next sleep that are reported: one hour.
pub const REPORTED_SECS_UNTIL_SLEEP: u64 = 3600;

impl Power {
    /// A power monitor entry point.
    pub fn new() -> Self {
        Power {}
    }

    /// A monitor of the power consumption.
    pub fn consumption_monitor(&self) -> PowerConsumptionMonitorImpl {
        PowerConsumptionMonitorImpl {}
    }

    /// A monitor of the power state.
    pub fn state_monitor(&self) -> PowerStateMonitorImpl {
        PowerStateMonitorImpl {}
    }

    /// A monitor of the power management state.
    pub fn management_monitor(&self) -> PowerManagementMonitorImpl {
        PowerManagementMonitorImpl {}
    }

    /// A monitor of power events that counts from now, with no thermal event yet.
    pub fn event_monitor(&self) -> (r: PowerEventMonitorImpl)
        ensures
            r.spec_thermal_events() == 0,
    {
        PowerEventMonitorImpl { last_wake_time: system_time_now(), thermal_events: 0 }
    }
}

impl Default for Power {
    fn default() -> Self {
        Power {}
    }
}

impl PowerStateMonitorImpl {
    /// The current power source.
    pub fn power_state(&self) -> (r: Result<PowerState, Error>)
        ensures
            r == Ok::<PowerState, Error>(reported_power_state()),
    {
        Ok(PowerState::AC)
    }

    /// The estimated minutes of battery time remaining.
    pub fn time_remaining(&self) -> (r: Result<Option<u32>, Error>)
        ensures
            r == Ok::<Option<u32>, Error>(Some(REPORTED_TIME_REMAINING_MINUTES)),
    {
        Ok(Some(REPORTED_TIME_REMAINING_MINUTES))
    }

    /// Whether the machine runs on battery power.
    pub fn is_on_battery(&self) -> (r: Result<bool, Error>)
        ensures
            r == Ok::<bool, Error>(reported_on_battery()),
    {
        Ok(false)
    }

    /// Whether the battery is charging.
    pub fn is_charging(&self) -> (r: Result<bool, Error>)
        ensures
            r == Ok::<bool, Error>(reported_charging()),
    {
        Ok(false)
    }
}

impl PowerManagementMonitorImpl {
    /// The thermal pressure in percent.
    pub fn thermal_pressure(&self) -> (r: Result<u32, Error>)
        ensures
            r == Ok::<u32, Error>(REPORTED_THERMAL_PRESSURE),
    {
        Ok(REPORTED_THERMAL_PRESSURE)
    }

    /// The current performance mode.
    pub fn performance_mode(&self) -> (r: Result<String, Error>)
        ensures
            r matches Ok(s) && s@ == "Normal"@,
    {
        Ok("Normal".to_owned())
    }
}

impl PowerEventMonitorImpl {
    /// The number of thermal events seen.
    pub closed spec fn spec_thermal_events(&self) -> u32 {
        self.thermal_events
    }
}

impl PowerEventMonitor for PowerEventMonitorImpl {
    open spec fn spec_thermal_event_count(&self) -> u32 {
        self.spec_thermal_events()
    }

    open spec fn spec_is_sleep_prevented(&self) -> bool {
        false
    }

    /// The time since the monitor was created, zero if the clock went back since.
    fn time_since_wake(&self) -> (r: Result<Duration, Error>)
        ensures
            r is Ok,
    {
        let now = system_time_now();
        match system_time_since(&now, &self.last_wake_time) {
            Some(d) => Ok(d),
            None => Ok(duration_from_secs(0)),
        }
    }

    fn thermal_event_count(&self) -> (r: Result<u32, Error>)
        ensures
            r is Ok,
    {
        Ok(self.thermal_events)
    }

    /// One hour, from [`REPORTED_SECS_UNTIL_SLEEP`].
    fn time_until_sleep(&self) -> (r: Result<Option<Duration>, Error>)
        ensures
            r matches Ok(d) && d is Some,
    {
        Ok(Some(duration_from_secs(REPORTED_SECS_UNTIL_SLEEP)))
    }

    fn is_sleep_prevented(&self) -> (r: Result<bool, Error>)
        ensures
            r is Ok,
    {
        Ok(false)
    }
}

/// Monitors battery power consumption.
pub struct BatteryPowerMonitor {
    iokit: Box<dyn IOKit>,
}

/// Monitors CPU power consumption.
pub struct CpuPowerMonitor {
    iokit: Box<dyn IOKit>,
}

/// Monitors GPU power consumption.
pub struct GpuPowerMonitor {
    iokit: Box<dyn IOKit>,
}

/// Monitors system-wide power events and consumption.
pub struct SystemPowerMonitor {
    iokit: Box<dyn IOKit>,
    last_wake_time: SystemTime,
    thermal_events: u32,
}

/// Creates power monitoring components.
pub struct PowerFactory {
    iokit: Box<dyn IOKit>,
}

} // verus!
