//! System information: architecture, host name, OS versions, CPU counts, memory and
//! boot time, with monitors over them.
//!
//! The values come from sysctl, which the host application reads; [`SystemReadings`]
//! carries what it read, and [`System`] interprets it.

pub mod vm_stat;

use vstd::prelude::*;
use std::time::Instant;
use crate::error::Error;
use crate::utils::clock::{instant_now, unix_time_secs};
use crate::utils::text::{lines, prefix_bytes, same_text, utf8_lossy, utf8_to_string};

verus! {

/// Errors that can occur during system monitoring.
#[derive(Debug)]
pub enum SystemError {
    /// A system call failed.
    SystemCallFailed(String),
    /// A string was not valid in its encoding.
    InvalidStringEncoding,
    /// System information could not be obtained.
    InfoError(String),
}

/// The description of a system error.
pub open spec fn system_error_text(e: SystemError) -> Seq<char> {
    match e {
        SystemError::SystemCallFailed(m) => "System call failed: "@ + m@,
        SystemError::InvalidStringEncoding => "Invalid string encoding"@,
        SystemError::InfoError(m) => "Failed to get system information: "@ + m@,
    }
}

/// Whether `r` is the crate error that the system error `e` becomes.
pub open spec fn is_system_error_of(r: Error, e: SystemError) -> bool {
    r matches Error::System(m) && m@ == system_error_text(e)
}

impl SystemError {
    /// The description of the error.
    pub fn to_string(&self) -> (r: String)
        ensures
            r@ == system_error_text(*self),
    {
        let mut s = String::new();
        match self {
            SystemError::SystemCallFailed(m) => {
                s.append("System call failed: ");
                s.append(m.as_str());
            },
            SystemError::InvalidStringEncoding => {
                s.append("Invalid string encoding");
            },
            SystemError::InfoError(m) => {
                s.append("Failed to get system information: ");
                s.append(m.as_str());
            },
        }
        s
    }

    /// The crate error this system error becomes: a system error with its description.
    pub fn into_error(self) -> (r: Error)
        ensures
            is_system_error_of(r, self),
    {
        let t = self.to_string();
        Error::system(t.as_str())
    }
}

impl From<SystemError> for Error {
    fn from(err: SystemError) -> (r: Error)
        ensures
            is_system_error_of(r, err),
    {
        err.into_error()
    }
}

impl vstd::std_specs::convert::FromSpecImpl<SystemError> for Error {
    open spec fn obeys_from_spec() -> bool {
        false
    }

    open spec fn from_spec(err: SystemError) -> Error {
        vstd::pervasive::arbitrary()
    }
}

/// System architecture.
#[derive(Debug, Clone, Copy, PartialEq, Eq, Structural)]
pub enum Architecture {
    /// Intel x86_64.
    Intel,
    /// Apple Silicon (ARM).
    AppleSilicon,
    /// Anything else.
    Unknown,
}

/// The display name of an architecture.
pub open spec fn architecture_name(a: Architecture) -> Seq<char> {
    match a {
        Architecture::Intel => "x86_64"@,
        Architecture::AppleSilicon => "arm64"@,
        Architecture::Unknown => "unknown"@,
    }
}

impl Architecture {
    /// The display name of the architecture.
    pub fn to_string(&self) -> (r: String)
        ensures
            r@ == architecture_name(*self),
    {
        match self {
            Architecture::Intel => "x86_64".to_owned(),
            Architecture::AppleSilicon => "arm64".to_owned(),
            Architecture::Unknown => "unknown".to_owned(),
        }
    }
}

/// Whether `bytes` is a C string: it ends with its only NUL byte.
pub open spec fn is_nul_terminated_c_string(bytes: Seq<u8>) -> bool {
    bytes.len() > 0 && bytes.last() == 0 && forall|i: int|
        0 <= i < bytes.len() - 1 ==> bytes[i] != 0
}

/// The architecture named by the machine sysctl value, given as a C string.
pub open spec fn spec_architecture_of(bytes: Seq<u8>) -> Result<Architecture, SystemError> {
    if !is_nul_terminated_c_string(bytes) || !vstd::utf8::valid_utf8(bytes.drop_last()) {
        Err(SystemError::InvalidStringEncoding)
    } else if vstd::utf8::decode_utf8(bytes.drop_last()) == "arm64"@ {
        Ok(Architecture::AppleSilicon)
    } else if vstd::utf8::decode_utf8(bytes.drop_last()) == "x86_64"@ {
        Ok(Architecture::Intel)
    } else {
        Ok(Architecture::Unknown)
    }
}

fn is_c_string(bytes: &[u8]) -> (r: bool)
    ensures
        r == is_nul_terminated_c_string(bytes@),
{
    let n = bytes.len();
    if n == 0 || bytes[n - 1] != 0 {
        return false;
    }
    let mut i: usize = 0;
    while i < n - 1
        invariant
            n == bytes@.len(),
            n > 0,
            i <= n - 1,
            forall|j: int| 0 <= j < i ==> bytes@[j] != 0,
        decreases n - 1 - i,
    {
        if bytes[i] == 0 {
            return false;
        }
        i = i + 1;
    }
    true
}

/// Determines the architecture from the machine sysctl value.
pub fn parse_architecture(bytes: &[u8]) -> (r: Result<Architecture, SystemError>)
    ensures
        match spec_architecture_of(bytes@) {
            Ok(a) => r == Ok::<Architecture, SystemError>(a),
            Err(_) => r matches Err(SystemError::InvalidStringEncoding),
        },
{
    if !is_c_string(bytes) {
        return Err(SystemError::InvalidStringEncoding);
    }
    let body = prefix_bytes(bytes, bytes.len() - 1);
    assert(body@ =~= bytes@.drop_last());
    match utf8_to_string(body) {
        None => Err(SystemError::InvalidStringEncoding),
        Some(text) => {
            if same_text(text.as_str(), "arm64") {
                Ok(Architecture::AppleSilicon)
            } else if same_text(text.as_str(), "x86_64") {
                Ok(Architecture::Intel)
            } else {
                Ok(Architecture::Unknown)
            }
        },
    }
}

/// The text of a sysctl string value: every byte but the last, the terminating NUL.
pub open spec fn sysctl_text_bytes(bytes: Seq<u8>) -> Seq<u8> {
    bytes.drop_last()
}

/// Decodes a sysctl string value: drops the last byte and requires valid UTF-8.
pub fn parse_sysctl_text(bytes: &[u8]) -> (r: Result<String, SystemError>)
    requires
        bytes@.len() > 0,
    ensures
        r is Ok <==> vstd::utf8::valid_utf8(sysctl_text_bytes(bytes@)),
        r matches Ok(s) ==> s@ == vstd::utf8::decode_utf8(sysctl_text_bytes(bytes@)),
        r matches Err(e) ==> e is InvalidStringEncoding,
{
    let body = prefix_bytes(bytes, bytes.len() - 1);
    assert(body@ =~= bytes@.drop_last());
    match utf8_to_string(body) {
        Some(s) => Ok(s),
        None => Err(SystemError::InvalidStringEncoding),
    }
}

/// The values read from sysctl for one update, each either read or failed.
pub struct SystemReadings {
    /// The machine type, as a C string.
    pub machine: Result<Vec<u8>, SystemError>,
    /// The host name, NUL-terminated.
    pub hostname: Result<Vec<u8>, SystemError>,
    /// The OS version, NUL-terminated.
    pub os_version: Result<Vec<u8>, SystemError>,
    /// The kernel release, NUL-terminated.
    pub kernel_version: Result<Vec<u8>, SystemError>,
    /// The number of physical CPUs.
    pub physical_cpu_count: Result<u32, SystemError>,
    /// The number of logical CPUs.
    pub logical_cpu_count: Result<u32, SystemError>,
    /// The physical memory size in bytes.
    pub total_memory: Result<u64, SystemError>,
    /// The boot time in seconds since the Unix epoch.
    pub boot_time_secs: Result<i64, SystemError>,
}

/// Whether every text reading that was read is non-empty, as sysctl always gives
/// at least the terminating NUL.
pub open spec fn readings_well_formed(r: SystemReadings) -> bool {
    &&& (r.hostname matches Ok(b) ==> b@.len() > 0)
    &&& (r.os_version matches Ok(b) ==> b@.len() > 0)
    &&& (r.kernel_version matches Ok(b) ==> b@.len() > 0)
}

/// Whether a text reading was read and decodes.
pub open spec fn text_reading_ok(r: Result<Vec<u8>, SystemError>) -> bool {
    r matches Ok(b) && vstd::utf8::valid_utf8(sysctl_text_bytes(b@))
}

/// The decoded text of a text reading that is fine.
pub open spec fn text_reading(r: Result<Vec<u8>, SystemError>) -> Seq<char> {
    match r {
        Ok(b) => vstd::utf8::decode_utf8(sysctl_text_bytes(b@)),
        Err(_) => Seq::empty(),
    }
}

/// Whether the machine reading was read and names an architecture.
pub open spec fn machine_ok(r: SystemReadings) -> bool {
    r.machine matches Ok(b) && spec_architecture_of(b@) is Ok
}

/// Whether the readings up to the host name were read and parse.
pub open spec fn ok_through_hostname(r: SystemReadings) -> bool {
    machine_ok(r) && text_reading_ok(r.hostname)
}

/// Whether the readings up to the OS version were read and parse.
pub open spec fn ok_through_os_version(r: SystemReadings) -> bool {
    ok_through_hostname(r) && text_reading_ok(r.os_version)
}

/// Whether the readings up to the kernel version were read and parse.
pub open spec fn ok_through_kernel_version(r: SystemReadings) -> bool {
    ok_through_os_version(r) && text_reading_ok(r.kernel_version)
}

/// Whether the readings up to the CPU counts were read and parse.
pub open spec fn ok_through_cpu_counts(r: SystemReadings) -> bool {
    ok_through_kernel_version(r) && r.physical_cpu_count is Ok && r.logical_cpu_count is Ok
}

/// Whether the readings up to the memory size were read and parse.
pub open spec fn ok_through_memory(r: SystemReadings) -> bool {
    ok_through_cpu_counts(r) && r.total_memory is Ok
}

/// Whether every reading was read and parses.
pub open spec fn readings_ok(r: SystemReadings) -> bool {
    &&& r.machine matches Ok(b) && spec_architecture_of(b@) is Ok
    &&& text_reading_ok(r.hostname)
    &&& text_reading_ok(r.os_version)
    &&& text_reading_ok(r.kernel_version)
    &&& r.physical_cpu_count is Ok
    &&& r.logical_cpu_count is Ok
    &&& r.total_memory is Ok
    &&& r.boot_time_secs is Ok
}

/// The system error of the first reading, in update order, that failed to be read or
/// to parse.
pub open spec fn first_failure(r: SystemReadings) -> SystemError {
    match r.machine {
        Err(e) => e,
        Ok(b) => if spec_architecture_of(b@) is Err {
            SystemError::InvalidStringEncoding
        } else {
            match r.hostname {
                Err(e) => e,
                Ok(b) => if !text_reading_ok(r.hostname) {
                    SystemError::InvalidStringEncoding
                } else {
                    match r.os_version {
                        Err(e) => e,
                        Ok(b) => if !text_reading_ok(r.os_version) {
                            SystemError::InvalidStringEncoding
                        } else {
                            match r.kernel_version {
                                Err(e) => e,
                                Ok(b) => if !text_reading_ok(r.kernel_version) {
                                    SystemError::InvalidStringEncoding
                                } else {
                                    match r.physical_cpu_count {
                                        Err(e) => e,
                                        Ok(_) => match r.logical_cpu_count {
                                            Err(e) => e,
                                            Ok(_) => match r.total_memory {
                                                Err(e) => e,
                                                Ok(_) => match r.boot_time_secs {
                                                    Err(e) => e,
                                                    Ok(_) => SystemError::InvalidStringEncoding,
                                                },
                                            },
                                        },
                                    }
                                },
                            }
                        },
                    }
                },
            }
        },
    }
}

/// System information and monitoring.
#[derive(Debug)]
pub struct System {
    hostname: String,
    architecture: Architecture,
    os_version: String,
    kernel_version: String,
    physical_cpu_count: u32,
    logical_cpu_count: u32,
    total_memory: u64,
    boot_time_secs: u64,
    last_update: Instant,
}

impl System {
    /// The host name.
    pub closed spec fn spec_hostname(&self) -> Seq<char> {
        self.hostname@
    }

    /// The architecture.
    pub closed spec fn spec_architecture(&self) -> Architecture {
        self.architecture
    }

    /// The OS version.
    pub closed spec fn spec_os_version(&self) -> Seq<char> {
        self.os_version@
    }

    /// The kernel version.
    pub closed spec fn spec_kernel_version(&self) -> Seq<char> {
        self.kernel_version@
    }

    /// The number of physical CPUs.
    pub closed spec fn spec_physical_cpu_count(&self) -> u32 {
        self.physical_cpu_count
    }

    /// The number of logical CPUs.
    pub closed spec fn spec_logical_cpu_count(&self) -> u32 {
        self.logical_cpu_count
    }

    /// The physical memory size in bytes.
    pub closed spec fn spec_total_memory(&self) -> u64 {
        self.total_memory
    }

    /// The boot time in seconds since the Unix epoch.
    pub closed spec fn spec_boot_time(&self) -> u64 {
        self.boot_time_secs
    }

    /// When the system information was last brought up to date.
    pub closed spec fn spec_last_update(&self) -> Instant {
        self.last_update
    }

    /// Whether the system holds what the readings give.
    pub open spec fn holds_readings(&self, r: SystemReadings) -> bool {
        &&& r.machine matches Ok(b) && spec_architecture_of(b@) == Ok::<
            Architecture,
            SystemError,
        >(self.spec_architecture())
        &&& self.spec_hostname() == text_reading(r.hostname)
        &&& self.spec_os_version() == text_reading(r.os_version)
        &&& self.spec_kernel_version() == text_reading(r.kernel_version)
        &&& r.physical_cpu_count == Ok::<u32, SystemError>(self.spec_physical_cpu_count())
        &&& r.logical_cpu_count == Ok::<u32, SystemError>(self.spec_logical_cpu_count())
        &&& r.total_memory == Ok::<u64, SystemError>(self.spec_total_memory())
        &&& r.boot_time_secs matches Ok(t) && self.spec_boot_time() == t as u64
    }

    /// Whether the system is `before` with the readings applied in update order up to
    /// the first one that failed or does not parse: each value whose reading and every
    /// earlier reading are fine is the one read; the others are those of `before`.
    pub open spec fn applied_over(&self, before: &System, r: SystemReadings) -> bool {
        &&& if machine_ok(r) {
            r.machine matches Ok(b) && spec_architecture_of(b@) == Ok::<Architecture, SystemError>(
                self.spec_architecture(),
            )
        } else {
            self.spec_architecture() == before.spec_architecture()
        }
        &&& self.spec_hostname() == if ok_through_hostname(r) {
            text_reading(r.hostname)
        } else {
            before.spec_hostname()
        }
        &&& self.spec_os_version() == if ok_through_os_version(r) {
            text_reading(r.os_version)
        } else {
            before.spec_os_version()
        }
        &&& self.spec_kernel_version() == if ok_through_kernel_version(r) {
            text_reading(r.kernel_version)
        } else {
            before.spec_kernel_version()
        }
        &&& if ok_through_cpu_counts(r) {
            &&& r.physical_cpu_count == Ok::<u32, SystemError>(self.spec_physical_cpu_count())
            &&& r.logical_cpu_count == Ok::<u32, SystemError>(self.spec_logical_cpu_count())
        } else {
            &&& self.spec_physical_cpu_count() == before.spec_physical_cpu_count()
            &&& self.spec_logical_cpu_count() == before.spec_logical_cpu_count()
        }
        &&& if ok_through_memory(r) {
            r.total_memory == Ok::<u64, SystemError>(self.spec_total_memory())
        } else {
            self.spec_total_memory() == before.spec_total_memory()
        }
        &&& if readings_ok(r) {
            r.boot_time_secs matches Ok(t) && self.spec_boot_time() == t as u64
        } else {
            self.spec_boot_time() == before.spec_boot_time()
        }
    }

    /// Creates the system information from the sysctl readings.
    pub fn new(readings: SystemReadings) -> (r: Result<Self, Error>)
        requires
            readings_well_formed(readings),
        ensures
            r is Ok <==> readings_ok(readings),
            r matches Ok(s) ==> s.holds_readings(readings),
            r matches Err(e) ==> is_system_error_of(e, first_failure(readings)),
    {
        let mut system = System {
            hostname: String::new(),
            architecture: Architecture::Unknown,
            os_version: String::new(),
            kernel_version: String::new(),
            physical_cpu_count: 0,
            logical_cpu_count: 0,
            total_memory: 0,
            boot_time_secs: 0,
            last_update: instant_now(),
        };
        match system.update(readings) {
            Ok(()) => Ok(system),
            Err(e) => Err(e),
        }
    }

    /// Updates the system information from the sysctl readings.
    ///
    /// The readings are applied in order (architecture, host name, OS version, kernel
    /// version, CPU counts, memory, boot time); the first one that failed or does not
    /// parse stops the update with its error, and the values before it stay applied.
    pub fn update(&mut self, readings: SystemReadings) -> (r: Result<(), Error>)
        requires
            readings_well_formed(readings),
        ensures
            r is Ok <==> readings_ok(readings),
            r is Ok ==> final(self).holds_readings(readings),
            r matches Err(e) ==> is_system_error_of(e, first_failure(readings)),
            final(self).applied_over(old(self), readings),
            r is Err ==> final(self).spec_last_update() == old(self).spec_last_update(),
    {
        let ghost rd = readings;
        let SystemReadings {
            machine,
            hostname,
            os_version,
            kernel_version,
            physical_cpu_count,
            logical_cpu_count,
            total_memory,
            boot_time_secs,
        } = readings;
        let machine = match machine {
            Ok(b) => b,
            Err(e) => {
                return Err(e.into_error());
            },
        };
        match parse_architecture(machine.as_slice()) {
            Ok(a) => {
                self.architecture = a;
            },
            Err(e) => {
                return Err(e.into_error());
            },
        }
        let hostname = match hostname {
            Ok(b) => b,
            Err(e) => {
                return Err(e.into_error());
            },
        };
        match parse_sysctl_text(hostname.as_slice()) {
            Ok(s) => {
                self.hostname = s;
            },
            Err(e) => {
                return Err(e.into_error());
            },
        }
        let os_version = match os_version {
            Ok(b) => b,
            Err(e) => {
                return Err(e.into_error());
            },
        };
        match parse_sysctl_text(os_version.as_slice()) {
            Ok(s) => {
                self.os_version = s;
            },
            Err(e) => {
                return Err(e.into_error());
            },
        }
        let kernel_version = match kernel_version {
            Ok(b) => b,
            Err(e) => {
                return Err(e.into_error());
            },
        };
        match parse_sysctl_text(kernel_version.as_slice()) {
            Ok(s) => {
                self.kernel_version = s;
            },
            Err(e) => {
                return Err(e.into_error());
            },
        }
        let physical = match physical_cpu_count {
            Ok(n) => n,
            Err(e) => {
                return Err(e.into_error());
            },
        };
        let logical = match logical_cpu_count {
            Ok(n) => n,
            Err(e) => {
                return Err(e.into_error());
            },
        };
        self.physical_cpu_count = physical;
        self.logical_cpu_count = logical;
        match total_memory {
            Ok(m) => {
                self.total_memory = m;
            },
            Err(e) => {
                return Err(e.into_error());
            },
        }
        match boot_time_secs {
            Ok(t) => {
                self.boot_time_secs = t as u64;
            },
            Err(e) => {
                return Err(e.into_error());
            },
        }
        self.last_update = instant_now();
        Ok(())
    }

    /// System information with fixed test values: an Apple Silicon host named
    /// `test-hostname` with 8 physical and 16 logical CPUs and 16 GiB of memory,
    /// booted at 2021-01-01.
    pub fn new_for_testing() -> (r: Self)
        ensures
            r.spec_hostname() == "test-hostname"@,
            r.spec_architecture() == Architecture::AppleSilicon,
            r.spec_os_version() == "macOS 14.0"@,
            r.spec_kernel_version() == "Darwin 23.0.0"@,
            r.spec_physical_cpu_count() == 8,
            r.spec_logical_cpu_count() == 16,
            r.spec_total_memory() == 17179869184,
            r.spec_boot_time() == 1609459200,
    {
        System {
            hostname: "test-hostname".to_owned(),
            architecture: Architecture::AppleSilicon,
            os_version: "macOS 14.0".to_owned(),
            kernel_version: "Darwin 23.0.0".to_owned(),
            physical_cpu_count: 8,
            logical_cpu_count: 16,
            total_memory: 17179869184,
            boot_time_secs: 1609459200,
            last_update: instant_now(),
        }
    }

    /// A copy of the system information.
    pub fn duplicate(&self) -> (r: System)
        ensures
            r.same_as(self),
    {
        System {
            hostname: self.hostname.clone(),
            architecture: self.architecture,
            os_version: self.os_version.clone(),
            kernel_version: self.kernel_version.clone(),
            physical_cpu_count: self.physical_cpu_count,
            logical_cpu_count: self.logical_cpu_count,
            total_memory: self.total_memory,
            boot_time_secs: self.boot_time_secs,
            last_update: self.last_update,
        }
    }

    /// Whether two values hold the same system information.
    pub open spec fn same_as(&self, other: &System) -> bool {
        &&& self.spec_hostname() == other.spec_hostname()
        &&& self.spec_architecture() == other.spec_architecture()
        &&& self.spec_os_version() == other.spec_os_version()
        &&& self.spec_kernel_version() == other.spec_kernel_version()
        &&& self.spec_physical_cpu_count() == other.spec_physical_cpu_count()
        &&& self.spec_logical_cpu_count() == other.spec_logical_cpu_count()
        &&& self.spec_total_memory() == other.spec_total_memory()
        &&& self.spec_boot_time() == other.spec_boot_time()
    }

    /// A monitor of the system information.
    pub fn info_monitor(&self) -> (r: SystemInfoMonitorImpl)
        ensures
            r.system.same_as(self),
    {
        SystemInfoMonitorImpl { system: self.duplicate() }
    }

    /// A monitor of the system load.
    pub fn load_monitor(&self) -> (r: SystemLoadMonitorImpl)
        ensures
            r.system.same_as(self),
    {
        SystemLoadMonitorImpl { system: self.duplicate() }
    }

    /// A monitor of the system uptime.
    pub fn uptime_monitor(&self) -> (r: SystemUptimeMonitorImpl)
        ensures
            r.system.same_as(self),
    {
        SystemUptimeMonitorImpl { system: self.duplicate() }
    }

    /// A monitor of the system resources.
    pub fn resource_monitor(&self) -> (r: SystemResourceMonitorImpl)
        ensures
            r.system.same_as(self),
    {
        SystemResourceMonitorImpl { system: self.duplicate() }
    }
}

/// Monitor for system information.
pub struct SystemInfoMonitorImpl {
    /// The system information.
    pub system: System,
}

/// Monitor for system load.
pub struct SystemLoadMonitorImpl {
    /// The system information.
    pub system: System,
}

/// Monitor for system uptime.
pub struct SystemUptimeMonitorImpl {
    /// The system information.
    pub system: System,
}

/// Monitor for system resources.
pub struct SystemResourceMonitorImpl {
    /// The system information.
    pub system: System,
}

impl crate::traits::hardware::SystemInfoMonitor for SystemInfoMonitorImpl {
    open spec fn spec_hostname(&self) -> Seq<char> {
        self.system.spec_hostname()
    }

    open spec fn spec_architecture(&self) -> Seq<char> {
        architecture_name(self.system.spec_architecture())
    }

    open spec fn spec_os_version(&self) -> Seq<char> {
        self.system.spec_os_version()
    }

    open spec fn spec_kernel_version(&self) -> Seq<char> {
        self.system.spec_kernel_version()
    }

    fn hostname(&self) -> (r: Result<String, Error>)
        ensures
            r is Ok,
    {
        Ok(self.system.hostname.clone())
    }

    fn architecture(&self) -> (r: Result<String, Error>)
        ensures
            r is Ok,
    {
        Ok(self.system.architecture.to_string())
    }

    fn os_version(&self) -> (r: Result<String, Error>)
        ensures
            r is Ok,
    {
        Ok(self.system.os_version.clone())
    }

    fn kernel_version(&self) -> (r: Result<String, Error>)
        ensures
            r is Ok,
    {
        Ok(self.system.kernel_version.clone())
    }
}

/// The uptime that a boot time and the current time give: their difference, wrapping
/// like unsigned subtraction when the clock is behind the boot time.
pub open spec fn spec_uptime(now_secs: u64, boot_secs: u64) -> u64 {
    if now_secs >= boot_secs {
        (now_secs - boot_secs) as u64
    } else {
        (now_secs + 18446744073709551616 - boot_secs) as u64
    }
}

/// The uptime is the time from boot to now: added to the boot time it gives the
/// current time exactly, wrapping past the largest 64-bit value only when the clock
/// reads earlier than the boot time.
pub proof fn law_uptime_adds_up(now_secs: u64, boot_secs: u64)
    ensures
        now_secs >= boot_secs ==> spec_uptime(now_secs, boot_secs) + boot_secs == now_secs,
        now_secs < boot_secs ==> spec_uptime(now_secs, boot_secs) + boot_secs == now_secs
            + 18446744073709551616,
{
}

impl SystemUptimeMonitorImpl {
    /// The uptime at the given current time, in seconds.
    pub fn uptime_at(&self, now_secs: u64) -> (r: u64)
        ensures
            r == spec_uptime(now_secs, self.system.spec_boot_time()),
    {
        now_secs.wrapping_sub(self.system.boot_time_secs)
    }
}

impl crate::traits::hardware::SystemUptimeMonitor for SystemUptimeMonitorImpl {
    open spec fn spec_boot_time(&self) -> u64 {
        self.system.spec_boot_time()
    }

    fn uptime_seconds(&self) -> (r: Result<u64, Error>)
        ensures
            r matches Ok(u) ==> exists|now: u64| u == spec_uptime(now, self.system.spec_boot_time()),
            r matches Err(e) ==> (e matches Error::System(m) && m@
                == "Failed to get system information: "@
                + "Failed to get current time: second time provided was later than self"@),
    {
        match unix_time_secs() {
            Some(now) => Ok(self.uptime_at(now)),
            None => Err(
                SystemError::InfoError(
                    "Failed to get current time: second time provided was later than self".to_owned(),
                ).into_error(),
            ),
        }
    }

    fn boot_time(&self) -> (r: Result<u64, Error>)
        ensures
            r == Ok::<u64, Error>(self.system.spec_boot_time()),
    {
        Ok(self.system.boot_time_secs)
    }
}

impl SystemLoadMonitorImpl {
    /// The number of threads, read from the output of `vm_stat`: that of the first line
    /// holding `Thread count` whose second colon-separated piece is a number; an
    /// information error when no line gives one.
    pub fn thread_count(&self, vm_stat_output: &[u8]) -> (r: Result<u32, Error>)
        ensures
            match vm_stat::first_thread_count(lines(utf8_lossy(vm_stat_output@))) {
                Some(n) => r == Ok::<u32, Error>(n),
                None => r matches Err(Error::System(m)) && m@
                    == "Failed to get system information: "@ + "Failed to get thread count"@,
            },
    {
        match vm_stat::thread_count_in(vm_stat_output) {
            Some(n) => Ok(n),
            None => Err(SystemError::InfoError("Failed to get thread count".to_owned()).into_error()),
        }
    }
}

impl SystemResourceMonitorImpl {
    /// The number of physical CPUs.
    pub fn physical_cpu_count(&self) -> (r: Result<u32, Error>)
        ensures
            r == Ok::<u32, Error>(self.system.spec_physical_cpu_count()),
    {
        Ok(self.system.physical_cpu_count)
    }

    /// The number of logical CPUs.
    pub fn logical_cpu_count(&self) -> (r: Result<u32, Error>)
        ensures
            r == Ok::<u32, Error>(self.system.spec_logical_cpu_count()),
    {
        Ok(self.system.logical_cpu_count)
    }

    /// The physical memory size in bytes.
    pub fn total_memory(&self) -> (r: Result<u64, Error>)
        ensures
            r == Ok::<u64, Error>(self.system.spec_total_memory()),
    {
        Ok(self.system.total_memory)
    }
}

} // verus!
