use darwin_metrics::error::Error;
use darwin_metrics::system::{parse_architecture, parse_sysctl_text, Architecture, System, SystemError, SystemReadings};
use darwin_metrics::system::vm_stat::{thread_count_in, thread_count_in_text};
use darwin_metrics::traits::{SystemInfoMonitor, SystemUptimeMonitor};

fn readings() -> SystemReadings {
    SystemReadings {
        machine: Ok(b"arm64\0".to_vec()),
        hostname: Ok(b"studio\0".to_vec()),
        os_version: Ok(b"14.4\0".to_vec()),
        kernel_version: Ok(b"23.4.0\0".to_vec()),
        physical_cpu_count: Ok(10),
        logical_cpu_count: Ok(12),
        total_memory: Ok(34359738368),
        boot_time_secs: Ok(1_700_000_000),
    }
}

#[test]
fn architecture_names() {
    assert_eq!(Architecture::Intel.to_string(), "x86_64");
    assert_eq!(Architecture::AppleSilicon.to_string(), "arm64");
    assert_eq!(Architecture::Unknown.to_string(), "unknown");
}

#[test]
fn architectures_parse_from_c_strings() {
    assert_eq!(parse_architecture(b"arm64\0").unwrap(), Architecture::AppleSilicon);
    assert_eq!(parse_architecture(b"x86_64\0").unwrap(), Architecture::Intel);
    assert_eq!(parse_architecture(b"riscv\0").unwrap(), Architecture::Unknown);
    assert!(matches!(parse_architecture(b"arm64"), Err(SystemError::InvalidStringEncoding)));
    assert!(matches!(parse_architecture(b"ar\0m64\0"), Err(SystemError::InvalidStringEncoding)));
    assert!(matches!(parse_architecture(b"\xff\0"), Err(SystemError::InvalidStringEncoding)));
}

#[test]
fn sysctl_texts_drop_their_last_byte() {
    assert_eq!(parse_sysctl_text(b"studio\0").unwrap(), "studio");
    assert!(parse_sysctl_text(b"\xfe\0").is_err());
}

#[test]
fn system_error_texts() {
    assert_eq!(SystemError::SystemCallFailed("x".to_string()).to_string(), "System call failed: x");
    assert_eq!(SystemError::InvalidStringEncoding.to_string(), "Invalid string encoding");
    assert_eq!(
        SystemError::InfoError("x".to_string()).to_string(),
        "Failed to get system information: x"
    );
    let e: Error = SystemError::InvalidStringEncoding.into();
    assert!(matches!(e, Error::System(ref m) if m == "Invalid string encoding"));
}

#[test]
fn system_holds_its_readings() {
    let system = System::new(readings()).unwrap();
    let info = system.info_monitor();
    assert_eq!(info.hostname().unwrap(), "studio");
    assert_eq!(info.architecture().unwrap(), "arm64");
    assert_eq!(info.os_version().unwrap(), "14.4");
    assert_eq!(info.kernel_version().unwrap(), "23.4.0");
    let resources = system.resource_monitor();
    assert_eq!(resources.physical_cpu_count().unwrap(), 10);
    assert_eq!(resources.logical_cpu_count().unwrap(), 12);
    assert_eq!(resources.total_memory().unwrap(), 34359738368);
    let uptime = system.uptime_monitor();
    assert_eq!(uptime.boot_time().unwrap(), 1_700_000_000);
    assert_eq!(uptime.uptime_at(1_700_000_060), 60);
}

#[test]
fn system_reports_the_first_failed_reading() {
    let mut r = readings();
    r.os_version = Err(SystemError::SystemCallFailed("kern.osproductversion".to_string()));
    r.total_memory = Err(SystemError::InfoError("memory".to_string()));
    match System::new(r) {
        Err(Error::System(m)) => assert_eq!(m, "System call failed: kern.osproductversion"),
        _ => panic!("a failed reading was accepted"),
    }
    let mut r = readings();
    r.machine = Ok(b"arm64".to_vec());
    assert!(matches!(System::new(r), Err(Error::System(ref m)) if m == "Invalid string encoding"));
}

#[test]
fn testing_system_values() {
    let system = System::new_for_testing();
    let info = system.info_monitor();
    assert_eq!(info.hostname().unwrap(), "test-hostname");
    assert_eq!(info.architecture().unwrap(), "arm64");
    assert_eq!(system.resource_monitor().logical_cpu_count().unwrap(), 16);
    assert_eq!(system.uptime_monitor().boot_time().unwrap(), 1609459200);
}

#[test]
fn update_applies_new_readings() {
    let mut system = System::new_for_testing();
    assert!(system.update(readings()).is_ok());
    assert_eq!(system.info_monitor().hostname().unwrap(), "studio");
}

#[test]
fn failed_update_keeps_the_values_after_the_failure() {
    let mut system = System::new_for_testing();
    let mut r = readings();
    r.kernel_version = Err(SystemError::SystemCallFailed("kern.osrelease".to_string()));
    assert!(system.update(r).is_err());
    let info = system.info_monitor();
    assert_eq!(info.hostname().unwrap(), "studio");
    assert_eq!(info.os_version().unwrap(), "14.4");
    assert_eq!(info.kernel_version().unwrap(), "Darwin 23.0.0");
    assert_eq!(system.resource_monitor().physical_cpu_count().unwrap(), 8);
    assert_eq!(system.uptime_monitor().boot_time().unwrap(), 1609459200);
}

#[test]
fn thread_count_is_read_from_vm_stat() {
    let out = "Mach Virtual Memory Statistics: (page size of 16384 bytes)\nPages free: 1234.\nThread count:  \t 2048 \r\nThread count: 7\n";
    assert_eq!(thread_count_in_text(out), Some(2048));
    assert_eq!(thread_count_in_text("Thread count: x\nThread count: 9:1\n"), Some(9));
    assert_eq!(thread_count_in_text("Thread count 12\n"), None);
    assert_eq!(thread_count_in_text("Thread count: 4294967296\n"), None);
    assert_eq!(thread_count_in_text("Thread count: +5"), Some(5));
    assert_eq!(thread_count_in(b"thread count: 3\n"), None);
    let system = System::new_for_testing();
    assert_eq!(system.load_monitor().thread_count(b"Thread count: 100\n").unwrap(), 100);
    match system.load_monitor().thread_count(b"Pages free: 1\n") {
        Err(Error::System(m)) => assert_eq!(m, "Failed to get system information: Failed to get thread count"),
        _ => panic!("output without a thread count gave one"),
    }
}
