use darwin_metrics::error::Error;
use std::io::{Error as IoError, ErrorKind};

#[test]
fn test_error_creation() {
    let io_err = IoError::new(ErrorKind::NotFound, "file not found");
    let e1 = Error::io_error("test io error", io_err);
    assert!(matches!(
        e1,
        Error::IoError { source } if source.kind() == ErrorKind::NotFound
    ));

    let e2 = Error::iokit_error(1, "test IOKit error");
    assert!(matches!(
        e2,
        Error::IOKitError { code, message } if code == 1 && message == "test IOKit error"
    ));

    let e3 = Error::service_not_found("test service");
    assert!(matches!(
        e3,
        Error::ServiceNotFound { message } if message == "test service"
    ));

    let e4 = Error::invalid_data("test data", Some("invalid value"));
    assert!(matches!(
        e4,
        Error::InvalidData { message, details } if message == "test data" && details == "invalid value"
    ));

    let e5 = Error::mutex_lock_error("test lock error");
    assert!(matches!(
        e5,
        Error::MutexLockError { message } if message == "test lock error"
    ));
}

#[test]
fn test_error_display() {
    let io_err = IoError::new(ErrorKind::NotFound, "file not found");
    let e1 = Error::io_error("test io error", io_err);
    assert_eq!(e1.to_string(), "IO error: file not found");

    let e2 = Error::iokit_error(1, "test IOKit error");
    assert_eq!(e2.to_string(), "IOKit error 1: test IOKit error");

    let e3 = Error::service_not_found("test service");
    assert_eq!(e3.to_string(), "Service not found: test service");

    let e4 = Error::invalid_data("test data", Some("invalid value"));
    assert_eq!(e4.to_string(), "Invalid data: test data (invalid value)");

    let e5 = Error::mutex_lock_error("test lock error");
    assert_eq!(e5.to_string(), "Mutex lock error: test lock error");
}

#[test]
fn test_error_conversion() {
    let io_err = IoError::new(ErrorKind::ConnectionRefused, "connection refused");
    let err: Error = io_err.into();

    assert!(matches!(
        err,
        Error::IoError { source } if source.kind() == ErrorKind::ConnectionRefused
    ));
}

#[test]
fn error_display_of_every_other_kind() {
    assert_eq!(Error::invalid_data("bad", None).to_string(), "Invalid data: bad");
    assert_eq!(Error::system("boom").to_string(), "System error: boom");
    assert_eq!(
        Error::network_error("read", "down").to_string(),
        "Network error in read: down"
    );
    assert_eq!(
        Error::process_error(Some(42), "gone".to_string()).to_string(),
        "Process error (PID 42): gone"
    );
    assert_eq!(
        Error::process_error(None, "gone".to_string()).to_string(),
        "Process error: gone"
    );
    assert_eq!(Error::not_implemented("gpu").to_string(), "Not implemented: gpu");
    assert_eq!(
        Error::iokit_error(-536870212, "no such device").to_string(),
        "IOKit error -536870212: no such device"
    );
    let e = Error::NotAvailable { resource: "Fan 3".to_string(), reason: "Not found".to_string() };
    assert_eq!(e.to_string(), "Fan 3 not available: Not found");
    let e = Error::SystemError { operation: "sysctl".to_string(), message: "denied".to_string() };
    assert_eq!(e.to_string(), "System error in sysctl: denied");
    let e = Error::InvalidArgument { context: "interval".to_string(), value: "0".to_string() };
    assert_eq!(e.to_string(), "Invalid argument: interval (0)");
    let e = Error::InvalidMonitorType("disk".to_string());
    assert_eq!(e.to_string(), "Invalid monitor type: disk");
}
