use darwin_metrics::error::Error;
use darwin_metrics::power::{Power, PowerError, PowerState, REPORTED_THERMAL_PRESSURE};
use darwin_metrics::traits::PowerEventMonitor;
use std::time::Duration;

#[test]
fn test_power_new() {
    let _power = Power::new();
}

#[test]
fn test_power_state_enum() {
    let state = PowerState::Battery;
    assert!(matches!(state, PowerState::Battery));

    let state = PowerState::AC;
    assert!(matches!(state, PowerState::AC));

    let state = PowerState::Charging;
    assert!(matches!(state, PowerState::Charging));
}

#[test]
fn test_power_error_conversion() {
    let error = Error::InvalidData { message: "test".to_string(), details: "test".to_string() };
    let power_error = PowerError::from(error);
    assert!(matches!(power_error, PowerError::InvalidData));

    let error = Error::ServiceNotFound { message: "test".to_string() };
    let power_error = PowerError::from(error);
    assert!(matches!(power_error, PowerError::ServiceError(_)));
}

#[test]
fn power_errors_keep_their_kind() {
    let io = std::io::Error::new(std::io::ErrorKind::Other, "x");
    assert!(matches!(PowerError::from(Error::io_error("x", io)), PowerError::IOError));
    let e = Error::SystemError { operation: "a".to_string(), message: "b".to_string() };
    assert!(matches!(PowerError::from(e), PowerError::SystemError));
    let e = Error::InvalidArgument { context: "a".to_string(), value: "b".to_string() };
    assert!(matches!(PowerError::from(e), PowerError::InvalidArgument));
    assert!(matches!(PowerError::from(Error::not_implemented("x")), PowerError::UnsupportedOperation));
    assert!(matches!(PowerError::from(Error::system("x")), PowerError::SystemCallFailed));
    match PowerError::from(Error::service_not_found("smc")) {
        PowerError::ServiceError(m) => assert_eq!(m, "smc"),
        _ => panic!("a missing service did not become a service error"),
    }
}

#[test]
fn power_error_texts() {
    assert_eq!(PowerError::SystemCallFailed.to_string(), "System call failed");
    assert_eq!(PowerError::InvalidData.to_string(), "Invalid data");
    assert_eq!(PowerError::NotSupported.to_string(), "Operation not supported");
    assert_eq!(PowerError::ServiceError("x".to_string()).to_string(), "Service error: x");
    assert_eq!(PowerError::IOError.to_string(), "I/O error");
    assert_eq!(PowerError::SystemError.to_string(), "System error");
    assert_eq!(PowerError::InvalidArgument.to_string(), "Invalid argument");
    assert_eq!(PowerError::UnsupportedOperation.to_string(), "Unsupported operation");
}

#[test]
fn power_monitors_report_their_readings() {
    let power = Power::new();
    let state = power.state_monitor();
    assert_eq!(state.power_state().unwrap(), PowerState::AC);
    assert_eq!(state.time_remaining().unwrap(), Some(180));
    assert!(!state.is_on_battery().unwrap());
    assert!(!state.is_charging().unwrap());

    let management = power.management_monitor();
    assert_eq!(management.thermal_pressure().unwrap(), REPORTED_THERMAL_PRESSURE);
    assert_eq!(management.thermal_pressure().unwrap(), 25);
    assert_eq!(management.performance_mode().unwrap(), "Normal");

    let events = power.event_monitor();
    assert_eq!(events.thermal_event_count().unwrap(), 0);
    assert!(!events.is_sleep_prevented().unwrap());
    assert_eq!(events.time_until_sleep().unwrap(), Some(Duration::from_secs(3600)));
    assert!(events.time_since_wake().unwrap() < Duration::from_secs(60));
    let _consumption = power.consumption_monitor();
}
