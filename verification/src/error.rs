//! The error type shared by the metric modules.

use vstd::prelude::*;
use crate::utils::text::{append_decimal, append_signed_decimal, decimal, signed_decimal, is_prefix_of};

verus! {

#[verifier::external_type_specification]
#[verifier::external_body]
pub struct ExIoError(std::io::Error);

/// Errors reported by the library.
#[derive(Debug)]
pub enum Error {
    /// An I/O operation failed.
    IoError { source: std::io::Error },
    /// An IOKit call returned an error code.
    IOKitError { code: i32, message: String },
    /// A hardware service could not be found.
    ServiceNotFound { message: String },
    /// Data received from the system was invalid.
    InvalidData { message: String, details: String },
    /// A lock could not be taken.
    MutexLockError { message: String },
    /// A general system error.
    System(String),
    /// A system operation failed.
    SystemError { operation: String, message: String },
    /// An argument was outside its allowed range.
    InvalidArgument { context: String, value: String },
    /// A feature is not implemented.
    NotImplemented { feature: String },
    /// A resource is not available on this machine.
    NotAvailable { resource: String, reason: String },
    /// A network operation failed.
    Network { operation: String, message: String },
    /// A process could not be inspected.
    Process { pid: Option<u32>, message: String },
    /// A monitor type name is not known.
    InvalidMonitorType(String),
    /// A shared resource could not be locked.
    LockError,
    /// A resource holder is full.
    ResourceLimitExceeded,
    /// A message could not be sent over a channel.
    ChannelError,
}

/// The text that `Error::to_string` gives for every error but an I/O error.
pub open spec fn error_text(e: Error) -> Seq<char> {
    match e {
        Error::IoError { .. } => "IO error: "@,
        Error::IOKitError { code, message } =>
            "IOKit error "@ + signed_decimal(code as int) + ": "@ + message@,
        Error::ServiceNotFound { message } => "Service not found: "@ + message@,
        Error::InvalidData { message, details } =>
            if details@.len() == 0 {
                "Invalid data: "@ + message@
            } else {
                "Invalid data: "@ + message@ + " ("@ + details@ + ")"@
            },
        Error::MutexLockError { message } => "Mutex lock error: "@ + message@,
        Error::System(message) => "System error: "@ + message@,
        Error::SystemError { operation, message } =>
            "System error in "@ + operation@ + ": "@ + message@,
        Error::InvalidArgument { context, value } =>
            "Invalid argument: "@ + context@ + " ("@ + value@ + ")"@,
        Error::NotImplemented { feature } => "Not implemented: "@ + feature@,
        Error::NotAvailable { resource, reason } => resource@ + " not available: "@ + reason@,
        Error::Network { operation, message } =>
            "Network error in "@ + operation@ + ": "@ + message@,
        Error::Process { pid, message } => match pid {
            Some(p) => "Process error (PID "@ + decimal(p as nat) + "): "@ + message@,
            None => "Process error: "@ + message@,
        },
        Error::InvalidMonitorType(name) => "Invalid monitor type: "@ + name@,
        Error::LockError => "Failed to acquire lock"@,
        Error::ResourceLimitExceeded => "Resource limit exceeded"@,
        Error::ChannelError => "Channel error"@,
    }
}

/// The text of an I/O error, as std displays it.
///
/// Calls `<std::io::Error as Display>::fmt` through `to_string`; nothing is stated
/// of the text, which depends on the error's kind and, for OS errors, on the platform.
#[verifier::external_body]
fn io_error_display(e: &std::io::Error) -> String {
    e.to_string()
}

impl Error {
    /// An I/O error; the context message is not kept.
    pub fn io_error(_message: &str, source: std::io::Error) -> (r: Error)
        ensures
            r == (Error::IoError { source }),
    {
        Error::IoError { source }
    }

    /// An IOKit error with its return code.
    pub fn iokit_error(code: i32, message: &str) -> (r: Error)
        ensures
            r matches Error::IOKitError { code: c, message: m } && c == code && m@ == message@,
    {
        Error::IOKitError { code, message: message.to_owned() }
    }

    /// A service that could not be found.
    pub fn service_not_found(message: &str) -> (r: Error)
        ensures
            r matches Error::ServiceNotFound { message: m } && m@ == message@,
    {
        Error::ServiceNotFound { message: message.to_owned() }
    }

    /// Invalid data, with optional details (empty when absent).
    pub fn invalid_data(message: &str, details: Option<&str>) -> (r: Error)
        ensures
            r matches Error::InvalidData { message: m, details: d } && m@ == message@ && d@
                == (match details {
                Some(t) => t@,
                None => Seq::<char>::empty(),
            }),
    {
        let d = match details {
            Some(t) => t.to_owned(),
            None => String::new(),
        };
        Error::InvalidData { message: message.to_owned(), details: d }
    }

    /// A lock that could not be taken.
    pub fn mutex_lock_error(message: &str) -> (r: Error)
        ensures
            r matches Error::MutexLockError { message: m } && m@ == message@,
    {
        Error::MutexLockError { message: message.to_owned() }
    }

    /// A general system error.
    pub fn system(message: &str) -> (r: Error)
        ensures
            r matches Error::System(m) && m@ == message@,
    {
        Error::System(message.to_owned())
    }

    /// A network error for the named operation.
    pub fn network_error(operation: &str, message: &str) -> (r: Error)
        ensures
            r matches Error::Network { operation: o, message: m } && o@ == operation@ && m@
                == message@,
    {
        Error::Network { operation: operation.to_owned(), message: message.to_owned() }
    }

    /// An error about a process.
    pub fn process_error(pid: Option<u32>, message: String) -> (r: Error)
        ensures
            r == (Error::Process { pid, message }),
    {
        Error::Process { pid, message }
    }

    /// A feature that is not implemented.
    pub fn not_implemented(feature: &str) -> (r: Error)
        ensures
            r matches Error::NotImplemented { feature: f } && f@ == feature@,
    {
        Error::NotImplemented { feature: feature.to_owned() }
    }

    /// The human-readable description of the error.
    pub fn to_string(&self) -> (r: String)
        ensures
            match self {
                Error::IoError { .. } => is_prefix_of("IO error: "@, r@),
                _ => r@ == error_text(*self),
            },
    {
        let mut s = String::new();
        match self {
            Error::IoError { source } => {
                s.append("IO error: ");
                let t = io_error_display(source);
                s.append(t.as_str());
                assert(s@.subrange(0, "IO error: "@.len() as int) =~= "IO error: "@);
            },
            Error::IOKitError { code, message } => {
                s.append("IOKit error ");
                append_signed_decimal(&mut s, *code as i64);
                s.append(": ");
                s.append(message.as_str());
            },
            Error::ServiceNotFound { message } => {
                s.append("Service not found: ");
                s.append(message.as_str());
            },
            Error::InvalidData { message, details } => {
                s.append("Invalid data: ");
                s.append(message.as_str());
                if !details.as_str().is_empty() {
                    s.append(" (");
                    s.append(details.as_str());
                    s.append(")");
                }
            },
            Error::MutexLockError { message } => {
                s.append("Mutex lock error: ");
                s.append(message.as_str());
            },
            Error::System(message) => {
                s.append("System error: ");
                s.append(message.as_str());
            },
            Error::SystemError { operation, message } => {
                s.append("System error in ");
                s.append(operation.as_str());
                s.append(": ");
                s.append(message.as_str());
            },
            Error::InvalidArgument { context, value } => {
                s.append("Invalid argument: ");
                s.append(context.as_str());
                s.append(" (");
                s.append(value.as_str());
                s.append(")");
            },
            Error::NotImplemented { feature } => {
                s.append("Not implemented: ");
                s.append(feature.as_str());
            },
            Error::NotAvailable { resource, reason } => {
                s.append(resource.as_str());
                s.append(" not available: ");
                s.append(reason.as_str());
            },
            Error::Network { operation, message } => {
                s.append("Network error in ");
                s.append(operation.as_str());
                s.append(": ");
                s.append(message.as_str());
            },
            Error::Process { pid, message } => {
                match pid {
                    Some(p) => {
                        s.append("Process error (PID ");
                        append_decimal(&mut s, *p as u64);
                        s.append("): ");
                    },
                    None => {
                        s.append("Process error: ");
                    },
                }
                s.append(message.as_str());
            },
            Error::InvalidMonitorType(name) => {
                s.append("Invalid monitor type: ");
                s.append(name.as_str());
            },
            Error::LockError => {
                s.append("Failed to acquire lock");
            },
            Error::ResourceLimitExceeded => {
                s.append("Resource limit exceeded");
            },
            Error::ChannelError => {
                s.append("Channel error");
            },
        }
        s
    }
}

impl From<std::io::Error> for Error {
    fn from(source: std::io::Error) -> (r: Error) {
        Error::IoError { source }
    }
}

impl vstd::std_specs::convert::FromSpecImpl<std::io::Error> for Error {
    open spec fn obeys_from_spec() -> bool {
        true
    }

    open spec fn from_spec(source: std::io::Error) -> Error {
        Error::IoError { source }
    }
}

} // verus!
