//! Hardware services.

pub mod iokit;
pub mod system;

pub use iokit::IOKit;
