//! Network interfaces and traffic statistics.

pub mod addresses;
pub mod interface;
pub mod manager;
pub mod netstat;
pub mod traffic;

pub use interface::{Interface, InterfaceType};
pub use manager::NetworkManager;
pub use traffic::{TrafficData, TrafficTracker};
