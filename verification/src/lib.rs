//! Verified core of a macOS system metrics library.

pub mod error;
pub mod hardware;
pub mod memory;
pub mod network;
pub mod power;
pub mod process;
pub mod resource;
pub mod system;
pub mod temperature;
pub mod traits;
pub mod utils;
