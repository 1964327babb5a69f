//! Interfaces to the macOS system libraries.

pub mod bindings;
