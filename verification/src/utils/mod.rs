//! Utility helpers shared by the metric modules.

pub mod bindings;
pub mod clock;
pub mod dictionary;
pub mod ffi;
pub mod text;
