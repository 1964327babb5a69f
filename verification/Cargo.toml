[package]
name = "darwin-metrics"
version = "0.2.0"
edition = "2021"
publish = false

[dependencies]
libc = "0.2"
libproc = "0.14"
thiserror = "2"
tokio = { version = "1", features = ["rt-multi-thread", "sync", "time", "macros"] }
async-trait = "0.1"
log = "0.4"
scopeguard = "1"
once_cell = "1"
parking_lot = "0.12"
