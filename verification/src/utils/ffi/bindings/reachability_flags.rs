//! Network reachability flags.

use vstd::prelude::*;

verus! {

/// Transient connection.
pub const K_SC_NETWORK_REACHABILITY_FLAGS_TRANSIENT_CONNECTION: u32 = 0x1;
/// Reachable.
pub const K_SC_NETWORK_REACHABILITY_FLAGS_REACHABLE: u32 = 0x2;
/// Connection required.
pub const K_SC_NETWORK_REACHABILITY_FLAGS_CONNECTION_REQUIRED: u32 = 0x4;
/// Connection on traffic.
pub const K_SC_NETWORK_REACHABILITY_FLAGS_CONNECTION_ON_TRAFFIC: u32 = 0x8;
/// Intervention required.
pub const K_SC_NETWORK_REACHABILITY_FLAGS_INTERVENTION_REQUIRED: u32 = 0x10;
/// Connection on demand.
pub const K_SC_NETWORK_REACHABILITY_FLAGS_CONNECTION_ON_DEMAND: u32 = 0x20;
/// Local address.
pub const K_SC_NETWORK_REACHABILITY_FLAGS_IS_LOCAL_ADDRESS: u32 = 0x10000;
/// Direct connection.
pub const K_SC_NETWORK_REACHABILITY_FLAGS_IS_DIRECT: u32 = 0x20000;
/// Cellular connection.
pub const K_SC_NETWORK_REACHABILITY_FLAGS_IS_WWAN: u32 = 0x40000;

} // verus!
