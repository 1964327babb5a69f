//! Network interface flags.

use vstd::prelude::*;

verus! {

/// Interface is up.
pub const IFF_UP: u32 = 0x1;
/// Broadcast address valid.
pub const IFF_BROADCAST: u32 = 0x2;
/// Turn on debugging.
pub const IFF_DEBUG: u32 = 0x4;
/// Is a loopback net.
pub const IFF_LOOPBACK: u32 = 0x8;
/// Interface is point-to-point link.
pub const IFF_POINTOPOINT: u32 = 0x10;
/// Resources allocated.
pub const IFF_RUNNING: u32 = 0x40;
/// No address resolution protocol.
pub const IFF_NOARP: u32 = 0x80;
/// Receive all packets.
pub const IFF_PROMISC: u32 = 0x100;
/// Receive all multicast packets.
pub const IFF_ALLMULTI: u32 = 0x200;
/// Supports multicast.
pub const IFF_MULTICAST: u32 = 0x8000;
/// Wireless interface.
pub const IFF_WIRELESS: u32 = 0x20;

} // verus!
