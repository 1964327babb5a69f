//! Socket address families.

use vstd::prelude::*;

verus! {

/// Unspecified.
pub const AF_UNSPEC: u8 = 0;
/// IPv4.
pub const AF_INET: u8 = 2;
/// IPv6.
pub const AF_INET6: u8 = 30;
/// Link layer.
pub const AF_LINK: u8 = 18;

} // verus!
