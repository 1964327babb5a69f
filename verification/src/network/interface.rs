//! Network interfaces: their type, flags, addresses and traffic counters.

use vstd::prelude::*;
use crate::error::Error;
use crate::utils::ffi::bindings::if_flags;
use crate::utils::text::{has_prefix, is_prefix_of};

verus! {

/// The kind of a network interface.
#[derive(Debug, Clone, Copy, PartialEq, Eq, Structural)]
pub enum InterfaceType {
    /// Wired Ethernet.
    Ethernet,
    /// Wireless.
    WiFi,
    /// Loopback.
    Loopback,
    /// Virtual (bridges, tunnels, virtual NICs).
    Virtual,
    /// Anything else.
    Other,
}

/// The display name of an interface type.
pub open spec fn interface_type_name(t: InterfaceType) -> Seq<char> {
    match t {
        InterfaceType::Ethernet => "Ethernet"@,
        InterfaceType::WiFi => "WiFi"@,
        InterfaceType::Loopback => "Loopback"@,
        InterfaceType::Virtual => "Virtual"@,
        InterfaceType::Other => "Other"@,
    }
}

impl InterfaceType {
    /// The display name of the interface type.
    pub fn to_string(&self) -> (r: String)
        ensures
            r@ == interface_type_name(*self),
    {
        match self {
            InterfaceType::Ethernet => "Ethernet".to_owned(),
            InterfaceType::WiFi => "WiFi".to_owned(),
            InterfaceType::Loopback => "Loopback".to_owned(),
            InterfaceType::Virtual => "Virtual".to_owned(),
            InterfaceType::Other => "Other".to_owned(),
        }
    }
}

/// An IP address of an interface.
#[derive(Debug, Clone, Copy, PartialEq, Eq, Structural)]
pub enum IpAddress {
    /// An IPv4 address, as its four octets.
    V4(u8, u8, u8, u8),
    /// An IPv6 address, as its eight 16-bit segments.
    V6(u16, u16, u16, u16, u16, u16, u16, u16),
}

/// Traffic counters of an interface.
pub struct TrafficStatsParams {
    /// Bytes received.
    pub bytes_received: u64,
    /// Bytes sent.
    pub bytes_sent: u64,
    /// Packets received.
    pub packets_received: u64,
    /// Packets sent.
    pub packets_sent: u64,
    /// Receive errors.
    pub receive_errors: u64,
    /// Send errors.
    pub send_errors: u64,
    /// Collisions.
    pub collisions: u64,
}

/// The seven traffic counters in the order the constructors take them.
pub type Counters = (u64, u64, u64, u64, u64, u64, u64);

/// A network interface.
#[derive(Debug)]
pub struct Interface {
    name: String,
    interface_type: InterfaceType,
    flags: u32,
    mac_address: Option<String>,
    addresses: Vec<IpAddress>,
    bytes_received: u64,
    bytes_sent: u64,
    packets_received: u64,
    packets_sent: u64,
    receive_errors: u64,
    send_errors: u64,
    collisions: u64,
}

/// Whether every bit of `flag` is set in `flags`.
pub open spec fn flag_set(flags: u32, flag: u32) -> bool {
    flags & flag == flag
}

impl Interface {
    /// The interface name.
    pub closed spec fn spec_name(&self) -> Seq<char> {
        self.name@
    }

    /// The interface type.
    pub closed spec fn spec_type(&self) -> InterfaceType {
        self.interface_type
    }

    /// The interface flags.
    pub closed spec fn spec_flags(&self) -> u32 {
        self.flags
    }

    /// The MAC address, if known.
    pub closed spec fn spec_mac(&self) -> Option<Seq<char>> {
        match self.mac_address {
            Some(m) => Some(m@),
            None => None,
        }
    }

    /// The IP addresses.
    pub closed spec fn spec_addresses(&self) -> Seq<IpAddress> {
        self.addresses@
    }

    /// The traffic counters.
    pub closed spec fn spec_counters(&self) -> Counters {
        (
            self.bytes_received,
            self.bytes_sent,
            self.packets_received,
            self.packets_sent,
            self.receive_errors,
            self.send_errors,
            self.collisions,
        )
    }

    /// Starts building an interface.
    pub fn builder() -> (r: InterfaceBuilder)
        ensures
            r.is_empty_builder(),
    {
        InterfaceBuilder::new()
    }

    /// Creates an interface from all its parts.
    pub fn new(
        name: String,
        interface_type: InterfaceType,
        flags: u32,
        mac_address: Option<String>,
        addresses: Vec<IpAddress>,
        bytes_received: u64,
        bytes_sent: u64,
        packets_received: u64,
        packets_sent: u64,
        receive_errors: u64,
        send_errors: u64,
        collisions: u64,
    ) -> (r: Self)
        ensures
            r.spec_name() == name@,
            r.spec_type() == interface_type,
            r.spec_flags() == flags,
            r.spec_mac() == (match mac_address {
                Some(m) => Some(m@),
                None => None,
            }),
            r.spec_addresses() == addresses@,
            r.spec_counters() == (
                bytes_received,
                bytes_sent,
                packets_received,
                packets_sent,
                receive_errors,
                send_errors,
                collisions,
            ),
    {
        Interface {
            name,
            interface_type,
            flags,
            mac_address,
            addresses,
            bytes_received,
            bytes_sent,
            packets_received,
            packets_sent,
            receive_errors,
            send_errors,
            collisions,
        }
    }

    /// The interface name.
    pub fn name(&self) -> (r: &str)
        ensures
            r@ == self.spec_name(),
    {
        self.name.as_str()
    }

    /// The interface type.
    pub fn interface_type(&self) -> (r: &InterfaceType)
        ensures
            *r == self.spec_type(),
    {
        &self.interface_type
    }

    /// The interface flags.
    pub fn flags(&self) -> (r: u32)
        ensures
            r == self.spec_flags(),
    {
        self.flags
    }

    /// The MAC address, if known.
    pub fn mac_address(&self) -> (r: Option<&str>)
        ensures
            match r {
                Some(m) => self.spec_mac() == Some(m@),
                None => self.spec_mac() is None,
            },
    {
        match &self.mac_address {
            Some(m) => Some(m.as_str()),
            None => None,
        }
    }

    /// The IP addresses, or `None` when the interface has none.
    pub fn addresses(&self) -> (r: Option<&[IpAddress]>)
        ensures
            match r {
                Some(a) => a@ == self.spec_addresses() && a@.len() > 0,
                None => self.spec_addresses().len() == 0,
            },
    {
        if self.addresses.len() == 0 {
            None
        } else {
            Some(self.addresses.as_slice())
        }
    }

    /// Replaces the traffic counters with the given values.
    pub fn update_traffic(
        &mut self,
        bytes_received: u64,
        bytes_sent: u64,
        packets_received: u64,
        packets_sent: u64,
        receive_errors: u64,
        send_errors: u64,
        collisions: u64,
    )
        ensures
            final(self).spec_counters() == (
                bytes_received,
                bytes_sent,
                packets_received,
                packets_sent,
                receive_errors,
                send_errors,
                collisions,
            ),
            final(self).spec_name() == old(self).spec_name(),
            final(self).spec_type() == old(self).spec_type(),
            final(self).spec_flags() == old(self).spec_flags(),
            final(self).spec_mac() == old(self).spec_mac(),
            final(self).spec_addresses() == old(self).spec_addresses(),
    {
        self.bytes_received = bytes_received;
        self.bytes_sent = bytes_sent;
        self.packets_received = packets_received;
        self.packets_sent = packets_sent;
        self.receive_errors = receive_errors;
        self.send_errors = send_errors;
        self.collisions = collisions;
    }

    /// Bytes received.
    pub fn bytes_received(&self) -> (r: u64)
        ensures
            r == self.spec_counters().0,
    {
        self.bytes_received
    }

    /// Bytes sent.
    pub fn bytes_sent(&self) -> (r: u64)
        ensures
            r == self.spec_counters().1,
    {
        self.bytes_sent
    }

    /// Packets received.
    pub fn packets_received(&self) -> (r: u64)
        ensures
            r == self.spec_counters().2,
    {
        self.packets_received
    }

    /// Packets sent.
    pub fn packets_sent(&self) -> (r: u64)
        ensures
            r == self.spec_counters().3,
    {
        self.packets_sent
    }

    /// Receive errors.
    pub fn receive_errors(&self) -> (r: u64)
        ensures
            r == self.spec_counters().4,
    {
        self.receive_errors
    }

    /// Send errors.
    pub fn send_errors(&self) -> (r: u64)
        ensures
            r == self.spec_counters().5,
    {
        self.send_errors
    }

    /// Collisions.
    pub fn collisions(&self) -> (r: u64)
        ensures
            r == self.spec_counters().6,
    {
        self.collisions
    }

    /// Whether the interface is up and running.
    pub fn is_active(&self) -> (r: bool)
        ensures
            r == (flag_set(self.spec_flags(), if_flags::IFF_UP) && flag_set(
                self.spec_flags(),
                if_flags::IFF_RUNNING,
            )),
    {
        self.is_flag_set(if_flags::IFF_UP) && self.is_flag_set(if_flags::IFF_RUNNING)
    }

    /// Whether the interface supports broadcast.
    pub fn supports_broadcast(&self) -> (r: bool)
        ensures
            r == flag_set(self.spec_flags(), if_flags::IFF_BROADCAST),
    {
        self.is_flag_set(if_flags::IFF_BROADCAST)
    }

    /// Whether the interface supports multicast.
    pub fn supports_multicast(&self) -> (r: bool)
        ensures
            r == flag_set(self.spec_flags(), if_flags::IFF_MULTICAST),
    {
        self.is_flag_set(if_flags::IFF_MULTICAST)
    }

    /// Whether the interface is a loopback interface.
    pub fn is_loopback(&self) -> (r: bool)
        ensures
            r == flag_set(self.spec_flags(), if_flags::IFF_LOOPBACK),
    {
        self.is_flag_set(if_flags::IFF_LOOPBACK)
    }

    /// Whether the interface is a point-to-point link.
    pub fn is_point_to_point(&self) -> (r: bool)
        ensures
            r == flag_set(self.spec_flags(), if_flags::IFF_POINTOPOINT),
    {
        self.is_flag_set(if_flags::IFF_POINTOPOINT)
    }

    /// Whether the interface is wireless: by its flag, its WiFi type, or a name that
    /// starts with `wl`.
    pub fn is_wireless(&self) -> (r: bool)
        ensures
            r == spec_is_wireless(self),
    {
        self.is_flag_set(if_flags::IFF_WIRELESS) || self.is_wifi() || has_prefix(self.name(), "wl")
    }

    /// Whether every bit of `flag` is set in the interface flags.
    pub fn is_flag_set(&self, flag: u32) -> (r: bool)
        ensures
            r == flag_set(self.spec_flags(), flag),
    {
        (self.flags & flag) == flag
    }

    /// Whether the interface is a WiFi interface.
    pub fn is_wifi(&self) -> (r: bool)
        ensures
            r == (self.spec_type() == InterfaceType::WiFi),
    {
        self.interface_type == InterfaceType::WiFi
    }

    /// A copy of the interface with the same parts.
    pub fn duplicate(&self) -> (r: Interface)
        ensures
            r.spec_name() == self.spec_name(),
            r.spec_type() == self.spec_type(),
            r.spec_flags() == self.spec_flags(),
            r.spec_mac() == self.spec_mac(),
            r.spec_addresses() == self.spec_addresses(),
            r.spec_counters() == self.spec_counters(),
    {
        let mac = match &self.mac_address {
            Some(m) => Some(m.clone()),
            None => None,
        };
        let mut addresses: Vec<IpAddress> = Vec::new();
        let mut i: usize = 0;
        while i < self.addresses.len()
            invariant
                i <= self.addresses@.len(),
                addresses@ == self.addresses@.take(i as int),
            decreases self.addresses@.len() - i,
        {
            addresses.push(self.addresses[i]);
            i = i + 1;
            assert(addresses@ =~= self.addresses@.take(i as int));
        }
        assert(addresses@ =~= self.addresses@);
        Interface {
            name: self.name.clone(),
            interface_type: self.interface_type,
            flags: self.flags,
            mac_address: mac,
            addresses,
            bytes_received: self.bytes_received,
            bytes_sent: self.bytes_sent,
            packets_received: self.packets_received,
            packets_sent: self.packets_sent,
            receive_errors: self.receive_errors,
            send_errors: self.send_errors,
            collisions: self.collisions,
        }
    }

    /// A monitor of the interface state.
    pub fn interface_monitor(&self) -> (r: InterfaceStateMonitor)
        ensures
            r.interface.same_as(self),
    {
        InterfaceStateMonitor { interface: self.duplicate() }
    }

    /// A monitor of the interface byte counters.
    pub fn bandwidth_monitor(&self) -> (r: InterfaceBandwidthMonitor)
        ensures
            r.interface.same_as(self),
    {
        InterfaceBandwidthMonitor { interface: self.duplicate() }
    }

    /// A monitor of the interface packet counters.
    pub fn packet_monitor(&self) -> (r: InterfacePacketMonitor)
        ensures
            r.interface.same_as(self),
    {
        InterfacePacketMonitor { interface: self.duplicate() }
    }

    /// A monitor of the interface error counters.
    pub fn error_monitor(&self) -> (r: InterfaceErrorMonitor)
        ensures
            r.interface.same_as(self),
    {
        InterfaceErrorMonitor { interface: self.duplicate() }
    }

    /// Whether two interfaces have the same parts.
    pub open spec fn same_as(&self, other: &Interface) -> bool {
        &&& self.spec_name() == other.spec_name()
        &&& self.spec_type() == other.spec_type()
        &&& self.spec_flags() == other.spec_flags()
        &&& self.spec_mac() == other.spec_mac()
        &&& self.spec_addresses() == other.spec_addresses()
        &&& self.spec_counters() == other.spec_counters()
    }
}

/// A builder for [`Interface`].
#[derive(Debug)]
pub struct InterfaceBuilder {
    name: Option<String>,
    interface_type: Option<InterfaceType>,
    flags: u32,
    mac_address: Option<String>,
    addresses: Vec<IpAddress>,
    bytes_received: u64,
    bytes_sent: u64,
    packets_received: u64,
    packets_sent: u64,
    receive_errors: u64,
    send_errors: u64,
    collisions: u64,
}

impl InterfaceBuilder {
    /// The name set so far.
    pub closed spec fn spec_name(&self) -> Option<Seq<char>> {
        match self.name {
            Some(n) => Some(n@),
            None => None,
        }
    }

    /// The interface type set so far.
    pub closed spec fn spec_type(&self) -> Option<InterfaceType> {
        self.interface_type
    }

    /// The flags set so far.
    pub closed spec fn spec_flags(&self) -> u32 {
        self.flags
    }

    /// The MAC address set so far.
    pub closed spec fn spec_mac(&self) -> Option<Seq<char>> {
        match self.mac_address {
            Some(m) => Some(m@),
            None => None,
        }
    }

    /// The addresses added so far.
    pub closed spec fn spec_addresses(&self) -> Seq<IpAddress> {
        self.addresses@
    }

    /// The traffic counters set so far.
    pub closed spec fn spec_counters(&self) -> Counters {
        (
            self.bytes_received,
            self.bytes_sent,
            self.packets_received,
            self.packets_sent,
            self.receive_errors,
            self.send_errors,
            self.collisions,
        )
    }

    /// Whether nothing has been set yet.
    pub open spec fn is_empty_builder(&self) -> bool {
        &&& self.spec_name() is None
        &&& self.spec_type() is None
        &&& self.spec_flags() == 0
        &&& self.spec_mac() is None
        &&& self.spec_addresses().len() == 0
        &&& self.spec_counters() == (0u64, 0u64, 0u64, 0u64, 0u64, 0u64, 0u64)
    }

    /// A builder with nothing set.
    pub fn new() -> (r: Self)
        ensures
            r.is_empty_builder(),
    {
        InterfaceBuilder {
            name: None,
            interface_type: None,
            flags: 0,
            mac_address: None,
            addresses: Vec::new(),
            bytes_received: 0,
            bytes_sent: 0,
            packets_received: 0,
            packets_sent: 0,
            receive_errors: 0,
            send_errors: 0,
            collisions: 0,
        }
    }

    /// Sets the name.
    pub fn name(self, name: &str) -> (r: Self)
        ensures
            r.spec_name() == Some(name@),
            r.spec_type() == self.spec_type(),
            r.spec_flags() == self.spec_flags(),
            r.spec_mac() == self.spec_mac(),
            r.spec_addresses() == self.spec_addresses(),
            r.spec_counters() == self.spec_counters(),
    {
        let mut b = self;
        b.name = Some(name.to_owned());
        b
    }

    /// Sets the interface type.
    pub fn interface_type(self, interface_type: InterfaceType) -> (r: Self)
        ensures
            r.spec_name() == self.spec_name(),
            r.spec_type() == Some(interface_type),
            r.spec_flags() == self.spec_flags(),
            r.spec_mac() == self.spec_mac(),
            r.spec_addresses() == self.spec_addresses(),
            r.spec_counters() == self.spec_counters(),
    {
        let mut b = self;
        b.interface_type = Some(interface_type);
        b
    }

    /// Sets the flags.
    pub fn flags(self, flags: u32) -> (r: Self)
        ensures
            r.spec_name() == self.spec_name(),
            r.spec_type() == self.spec_type(),
            r.spec_flags() == flags,
            r.spec_mac() == self.spec_mac(),
            r.spec_addresses() == self.spec_addresses(),
            r.spec_counters() == self.spec_counters(),
    {
        let mut b = self;
        b.flags = flags;
        b
    }

    /// Sets the MAC address.
    pub fn mac_address(self, mac_address: &str) -> (r: Self)
        ensures
            r.spec_name() == self.spec_name(),
            r.spec_type() == self.spec_type(),
            r.spec_flags() == self.spec_flags(),
            r.spec_mac() == Some(mac_address@),
            r.spec_addresses() == self.spec_addresses(),
            r.spec_counters() == self.spec_counters(),
    {
        let mut b = self;
        b.mac_address = Some(mac_address.to_owned());
        b
    }

    /// Adds an IP address.
    pub fn add_address(self, addr: IpAddress) -> (r: Self)
        ensures
            r.spec_name() == self.spec_name(),
            r.spec_type() == self.spec_type(),
            r.spec_flags() == self.spec_flags(),
            r.spec_mac() == self.spec_mac(),
            r.spec_addresses() == self.spec_addresses().push(addr),
            r.spec_counters() == self.spec_counters(),
    {
        let mut b = self;
        b.addresses.push(addr);
        b
    }

    /// Replaces the IP addresses.
    pub fn addresses(self, addresses: Vec<IpAddress>) -> (r: Self)
        ensures
            r.spec_name() == self.spec_name(),
            r.spec_type() == self.spec_type(),
            r.spec_flags() == self.spec_flags(),
            r.spec_mac() == self.spec_mac(),
            r.spec_addresses() == addresses@,
            r.spec_counters() == self.spec_counters(),
    {
        let mut b = self;
        b.addresses = addresses;
        b
    }

    /// Sets the traffic counters.
    pub fn traffic_stats(self, params: TrafficStatsParams) -> (r: Self)
        ensures
            r.spec_name() == self.spec_name(),
            r.spec_type() == self.spec_type(),
            r.spec_flags() == self.spec_flags(),
            r.spec_mac() == self.spec_mac(),
            r.spec_addresses() == self.spec_addresses(),
            r.spec_counters() == (
                params.bytes_received,
                params.bytes_sent,
                params.packets_received,
                params.packets_sent,
                params.receive_errors,
                params.send_errors,
                params.collisions,
            ),
    {
        let mut b = self;
        b.bytes_received = params.bytes_received;
        b.bytes_sent = params.bytes_sent;
        b.packets_received = params.packets_received;
        b.packets_sent = params.packets_sent;
        b.receive_errors = params.receive_errors;
        b.send_errors = params.send_errors;
        b.collisions = params.collisions;
        b
    }

    /// Builds the interface; the name and the type are required.
    pub fn build(self) -> (r: Result<Interface, Error>)
        ensures
            r is Ok <==> (self.spec_name() is Some && self.spec_type() is Some),
            self.spec_name() is None ==> (r matches Err(Error::InvalidData { message, details })
                && message@ == "Interface name is required"@ && details@.len() == 0),
            self.spec_name() is Some && self.spec_type() is None ==> (r matches Err(
                Error::InvalidData { message, details },
            ) && message@ == "Interface type is required"@ && details@.len() == 0),
            r matches Ok(i) ==> {
                &&& Some(i.spec_name()) == self.spec_name()
                &&& Some(i.spec_type()) == self.spec_type()
                &&& i.spec_flags() == self.spec_flags()
                &&& i.spec_mac() == self.spec_mac()
                &&& i.spec_addresses() == self.spec_addresses()
                &&& i.spec_counters() == self.spec_counters()
            },
    {
        let name = match self.name {
            Some(n) => n,
            None => {
                return Err(Error::invalid_data("Interface name is required", None));
            },
        };
        let interface_type = match self.interface_type {
            Some(t) => t,
            None => {
                return Err(Error::invalid_data("Interface type is required", None));
            },
        };
        Ok(
            Interface {
                name,
                interface_type,
                flags: self.flags,
                mac_address: self.mac_address,
                addresses: self.addresses,
                bytes_received: self.bytes_received,
                bytes_sent: self.bytes_sent,
                packets_received: self.packets_received,
                packets_sent: self.packets_sent,
                receive_errors: self.receive_errors,
                send_errors: self.send_errors,
                collisions: self.collisions,
            },
        )
    }
}

impl Default for InterfaceBuilder {
    fn default() -> (r: Self)
        ensures
            r.is_empty_builder(),
    {
        InterfaceBuilder::new()
    }
}

/// Monitors the state of an interface.
pub struct InterfaceStateMonitor {
    /// The monitored interface.
    pub interface: Interface,
}

/// Monitors the byte counters of an interface.
pub struct InterfaceBandwidthMonitor {
    /// The monitored interface.
    pub interface: Interface,
}

/// Monitors the packet counters of an interface.
pub struct InterfacePacketMonitor {
    /// The monitored interface.
    pub interface: Interface,
}

/// Monitors the error counters of an interface.
pub struct InterfaceErrorMonitor {
    /// The monitored interface.
    pub interface: Interface,
}

/// Whether an interface counts as wireless: it has the wireless flag, is of WiFi type,
/// or its name starts with `wl`.
pub open spec fn spec_is_wireless(i: &Interface) -> bool {
    flag_set(i.spec_flags(), if_flags::IFF_WIRELESS) || i.spec_type() == InterfaceType::WiFi
        || is_prefix_of("wl"@, i.spec_name())
}

impl crate::traits::hardware::NetworkInterfaceMonitor for InterfaceStateMonitor {
    open spec fn spec_is_active(&self) -> bool {
        flag_set(self.interface.spec_flags(), if_flags::IFF_UP) && flag_set(
            self.interface.spec_flags(),
            if_flags::IFF_RUNNING,
        )
    }

    open spec fn spec_supports_broadcast(&self) -> bool {
        flag_set(self.interface.spec_flags(), if_flags::IFF_BROADCAST)
    }

    open spec fn spec_supports_multicast(&self) -> bool {
        flag_set(self.interface.spec_flags(), if_flags::IFF_MULTICAST)
    }

    open spec fn spec_is_loopback(&self) -> bool {
        flag_set(self.interface.spec_flags(), if_flags::IFF_LOOPBACK)
    }

    open spec fn spec_is_wireless(&self) -> bool {
        spec_is_wireless(&self.interface)
    }

    open spec fn spec_interface_type(&self) -> Seq<char> {
        interface_type_name(self.interface.spec_type())
    }

    open spec fn spec_mac_address(&self) -> Option<Seq<char>> {
        self.interface.spec_mac()
    }

    fn is_active(&self) -> (r: Result<bool, Error>)
        ensures
            r == Ok::<bool, Error>(self.spec_is_active()),
    {
        Ok(self.interface.is_flag_set(if_flags::IFF_UP) && self.interface.is_flag_set(
            if_flags::IFF_RUNNING,
        ))
    }

    fn supports_broadcast(&self) -> (r: Result<bool, Error>)
        ensures
            r == Ok::<bool, Error>(self.spec_supports_broadcast()),
    {
        Ok(self.interface.is_flag_set(if_flags::IFF_BROADCAST))
    }

    fn supports_multicast(&self) -> (r: Result<bool, Error>)
        ensures
            r == Ok::<bool, Error>(self.spec_supports_multicast()),
    {
        Ok(self.interface.is_flag_set(if_flags::IFF_MULTICAST))
    }

    fn is_loopback(&self) -> (r: Result<bool, Error>)
        ensures
            r == Ok::<bool, Error>(self.spec_is_loopback()),
    {
        Ok(self.interface.is_flag_set(if_flags::IFF_LOOPBACK))
    }

    fn is_wireless(&self) -> (r: Result<bool, Error>)
        ensures
            r == Ok::<bool, Error>(self.spec_is_wireless()),
    {
        Ok(self.interface.is_flag_set(if_flags::IFF_WIRELESS) || self.interface.is_wifi()
            || has_prefix(self.interface.name(), "wl"))
    }

    fn interface_type(&self) -> (r: Result<String, Error>)
        ensures
            r is Ok,
    {
        Ok(self.interface.interface_type().to_string())
    }

    fn mac_address(&self) -> (r: Result<Option<String>, Error>)
        ensures
            r is Ok,
    {
        match self.interface.mac_address() {
            Some(m) => Ok(Some(m.to_owned())),
            None => Ok(None),
        }
    }
}

impl InterfaceBandwidthMonitor {
    /// Bytes received by the interface.
    pub fn bytes_received(&self) -> (r: Result<u64, Error>)
        ensures
            r == Ok::<u64, Error>(self.interface.spec_counters().0),
    {
        Ok(self.interface.bytes_received)
    }

    /// Bytes sent by the interface.
    pub fn bytes_sent(&self) -> (r: Result<u64, Error>)
        ensures
            r == Ok::<u64, Error>(self.interface.spec_counters().1),
    {
        Ok(self.interface.bytes_sent)
    }
}

impl InterfacePacketMonitor {
    /// Packets received by the interface.
    pub fn packets_received(&self) -> (r: Result<u64, Error>)
        ensures
            r == Ok::<u64, Error>(self.interface.spec_counters().2),
    {
        Ok(self.interface.packets_received)
    }

    /// Packets sent by the interface.
    pub fn packets_sent(&self) -> (r: Result<u64, Error>)
        ensures
            r == Ok::<u64, Error>(self.interface.spec_counters().3),
    {
        Ok(self.interface.packets_sent)
    }
}

impl InterfaceErrorMonitor {
    /// Receive errors of the interface.
    pub fn receive_errors(&self) -> (r: Result<u64, Error>)
        ensures
            r == Ok::<u64, Error>(self.interface.spec_counters().4),
    {
        Ok(self.interface.receive_errors)
    }

    /// Send errors of the interface.
    pub fn send_errors(&self) -> (r: Result<u64, Error>)
        ensures
            r == Ok::<u64, Error>(self.interface.spec_counters().5),
    {
        Ok(self.interface.send_errors)
    }

    /// Collisions seen by the interface.
    pub fn collisions(&self) -> (r: Result<u64, Error>)
        ensures
            r == Ok::<u64, Error>(self.interface.spec_counters().6),
    {
        Ok(self.interface.collisions)
    }
}

/// The type an interface is given from its name and flags: loopback by flag; `en0`
/// is WiFi and other `en` interfaces Ethernet; `wl` and `ath` are WiFi; `vnic`,
/// `bridge` and `utun` are virtual; anything else is other.
pub open spec fn spec_interface_type_of(name: Seq<char>, flags: u32) -> InterfaceType {
    if flags & if_flags::IFF_LOOPBACK != 0 {
        InterfaceType::Loopback
    } else if is_prefix_of("en"@, name) {
        if name == "en0"@ {
            InterfaceType::WiFi
        } else {
            InterfaceType::Ethernet
        }
    } else if is_prefix_of("wl"@, name) || is_prefix_of("ath"@, name) {
        InterfaceType::WiFi
    } else if is_prefix_of("vnic"@, name) || is_prefix_of("bridge"@, name) || is_prefix_of(
        "utun"@,
        name,
    ) {
        InterfaceType::Virtual
    } else {
        InterfaceType::Other
    }
}


/// How an interface's type follows from its name and flags: the loopback flag makes
/// it loopback whatever its name; otherwise a name starting with `utun`, `vnic` or
/// `bridge` is virtual, one starting with `wl` or `ath` is WiFi, `en0` is WiFi and any
/// other name starting with `en` is Ethernet; a name with none of these prefixes is
/// of another type.
pub proof fn law_interface_type_by_name(name: Seq<char>, flags: u32)
    ensures
        flags & if_flags::IFF_LOOPBACK != 0 ==> spec_interface_type_of(name, flags)
            == InterfaceType::Loopback,
        flags & if_flags::IFF_LOOPBACK == 0 && (is_prefix_of("utun"@, name) || is_prefix_of(
            "vnic"@,
            name,
        ) || is_prefix_of("bridge"@, name)) ==> spec_interface_type_of(name, flags)
            == InterfaceType::Virtual,
        flags & if_flags::IFF_LOOPBACK == 0 && (is_prefix_of("wl"@, name) || is_prefix_of(
            "ath"@,
            name,
        )) ==> spec_interface_type_of(name, flags) == InterfaceType::WiFi,
        flags & if_flags::IFF_LOOPBACK == 0 && name == "en0"@ ==> spec_interface_type_of(name, flags)
            == InterfaceType::WiFi,
        flags & if_flags::IFF_LOOPBACK == 0 && is_prefix_of("en"@, name) && name != "en0"@
            ==> spec_interface_type_of(name, flags) == InterfaceType::Ethernet,
        flags & if_flags::IFF_LOOPBACK == 0 && !is_prefix_of("en"@, name) && !is_prefix_of(
            "wl"@,
            name,
        ) && !is_prefix_of("ath"@, name) && !is_prefix_of("utun"@, name) && !is_prefix_of(
            "vnic"@,
            name,
        ) && !is_prefix_of("bridge"@, name) ==> spec_interface_type_of(name, flags)
            == InterfaceType::Other,
{
    reveal_strlit("en");
    reveal_strlit("en0");
    reveal_strlit("wl");
    reveal_strlit("ath");
    reveal_strlit("vnic");
    reveal_strlit("bridge");
    reveal_strlit("utun");
    if name.len() > 0 {
        let c = name[0];
        if is_prefix_of("utun"@, name) {
            assert(name.subrange(0, 4)[0] == c);
            assert(c == 'u');
        }
        if is_prefix_of("vnic"@, name) {
            assert(name.subrange(0, 4)[0] == c);
            assert(c == 'v');
        }
        if is_prefix_of("bridge"@, name) {
            assert(name.subrange(0, 6)[0] == c);
            assert(c == 'b');
        }
        if is_prefix_of("en"@, name) {
            assert(name.subrange(0, 2)[0] == c);
            assert(c == 'e');
        }
        if is_prefix_of("wl"@, name) {
            assert(name.subrange(0, 2)[0] == c);
            assert(c == 'w');
        }
        if is_prefix_of("ath"@, name) {
            assert(name.subrange(0, 3)[0] == c);
            assert(c == 'a');
        }
        if name == "en0"@ {
            assert(name.subrange(0, 2) =~= "en"@);
        }
    }
}

} // verus!
