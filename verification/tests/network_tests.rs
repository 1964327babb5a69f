use darwin_metrics::error::Error;
use darwin_metrics::network::addresses::{
    collect_network_addresses, format_mac, AddressRecord, RawInterfaceAddress, RawSockAddr,
};
use darwin_metrics::network::interface::{
    Interface, InterfaceType, IpAddress, TrafficStatsParams,
};
use darwin_metrics::network::manager::{
    build_interfaces, traffic_from_interface_data, NetworkManager,
};
use darwin_metrics::network::netstat::{parse_netstat_output, parse_netstat_text, TrafficRecord};
use darwin_metrics::network::traffic::{TrafficData, TrafficTracker};
use darwin_metrics::utils::bindings::{if_data64, if_flags};
use darwin_metrics::utils::text::{parse_u64, split_lines, split_words};

fn create_mock_interface(name: &str, interface_type: InterfaceType, is_loopback: bool) -> Interface {
    let flags = if is_loopback {
        if_flags::IFF_UP | if_flags::IFF_RUNNING | if_flags::IFF_LOOPBACK
    } else {
        if_flags::IFF_UP | if_flags::IFF_RUNNING
    };

    Interface::new(
        name.to_string(),
        interface_type,
        flags,
        Some("00:00:00:00:00:00".to_string()),
        vec![],
        1000,
        2000,
        100,
        200,
        0,
        0,
        0,
    )
}

fn create_test_network_manager() -> NetworkManager {
    let lo0 = create_mock_interface("lo0", InterfaceType::Loopback, true);
    let en0 = create_mock_interface("en0", InterfaceType::Ethernet, false);
    NetworkManager::new(Ok(vec![lo0, en0])).unwrap()
}

fn chars(s: &str) -> Vec<char> {
    s.chars().collect()
}

#[test]
fn test_interface_type_display() {
    assert_eq!(InterfaceType::Ethernet.to_string(), "Ethernet");
    assert_eq!(InterfaceType::WiFi.to_string(), "WiFi");
    assert_eq!(InterfaceType::Loopback.to_string(), "Loopback");
    assert_eq!(InterfaceType::Virtual.to_string(), "Virtual");
    assert_eq!(InterfaceType::Other.to_string(), "Other");
}

#[test]
fn test_interface_creation() {
    let interface = Interface::new(
        "test0".to_string(),
        InterfaceType::Ethernet,
        if_flags::IFF_UP | if_flags::IFF_RUNNING | if_flags::IFF_BROADCAST,
        Some("00:11:22:33:44:55".to_string()),
        vec![IpAddress::V4(192, 168, 1, 100)],
        1000,
        2000,
        10,
        20,
        1,
        2,
        0,
    );

    assert_eq!(interface.name(), "test0");
    assert_eq!(interface.interface_type(), &InterfaceType::Ethernet);
    assert_eq!(interface.mac_address(), Some("00:11:22:33:44:55"));
    assert_eq!(interface.addresses().unwrap()[0], IpAddress::V4(192, 168, 1, 100));

    assert_eq!(interface.bytes_received(), 1000);
    assert_eq!(interface.bytes_sent(), 2000);
    assert_eq!(interface.packets_received(), 10);
    assert_eq!(interface.packets_sent(), 20);
    assert_eq!(interface.receive_errors(), 1);
    assert_eq!(interface.send_errors(), 2);
    assert_eq!(interface.collisions(), 0);

    assert!(interface.is_active());
    assert!(interface.supports_broadcast());
    assert!(!interface.is_loopback());
    assert!(!interface.is_point_to_point());
    assert!(!interface.is_wireless());
}

#[test]
fn test_interface_update_traffic() {
    let mut interface = Interface::new(
        "test0".to_string(),
        InterfaceType::Ethernet,
        if_flags::IFF_UP | if_flags::IFF_RUNNING,
        None,
        vec![],
        1000,
        2000,
        10,
        20,
        1,
        2,
        0,
    );

    assert_eq!(interface.bytes_received(), 1000);
    assert_eq!(interface.bytes_sent(), 2000);

    interface.update_traffic(2000, 3000, 20, 30, 2, 3, 1);

    assert_eq!(interface.bytes_received(), 2000);
    assert_eq!(interface.bytes_sent(), 3000);
    assert_eq!(interface.packets_received(), 20);
    assert_eq!(interface.packets_sent(), 30);
    assert_eq!(interface.receive_errors(), 2);
    assert_eq!(interface.send_errors(), 3);
    assert_eq!(interface.collisions(), 1);
}

#[test]
fn test_interface_wireless_detection() {
    let wifi_interface =
        Interface::new("en0".to_string(), InterfaceType::WiFi, 0, None, vec![], 0, 0, 0, 0, 0, 0, 0);
    assert!(wifi_interface.is_wireless());

    let wireless_interface = Interface::new(
        "test0".to_string(),
        InterfaceType::Ethernet,
        if_flags::IFF_WIRELESS,
        None,
        vec![],
        0,
        0,
        0,
        0,
        0,
        0,
        0,
    );
    assert!(wireless_interface.is_wireless());

    let wlan_interface =
        Interface::new("wlan0".to_string(), InterfaceType::Other, 0, None, vec![], 0, 0, 0, 0, 0, 0, 0);
    assert!(wlan_interface.is_wireless());
}

#[test]
fn test_network_manager_creation() {
    let manager = NetworkManager::new(Ok(Vec::new()));
    assert!(manager.is_ok());
}

#[test]
fn network_manager_creation_survives_a_failed_discovery() {
    let manager = NetworkManager::new(Err(Error::network_error("get_interfaces", "denied")));
    assert!(manager.is_ok());
    assert!(manager.unwrap().interfaces().is_empty());
}

#[test]
fn test_network_manager_interface_access() {
    let interface = Interface::new(
        "test0".to_string(),
        InterfaceType::Ethernet,
        if_flags::IFF_UP | if_flags::IFF_RUNNING,
        None,
        vec![],
        1000,
        2000,
        10,
        20,
        1,
        2,
        0,
    );
    let manager = NetworkManager::new(Ok(vec![interface])).unwrap();

    let interfaces = manager.interfaces();
    assert_eq!(interfaces.len(), 1);
    assert_eq!(interfaces[0].name(), "test0");

    let found = manager.get_interface("test0");
    assert!(found.is_some());
    assert_eq!(found.unwrap().name(), "test0");

    let not_found = manager.get_interface("nonexistent");
    assert!(not_found.is_none());
}

#[test]
fn test_determine_interface_type() {
    assert_eq!(
        NetworkManager::determine_interface_type("lo0", if_flags::IFF_LOOPBACK),
        InterfaceType::Loopback
    );
    assert_eq!(NetworkManager::determine_interface_type("en1", 0), InterfaceType::Ethernet);
    assert_eq!(NetworkManager::determine_interface_type("en0", 0), InterfaceType::WiFi);
    assert_eq!(NetworkManager::determine_interface_type("wlan0", 0), InterfaceType::WiFi);
    assert_eq!(NetworkManager::determine_interface_type("vnic0", 0), InterfaceType::Virtual);
    assert_eq!(NetworkManager::determine_interface_type("bridge0", 0), InterfaceType::Virtual);
    assert_eq!(NetworkManager::determine_interface_type("utun0", 0), InterfaceType::Virtual);
    assert_eq!(NetworkManager::determine_interface_type("unknown0", 0), InterfaceType::Other);
}

#[test]
fn determine_interface_type_prefers_the_loopback_flag() {
    assert_eq!(
        NetworkManager::determine_interface_type("en0", if_flags::IFF_LOOPBACK),
        InterfaceType::Loopback
    );
    assert_eq!(NetworkManager::determine_interface_type("ath0", 0), InterfaceType::WiFi);
    assert_eq!(NetworkManager::determine_interface_type("en", 0), InterfaceType::Ethernet);
    assert_eq!(NetworkManager::determine_interface_type("e", 0), InterfaceType::Other);
}

#[test]
fn test_interface_properties() {
    let loopback = create_mock_interface("lo0", InterfaceType::Loopback, true);
    let ethernet = create_mock_interface("en0", InterfaceType::Ethernet, false);

    assert!(loopback.is_loopback());
    assert!(!ethernet.is_loopback());

    assert_eq!(loopback.name(), "lo0");
    assert_eq!(ethernet.name(), "en0");

    assert_eq!(loopback.interface_type(), &InterfaceType::Loopback);
    assert_eq!(ethernet.interface_type(), &InterfaceType::Ethernet);

    assert_eq!(loopback.mac_address(), Some("00:00:00:00:00:00"));
    assert_eq!(ethernet.mac_address(), Some("00:00:00:00:00:00"));
}

#[test]
fn test_network_manager() {
    let network_manager = create_test_network_manager();

    let interfaces = network_manager.interfaces();
    assert_eq!(interfaces.len(), 2, "Should have 2 interfaces");

    let lo0 = network_manager.get_interface("lo0");
    assert!(lo0.is_some(), "Loopback interface should exist");
    assert!(lo0.unwrap().is_loopback(), "lo0 should be a loopback interface");

    let en0 = network_manager.get_interface("en0");
    assert!(en0.is_some(), "Ethernet interface should exist");
    assert!(!en0.unwrap().is_loopback(), "en0 should not be a loopback interface");

    let nonexistent = network_manager.get_interface("nonexistent");
    assert!(nonexistent.is_none(), "Nonexistent interface should return None");
}

#[test]
fn test_interface_builder_basic() {
    let interface = Interface::builder()
        .name("en0")
        .interface_type(InterfaceType::Ethernet)
        .flags(0)
        .build()
        .expect("Failed to build interface");

    assert_eq!(interface.name(), "en0");
    assert_eq!(*interface.interface_type(), InterfaceType::Ethernet);
    assert_eq!(interface.flags(), 0);
    assert!(interface.mac_address().is_none());
    assert!(interface.addresses().is_none());
}

#[test]
fn test_interface_builder_complete() {
    let ipv4 = IpAddress::V4(192, 168, 1, 1);
    let ipv6 = IpAddress::V6(0, 0, 0, 0, 0, 0, 0, 1);

    let interface = Interface::builder()
        .name("en0")
        .interface_type(InterfaceType::Ethernet)
        .flags(1)
        .mac_address("00:11:22:33:44:55")
        .add_address(ipv4)
        .add_address(ipv6)
        .traffic_stats(TrafficStatsParams {
            bytes_received: 100,
            bytes_sent: 200,
            packets_received: 10,
            packets_sent: 20,
            receive_errors: 1,
            send_errors: 2,
            collisions: 0,
        })
        .build()
        .expect("Failed to build interface");

    assert_eq!(interface.name(), "en0");
    assert_eq!(*interface.interface_type(), InterfaceType::Ethernet);
    assert_eq!(interface.flags(), 1);
    assert_eq!(interface.mac_address(), Some("00:11:22:33:44:55"));
    assert_eq!(interface.addresses().unwrap().len(), 2);
    assert!(interface.addresses().unwrap().contains(&ipv4));
    assert!(interface.addresses().unwrap().contains(&ipv6));
    assert_eq!(interface.bytes_received(), 100);
    assert_eq!(interface.bytes_sent(), 200);
    assert_eq!(interface.packets_received(), 10);
    assert_eq!(interface.packets_sent(), 20);
    assert_eq!(interface.receive_errors(), 1);
    assert_eq!(interface.send_errors(), 2);
    assert_eq!(interface.collisions(), 0);
}

#[test]
fn test_interface_builder_missing_required() {
    let result = Interface::builder().interface_type(InterfaceType::Ethernet).build();
    assert!(result.is_err());

    let result = Interface::builder().name("en0").build();
    assert!(result.is_err());
}

#[test]
fn interface_builder_errors_name_what_is_missing() {
    match Interface::builder().interface_type(InterfaceType::Ethernet).build() {
        Err(Error::InvalidData { message, details }) => {
            assert_eq!(message, "Interface name is required");
            assert_eq!(details, "");
        },
        _ => panic!("a builder without a name built"),
    }
    match Interface::builder().name("en0").build() {
        Err(Error::InvalidData { message, .. }) => assert_eq!(message, "Interface type is required"),
        _ => panic!("a builder without a type built"),
    }
}

#[test]
fn test_interface_builder_addresses() {
    let addresses = vec![IpAddress::V4(192, 168, 1, 1), IpAddress::V6(0, 0, 0, 0, 0, 0, 0, 1)];

    let interface1 = Interface::builder()
        .name("en0")
        .interface_type(InterfaceType::Ethernet)
        .add_address(addresses[0])
        .add_address(addresses[1])
        .build()
        .expect("Failed to build interface");

    let interface2 = Interface::builder()
        .name("en0")
        .interface_type(InterfaceType::Ethernet)
        .addresses(addresses.clone())
        .build()
        .expect("Failed to build interface");

    assert_eq!(interface1.addresses(), interface2.addresses());
    assert_eq!(interface1.addresses().unwrap().len(), 2);
}

#[test]
fn traffic_tracker_keeps_the_previous_point() {
    let mut tracker = TrafficTracker::new(100, 200, 1, 2, 0, 0, 0);
    assert!(tracker.previous().is_none());
    assert_eq!(tracker.bytes_received_growth(), None);
    tracker.update(150, 260, 4, 5, 1, 0, 0);
    assert_eq!(tracker.bytes_received(), 150);
    assert_eq!(tracker.bytes_sent(), 260);
    assert_eq!(tracker.receive_errors(), 1);
    assert_eq!(tracker.previous().unwrap().bytes_received, 100);
    assert_eq!(tracker.bytes_received_growth(), Some(50));
    assert_eq!(tracker.bytes_sent_growth(), Some(60));
    assert_eq!(tracker.packets_received_growth(), Some(3));
    assert_eq!(tracker.packets_sent_growth(), Some(3));
    tracker.update(10, 260, 4, 5, 1, 0, 0);
    assert_eq!(tracker.bytes_received_growth(), Some(0));
}

#[test]
fn traffic_data_holds_its_counters() {
    let d = TrafficData::new(1, 2, 3, 4, 5, 6, 7);
    assert_eq!(
        (d.bytes_received, d.bytes_sent, d.packets_received, d.packets_sent),
        (1, 2, 3, 4)
    );
    assert_eq!((d.receive_errors, d.send_errors, d.collisions), (5, 6, 7));
}

#[test]
fn format_mac_uses_lower_case_pairs() {
    assert_eq!(format_mac(&[0xa4, 0x83, 0xe7, 0x0b, 0x1c, 0x2d]), "a4:83:e7:0b:1c:2d");
    assert_eq!(format_mac(&[0, 0, 0, 0, 0, 255]), "00:00:00:00:00:ff");
}

fn entry(name: Option<&[u8]>, flags: u32, addr: RawSockAddr) -> RawInterfaceAddress {
    RawInterfaceAddress { name: name.map(|n| n.to_vec()), flags, addr }
}

fn link(mac: [i8; 6], nlen: u8) -> RawSockAddr {
    let mut data = [0i8; 12];
    for i in 0..6 {
        data[nlen as usize + i] = mac[i];
    }
    RawSockAddr::Link { alen: 6, nlen, data }
}

#[test]
fn addresses_are_grouped_by_interface() {
    let mut v6 = [0u8; 16];
    v6[0] = 0xfe;
    v6[1] = 0x80;
    v6[15] = 1;
    let entries = vec![
        entry(Some(b"lo0"), 0x8049, RawSockAddr::Inet(127, 0, 0, 1)),
        entry(Some(b"en0"), 0x8863, link([0x12, 0x34, 0x56, 0x78, -0x66, -0x44], 3)),
        entry(Some(b"en0"), 0x1, RawSockAddr::Inet(192, 168, 1, 20)),
        entry(None, 0, RawSockAddr::Inet(10, 0, 0, 1)),
        entry(Some(b""), 0, RawSockAddr::Inet(10, 0, 0, 2)),
        entry(Some(b"\xff"), 0, RawSockAddr::Inet(10, 0, 0, 3)),
        entry(Some(b"en0"), 0x2, RawSockAddr::Inet6(v6)),
        entry(Some(b"gif0"), 0x8010, RawSockAddr::Absent),
        entry(Some(b"gif0"), 0x8010, RawSockAddr::Other),
    ];
    let recs = collect_network_addresses(&entries);
    assert_eq!(recs.len(), 3);
    assert_eq!(recs[0].name, "lo0");
    assert_eq!(recs[0].flags, 0x8049);
    assert_eq!(recs[0].mac_address, None);
    assert_eq!(recs[0].addresses, vec![IpAddress::V4(127, 0, 0, 1)]);
    assert_eq!(recs[1].name, "en0");
    assert_eq!(recs[1].flags, 0x8863);
    assert_eq!(recs[1].mac_address.as_deref(), Some("12:34:56:78:9a:bc"));
    assert_eq!(
        recs[1].addresses,
        vec![IpAddress::V4(192, 168, 1, 20), IpAddress::V6(0xfe80, 0, 0, 0, 0, 0, 0, 1)]
    );
    assert_eq!(recs[2].name, "gif0");
    assert!(recs[2].addresses.is_empty());
}

#[test]
fn link_addresses_that_do_not_fit_give_no_mac() {
    let short = RawSockAddr::Link { alen: 4, nlen: 0, data: [1; 12] };
    let past_end = RawSockAddr::Link { alen: 6, nlen: 7, data: [1; 12] };
    let recs = collect_network_addresses(&vec![
        entry(Some(b"en1"), 0, short),
        entry(Some(b"en1"), 0, past_end),
    ]);
    assert_eq!(recs.len(), 1);
    assert_eq!(recs[0].mac_address, None);
}

#[test]
fn the_last_mac_address_of_an_interface_wins() {
    let recs = collect_network_addresses(&vec![
        entry(Some(b"en0"), 0, link([1, 2, 3, 4, 5, 6], 0)),
        entry(Some(b"en0"), 0, link([6, 5, 4, 3, 2, 1], 6)),
    ]);
    assert_eq!(recs[0].mac_address.as_deref(), Some("06:05:04:03:02:01"));
}

fn record(name: &str, flags: u32, mac: Option<&str>, addresses: Vec<IpAddress>) -> AddressRecord {
    AddressRecord { name: name.to_string(), flags, mac_address: mac.map(|m| m.to_string()), addresses }
}

fn traffic(name: &str, c: (u64, u64, u64, u64, u64, u64, u64)) -> TrafficRecord {
    TrafficRecord { name: name.to_string(), counters: c }
}

#[test]
fn interfaces_are_built_from_records_and_traffic() {
    let recs = vec![
        record("lo0", if_flags::IFF_LOOPBACK, None, vec![IpAddress::V4(127, 0, 0, 1)]),
        record("en0", if_flags::IFF_UP, Some("aa:bb:cc:dd:ee:ff"), vec![]),
    ];
    let t = Some(vec![
        traffic("en0", (10, 20, 1, 2, 0, 0, 0)),
        traffic("utun3", (5, 6, 7, 8, 9, 10, 11)),
        traffic("", (1, 1, 1, 1, 1, 1, 1)),
    ]);
    let v = build_interfaces(&recs, &t).unwrap();
    assert_eq!(v.len(), 3);
    assert_eq!(v[0].name(), "lo0");
    assert_eq!(*v[0].interface_type(), InterfaceType::Loopback);
    assert_eq!(v[0].mac_address(), Some(""));
    assert_eq!(v[0].bytes_received(), 0);
    assert_eq!(v[1].name(), "en0");
    assert_eq!(*v[1].interface_type(), InterfaceType::WiFi);
    assert_eq!(v[1].mac_address(), Some("aa:bb:cc:dd:ee:ff"));
    assert_eq!((v[1].bytes_received(), v[1].bytes_sent()), (10, 20));
    assert_eq!(v[2].name(), "utun3");
    assert_eq!(*v[2].interface_type(), InterfaceType::Other);
    assert_eq!(v[2].flags(), 0);
    assert_eq!(v[2].mac_address(), None);
    assert_eq!(v[2].collisions(), 11);

    let without_traffic = build_interfaces(&recs, &None).unwrap();
    assert_eq!(without_traffic.len(), 2);
    assert_eq!(without_traffic[1].bytes_sent(), 0);
}

#[test]
fn update_replaces_interfaces_by_name() {
    let mut manager = create_test_network_manager();
    let newer = Interface::new(
        "en0".to_string(),
        InterfaceType::WiFi,
        0,
        None,
        vec![],
        5,
        5,
        5,
        5,
        5,
        5,
        5,
    );
    let added = create_mock_interface("utun0", InterfaceType::Virtual, false);
    assert!(manager.update(Ok(vec![newer, added])).is_ok());
    assert_eq!(manager.interfaces().len(), 3);
    assert_eq!(*manager.get_interface("en0").unwrap().interface_type(), InterfaceType::WiFi);
    assert_eq!(manager.get_interface("en0").unwrap().bytes_received(), 5);
    assert!(manager.get_interface("lo0").unwrap().is_loopback());
    assert!(manager.get_interface("utun0").is_some());

    let err = manager.update(Err(Error::network_error("get_interfaces", "denied")));
    assert!(matches!(err, Err(Error::Network { .. })));
    assert_eq!(manager.interfaces().len(), 3);
}

#[test]
fn native_statistics_are_kept_per_name() {
    let mut d = if_data64::default();
    d.ifi_ibytes = 100;
    d.ifi_obytes = 50;
    d.ifi_ipackets = 3;
    d.ifi_collisions = 2;
    let readings = vec![("lo0".to_string(), Some(d)), ("bad0".to_string(), None)];
    let t = traffic_from_interface_data(&readings).unwrap();
    assert_eq!(t.len(), 1);
    assert_eq!(t[0].name, "lo0");
    assert_eq!(t[0].counters, (100, 50, 3, 0, 0, 0, 2));
    assert!(traffic_from_interface_data(&vec![("x".to_string(), None)]).is_none());
}

const NETSTAT_SAMPLE: &str = "Name  Mtu   Network       Address            Ipkts Ierrs     Ibytes    Opkts Oerrs     Obytes  Coll
lo0   16384 <Link#1>                         11209     0    3109212    11209     0    3109212     0
en0   1500  <Link#6>    a4:83:e7:0b:1c:2d  2543623     0 3003460843  1028813     0  172683289     0
en0   1500  192.168.1     192.168.1.20      2543623     -          -  1028813     -          -     -
gif0* 1280  <Link#2>                             0     0          0        0     0          0     0
";

#[test]
fn netstat_output_is_read_per_interface() {
    let t = parse_netstat_text(NETSTAT_SAMPLE);
    assert_eq!(t.len(), 3);
    assert_eq!(t[0].name, "lo0");
    // A line without an address column has its columns shifted by one.
    assert_eq!(t[0].counters, (11209, 0, 0, 0, 3109212, 3109212, 0));
    assert_eq!(t[1].name, "en0");
    assert_eq!(t[1].counters, (0, 0, 2543623, 1028813, 0, 0, 0));
    assert_eq!(t[2].name, "gif0*");
}

#[test]
fn netstat_lines_that_are_short_or_the_header_give_nothing() {
    assert!(parse_netstat_text("").is_empty());
    assert!(parse_netstat_text("lo0 1 2 3 4 5 6 7 8 9 10\n").is_empty());
    let t = parse_netstat_text("header\nen1 1 a b 4 5 6 7 8 9\r\nshort 1 2\n");
    assert_eq!(t.len(), 1);
    assert_eq!(t[0].name, "en1");
    assert_eq!(t[0].counters, (6, 9, 4, 7, 5, 8, 0));
}

#[test]
fn netstat_bytes_are_decoded_leniently() {
    let mut bytes = b"Name\nen\xff0 1 n a 1 2 3 4 5 6 7\n".to_vec();
    let t = parse_netstat_output(&bytes);
    assert_eq!(t[0].name, "en\u{FFFD}0");
    assert_eq!(t[0].counters, (3, 6, 1, 4, 2, 5, 7));
    bytes.clear();
    assert!(parse_netstat_output(&bytes).is_empty());
}

#[test]
fn lines_and_words_split_as_std_does() {
    let lines = split_lines(&chars("a\r\nb\n\nc\r"));
    let expected: Vec<Vec<char>> = "a\r\nb\n\nc\r".lines().map(chars).collect();
    assert_eq!(lines, expected);
    let words = split_words(&chars(" \tx  yz\u{3000}w "));
    let expected: Vec<Vec<char>> = " \tx  yz\u{3000}w ".split_whitespace().map(chars).collect();
    assert_eq!(words, expected);
}

#[test]
fn numbers_parse_as_std_does() {
    for w in ["0", "42", "+7", "+", "", "-1", "18446744073709551615", "18446744073709551616", "1a"] {
        assert_eq!(parse_u64(&chars(w)), w.parse::<u64>().ok(), "word {:?}", w);
    }
}
