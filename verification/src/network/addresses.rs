//! Grouping of the interface addresses that `getifaddrs` reports, by interface name.
//!
//! The host application walks the list that `getifaddrs` returns and hands each entry
//! over as a [`RawInterfaceAddress`]; [`collect_network_addresses`] groups them into
//! one [`AddressRecord`] per interface.

use vstd::prelude::*;
use crate::network::interface::IpAddress;
use crate::utils::text::{same_text, utf8_to_string};

verus! {

/// A socket address of an interface, as `getifaddrs` reports it.
pub enum RawSockAddr {
    /// The entry has no address.
    Absent,
    /// An IPv4 address: the four bytes of `sin_addr`, in network order.
    Inet(u8, u8, u8, u8),
    /// An IPv6 address: the sixteen bytes of `sin6_addr`.
    Inet6([u8; 16]),
    /// A link-level address: the address length `sdl_alen`, the name length
    /// `sdl_nlen`, and the data `sdl_data` of a `sockaddr_dl`.
    Link { alen: u8, nlen: u8, data: [i8; 12] },
    /// An address of another family.
    Other,
}

/// One entry of the list that `getifaddrs` reports.
pub struct RawInterfaceAddress {
    /// The bytes of the interface name before its terminating nul; `None` for a null name.
    pub name: Option<Vec<u8>>,
    /// The interface flags.
    pub flags: u32,
    /// The address of the entry.
    pub addr: RawSockAddr,
}

/// What is known of one interface from the entries that name it.
pub struct AddressRecord {
    /// The interface name.
    pub name: String,
    /// The flags of the first entry that names the interface.
    pub flags: u32,
    /// The MAC address of the last link-level entry with one.
    pub mac_address: Option<String>,
    /// The IP addresses, in the order of the entries.
    pub addresses: Vec<IpAddress>,
}

/// A record as name, flags, MAC address and IP addresses.
pub type AddressRecordView = (Seq<char>, u32, Option<Seq<char>>, Seq<IpAddress>);

/// The text of an optional string.
pub open spec fn opt_text(s: Option<String>) -> Option<Seq<char>> {
    match s {
        Some(t) => Some(t@),
        None => None,
    }
}

impl View for AddressRecord {
    type V = AddressRecordView;

    open spec fn view(&self) -> AddressRecordView {
        (self.name@, self.flags, opt_text(self.mac_address), self.addresses@)
    }
}

/// The views of a sequence of records.
pub open spec fn records_view(s: Seq<AddressRecord>) -> Seq<AddressRecordView> {
    s.map_values(|r: AddressRecord| r@)
}

/// The name of an entry: its bytes decoded as UTF-8; `None` when the name is null,
/// not valid UTF-8, or empty.
pub open spec fn raw_entry_name(e: RawInterfaceAddress) -> Option<Seq<char>> {
    match e.name {
        Some(b) => if vstd::utf8::valid_utf8(b@) && vstd::utf8::decode_utf8(b@).len() > 0 {
            Some(vstd::utf8::decode_utf8(b@))
        } else {
            None
        },
        None => None,
    }
}

/// The segment `i` of an IPv6 address: bytes `2i` and `2i + 1`, most significant first.
pub open spec fn ipv6_segment(b: Seq<u8>, i: int) -> u16 {
    (b[2 * i] as int * 256 + b[2 * i + 1] as int) as u16
}

/// The IP address of a socket address, if it is one.
pub open spec fn spec_ip_of(a: RawSockAddr) -> Option<IpAddress> {
    match a {
        RawSockAddr::Inet(x, y, z, w) => Some(IpAddress::V4(x, y, z, w)),
        RawSockAddr::Inet6(b) => Some(
            IpAddress::V6(
                ipv6_segment(b@, 0),
                ipv6_segment(b@, 1),
                ipv6_segment(b@, 2),
                ipv6_segment(b@, 3),
                ipv6_segment(b@, 4),
                ipv6_segment(b@, 5),
                ipv6_segment(b@, 6),
                ipv6_segment(b@, 7),
            ),
        ),
        _ => None,
    }
}

/// The character of a hexadecimal digit, in lower case.
pub open spec fn hex_digit(d: nat) -> char {
    if d < 10 {
        (('0' as nat) + d) as char
    } else {
        (('a' as nat) + d - 10) as char
    }
}

/// The two lower-case hexadecimal digits of a byte.
pub open spec fn hex_byte(b: u8) -> Seq<char> {
    seq![hex_digit((b / 16) as nat), hex_digit((b % 16) as nat)]
}

/// A MAC address of six bytes: their hexadecimal digits, separated by colons.
pub open spec fn mac_text(b: Seq<u8>) -> Seq<char> {
    hex_byte(b[0]) + ":"@ + hex_byte(b[1]) + ":"@ + hex_byte(b[2]) + ":"@ + hex_byte(b[3]) + ":"@
        + hex_byte(b[4]) + ":"@ + hex_byte(b[5])
}

/// The MAC address of a socket address: a link-level address of six bytes that
/// follow the name within the data.
pub open spec fn spec_mac_of(a: RawSockAddr) -> Option<Seq<char>> {
    match a {
        RawSockAddr::Link { alen, nlen, data } => if alen == 6 && nlen + 6 <= 12 {
            Some(mac_text(data@.subrange(nlen as int, nlen + 6).map_values(|c: i8| c as u8)))
        } else {
            None
        },
        _ => None,
    }
}

/// A record with the address of `a` added: its MAC address replaces the one known,
/// its IP address is appended.
pub open spec fn add_address(r: AddressRecordView, a: RawSockAddr) -> AddressRecordView {
    (
        r.0,
        r.1,
        match spec_mac_of(a) {
            Some(m) => Some(m),
            None => r.2,
        },
        match spec_ip_of(a) {
            Some(ip) => r.3.push(ip),
            None => r.3,
        },
    )
}

/// The index of the last record named `n`, or -1.
pub open spec fn name_index(recs: Seq<AddressRecordView>, n: Seq<char>) -> int
    decreases recs.len(),
{
    if recs.len() == 0 {
        -1
    } else if recs.last().0 == n {
        recs.len() - 1
    } else {
        name_index(recs.drop_last(), n)
    }
}

/// Whether no two records have the same name.
pub open spec fn unique_names(recs: Seq<AddressRecordView>) -> bool {
    forall|i: int, j: int| 0 <= i < j < recs.len() ==> recs[i].0 != recs[j].0
}

/// The records after one more entry: an entry without a usable name changes nothing;
/// otherwise its address is added to the record of its name, which is created with the
/// entry's flags when there is none yet.
pub open spec fn record_step(recs: Seq<AddressRecordView>, e: RawInterfaceAddress) -> Seq<
    AddressRecordView,
> {
    match raw_entry_name(e) {
        None => recs,
        Some(n) => {
            let k = name_index(recs, n);
            if k >= 0 {
                recs.update(k, add_address(recs[k], e.addr))
            } else {
                recs.push(add_address((n, e.flags, None, seq![]), e.addr))
            }
        },
    }
}

/// The records made from a sequence of entries, one per interface name, in the order in
/// which the names first appear.
pub open spec fn address_records(es: Seq<RawInterfaceAddress>) -> Seq<AddressRecordView>
    decreases es.len(),
{
    if es.len() == 0 {
        seq![]
    } else {
        record_step(address_records(es.drop_last()), es.last())
    }
}

/// Where records have unique names, the record named `n` is the one `name_index` finds.
pub proof fn lemma_name_index(recs: Seq<AddressRecordView>, n: Seq<char>)
    requires
        unique_names(recs),
    ensures
        name_index(recs, n) == -1 <==> (forall|k: int| 0 <= k < recs.len() ==> recs[k].0 != n),
        name_index(recs, n) != -1 ==> 0 <= name_index(recs, n) < recs.len() && recs[name_index(
            recs,
            n,
        )].0 == n,
        forall|k: int| 0 <= k < recs.len() && recs[k].0 == n ==> name_index(recs, n) == k,
    decreases recs.len(),
{
    if recs.len() > 0 {
        let init = recs.drop_last();
        assert(unique_names(init));
        lemma_name_index(init, n);
        if recs.last().0 != n {
            assert forall|k: int| 0 <= k < init.len() && init[k].0 == n implies recs[k].0 == n by {}
            assert forall|k: int| 0 <= k < recs.len() && recs[k].0 == n implies k < init.len()
                && init[k].0 == n by {}
        }
    }
}

/// Each step keeps the names of the records unique.
proof fn lemma_step_unique(recs: Seq<AddressRecordView>, e: RawInterfaceAddress)
    requires
        unique_names(recs),
    ensures
        unique_names(record_step(recs, e)),
{
    if let Some(n) = raw_entry_name(e) {
        lemma_name_index(recs, n);
    }
}

/// The records made from any entries have unique names.
pub proof fn lemma_address_records_unique(es: Seq<RawInterfaceAddress>)
    ensures
        unique_names(address_records(es)),
    decreases es.len(),
{
    if es.len() > 0 {
        lemma_address_records_unique(es.drop_last());
        lemma_step_unique(address_records(es.drop_last()), es.last());
    }
}

fn hex_digit_str(d: u8) -> (r: &'static str)
    requires
        d < 16,
    ensures
        r@ == seq![hex_digit(d as nat)],
{
    proof {
        reveal_strlit("0");
        reveal_strlit("1");
        reveal_strlit("2");
        reveal_strlit("3");
        reveal_strlit("4");
        reveal_strlit("5");
        reveal_strlit("6");
        reveal_strlit("7");
        reveal_strlit("8");
        reveal_strlit("9");
        reveal_strlit("a");
        reveal_strlit("b");
        reveal_strlit("c");
        reveal_strlit("d");
        reveal_strlit("e");
        reveal_strlit("f");
    }
    let r = if d == 0 {
        "0"
    } else if d == 1 {
        "1"
    } else if d == 2 {
        "2"
    } else if d == 3 {
        "3"
    } else if d == 4 {
        "4"
    } else if d == 5 {
        "5"
    } else if d == 6 {
        "6"
    } else if d == 7 {
        "7"
    } else if d == 8 {
        "8"
    } else if d == 9 {
        "9"
    } else if d == 10 {
        "a"
    } else if d == 11 {
        "b"
    } else if d == 12 {
        "c"
    } else if d == 13 {
        "d"
    } else if d == 14 {
        "e"
    } else {
        "f"
    };
    assert(r@ =~= seq![hex_digit(d as nat)]);
    r
}

fn append_hex_byte(s: &mut String, b: u8)
    ensures
        final(s)@ == old(s)@ + hex_byte(b),
{
    s.append(hex_digit_str(b / 16));
    s.append(hex_digit_str(b % 16));
    assert(final(s)@ =~= old(s)@ + hex_byte(b));
}

/// A MAC address of six bytes as lower-case hexadecimal pairs separated by colons,
/// such as `a4:83:e7:0b:1c:2d`.
pub fn format_mac(bytes: &[u8]) -> (r: String)
    requires
        bytes@.len() == 6,
    ensures
        r@ == mac_text(bytes@),
{
    let mut s = String::new();
    append_hex_byte(&mut s, bytes[0]);
    s.append(":");
    append_hex_byte(&mut s, bytes[1]);
    s.append(":");
    append_hex_byte(&mut s, bytes[2]);
    s.append(":");
    append_hex_byte(&mut s, bytes[3]);
    s.append(":");
    append_hex_byte(&mut s, bytes[4]);
    s.append(":");
    append_hex_byte(&mut s, bytes[5]);
    assert(s@ =~= mac_text(bytes@));
    s
}

/// The MAC address of a socket address, when it is a link-level address of six bytes
/// that fit after the name within the data.
pub fn mac_of(a: &RawSockAddr) -> (r: Option<String>)
    ensures
        opt_text(r) == spec_mac_of(*a),
{
    match a {
        RawSockAddr::Link { alen, nlen, data } => {
            if *alen == 6 && (*nlen as usize) + 6 <= 12 {
                let off = *nlen as usize;
                let mut bytes: Vec<u8> = Vec::new();
                let mut i: usize = 0;
                while i < 6
                    invariant
                        off + 6 <= 12,
                        i <= 6,
                        bytes@ == data@.subrange(off as int, off + i).map_values(|c: i8| c as u8),
                    decreases 6 - i,
                {
                    bytes.push(data[off + i] as u8);
                    i = i + 1;
                    assert(bytes@ =~= data@.subrange(off as int, off + i).map_values(
                        |c: i8| c as u8,
                    ));
                }
                Some(format_mac(bytes.as_slice()))
            } else {
                None
            }
        },
        _ => None,
    }
}

/// The IP address of a socket address, when it is an IPv4 or IPv6 address.
pub fn ip_of(a: &RawSockAddr) -> (r: Option<IpAddress>)
    ensures
        r == spec_ip_of(*a),
{
    match a {
        RawSockAddr::Inet(x, y, z, w) => Some(IpAddress::V4(*x, *y, *z, *w)),
        RawSockAddr::Inet6(b) => {
            let s0 = (b[0] as u16) * 256 + (b[1] as u16);
            let s1 = (b[2] as u16) * 256 + (b[3] as u16);
            let s2 = (b[4] as u16) * 256 + (b[5] as u16);
            let s3 = (b[6] as u16) * 256 + (b[7] as u16);
            let s4 = (b[8] as u16) * 256 + (b[9] as u16);
            let s5 = (b[10] as u16) * 256 + (b[11] as u16);
            let s6 = (b[12] as u16) * 256 + (b[13] as u16);
            let s7 = (b[14] as u16) * 256 + (b[15] as u16);
            Some(IpAddress::V6(s0, s1, s2, s3, s4, s5, s6, s7))
        },
        _ => None,
    }
}

/// The name of an entry as text; see [`raw_entry_name`].
fn entry_name(e: &RawInterfaceAddress) -> (r: Option<String>)
    ensures
        opt_text(r) == raw_entry_name(*e),
{
    match &e.name {
        Some(b) => match utf8_to_string(b.clone()) {
            Some(s) => {
                if s.as_str().is_empty() {
                    None
                } else {
                    Some(s)
                }
            },
            None => None,
        },
        None => None,
    }
}

/// Adds the address `a` to a record.
fn add_address_to(rec: &mut AddressRecord, a: &RawSockAddr)
    ensures
        final(rec)@ == add_address(old(rec)@, *a),
{
    match mac_of(a) {
        Some(m) => {
            rec.mac_address = Some(m);
        },
        None => {},
    }
    match ip_of(a) {
        Some(ip) => {
            rec.addresses.push(ip);
        },
        None => {},
    }
}

/// The position of the record named `name`, if any.
fn find_record(recs: &Vec<AddressRecord>, name: &str) -> (r: Option<usize>)
    ensures
        r matches Some(k) ==> k < recs@.len() && recs@[k as int].name@ == name@,
        r is None ==> forall|k: int| 0 <= k < recs@.len() ==> recs@[k].name@ != name@,
{
    let mut i: usize = 0;
    while i < recs.len()
        invariant
            i <= recs@.len(),
            forall|k: int| 0 <= k < i ==> recs@[k].name@ != name@,
        decreases recs@.len() - i,
    {
        if same_text(recs[i].name.as_str(), name) {
            return Some(i);
        }
        i = i + 1;
    }
    None
}

/// Groups the entries that `getifaddrs` reports into one record per interface name,
/// in the order in which the names first appear. Entries whose name is null, not
/// UTF-8 or empty are skipped. A record takes the flags of the first entry of its
/// name, the MAC address of the last link-level entry that has one, and the IPv4 and
/// IPv6 addresses of all its entries in order.
pub fn collect_network_addresses(entries: &Vec<RawInterfaceAddress>) -> (r: Vec<AddressRecord>)
    ensures
        records_view(r@) == address_records(entries@),
        unique_names(records_view(r@)),
{
    let mut recs: Vec<AddressRecord> = Vec::new();
    let mut i: usize = 0;
    while i < entries.len()
        invariant
            i <= entries@.len(),
            records_view(recs@) == address_records(entries@.take(i as int)),
            unique_names(records_view(recs@)),
        decreases entries@.len() - i,
    {
        let e = &entries[i];
        let ghost before = records_view(recs@);
        proof {
            assert(entries@.take(i + 1).drop_last() =~= entries@.take(i as int));
            lemma_step_unique(before, *e);
        }
        match entry_name(e) {
            None => {},
            Some(name) => {
                proof {
                    lemma_name_index(before, name@);
                }
                match find_record(&recs, name.as_str()) {
                    Some(j) => {
                        add_address_to(&mut recs[j], &e.addr);
                        assert(records_view(recs@) =~= before.update(
                            j as int,
                            add_address(before[j as int], e.addr),
                        ));
                    },
                    None => {
                        let mut rec = AddressRecord {
                            name,
                            flags: e.flags,
                            mac_address: None,
                            addresses: Vec::new(),
                        };
                        add_address_to(&mut rec, &e.addr);
                        recs.push(rec);
                        assert(records_view(recs@) =~= before.push(
                            add_address((rec@.0, e.flags, None, seq![]), e.addr),
                        ));
                    },
                }
            },
        }
        i = i + 1;
    }
    proof {
        assert(entries@.take(entries@.len() as int) =~= entries@);
    }
    recs
}

} // verus!
