//! Data layouts and helpers for the macOS system interfaces.
//!
//! The calls themselves (sysctl, IOKit, getifaddrs) are made by the host
//! application; this module holds the plain data they fill in and the logic
//! that interprets it.

#![allow(non_camel_case_types)]
#![allow(non_snake_case)]

pub mod address_family;
pub mod if_flags;
pub mod io_return;
pub mod io_service_keys;
pub mod process_state;
pub mod reachability_flags;
pub mod sysctl_constants;

use vstd::prelude::*;
use crate::error::Error;
use crate::utils::text::{
    append_decimal, decimal, decode_utf8_lossy, has_prefix, is_prefix_of, prefix_bytes, same_text,
    utf8_lossy,
};

verus! {

/// Process information structure from sysctl.
pub struct kinfo_proc {
    /// Basic process information.
    pub kp_proc: proc_info,
    /// Extended process information.
    pub kp_eproc: extern_proc,
}

/// Basic process information.
pub struct proc_info {
    /// Process flags.
    pub p_flag: i32,
    /// Process ID.
    pub p_pid: i32,
    /// Parent process ID.
    pub p_ppid: i32,
    /// Process state.
    pub p_stat: i32,
}

/// Extended process information.
pub struct extern_proc {
    /// Process start time.
    pub p_starttime: timeval,
    /// Process name, NUL-padded.
    pub p_comm: [u8; 16],
}

/// Time value used in BSD interfaces.
#[derive(Debug, Copy, Clone)]
pub struct timeval {
    /// Seconds.
    pub tv_sec: i64,
    /// Microseconds.
    pub tv_usec: i32,
}

/// Successful Mach operation.
pub const KERN_SUCCESS: i32 = 0;
/// Host VM info version 64.
pub const HOST_VM_INFO64: i32 = 4;
/// Count of VM info fields.
pub const HOST_VM_INFO64_COUNT: u32 = 38;

/// IPv4 address in network byte order.
pub struct in_addr {
    /// The address.
    pub s_addr: u32,
}

/// IPv6 socket address.
pub struct sockaddr_in6 {
    /// Length of structure.
    pub sin6_len: u8,
    /// Address family.
    pub sin6_family: u8,
    /// Port number.
    pub sin6_port: u16,
    /// Flow information.
    pub sin6_flowinfo: u32,
    /// IPv6 address.
    pub sin6_addr: in6_addr,
    /// Scope ID.
    pub sin6_scope_id: u32,
}

/// IPv6 address.
pub struct in6_addr {
    /// The address bytes.
    pub s6_addr: [u8; 16],
}

/// Network interface statistics (32-bit counters).
pub struct if_data {
    /// Interface type.
    pub ifi_type: u8,
    /// Physical port type.
    pub ifi_physical: u8,
    /// Media address length.
    pub ifi_addrlen: u8,
    /// Media header length.
    pub ifi_hdrlen: u8,
    /// Receive quota.
    pub ifi_recvquota: u8,
    /// Transmit quota.
    pub ifi_xmitquota: u8,
    /// Padding.
    pub ifi_unused1: u8,
    /// Maximum transmission unit.
    pub ifi_mtu: u32,
    /// Routing metric.
    pub ifi_metric: u32,
    /// Line speed.
    pub ifi_baudrate: u32,
    /// Packets received.
    pub ifi_ipackets: u32,
    /// Input errors.
    pub ifi_ierrors: u32,
    /// Packets sent.
    pub ifi_opackets: u32,
    /// Output errors.
    pub ifi_oerrors: u32,
    /// Collisions.
    pub ifi_collisions: u32,
    /// Bytes received.
    pub ifi_ibytes: u32,
    /// Bytes sent.
    pub ifi_obytes: u32,
    /// Multicast packets received.
    pub ifi_imcasts: u32,
    /// Multicast packets sent.
    pub ifi_omcasts: u32,
    /// Dropped on input.
    pub ifi_iqdrops: u32,
    /// Destined for unsupported protocol.
    pub ifi_noproto: u32,
    /// Receive timing.
    pub ifi_recvtiming: u32,
    /// Transmit timing.
    pub ifi_xmittiming: u32,
    /// Last state change.
    pub ifi_lastchange: timeval,
}

/// Network interface statistics (64-bit counters).
#[derive(Debug)]
pub struct if_data64 {
    /// Interface type.
    pub ifi_type: u8,
    /// Length of the type.
    pub ifi_typelen: u8,
    /// Physical port type.
    pub ifi_physical: u8,
    /// Media address length.
    pub ifi_addrlen: u8,
    /// Media header length.
    pub ifi_hdrlen: u8,
    /// Receive quota.
    pub ifi_recvquota: u8,
    /// Transmit quota.
    pub ifi_xmitquota: u8,
    /// Padding.
    pub ifi_unused1: u8,
    /// Maximum transmission unit.
    pub ifi_mtu: u32,
    /// Routing metric.
    pub ifi_metric: u32,
    /// Line speed.
    pub ifi_baudrate: u64,
    /// Packets received.
    pub ifi_ipackets: u64,
    /// Input errors.
    pub ifi_ierrors: u64,
    /// Packets sent.
    pub ifi_opackets: u64,
    /// Output errors.
    pub ifi_oerrors: u64,
    /// Collisions.
    pub ifi_collisions: u64,
    /// Bytes received.
    pub ifi_ibytes: u64,
    /// Bytes sent.
    pub ifi_obytes: u64,
    /// Multicast packets received.
    pub ifi_imcasts: u64,
    /// Multicast packets sent.
    pub ifi_omcasts: u64,
    /// Dropped on input.
    pub ifi_iqdrops: u64,
    /// Destined for unsupported protocol.
    pub ifi_noproto: u64,
    /// Receive timing.
    pub ifi_recvtiming: u32,
    /// Transmit timing.
    pub ifi_xmittiming: u32,
    /// Last state change.
    pub ifi_lastchange: timeval,
}

impl Default for timeval {
    fn default() -> (r: Self)
        ensures
            r.tv_sec == 0 && r.tv_usec == 0,
    {
        timeval { tv_sec: 0, tv_usec: 0 }
    }
}

impl Default for if_data64 {
    /// Statistics with every counter at zero.
    fn default() -> (r: Self)
        ensures
            r.ifi_type == 0 && r.ifi_typelen == 0 && r.ifi_physical == 0 && r.ifi_addrlen == 0
                && r.ifi_hdrlen == 0 && r.ifi_recvquota == 0 && r.ifi_xmitquota == 0
                && r.ifi_unused1 == 0 && r.ifi_mtu == 0 && r.ifi_metric == 0 && r.ifi_baudrate
                == 0 && r.ifi_ipackets == 0 && r.ifi_ierrors == 0 && r.ifi_opackets == 0
                && r.ifi_oerrors == 0 && r.ifi_collisions == 0 && r.ifi_ibytes == 0
                && r.ifi_obytes == 0 && r.ifi_imcasts == 0 && r.ifi_omcasts == 0 && r.ifi_iqdrops
                == 0 && r.ifi_noproto == 0 && r.ifi_recvtiming == 0 && r.ifi_xmittiming == 0
                && r.ifi_lastchange.tv_sec == 0 && r.ifi_lastchange.tv_usec == 0,
    {
        if_data64 {
            ifi_type: 0,
            ifi_typelen: 0,
            ifi_physical: 0,
            ifi_addrlen: 0,
            ifi_hdrlen: 0,
            ifi_recvquota: 0,
            ifi_xmitquota: 0,
            ifi_unused1: 0,
            ifi_mtu: 0,
            ifi_metric: 0,
            ifi_baudrate: 0,
            ifi_ipackets: 0,
            ifi_ierrors: 0,
            ifi_opackets: 0,
            ifi_oerrors: 0,
            ifi_collisions: 0,
            ifi_ibytes: 0,
            ifi_obytes: 0,
            ifi_imcasts: 0,
            ifi_omcasts: 0,
            ifi_iqdrops: 0,
            ifi_noproto: 0,
            ifi_recvtiming: 0,
            ifi_xmittiming: 0,
            ifi_lastchange: timeval { tv_sec: 0, tv_usec: 0 },
        }
    }
}

/// Virtual memory statistics.
#[derive(Debug, Default)]
pub struct vm_statistics64 {
    /// Free pages.
    pub free_count: u32,
    /// Active pages.
    pub active_count: u32,
    /// Inactive pages.
    pub inactive_count: u32,
    /// Wired pages.
    pub wire_count: u32,
    /// Zero-filled pages.
    pub zero_fill_count: u64,
    /// Reactivated pages.
    pub reactivations: u64,
    /// Page-ins.
    pub pageins: u64,
    /// Page-outs.
    pub pageouts: u64,
    /// Faults.
    pub faults: u64,
    /// Copy-on-write faults.
    pub cow_faults: u64,
    /// Object cache lookups.
    pub lookups: u64,
    /// Object cache hits.
    pub hits: u64,
    /// Purges.
    pub purges: u64,
    /// Purgeable pages.
    pub purgeable_count: u32,
    /// Speculative pages.
    pub speculative_count: u32,
    /// Decompressions.
    pub decompressions: u64,
    /// Compressions.
    pub compressions: u64,
    /// Swap-ins.
    pub swapins: u64,
    /// Swap-outs.
    pub swapouts: u64,
    /// Pages used by the compressor.
    pub compressor_page_count: u32,
    /// Throttled pages.
    pub throttled_count: u32,
    /// File-backed pages.
    pub external_page_count: u32,
    /// Anonymous pages.
    pub internal_page_count: u32,
    /// Uncompressed pages held by the compressor.
    pub total_uncompressed_pages_in_compressor: u64,
}

/// Swap usage.
#[derive(Debug, Default)]
pub struct xsw_usage {
    /// Total swap.
    pub xsu_total: u64,
    /// Used swap.
    pub xsu_used: u64,
    /// Available swap.
    pub xsu_avail: u64,
}

/// SMC kernel index.
pub const KERNEL_INDEX_SMC: u32 = 2;
/// SMC command: read bytes.
pub const SMC_CMD_READ_BYTES: u8 = 5;
/// SMC command: read key info.
pub const SMC_CMD_READ_KEYINFO: u8 = 9;
/// IOKit success code.
pub const IO_RETURN_SUCCESS: i32 = 0;
/// SMC command: read key.
pub const SMC_CMD_READ_KEY: u8 = 5;
/// SMC command: read index.
pub const SMC_CMD_READ_INDEX: u8 = 8;

/// Byte count used by IOKit calls.
#[derive(Debug, Copy, Clone)]
pub struct IOByteCount(pub usize);

/// Option bits used by IOKit calls.
#[derive(Debug, Copy, Clone)]
pub struct IOOptionBits(pub u32);

/// SMC firmware version.
#[derive(Debug, Copy, Clone)]
pub struct SMCVersion {
    /// Major version.
    pub major: u8,
    /// Minor version.
    pub minor: u8,
    /// Build number.
    pub build: u8,
    /// Reserved.
    pub reserved: [u8; 1],
    /// Release number.
    pub release: u16,
}

/// SMC power limit data.
#[derive(Debug, Copy, Clone)]
pub struct SMCPLimitData {
    /// Structure version.
    pub version: u16,
    /// Structure length.
    pub length: u16,
    /// CPU power limit.
    pub cpu_plimit: u32,
    /// GPU power limit.
    pub gpu_plimit: u32,
    /// Memory power limit.
    pub mem_plimit: u32,
}

/// SMC version block.
#[derive(Debug, Copy, Clone)]
pub struct SMCKeyData_vers_t {
    /// Version.
    pub version: SMCVersion,
    /// Reserved.
    pub reserved: [u8; 16],
}

/// SMC power limit block.
#[derive(Debug, Copy, Clone)]
pub struct SMCKeyData_pLimitData_t {
    /// Power limit data.
    pub p_limit_data: SMCPLimitData,
    /// Reserved.
    pub reserved: [u8; 10],
}

/// SMC key information.
#[derive(Debug, Copy, Clone)]
pub struct SMCKeyData_keyInfo_t {
    /// Size of the value.
    pub data_size: u32,
    /// Type code of the value.
    pub data_type: [u8; 4],
    /// Attributes of the value.
    pub data_attributes: u8,
}

/// A value read from the SMC.
pub struct SmcVal {
    /// Size of the value.
    pub data_size: u32,
    /// Type code of the value.
    pub data_type: [u8; 4],
    /// Attributes of the value.
    pub data_attributes: u8,
    /// Raw value bytes.
    pub data: [u8; 32],
}

/// SMC key: CPU temperature.
pub const SMC_KEY_CPU_TEMP: [i8; 4] = [84, 67, 48, 80];
/// SMC key: GPU temperature.
pub const SMC_KEY_GPU_TEMP: [i8; 4] = [84, 71, 48, 80];
/// SMC key: number of fans.
pub const SMC_KEY_FAN_NUM: [i8; 4] = [70, 78, 117, 109];
/// SMC key: fan 0 speed.
pub const SMC_KEY_FAN_SPEED: [i8; 4] = [70, 48, 65, 99];
/// SMC key: fan 1 speed.
pub const SMC_KEY_FAN1_SPEED: [i8; 4] = [70, 49, 65, 99];
/// SMC key: fan 0 minimum speed.
pub const SMC_KEY_FAN0_MIN: [i8; 4] = [70, 48, 77, 110];
/// SMC key: fan 0 maximum speed.
pub const SMC_KEY_FAN0_MAX: [i8; 4] = [70, 48, 77, 120];
/// SMC key: heatsink temperature.
pub const SMC_KEY_HEATSINK_TEMP: [i8; 4] = [84, 104, 48, 72];
/// SMC key: ambient temperature.
pub const SMC_KEY_AMBIENT_TEMP: [i8; 4] = [84, 65, 48, 80];
/// SMC key: battery temperature.
pub const SMC_KEY_BATTERY_TEMP: [i8; 4] = [84, 66, 48, 84];
/// SMC key: CPU power.
pub const SMC_KEY_CPU_POWER: [i8; 4] = [80, 67, 80, 67];
/// SMC key: CPU throttle.
pub const SMC_KEY_CPU_THROTTLE: [i8; 4] = [80, 67, 84, 67];
/// SMC key: package power.
pub const SMC_KEY_PACKAGE_POWER: [i8; 4] = [80, 77, 80, 48];
/// SMC key: GPU power.
pub const SMC_KEY_GPU_POWER: [i8; 4] = [80, 71, 80, 71];
/// SMC key: DRAM power.
pub const SMC_KEY_DRAM_POWER: [i8; 4] = [80, 68, 82, 80];
/// SMC key: neural engine power.
pub const SMC_KEY_NEURAL_POWER: [i8; 4] = [80, 78, 80, 48];

/// Whether an SMC key is one of the power keys: package, CPU, GPU, DRAM or Neural
/// Engine power.
pub open spec fn spec_is_power_key(key: Seq<i8>) -> bool {
    ||| key == seq![80i8, 77, 80, 48]
    ||| key == seq![80i8, 67, 80, 67]
    ||| key == seq![80i8, 71, 80, 71]
    ||| key == seq![80i8, 68, 82, 80]
    ||| key == seq![80i8, 78, 80, 48]
}

fn key_is(key: [i8; 4], b0: i8, b1: i8, b2: i8, b3: i8) -> (r: bool)
    ensures
        r == (key@ == seq![b0, b1, b2, b3]),
{
    let r = key[0] == b0 && key[1] == b1 && key[2] == b2 && key[3] == b3;
    proof {
        if r {
            assert(key@ =~= seq![b0, b1, b2, b3]);
        } else if key@ == seq![b0, b1, b2, b3] {
            assert(key@[0] == b0 && key@[1] == b1 && key@[2] == b2 && key@[3] == b3);
        }
    }
    r
}

/// Whether an SMC key is one of the power keys; see [`spec_is_power_key`].
pub fn is_power_key(key: [i8; 4]) -> (r: bool)
    ensures
        r == spec_is_power_key(key@),
{
    key_is(key, 80, 77, 80, 48) || key_is(key, 80, 67, 80, 67) || key_is(key, 80, 71, 80, 71)
        || key_is(key, 80, 68, 82, 80) || key_is(key, 80, 78, 80, 48)
}

/// The NUL-terminated prefix of a fixed-size name field: the bytes before the first
/// zero byte, or all of them when there is none.
pub open spec fn nul_terminated(bytes: Seq<u8>) -> Seq<u8> {
    bytes.take(first_nul(bytes))
}

/// The index of the first zero byte, or the length when there is none.
pub open spec fn first_nul(bytes: Seq<u8>) -> int
    decreases bytes.len(),
{
    if bytes.len() == 0 {
        0
    } else if bytes[0] == 0 {
        0
    } else {
        1 + first_nul(bytes.drop_first())
    }
}

proof fn lemma_first_nul(bytes: Seq<u8>, i: int)
    requires
        0 <= i <= bytes.len(),
        forall|j: int| 0 <= j < i ==> bytes[j] != 0,
        i == bytes.len() || bytes[i] == 0,
    ensures
        first_nul(bytes) == i,
    decreases bytes.len(),
{
    if bytes.len() != 0 && i > 0 {
        let rest = bytes.drop_first();
        assert forall|j: int| 0 <= j < i - 1 implies rest[j] != 0 by {
            assert(rest[j] == bytes[j + 1]);
        }
        if i < bytes.len() {
            assert(rest[i - 1] == bytes[i]);
        }
        lemma_first_nul(rest, i - 1);
    }
}

fn first_nul_index(bytes: &[u8]) -> (r: usize)
    ensures
        r == first_nul(bytes@),
        r <= bytes@.len(),
{
    let mut i: usize = 0;
    while i < bytes.len()
        invariant
            i <= bytes@.len(),
            forall|j: int| 0 <= j < i ==> bytes@[j] != 0,
        decreases bytes@.len() - i,
    {
        if bytes[i] == 0 {
            proof {
                lemma_first_nul(bytes@, i as int);
            }
            return i;
        }
        i = i + 1;
    }
    proof {
        lemma_first_nul(bytes@, i as int);
    }
    i
}

/// The process name held in a process record: the bytes of `p_comm` up to the first
/// NUL, decoded as UTF-8 with invalid sequences replaced.
pub fn extract_proc_name(proc_info: &kinfo_proc) -> (r: String)
    ensures
        r@ == utf8_lossy(nul_terminated(proc_info.kp_eproc.p_comm@)),
        vstd::utf8::valid_utf8(nul_terminated(proc_info.kp_eproc.p_comm@)) ==> r@
            == vstd::utf8::decode_utf8(nul_terminated(proc_info.kp_eproc.p_comm@)),
{
    let raw: &[u8] = proc_info.kp_eproc.p_comm.as_slice();
    let end = first_nul_index(raw);
    let name = prefix_bytes(raw, end);
    decode_utf8_lossy(name.as_slice())
}

/// The names of well-known macOS system processes.
pub open spec fn known_system_process_names() -> Seq<Seq<char>> {
    seq![
        "launchd"@,
        "kernel_task"@,
        "WindowServer"@,
        "systemstats"@,
        "logd"@,
        "syslogd"@,
    ]
}

/// Whether a process counts as a system process: a PID under 1000, a name in the
/// `com.apple.` namespace, or a well-known system process name.
pub open spec fn spec_is_system_process(pid: u32, name: Seq<char>) -> bool {
    pid < 1000 || is_prefix_of("com.apple."@, name) || known_system_process_names().contains(
        name,
    )
}

/// Determines if a process is a system process from its PID and name.
pub fn is_system_process(pid: u32, name: &str) -> (r: bool)
    ensures
        r == spec_is_system_process(pid, name@),
{
    if pid < 1000 {
        return true;
    }
    if has_prefix(name, "com.apple.") {
        return true;
    }
    let known = same_text(name, "launchd") || same_text(name, "kernel_task") || same_text(
        name,
        "WindowServer",
    ) || same_text(name, "systemstats") || same_text(name, "logd") || same_text(
        name,
        "syslogd",
    );
    proof {
        let names = known_system_process_names();
        if known {
            if name@ == "launchd"@ {
                assert(names[0] == name@);
            } else if name@ == "kernel_task"@ {
                assert(names[1] == name@);
            } else if name@ == "WindowServer"@ {
                assert(names[2] == name@);
            } else if name@ == "systemstats"@ {
                assert(names[3] == name@);
            } else if name@ == "logd"@ {
                assert(names[4] == name@);
            } else {
                assert(names[5] == name@);
            }
        } else {
            assert forall|i: int| 0 <= i < names.len() implies names[i] != name@ by {
                assert(i == 0 || i == 1 || i == 2 || i == 3 || i == 4 || i == 5);
            }
        }
    }
    known
}

/// The 32-bit code of an SMC key: its four bytes, most significant first.
pub open spec fn smc_key_code(k0: u8, k1: u8, k2: u8, k3: u8) -> u32 {
    ((k0 as u32) << 24u32) | ((k1 as u32) << 16u32) | ((k2 as u32) << 8u32) | (k3 as u32)
}

fn shift_in(acc: u32, b: u8) -> (r: u32)
    ensures
        r == ((acc << 8u32) | (b as u32)),
{
    (acc << 8u32) | (b as u32)
}

/// Packs a four-character SMC key into its 32-bit code.
pub fn smc_key_from_chars(key: [i8; 4]) -> (r: u32)
    ensures
        r == smc_key_code(key[0] as u8, key[1] as u8, key[2] as u8, key[3] as u8),
{
    let b0 = key[0] as u8;
    let b1 = key[1] as u8;
    let b2 = key[2] as u8;
    let b3 = key[3] as u8;
    let r0 = shift_in(0u32, b0);
    let r1 = shift_in(r0, b1);
    let r2 = shift_in(r1, b2);
    let r3 = shift_in(r2, b3);
    assert(r3 == smc_key_code(b0, b1, b2, b3)) by (bit_vector)
        requires
            r0 == ((0u32 << 8u32) | (b0 as u32)),
            r1 == ((r0 << 8u32) | (b1 as u32)),
            r2 == ((r1 << 8u32) | (b2 as u32)),
            r3 == ((r2 << 8u32) | (b3 as u32)),
    ;
    r3
}

/// A four-byte SMC key.
pub struct SmcKey {
    /// The key bytes.
    pub key: [u8; 4],
}

/// The byte a character is stored as: the low eight bits of its code point.
pub open spec fn char_low_byte(c: char) -> u8 {
    ((c as u32) % 256) as u8
}

fn low_byte(c: char) -> (r: u8)
    ensures
        r == char_low_byte(c),
{
    ((c as u32) % 256) as u8
}

/// The bytes of the key built from four characters: the low byte of each.
pub open spec fn key_bytes_of_chars(chars: [char; 4]) -> Seq<u8> {
    seq![
        char_low_byte(chars[0]),
        char_low_byte(chars[1]),
        char_low_byte(chars[2]),
        char_low_byte(chars[3]),
    ]
}

/// A key built from four ASCII characters reads back as those characters: its bytes
/// are valid UTF-8 and decode to the four characters.
pub proof fn law_ascii_key_round_trip(chars: [char; 4])
    requires
        (chars[0] as u32) < 128,
        (chars[1] as u32) < 128,
        (chars[2] as u32) < 128,
        (chars[3] as u32) < 128,
    ensures
        vstd::utf8::valid_utf8(key_bytes_of_chars(chars)),
        vstd::utf8::decode_utf8(key_bytes_of_chars(chars)) == seq![
            chars[0],
            chars[1],
            chars[2],
            chars[3],
        ],
{
    let text = seq![chars[0], chars[1], chars[2], chars[3]];
    assert forall|c: char| (c as u32) < 128 implies vstd::utf8::encode_scalar(c as u32) == seq![
        char_low_byte(c),
    ] by {
        let v = c as u32;
        assert((v & 0x7Fu32) as u8 == (v % 256) as u8) by (bit_vector)
            requires
                v < 128,
        ;
    }
    reveal_with_fuel(vstd::utf8::encode_utf8, 5);
    assert(text.drop_first() =~= seq![chars[1], chars[2], chars[3]]);
    assert(text.drop_first().drop_first() =~= seq![chars[2], chars[3]]);
    assert(text.drop_first().drop_first().drop_first() =~= seq![chars[3]]);
    assert(text.drop_first().drop_first().drop_first().drop_first() =~= Seq::<char>::empty());
    assert(vstd::utf8::encode_utf8(text) =~= key_bytes_of_chars(chars));
    vstd::utf8::encode_utf8_valid_utf8(text);
    vstd::utf8::encode_utf8_decode_utf8(text);
}

impl SmcKey {
    /// Builds a key from four characters, keeping the low byte of each.
    pub fn from_chars(chars: [char; 4]) -> (r: Self)
        ensures
            r.key@ == key_bytes_of_chars(chars),
    {
        let key = [low_byte(chars[0]), low_byte(chars[1]), low_byte(chars[2]), low_byte(chars[3])];
        let r = SmcKey { key };
        assert(r.key@ =~= key_bytes_of_chars(chars));
        r
    }

    /// Builds a key from a text of exactly four characters, keeping the low byte of
    /// each; fails with a message giving the number of characters otherwise.
    pub fn from_str(s: &str) -> (r: Result<Self, String>)
        ensures
            r is Ok <==> s@.len() == 4,
            r matches Ok(k) ==> k.key@ == seq![
                char_low_byte(s@[0]),
                char_low_byte(s@[1]),
                char_low_byte(s@[2]),
                char_low_byte(s@[3]),
            ],
            r matches Err(m) ==> m@ == "SMC key must be exactly 4 characters, got "@ + decimal(
                s@.len(),
            ),
    {
        let n = s.unicode_len();
        if n != 4 {
            let mut m = String::new();
            m.append("SMC key must be exactly 4 characters, got ");
            append_decimal(&mut m, n as u64);
            return Err(m);
        }
        Ok(Self::from_chars([s.get_char(0), s.get_char(1), s.get_char(2), s.get_char(3)]))
    }

    /// The key as text, decoded as UTF-8 with invalid bytes replaced.
    pub fn to_string(&self) -> (r: String)
        ensures
            r@ == utf8_lossy(self.key@),
            vstd::utf8::valid_utf8(self.key@) ==> r@ == vstd::utf8::decode_utf8(self.key@),
    {
        decode_utf8_lossy(self.key.as_slice())
    }

    /// The key bytes as signed C characters.
    pub fn to_chars(&self) -> (r: [i8; 4])
        ensures
            forall|i: int| 0 <= i < 4 ==> #[trigger] r@[i] == self.key@[i] as i8,
    {
        let r = [self.key[0] as i8, self.key[1] as i8, self.key[2] as i8, self.key[3] as i8];
        assert forall|i: int| 0 <= i < 4 implies #[trigger] r@[i] == self.key@[i] as i8 by {
            assert(i == 0 || i == 1 || i == 2 || i == 3);
        }
        r
    }
}

/// The sysctl name under which the statistics of an interface are published.
pub open spec fn interface_stats_key(interface_name: Seq<char>) -> Seq<char> {
    "net.link.generic.system.ifdata."@ + interface_name
}

/// The message for a sysctl name that holds a NUL byte at `position`.
pub open spec fn nul_in_key_message(interface_name: Seq<char>, position: nat) -> Seq<char> {
    "Failed to create sysctlbyname key for interface '"@ + interface_name
        + "': nul byte found in provided data at position: "@ + decimal(position)
}

/// The UTF-8 encoding of a character holds a zero byte exactly when the character is NUL.
proof fn lemma_scalar_zero_byte(c: char)
    ensures
        (exists|j: int| 0 <= j < vstd::utf8::encode_scalar(c as u32).len()
            && #[trigger] vstd::utf8::encode_scalar(c as u32)[j] == 0) <==> c == '\0',
{
    let v = c as u32;
    vstd::utf8::char_is_scalar(c);
    let e = vstd::utf8::encode_scalar(v);
    if vstd::utf8::has_width_1_encoding(v) {
        assert(((v & 0x7Fu32) as u8 == 0) <==> v == 0) by (bit_vector)
            requires
                v <= 0x7F,
        ;
        if c == '\0' {
            assert(e[0] == 0);
        }
    } else {
        assert forall|j: int| 0 <= j < e.len() implies e[j] != 0 by {
            if vstd::utf8::has_width_2_encoding(v) {
                assert((0xC0u8 | ((v >> 6u32) & 0x1Fu32) as u8) != 0) by (bit_vector);
                assert((0x80u8 | (v & 0x3Fu32) as u8) != 0) by (bit_vector);
            } else if vstd::utf8::has_width_3_encoding(v) {
                assert((0xE0u8 | ((v >> 12u32) & 0x0Fu32) as u8) != 0) by (bit_vector);
                assert((0x80u8 | ((v >> 6u32) & 0x3Fu32) as u8) != 0) by (bit_vector);
                assert((0x80u8 | (v & 0x3Fu32) as u8) != 0) by (bit_vector);
            } else {
                assert((0xF0u8 | ((v >> 18u32) & 0x7u32) as u8) != 0) by (bit_vector);
                assert((0x80u8 | ((v >> 12u32) & 0x3Fu32) as u8) != 0) by (bit_vector);
                assert((0x80u8 | ((v >> 6u32) & 0x3Fu32) as u8) != 0) by (bit_vector);
                assert((0x80u8 | (v & 0x3Fu32) as u8) != 0) by (bit_vector);
            }
        }
        assert(v != 0);
    }
}

/// The UTF-8 encoding of a text holds no zero byte exactly when the text holds no NUL.
proof fn lemma_text_zero_byte(t: Seq<char>)
    ensures
        first_nul(vstd::utf8::encode_utf8(t)) == vstd::utf8::encode_utf8(t).len() <==> !t.contains('\0'),
    decreases t.len(),
{
    let e = vstd::utf8::encode_utf8(t);
    if t.len() == 0 {
        assert(e.len() == 0);
        lemma_first_nul(e, 0);
    } else {
        let rest = t.drop_first();
        let es = vstd::utf8::encode_scalar(t[0] as u32);
        let er = vstd::utf8::encode_utf8(rest);
        lemma_text_zero_byte(rest);
        lemma_scalar_zero_byte(t[0]);
        assert(e == es + er);
        assert(t.contains('\0') <==> (t[0] == '\0' || rest.contains('\0'))) by {
            if rest.contains('\0') {
                let k = choose|k: int| 0 <= k < rest.len() && rest[k] == '\0';
                assert(t[k + 1] == '\0');
            }
            if t.contains('\0') && t[0] != '\0' {
                let k = choose|k: int| 0 <= k < t.len() && t[k] == '\0';
                assert(rest[k - 1] == '\0');
            }
        }
        lemma_first_nul_all(e);
        lemma_first_nul_all(er);
        if t.contains('\0') {
            if t[0] == '\0' {
                let j = choose|j: int| 0 <= j < es.len() && es[j] == 0;
                assert(e[j] == 0);
            } else {
                let j = choose|j: int| 0 <= j < er.len() && er[j] == 0;
                assert(e[es.len() + j] == 0);
            }
        } else {
            assert forall|j: int| 0 <= j < e.len() implies e[j] != 0 by {
                if j < es.len() {
                    assert(e[j] == es[j]);
                } else {
                    assert(e[j] == er[j - es.len()]);
                }
            }
        }
    }
}

/// A byte sequence has its first zero byte at its end exactly when it has no zero byte.
proof fn lemma_first_nul_all(bytes: Seq<u8>)
    ensures
        first_nul(bytes) == bytes.len() <==> forall|j: int| 0 <= j < bytes.len() ==> bytes[j] != 0,
        0 <= first_nul(bytes) <= bytes.len(),
        first_nul(bytes) < bytes.len() ==> bytes[first_nul(bytes)] == 0,
    decreases bytes.len(),
{
    if bytes.len() > 0 && bytes[0] != 0 {
        let rest = bytes.drop_first();
        lemma_first_nul_all(rest);
        if forall|j: int| 0 <= j < rest.len() ==> rest[j] != 0 {
            assert forall|j: int| 0 <= j < bytes.len() implies bytes[j] != 0 by {
                if j > 0 {
                    assert(bytes[j] == rest[j - 1]);
                }
            }
        } else {
            let j = choose|j: int| 0 <= j < rest.len() && rest[j] == 0;
            assert(bytes[j + 1] == 0);
        }
    }
}

/// Checks an interface name and builds the sysctl name of its statistics.
///
/// An empty name is refused with a network error; so is a name that holds a NUL
/// character, which a C string cannot carry, with the byte position of the NUL in the
/// sysctl name.
pub fn network_stats_key(interface_name: &str) -> (r: Result<String, Error>)
    ensures
        r is Ok <==> (interface_name@.len() > 0 && !interface_name@.contains('\0')),
        r matches Ok(k) ==> k@ == interface_stats_key(interface_name@),
        interface_name@.len() == 0 ==> (r matches Err(Error::Network { operation, message })
            && operation@ == "get_stats"@ && message@
            == "Failed to get interface data: interface name cannot be empty"@),
        interface_name@.len() > 0 && interface_name@.contains('\0') ==> (r matches Err(
            Error::Network { operation, message },
        ) && operation@ == "sysctlbyname"@ && message@ == nul_in_key_message(
            interface_name@,
            first_nul(vstd::utf8::encode_utf8(interface_stats_key(interface_name@))) as nat,
        )),
{
    if interface_name.is_empty() {
        return Err(
            Error::network_error(
                "get_stats",
                "Failed to get interface data: interface name cannot be empty",
            ),
        );
    }
    let mut key = String::new();
    key.append("net.link.generic.system.ifdata.");
    key.append(interface_name);
    let bytes = key.as_str().as_bytes();
    let pos = first_nul_index(bytes);
    proof {
        lemma_text_zero_byte(key@);
        lemma_first_nul_all(bytes@);
        assert(key@ == interface_stats_key(interface_name@));
        assert(key@.contains('\0') <==> interface_name@.contains('\0')) by {
            let p = "net.link.generic.system.ifdata."@;
            reveal_strlit("net.link.generic.system.ifdata.");
            assert(key@ == p + interface_name@);
            if interface_name@.contains('\0') {
                let k = choose|k: int| 0 <= k < interface_name@.len() && interface_name@[k] == '\0';
                assert(key@[p.len() + k] == '\0');
            }
            if key@.contains('\0') {
                let k = choose|k: int| 0 <= k < key@.len() && key@[k] == '\0';
                if k < p.len() {
                    assert(p[k] != '\0');
                } else {
                    assert(interface_name@[k - p.len()] == '\0');
                }
            }
        }
    }
    if pos < bytes.len() {
        let mut m = String::new();
        m.append("Failed to create sysctlbyname key for interface '");
        m.append(interface_name);
        m.append("': nul byte found in provided data at position: ");
        append_decimal(&mut m, pos as u64);
        return Err(Error::Network { operation: "sysctlbyname".to_owned(), message: m });
    }
    Ok(key)
}

} // verus!
