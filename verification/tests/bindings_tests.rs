use darwin_metrics::error::Error;
use darwin_metrics::utils::bindings::{
    address_family, extern_proc, extract_proc_name, if_data64, if_flags, is_system_process,
    kinfo_proc, network_stats_key, proc_info, process_state, reachability_flags,
    smc_key_from_chars, timeval, SmcKey, SMC_KEY_AMBIENT_TEMP, SMC_KEY_BATTERY_TEMP,
    is_power_key, SMC_KEY_CPU_POWER, SMC_KEY_CPU_TEMP, SMC_KEY_CPU_THROTTLE, SMC_KEY_FAN_NUM,
    SMC_KEY_GPU_POWER, SMC_KEY_GPU_TEMP,
};
use std::collections::HashSet;


fn record_with_name(bytes: &[u8]) -> kinfo_proc {
    let mut proc_info = kinfo_proc {
        kp_proc: proc_info { p_flag: 0, p_pid: 123, p_ppid: 1, p_stat: 0 },
        kp_eproc: extern_proc { p_starttime: timeval { tv_sec: 0, tv_usec: 0 }, p_comm: [0; 16] },
    };
    for (i, &byte) in bytes.iter().enumerate() {
        if i < proc_info.kp_eproc.p_comm.len() {
            proc_info.kp_eproc.p_comm[i] = byte;
        }
    }
    proc_info
}

#[test]
fn lib_test_smc_key_from_chars() {
    let key = SmcKey::from_chars(['T', 'A', '0', 'P']);
    assert_eq!(key.to_string(), "TA0P");
}

#[test]
fn bindings_tests_test_smc_key_from_chars() {
    let key = [b'T' as i8, b'C' as i8, b'0' as i8, b'P' as i8];
    let result = smc_key_from_chars(key);

    let expected = (b'T' as u32) << 24 | (b'C' as u32) << 16 | (b'0' as u32) << 8 | (b'P' as u32);

    assert_eq!(result, expected);
}

#[test]
fn test_smc_key_from_chars_predefined_keys() {
    let cpu_temp_key = smc_key_from_chars(SMC_KEY_CPU_TEMP);
    let gpu_temp_key = smc_key_from_chars(SMC_KEY_GPU_TEMP);
    let fan_num_key = smc_key_from_chars(SMC_KEY_FAN_NUM);
    let ambient_temp_key = smc_key_from_chars(SMC_KEY_AMBIENT_TEMP);
    let battery_temp_key = smc_key_from_chars(SMC_KEY_BATTERY_TEMP);
    let cpu_power_key = smc_key_from_chars(SMC_KEY_CPU_POWER);
    let cpu_throttle_key = smc_key_from_chars(SMC_KEY_CPU_THROTTLE);

    let keys = [
        cpu_temp_key,
        gpu_temp_key,
        fan_num_key,
        ambient_temp_key,
        battery_temp_key,
        cpu_power_key,
        cpu_throttle_key,
    ];

    let unique_keys: HashSet<_> = keys.iter().collect();
    assert_eq!(keys.len(), unique_keys.len());
}

#[test]
fn test_smc_key_from_chars_zero() {
    let key = [0 as i8, 0 as i8, 0 as i8, 0 as i8];
    let result = smc_key_from_chars(key);
    assert_eq!(result, 0);
}

#[test]
fn smc_key_of_cpu_temperature() {
    assert_eq!(smc_key_from_chars(SMC_KEY_CPU_TEMP), 0x5443_3050);
}

#[test]
fn smc_key_text_round_trip() {
    let key = SmcKey::from_str("TC0P").unwrap();
    assert_eq!(key.to_string(), "TC0P");
    assert_eq!(key.to_chars(), SMC_KEY_CPU_TEMP);
    match SmcKey::from_str("TC0") {
        Err(m) => assert_eq!(m, "SMC key must be exactly 4 characters, got 3"),
        Ok(_) => panic!("a key of three characters was accepted"),
    }
    assert!(SmcKey::from_str("TC0PX").is_err());
}

#[test]
fn smc_key_counts_characters_not_bytes() {
    let key = SmcKey::from_str("\u{c4}BCD").unwrap();
    assert_eq!(key.key, [0xc4, b'B', b'C', b'D']);
    assert_eq!(key.key, SmcKey::from_chars(['\u{c4}', 'B', 'C', 'D']).key);
    match SmcKey::from_str("a\u{e9}b") {
        Err(m) => assert_eq!(m, "SMC key must be exactly 4 characters, got 3"),
        Ok(_) => panic!("a key of three characters was accepted"),
    }
}

#[test]
fn ascii_key_reads_back_as_its_characters() {
    for chars in [['F', '0', 'A', 'c'], ['P', 'S', 'T', 'R'], [' ', '~', '#', '9']] {
        let text: String = chars.iter().collect();
        assert_eq!(SmcKey::from_chars(chars).to_string(), text);
    }
}

#[test]
fn test_extract_proc_name() {
    let proc_info = record_with_name(b"test_process\0");
    let extracted_name = extract_proc_name(&proc_info);
    assert_eq!(extracted_name, "test_process");
}

#[test]
fn test_extract_proc_name_no_null_terminator() {
    let proc_info = record_with_name(b"sixteencharname");
    let extracted_name = extract_proc_name(&proc_info);
    assert_eq!(extracted_name, "sixteencharname");
}

#[test]
fn test_extract_proc_name_empty() {
    let proc_info = record_with_name(b"");
    let extracted_name = extract_proc_name(&proc_info);
    assert_eq!(extracted_name, "");
}

#[test]
fn test_extract_proc_name_non_ascii() {
    let proc_info = record_with_name(b"caf\xC3\xA9\0");
    let extracted_name = extract_proc_name(&proc_info);
    assert_eq!(extracted_name, "café");
}

#[test]
fn extract_proc_name_replaces_invalid_bytes() {
    let proc_info = record_with_name(b"ab\xFFcd\0");
    assert_eq!(extract_proc_name(&proc_info), "ab\u{FFFD}cd");
}

#[test]
fn extract_proc_name_of_all_sixteen_bytes() {
    let proc_info = record_with_name(b"abcdefghijklmnop");
    assert_eq!(extract_proc_name(&proc_info), "abcdefghijklmnop");
}

#[test]
fn bindings_tests_test_is_system_process() {
    assert!(is_system_process(1, "launchd"));
    assert!(is_system_process(999, "random_system_process"));
    assert!(is_system_process(1234, "com.apple.service"));
    assert!(is_system_process(5000, "kernel_task"));
    assert!(is_system_process(5000, "WindowServer"));

    assert!(!is_system_process(1000, "user_app"));
    assert!(!is_system_process(1234, "firefox"));
    assert!(!is_system_process(5000, "chrome"));
}

#[test]
fn test_is_system_process_edge_cases() {
    assert!(is_system_process(0, "init"));
    assert!(is_system_process(1, "non_system_name"));
    assert!(!is_system_process(1000, ""));
    assert!(is_system_process(999, ""));

    assert!(is_system_process(5000, "systemstats"));
    assert!(is_system_process(5000, "logd"));
    assert!(is_system_process(5000, "syslogd"));
}

#[test]
fn is_system_process_needs_the_whole_prefix() {
    assert!(!is_system_process(5000, "com.apple"));
    assert!(is_system_process(5000, "com.apple."));
    assert!(!is_system_process(5000, "launchd2"));
}

#[test]
fn test_if_data64_initialization() {
    let data = if_data64::default();

    assert_eq!(data.ifi_ibytes, 0);
    assert_eq!(data.ifi_obytes, 0);
    assert_eq!(data.ifi_ipackets, 0);
    assert_eq!(data.ifi_opackets, 0);
    assert_eq!(data.ifi_baudrate, 0);

    let mut data = if_data64 {
        ifi_typelen: 0,
        ifi_type: 0,
        ifi_physical: 0,
        ifi_addrlen: 0,
        ifi_hdrlen: 0,
        ifi_recvquota: 0,
        ifi_xmitquota: 0,
        ifi_unused1: 0,
        ifi_mtu: 0,
        ifi_metric: 0,
        ifi_baudrate: 0,
        ifi_ipackets: 0,
        ifi_ierrors: 0,
        ifi_opackets: 0,
        ifi_oerrors: 0,
        ifi_collisions: 0,
        ifi_ibytes: 0,
        ifi_obytes: 0,
        ifi_imcasts: 0,
        ifi_omcasts: 0,
        ifi_iqdrops: 0,
        ifi_noproto: 0,
        ifi_recvtiming: 0,
        ifi_xmittiming: 0,
        ifi_lastchange: timeval { tv_sec: 0, tv_usec: 0 },
    };

    data.ifi_ibytes += 1000;
    data.ifi_obytes += 500;

    assert_eq!(data.ifi_ibytes, 1000);
    assert_eq!(data.ifi_obytes, 500);
}

#[test]
fn network_stats_key_cases() {
    assert_eq!(network_stats_key("en0").unwrap(), "net.link.generic.system.ifdata.en0");
    match network_stats_key("") {
        Err(Error::Network { operation, message }) => {
            assert_eq!(operation, "get_stats");
            assert_eq!(message, "Failed to get interface data: interface name cannot be empty");
        },
        _ => panic!("an empty interface name was accepted"),
    }
    match network_stats_key("invalid\0interface") {
        Err(Error::Network { operation, message }) => {
            assert_eq!(operation, "sysctlbyname");
            assert!(message.contains("Failed to create sysctlbyname key"));
            assert_eq!(
                message,
                "Failed to create sysctlbyname key for interface 'invalid\0interface': \
                 nul byte found in provided data at position: 38"
            );
        },
        _ => panic!("a name holding NUL was accepted"),
    }
    match network_stats_key("\u{e9}\0x") {
        Err(Error::Network { message, .. }) => {
            assert!(message.ends_with("at position: 33"));
        },
        _ => panic!("a name holding NUL was accepted"),
    }
}

#[test]
fn test_address_family_constants() {
    assert_eq!(address_family::AF_UNSPEC, 0);
    assert_eq!(address_family::AF_INET, 2);
    assert_eq!(address_family::AF_INET6, 30);
    assert_eq!(address_family::AF_LINK, 18);
}

#[test]
fn test_if_flags_constants() {
    assert_eq!(if_flags::IFF_UP, 0x1);
    assert_eq!(if_flags::IFF_BROADCAST, 0x2);
    assert_eq!(if_flags::IFF_DEBUG, 0x4);
    assert_eq!(if_flags::IFF_LOOPBACK, 0x8);
    assert_eq!(if_flags::IFF_POINTOPOINT, 0x10);
    assert_eq!(if_flags::IFF_RUNNING, 0x40);
    assert_eq!(if_flags::IFF_NOARP, 0x80);
    assert_eq!(if_flags::IFF_PROMISC, 0x100);
    assert_eq!(if_flags::IFF_ALLMULTI, 0x200);
    assert_eq!(if_flags::IFF_MULTICAST, 0x8000);
}

#[test]
fn test_proc_state_constants() {
    assert_eq!(process_state::P_SIDL, 1);
    assert_eq!(process_state::P_SRUN, 2);
    assert_eq!(process_state::P_SSLEEP, 3);
    assert_eq!(process_state::P_SSTOP, 4);
    assert_eq!(process_state::P_SZOMB, 5);
}

#[test]
fn test_reachability_flags_constants() {
    assert_eq!(reachability_flags::K_SC_NETWORK_REACHABILITY_FLAGS_TRANSIENT_CONNECTION, 1 << 0);
    assert_eq!(reachability_flags::K_SC_NETWORK_REACHABILITY_FLAGS_REACHABLE, 1 << 1);
    assert_eq!(reachability_flags::K_SC_NETWORK_REACHABILITY_FLAGS_CONNECTION_REQUIRED, 1 << 2);
    assert_eq!(reachability_flags::K_SC_NETWORK_REACHABILITY_FLAGS_CONNECTION_ON_TRAFFIC, 1 << 3);
    assert_eq!(reachability_flags::K_SC_NETWORK_REACHABILITY_FLAGS_INTERVENTION_REQUIRED, 1 << 4);
    assert_eq!(reachability_flags::K_SC_NETWORK_REACHABILITY_FLAGS_CONNECTION_ON_DEMAND, 1 << 5);
    assert_eq!(reachability_flags::K_SC_NETWORK_REACHABILITY_FLAGS_IS_LOCAL_ADDRESS, 1 << 16);
    assert_eq!(reachability_flags::K_SC_NETWORK_REACHABILITY_FLAGS_IS_DIRECT, 1 << 17);
    assert_eq!(reachability_flags::K_SC_NETWORK_REACHABILITY_FLAGS_IS_WWAN, 1 << 18);
}

#[test]
fn power_keys_are_recognised() {
    assert!(is_power_key(SMC_KEY_CPU_POWER));
    assert!(is_power_key(SMC_KEY_GPU_POWER));
    assert!(!is_power_key([88, 88, 88, 88]));
    assert!(!is_power_key(SMC_KEY_CPU_TEMP));
}
