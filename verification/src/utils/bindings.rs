//! The system data layouts and helpers, under their older path.

pub use crate::utils::ffi::bindings::{
    address_family, extern_proc, extract_proc_name, if_data, if_data64, if_flags, in6_addr,
    in_addr, io_return, io_service_keys, is_power_key, is_system_process, kinfo_proc,
    network_stats_key,
    proc_info, process_state, reachability_flags, smc_key_from_chars, sockaddr_in6,
    sysctl_constants, timeval, vm_statistics64, xsw_usage, IOByteCount, IOOptionBits,
    SMCKeyData_keyInfo_t, SMCKeyData_pLimitData_t, SMCKeyData_vers_t, SMCPLimitData, SMCVersion,
    SmcKey, SmcVal, HOST_VM_INFO64, HOST_VM_INFO64_COUNT, IO_RETURN_SUCCESS, KERNEL_INDEX_SMC,
    KERN_SUCCESS, SMC_CMD_READ_BYTES, SMC_CMD_READ_INDEX, SMC_CMD_READ_KEY, SMC_CMD_READ_KEYINFO,
    SMC_KEY_AMBIENT_TEMP, SMC_KEY_BATTERY_TEMP, SMC_KEY_CPU_POWER, SMC_KEY_CPU_TEMP,
    SMC_KEY_CPU_THROTTLE, SMC_KEY_DRAM_POWER, SMC_KEY_FAN0_MAX, SMC_KEY_FAN0_MIN,
    SMC_KEY_FAN1_SPEED, SMC_KEY_FAN_NUM, SMC_KEY_FAN_SPEED, SMC_KEY_GPU_POWER, SMC_KEY_GPU_TEMP,
    SMC_KEY_HEATSINK_TEMP, SMC_KEY_NEURAL_POWER, SMC_KEY_PACKAGE_POWER,
};
