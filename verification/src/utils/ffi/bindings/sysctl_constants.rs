//! Constants for sysctl queries.

use vstd::prelude::*;

verus! {

/// Kernel-related sysctl category.
pub const CTL_KERN: i32 = 1;
/// Hardware-related sysctl category.
pub const CTL_HW: i32 = 6;
/// Virtual memory sysctl category.
pub const CTL_VM: i32 = 2;
/// Kernel process information.
pub const KERN_PROC: i32 = 14;
/// System hostname.
pub const KERN_HOSTNAME: i32 = 10;
/// All processes.
pub const KERN_PROC_ALL: i32 = 0;
/// Process by PID.
pub const KERN_PROC_PID: i32 = 1;
/// Process by process group.
pub const KERN_PROC_PGRP: i32 = 2;
/// Process by TTY.
pub const KERN_PROC_TTY: i32 = 3;
/// Process by UID.
pub const KERN_PROC_UID: i32 = 4;
/// Process by RUID.
pub const KERN_PROC_RUID: i32 = 5;
/// Machine hardware type.
pub const HW_MACHINE: i32 = 1;
/// Physical memory size.
pub const HW_MEMSIZE: i32 = 24;
/// Number of CPUs.
pub const HW_NCPU: i32 = 3;
/// Number of logical CPUs.
pub const HW_LOGICALCPU: i32 = 103;
/// Number of physical CPUs.
pub const HW_PHYSICALCPU: i32 = 104;
/// System boot time.
pub const KERN_BOOTTIME: i32 = 21;
/// OS release.
pub const KERN_OSRELEASE: i32 = 2;
/// OS version.
pub const KERN_OSVERSION: i32 = 65;
/// Swap usage information.
pub const VM_SWAPUSAGE: i32 = 5;

} // verus!
