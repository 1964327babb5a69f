use darwin_metrics::error::Error;
use darwin_metrics::process::{
    check_start_time, child_pids, get_error_message, has_parent_lookup, list_processes,
    parent_from_record, process_usage, sibling_pids, tree_walk_start, tree_walk_step,
    validate_start_time, CpuHistoryTracker, ProcessError, ProcessIOStats, ProcessMetricsStream,
    StartTimeCheck, TaskReading, TreeWalk, update_due,
};
use darwin_metrics::utils::bindings::{extern_proc, kinfo_proc, proc_info, timeval};
use std::time::Duration;

#[test]
fn test_process_io_stats_sync() {
    let stats = ProcessIOStats::default();
    assert_eq!(stats.read_bytes, 0);
    assert_eq!(stats.write_bytes, 0);
    assert_eq!(stats.read_count, 0);
    assert_eq!(stats.write_count, 0);
}

#[test]
fn io_stats_estimate_operations_by_block() {
    let stats = ProcessIOStats::from_disk_bytes(10000, 4096);
    assert_eq!(stats.read_bytes, 10000);
    assert_eq!(stats.write_bytes, 4096);
    assert_eq!(stats.read_count, 2);
    assert_eq!(stats.write_count, 1);
}

#[test]
fn test_special_parent_pid_cases() {
    assert!(!has_parent_lookup(0));
    assert!(!has_parent_lookup(1));
    assert!(has_parent_lookup(2));
    assert_eq!(parent_from_record(0), None);
    assert_eq!(parent_from_record(77), Some(77));
}

#[test]
fn process_error_texts() {
    let e = ProcessError::AccessDenied { pid: Some(5), message: "no".to_string() };
    assert_eq!(e.to_string(), "Access denied for process 5: no");
    let e = ProcessError::AccessDenied { pid: None, message: "no".to_string() };
    assert_eq!(e.to_string(), "Access denied for process: no");
    assert_eq!(ProcessError::NotFound { pid: 9 }.to_string(), "Process not found: PID 9");
    let e = ProcessError::InvalidData {
        pid: Some(3),
        field: "start_time".to_string(),
        message: "bad".to_string(),
    };
    assert_eq!(e.to_string(), "Invalid start_time for process 3: bad");
    let e = ProcessError::SystemCall { pid: None, call: "sysctl".to_string(), code: -1 };
    assert_eq!(e.to_string(), "System call 'sysctl' failed for process with code -1");
    let e = ProcessError::General { pid: Some(4), message: "x".to_string() };
    assert_eq!(e.to_string(), "Process error (PID 4): x");
}

#[test]
fn process_errors_become_crate_errors() {
    let e: Error = ProcessError::NotFound { pid: 9 }.into();
    assert!(matches!(e, Error::Process { pid: Some(9), ref message } if message == "Process not found: 9"));
    let e: Error = ProcessError::SystemCall { pid: None, call: "x".to_string(), code: 2 }.into();
    assert!(matches!(e, Error::Process { pid: None, ref message } if message == "System call failed with code 2"));
}

#[test]
fn start_times_are_checked() {
    assert_eq!(check_start_time(0, 1_700_000_000, 0), StartTimeCheck::NotPositive);
    assert_eq!(check_start_time(1_700_000_001, 1_700_000_000, 0), StartTimeCheck::InFuture);
    assert_eq!(check_start_time(1_700_000_000, 1_700_000_000, 0), StartTimeCheck::InFuture);
    assert_eq!(check_start_time(1_699_999_999, 1_700_000_000, 0), StartTimeCheck::Valid);
    assert_eq!(check_start_time(1, 1_700_000_000, 0), StartTimeCheck::TooOld);
    assert!(validate_start_time(7, 1_699_999_000, 1_700_000_000, 0).is_ok());
    assert_eq!(validate_start_time(7, 1_699_999_000, 1_700_000_000, 0).unwrap(), 1_699_999_000);
    match validate_start_time(7, -5, 1_700_000_000, 0) {
        Err(ProcessError::InvalidData { pid: Some(7), field, message }) => {
            assert_eq!(field, "start_time");
            assert_eq!(message, "Invalid process start time");
        },
        _ => panic!("a negative start time was accepted"),
    }
}

#[test]
fn children_and_siblings_are_selected() {
    let candidates = vec![(10, Some(1)), (11, Some(2)), (12, None), (13, Some(1))];
    assert_eq!(child_pids(1, &candidates), vec![10, 13]);
    assert_eq!(sibling_pids(10, &vec![10, 13, 14]), vec![13, 14]);
}

fn record(pid: i32, name: &[u8]) -> kinfo_proc {
    let mut r = kinfo_proc {
        kp_proc: proc_info { p_flag: 0, p_pid: pid, p_ppid: 1, p_stat: 0 },
        kp_eproc: extern_proc { p_starttime: timeval { tv_sec: 0, tv_usec: 0 }, p_comm: [0; 16] },
    };
    r.kp_eproc.p_comm[..name.len()].copy_from_slice(name);
    r
}

#[test]
fn process_table_skips_records_without_pid() {
    let table = vec![record(0, b"kernel_task"), record(1, b"launchd"), record(-3, b"x"), record(88, b"zsh")];
    let listed = list_processes(&table);
    assert_eq!(listed.len(), 2);
    assert_eq!((listed[0].pid, listed[0].name.as_str()), (1, "launchd"));
    assert_eq!((listed[1].pid, listed[1].name.as_str()), (88, "zsh"));
}

#[test]
fn usage_from_task_information() {
    let u = process_usage(TaskReading { resident_size: 4096, total_user: 10, total_system: 5, thread_num: 3 });
    assert_eq!((u.memory_usage, u.total_cpu_time, u.thread_count), (4096, 15, 3));
}

#[test]
fn error_messages_for_failed_calls() {
    assert_eq!(get_error_message(0), Some("Process info error: 0".to_string()));
    assert_eq!(get_error_message(-3), Some("Process info error: -3".to_string()));
    assert_eq!(get_error_message(1), None);
}

#[test]
fn tree_walk_counts_ancestors() {
    assert_eq!(tree_walk_start(500), TreeWalk::Ask { depth: 0, pid: 500 });
    assert_eq!(tree_walk_step(0, Ok(Some(400))), TreeWalk::Ask { depth: 1, pid: 400 });
    assert_eq!(tree_walk_step(1, Ok(Some(1))), TreeWalk::Done(2));
    assert_eq!(tree_walk_step(3, Ok(None)), TreeWalk::Done(3));
    assert_eq!(tree_walk_step(3, Err(Error::system("gone"))), TreeWalk::Done(3));
}

#[test]
fn metrics_stream_holds_its_settings() {
    let mut stream = ProcessMetricsStream::new(42, Duration::from_secs(3600));
    assert_eq!(stream.pid(), 42);
    assert_eq!(stream.update_interval(), Duration::from_secs(3600));
    assert!(!stream.begin_update());
    stream.set_update_interval(Duration::from_secs(0));
    assert_eq!(stream.update_interval(), Duration::from_secs(0));
    assert!(stream.begin_update());
}

#[test]
fn metrics_stream_fires_once_the_interval_has_passed() {
    let mut stream = ProcessMetricsStream::new(7, Duration::from_millis(5));
    assert!(!stream.begin_update_at(4_999_999));
    assert!(stream.begin_update_at(5_000_000));
    assert!(!stream.begin_update_at(9_000_000));
    assert!(stream.begin_update_at(10_000_000));
    assert!(!stream.begin_update_at(1));
    assert!(update_due(10, 25, 15));
    assert!(!update_due(10, 24, 15));
    assert!(!update_due(30, 20, 1));
    assert!(update_due(30, 20, 0));
}

#[test]
fn cpu_history_records_and_replaces() {
    let mut h = CpuHistoryTracker::new(10, 3600);
    assert!(h.get(7).is_none());
    assert!(!h.update(7, 100));
    assert_eq!(h.get(7).map(|e| e.1), Some(100));
    assert!(!h.update(7, 250));
    assert_eq!(h.get(7).map(|e| e.1), Some(250));
    assert_eq!(h.tracked_pids(), vec![7]);
}

#[test]
fn cpu_history_asks_for_cleanup_past_the_limit() {
    let mut h = CpuHistoryTracker::new(1, 3600);
    assert!(!h.update(1, 10));
    assert!(h.update(2, 20));
}

#[test]
fn cpu_history_cleanup_drops_gone_processes_only() {
    let mut h = CpuHistoryTracker::new(10, 3600);
    h.update(1, 10);
    h.update(2, 20);
    h.update(3, 30);
    h.cleanup(&vec![2, 9]);
    let mut pids = h.tracked_pids();
    pids.sort();
    assert_eq!(pids, vec![1, 3]);
    assert_eq!(h.get(1).map(|e| e.1), Some(10));
    assert!(h.get(2).is_none());
}

#[test]
fn test_is_system_process_sync() {
    assert!(darwin_metrics::utils::bindings::is_system_process(1, "launchd"));
    assert!(!darwin_metrics::utils::bindings::is_system_process(1000, "user_process"));
}
