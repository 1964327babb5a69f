//! Process information: errors, I/O statistics, start-time checks and process
//! relationships.
//!
//! The data come from the process tables of the kernel, which the host application
//! reads; this module holds the rules applied to them.

pub mod history;

pub use history::CpuHistoryTracker;

use vstd::prelude::*;
use std::time::{Duration, Instant};
use crate::error::Error;
use crate::utils::clock::{
    duration_nanos, duration_ns, elapsed_between, elapsed_ns, instant_now, instant_since,
};
use crate::utils::text::{append_decimal, append_signed_decimal, decimal, signed_decimal, utf8_lossy};
use crate::utils::ffi::bindings::{extract_proc_name, kinfo_proc, nul_terminated};

verus! {

/// Errors specific to process operations.
#[derive(Debug, Clone)]
pub enum ProcessError {
    /// Access to the process information was denied.
    AccessDenied { pid: Option<u32>, message: String },
    /// The process was not found.
    NotFound { pid: u32 },
    /// The process data was invalid.
    InvalidData { pid: Option<u32>, field: String, message: String },
    /// A system call failed.
    SystemCall { pid: Option<u32>, call: String, code: i32 },
    /// Any other process error.
    General { pid: Option<u32>, message: String },
}

/// The text naming a process after the word "process": empty, or a space and the PID.
pub open spec fn pid_suffix(pid: Option<u32>) -> Seq<char> {
    match pid {
        Some(p) => " "@ + decimal(p as nat),
        None => Seq::empty(),
    }
}

/// The description of a process error.
pub open spec fn process_error_text(e: ProcessError) -> Seq<char> {
    match e {
        ProcessError::AccessDenied { pid, message } => "Access denied for process"@ + pid_suffix(
            pid,
        ) + ": "@ + message@,
        ProcessError::NotFound { pid } => "Process not found: PID "@ + decimal(pid as nat),
        ProcessError::InvalidData { pid, field, message } => "Invalid "@ + field@
            + " for process"@ + pid_suffix(pid) + ": "@ + message@,
        ProcessError::SystemCall { pid, call, code } => "System call '"@ + call@
            + "' failed for process"@ + pid_suffix(pid) + " with code "@ + signed_decimal(
            code as int,
        ),
        ProcessError::General { pid, message } => "Process error"@ + match pid {
            Some(p) => " (PID "@ + decimal(p as nat) + ")"@,
            None => Seq::empty(),
        } + ": "@ + message@,
    }
}

fn append_pid_suffix(s: &mut String, pid: Option<u32>)
    ensures
        final(s)@ == old(s)@ + pid_suffix(pid),
{
    match pid {
        Some(p) => {
            s.append(" ");
            append_decimal(s, p as u64);
            assert(final(s)@ =~= old(s)@ + pid_suffix(pid));
        },
        None => {
            assert(final(s)@ =~= old(s)@ + pid_suffix(pid));
        },
    }
}

/// The PID and message that a process error carries once it becomes an [`Error`].
pub open spec fn process_error_as_error(e: ProcessError, r: Error) -> bool {
    match e {
        ProcessError::AccessDenied { pid, message } => r matches Error::Process { pid: p, message: m }
            && p == pid && m@ == message@,
        ProcessError::NotFound { pid } => r matches Error::Process { pid: p, message: m } && p
            == Some(pid) && m@ == "Process not found: "@ + decimal(pid as nat),
        ProcessError::InvalidData { pid, message, .. } => r matches Error::Process {
            pid: p,
            message: m,
        } && p == pid && m@ == message@,
        ProcessError::SystemCall { pid, code, .. } => r matches Error::Process {
            pid: p,
            message: m,
        } && p == pid && m@ == "System call failed with code "@ + signed_decimal(code as int),
        ProcessError::General { pid, message } => r matches Error::Process { pid: p, message: m }
            && p == pid && m@ == message@,
    }
}

impl ProcessError {
    /// The description of the error.
    pub fn to_string(&self) -> (r: String)
        ensures
            r@ == process_error_text(*self),
    {
        let mut s = String::new();
        match self {
            ProcessError::AccessDenied { pid, message } => {
                s.append("Access denied for process");
                append_pid_suffix(&mut s, *pid);
                s.append(": ");
                s.append(message.as_str());
            },
            ProcessError::NotFound { pid } => {
                s.append("Process not found: PID ");
                append_decimal(&mut s, *pid as u64);
            },
            ProcessError::InvalidData { pid, field, message } => {
                s.append("Invalid ");
                s.append(field.as_str());
                s.append(" for process");
                append_pid_suffix(&mut s, *pid);
                s.append(": ");
                s.append(message.as_str());
            },
            ProcessError::SystemCall { pid, call, code } => {
                s.append("System call '");
                s.append(call.as_str());
                s.append("' failed for process");
                append_pid_suffix(&mut s, *pid);
                s.append(" with code ");
                append_signed_decimal(&mut s, *code as i64);
            },
            ProcessError::General { pid, message } => {
                s.append("Process error");
                match pid {
                    Some(p) => {
                        s.append(" (PID ");
                        append_decimal(&mut s, *p as u64);
                        s.append(")");
                    },
                    None => {},
                }
                s.append(": ");
                s.append(message.as_str());
            },
        }
        s
    }

    /// The crate error that this process error becomes.
    pub fn into_error(self) -> (r: Error)
        ensures
            process_error_as_error(self, r),
    {
        match self {
            ProcessError::AccessDenied { pid, message } => Error::process_error(pid, message),
            ProcessError::NotFound { pid } => {
                let mut m = String::new();
                m.append("Process not found: ");
                append_decimal(&mut m, pid as u64);
                Error::process_error(Some(pid), m)
            },
            ProcessError::InvalidData { pid, field: _, message } => Error::process_error(
                pid,
                message,
            ),
            ProcessError::SystemCall { pid, call: _, code } => {
                let mut m = String::new();
                m.append("System call failed with code ");
                append_signed_decimal(&mut m, code as i64);
                Error::process_error(pid, m)
            },
            ProcessError::General { pid, message } => Error::process_error(pid, message),
        }
    }
}

impl From<ProcessError> for Error {
    fn from(err: ProcessError) -> (r: Error)
        ensures
            process_error_as_error(err, r),
    {
        err.into_error()
    }
}

impl vstd::std_specs::convert::FromSpecImpl<ProcessError> for Error {
    open spec fn obeys_from_spec() -> bool {
        false
    }

    open spec fn from_spec(err: ProcessError) -> Error {
        vstd::pervasive::arbitrary()
    }
}

/// Turns a process error into the failure of a `Result`.
pub fn process_error<T>(error: ProcessError) -> (r: Result<T, Error>)
    ensures
        r matches Err(e) && process_error_as_error(error, e),
{
    Err(error.into_error())
}

/// Collects process information.
pub trait ProcessInfo {
    /// Collects process information as bytes.
    fn collect(&self) -> Result<Vec<u8>, Error>;
}

/// I/O statistics of a process.
#[derive(Debug, Clone, Copy)]
pub struct ProcessIOStats {
    /// Bytes read from disk.
    pub read_bytes: u64,
    /// Bytes written to disk.
    pub write_bytes: u64,
    /// Read operations performed.
    pub read_count: u64,
    /// Write operations performed.
    pub write_count: u64,
}

impl Default for ProcessIOStats {
    fn default() -> (r: Self)
        ensures
            r.read_bytes == 0 && r.write_bytes == 0 && r.read_count == 0 && r.write_count == 0,
    {
        ProcessIOStats { read_bytes: 0, write_bytes: 0, read_count: 0, write_count: 0 }
    }
}

/// The block size by which operation counts are estimated from byte counts.
pub const IO_BLOCK_SIZE: u64 = 4096;

impl ProcessIOStats {
    /// The statistics derived from a process's disk byte counters: the operation
    /// counts are estimated in blocks of 4 KiB.
    pub fn from_disk_bytes(read_bytes: u64, write_bytes: u64) -> (r: Self)
        ensures
            r.read_bytes == read_bytes,
            r.write_bytes == write_bytes,
            r.read_count == read_bytes / IO_BLOCK_SIZE,
            r.write_count == write_bytes / IO_BLOCK_SIZE,
    {
        ProcessIOStats {
            read_bytes,
            write_bytes,
            read_count: read_bytes / IO_BLOCK_SIZE,
            write_count: write_bytes / IO_BLOCK_SIZE,
        }
    }
}

/// The oldest age, in seconds, that a process start time may have: fifty years of
/// 365 days.
pub const MAX_PROCESS_AGE_SECS: u64 = 1576800000;

/// How a process start time, in whole seconds since the Unix epoch, is judged against
/// the current time `now_secs` plus `now_nanos`.
#[derive(Debug, Clone, Copy, PartialEq, Eq, Structural)]
pub enum StartTimeCheck {
    /// The start time is acceptable.
    Valid,
    /// The start time is not positive.
    NotPositive,
    /// The start time is not before now.
    InFuture,
    /// The process would be more than fifty years old.
    TooOld,
}

/// Whether a start time of `start_secs` is at or after the instant `now_secs + now_nanos`.
pub open spec fn start_not_before_now(start_secs: int, now_secs: int, now_nanos: int) -> bool {
    start_secs > now_secs || (start_secs == now_secs && now_nanos == 0)
}

/// Whether the age of a process started at `start_secs` exceeds fifty years at
/// `now_secs + now_nanos`.
pub open spec fn age_exceeds_limit(start_secs: int, now_secs: int, now_nanos: int) -> bool {
    now_secs - start_secs > MAX_PROCESS_AGE_SECS || (now_secs - start_secs
        == MAX_PROCESS_AGE_SECS && now_nanos > 0)
}

/// The judgement of a start time.
pub open spec fn spec_check_start_time(start_secs: int, now_secs: int, now_nanos: int) -> StartTimeCheck {
    if start_secs <= 0 {
        StartTimeCheck::NotPositive
    } else if start_not_before_now(start_secs, now_secs, now_nanos) {
        StartTimeCheck::InFuture
    } else if age_exceeds_limit(start_secs, now_secs, now_nanos) {
        StartTimeCheck::TooOld
    } else {
        StartTimeCheck::Valid
    }
}

/// Judges a process start time against the current time.
pub fn check_start_time(start_secs: i64, now_secs: u64, now_nanos: u32) -> (r: StartTimeCheck)
    requires
        now_nanos < 1_000_000_000,
    ensures
        r == spec_check_start_time(start_secs as int, now_secs as int, now_nanos as int),
{
    if start_secs <= 0 {
        return StartTimeCheck::NotPositive;
    }
    let start = start_secs as u64;
    if start > now_secs || (start == now_secs && now_nanos == 0) {
        return StartTimeCheck::InFuture;
    }
    let age = now_secs - start;
    if age > MAX_PROCESS_AGE_SECS || (age == MAX_PROCESS_AGE_SECS && now_nanos > 0) {
        return StartTimeCheck::TooOld;
    }
    StartTimeCheck::Valid
}

/// Validates a process start time and reports a rejected one as the error that the
/// process queries give.
pub fn validate_start_time(pid: u32, start_secs: i64, now_secs: u64, now_nanos: u32) -> (r: Result<
    u64,
    ProcessError,
>)
    requires
        now_nanos < 1_000_000_000,
    ensures
        match spec_check_start_time(start_secs as int, now_secs as int, now_nanos as int) {
            StartTimeCheck::Valid => r == Ok::<u64, ProcessError>(start_secs as u64),
            StartTimeCheck::NotPositive => r matches Err(
                ProcessError::InvalidData { pid: p, field, message },
            ) && p == Some(pid) && field@ == "start_time"@ && message@
                == "Invalid process start time"@,
            StartTimeCheck::InFuture => r matches Err(
                ProcessError::InvalidData { pid: p, field, message },
            ) && p == Some(pid) && field@ == "start_time"@ && message@
                == "Process start time is in the future"@,
            StartTimeCheck::TooOld => r matches Err(
                ProcessError::InvalidData { pid: p, field, message },
            ) && p == Some(pid) && field@ == "start_time"@ && message@
                == "Process is unrealistically old"@,
        },
{
    match check_start_time(start_secs, now_secs, now_nanos) {
        StartTimeCheck::Valid => Ok(start_secs as u64),
        StartTimeCheck::NotPositive => Err(
            ProcessError::InvalidData {
                pid: Some(pid),
                field: "start_time".to_owned(),
                message: "Invalid process start time".to_owned(),
            },
        ),
        StartTimeCheck::InFuture => Err(
            ProcessError::InvalidData {
                pid: Some(pid),
                field: "start_time".to_owned(),
                message: "Process start time is in the future".to_owned(),
            },
        ),
        StartTimeCheck::TooOld => Err(
            ProcessError::InvalidData {
                pid: Some(pid),
                field: "start_time".to_owned(),
                message: "Process is unrealistically old".to_owned(),
            },
        ),
    }
}

/// Whether the parent of a process has to be looked up: PIDs 0 and 1 have none.
pub fn has_parent_lookup(pid: u32) -> (r: bool)
    ensures
        r == (pid != 0 && pid != 1),
{
    pid != 0 && pid != 1
}

/// The parent PID reported for a process record: none when the record names PID 0.
pub fn parent_from_record(ppid: u32) -> (r: Option<u32>)
    ensures
        r == (if ppid == 0 {
            None
        } else {
            Some(ppid)
        }),
{
    if ppid == 0 {
        None
    } else {
        Some(ppid)
    }
}

/// The PIDs of the processes in `candidates` whose parent lookup gave `pid`, in order.
pub open spec fn children_in(pid: u32, candidates: Seq<(u32, Option<u32>)>) -> Seq<u32>
    decreases candidates.len(),
{
    if candidates.len() == 0 {
        Seq::empty()
    } else {
        let rest = children_in(pid, candidates.drop_last());
        let last = candidates.last();
        if last.1 == Some(pid) {
            rest.push(last.0)
        } else {
            rest
        }
    }
}

/// The children of `pid` are exactly the candidates whose looked-up parent is `pid`:
/// every listed PID comes with a candidate entry naming `pid` as its parent, and every
/// such candidate is listed.
pub proof fn law_children_have_the_parent(pid: u32, candidates: Seq<(u32, Option<u32>)>)
    ensures
        forall|i: int|
            0 <= i < children_in(pid, candidates).len() ==> exists|j: int|
                0 <= j < candidates.len() && candidates[j].0 == #[trigger] children_in(
                    pid,
                    candidates,
                )[i] && candidates[j].1 == Some(pid),
        forall|j: int|
            0 <= j < candidates.len() && #[trigger] candidates[j].1 == Some(pid) ==> children_in(
                pid,
                candidates,
            ).contains(candidates[j].0),
    decreases candidates.len(),
{
    if candidates.len() > 0 {
        let init = candidates.drop_last();
        law_children_have_the_parent(pid, init);
        let rest = children_in(pid, init);
        let out = children_in(pid, candidates);
        assert forall|i: int| 0 <= i < out.len() implies exists|j: int|
            0 <= j < candidates.len() && candidates[j].0 == #[trigger] out[i] && candidates[j].1
                == Some(pid) by {
            if i < rest.len() {
                assert(out[i] == rest[i]);
                let j = choose|j: int|
                    0 <= j < init.len() && init[j].0 == rest[i] && init[j].1 == Some(pid);
                assert(candidates[j] == init[j]);
            } else {
                assert(candidates[candidates.len() - 1] == candidates.last());
            }
        }
        assert forall|j: int|
            0 <= j < candidates.len() && #[trigger] candidates[j].1 == Some(pid) implies out.contains(
            candidates[j].0,
        ) by {
            if j < init.len() {
                assert(init[j] == candidates[j]);
                assert(init[j].1 == Some(pid));
                assert(rest.contains(init[j].0));
                let k = choose|k: int| 0 <= k < rest.len() && rest[k] == init[j].0;
                assert(out[k] == rest[k]);
            } else {
                assert(out[out.len() - 1] == candidates[j].0);
            }
        }
    }
}

/// The children of `pid` are the candidates whose looked-up parent is `pid`, kept in
/// their order and each listed once: filtering the candidates by that parent and
/// taking their PIDs gives them.
pub proof fn law_children_are_filtered_candidates(pid: u32, candidates: Seq<(u32, Option<u32>)>)
    ensures
        children_in(pid, candidates) == candidates.filter(
            |e: (u32, Option<u32>)| e.1 == Some(pid),
        ).map_values(|e: (u32, Option<u32>)| e.0),
    decreases candidates.len(),
{
    reveal_with_fuel(Seq::<_>::filter, 1);
    if candidates.len() > 0 {
        let init = candidates.drop_last();
        law_children_are_filtered_candidates(pid, init);
        let f = init.filter(|e: (u32, Option<u32>)| e.1 == Some(pid));
        let x = candidates.last();
        assert(f.push(x).map_values(|e: (u32, Option<u32>)| e.0) =~= f.map_values(
            |e: (u32, Option<u32>)| e.0,
        ).push(x.0));
    }
}

/// Selects the children of `pid` among processes given with their looked-up parents.
pub fn child_pids(pid: u32, candidates: &Vec<(u32, Option<u32>)>) -> (r: Vec<u32>)
    ensures
        r@ == children_in(pid, candidates@),
{
    let mut out: Vec<u32> = Vec::new();
    let mut i: usize = 0;
    while i < candidates.len()
        invariant
            i <= candidates@.len(),
            out@ == children_in(pid, candidates@.take(i as int)),
        decreases candidates@.len() - i,
    {
        let (c, parent) = candidates[i];
        proof {
            assert(candidates@.take(i + 1).drop_last() =~= candidates@.take(i as int));
        }
        if parent == Some(pid) {
            out.push(c);
        }
        i = i + 1;
    }
    assert(candidates@.take(candidates@.len() as int) =~= candidates@);
    out
}

/// The PIDs in `pids` other than `pid`, in order.
pub open spec fn without_pid(pid: u32, pids: Seq<u32>) -> Seq<u32> {
    pids.filter(|p: u32| p != pid)
}

/// The siblings of a process among its parent's children: all of them but itself.
pub fn sibling_pids(pid: u32, parent_children: &Vec<u32>) -> (r: Vec<u32>)
    ensures
        r@ == without_pid(pid, parent_children@),
{
    let mut out: Vec<u32> = Vec::new();
    let mut i: usize = 0;
    while i < parent_children.len()
        invariant
            i <= parent_children@.len(),
            out@ == without_pid(pid, parent_children@.take(i as int)),
        decreases parent_children@.len() - i,
    {
        let c = parent_children[i];
        proof {
            reveal_with_fuel(Seq::<_>::filter, 1);
            assert(parent_children@.take(i + 1).drop_last() =~= parent_children@.take(i as int));
        }
        if c != pid {
            out.push(c);
        }
        i = i + 1;
    }
    assert(parent_children@.take(parent_children@.len() as int) =~= parent_children@);
    out
}

/// Whether an update is due at `now_ns` when the last one was at `since_ns`: whether
/// at least `interval_ns` nanoseconds have passed (none have when the clock reads
/// earlier than the last update).
pub open spec fn spec_update_due(since_ns: u128, now_ns: u128, interval_ns: u128) -> bool {
    elapsed_ns(since_ns, now_ns) >= interval_ns
}

/// Whether an update is due at `now_ns` when the last one was at `since_ns`.
pub fn update_due(since_ns: u128, now_ns: u128, interval_ns: u128) -> (r: bool)
    ensures
        r == spec_update_due(since_ns, now_ns, interval_ns),
{
    elapsed_between(since_ns, now_ns) >= interval_ns
}

/// A new stream, whose last update is at its creation, fires only once its interval
/// has passed: at `now_ns` nanoseconds after creation an update is due exactly when
/// `now_ns` is at least the interval; and after an update at `t`, the next one is due
/// exactly when the interval has passed since `t`.
pub proof fn law_updates_wait_for_the_interval(interval_ns: u128, t: u128, now_ns: u128)
    ensures
        spec_update_due(0, now_ns, interval_ns) <==> now_ns >= interval_ns,
        now_ns >= t ==> (spec_update_due(t, now_ns, interval_ns) <==> now_ns - t >= interval_ns),
{
}

/// Polls the metrics of one process at a minimum interval.
///
/// Times are held in nanoseconds since the stream was created.
#[derive(Debug, Clone, Copy)]
pub struct ProcessMetricsStream {
    pid: u32,
    update_interval: Duration,
    interval_ns: u128,
    origin: Instant,
    last_update_ns: u128,
}

impl ProcessMetricsStream {
    /// The monitored PID.
    pub closed spec fn spec_pid(&self) -> u32 {
        self.pid
    }

    /// The minimum interval between updates.
    pub closed spec fn spec_interval(&self) -> Duration {
        self.update_interval
    }

    /// The minimum interval between updates, in nanoseconds.
    pub closed spec fn spec_interval_ns(&self) -> u128 {
        self.interval_ns
    }

    /// The time of the last update, in nanoseconds since the stream was created.
    pub closed spec fn spec_last_update_ns(&self) -> u128 {
        self.last_update_ns
    }

    /// Creates a stream for `pid`; the interval starts now, at its creation.
    pub fn new(pid: u32, interval: Duration) -> (r: Self)
        ensures
            r.spec_pid() == pid,
            r.spec_interval() == interval,
            r.spec_interval_ns() == duration_ns(interval),
            r.spec_last_update_ns() == 0,
    {
        let interval_ns = duration_nanos(&interval);
        ProcessMetricsStream {
            pid,
            update_interval: interval,
            interval_ns,
            origin: instant_now(),
            last_update_ns: 0,
        }
    }

    /// The monitored PID.
    pub fn pid(&self) -> (r: u32)
        ensures
            r == self.spec_pid(),
    {
        self.pid
    }

    /// The minimum interval between updates.
    pub fn update_interval(&self) -> (r: Duration)
        ensures
            r == self.spec_interval(),
    {
        self.update_interval
    }

    /// Changes the minimum interval between updates.
    pub fn set_update_interval(&mut self, interval: Duration)
        ensures
            final(self).spec_interval() == interval,
            final(self).spec_interval_ns() == duration_ns(interval),
            final(self).spec_pid() == old(self).spec_pid(),
            final(self).spec_last_update_ns() == old(self).spec_last_update_ns(),
    {
        self.update_interval = interval;
        self.interval_ns = duration_nanos(&interval);
    }

    /// Starts an update at `now_ns` (nanoseconds since the stream was created) when the
    /// interval has passed since the last one, moving the last update time to `now_ns`;
    /// returns whether it did.
    pub fn begin_update_at(&mut self, now_ns: u128) -> (r: bool)
        ensures
            r == spec_update_due(old(self).spec_last_update_ns(), now_ns, old(self).spec_interval_ns()),
            r ==> final(self).spec_last_update_ns() == now_ns,
            !r ==> final(self).spec_last_update_ns() == old(self).spec_last_update_ns(),
            final(self).spec_pid() == old(self).spec_pid(),
            final(self).spec_interval() == old(self).spec_interval(),
            final(self).spec_interval_ns() == old(self).spec_interval_ns(),
    {
        if update_due(self.last_update_ns, now_ns, self.interval_ns) {
            self.last_update_ns = now_ns;
            true
        } else {
            false
        }
    }

    /// Starts an update when the interval has passed since the last one, reading the
    /// monotonic clock for the current time; see [`ProcessMetricsStream::begin_update_at`].
    /// The caller then reads the process metrics.
    pub fn begin_update(&mut self) -> (r: bool)
        ensures
            exists|now_ns: u128|
                {
                    &&& r == spec_update_due(
                        old(self).spec_last_update_ns(),
                        now_ns,
                        old(self).spec_interval_ns(),
                    )
                    &&& r ==> final(self).spec_last_update_ns() == now_ns
                    &&& !r ==> final(self).spec_last_update_ns() == old(self).spec_last_update_ns()
                },
            final(self).spec_pid() == old(self).spec_pid(),
            final(self).spec_interval() == old(self).spec_interval(),
            final(self).spec_interval_ns() == old(self).spec_interval_ns(),
    {
        let now = instant_now();
        let now_ns = duration_nanos(&instant_since(&now, &self.origin));
        self.begin_update_at(now_ns)
    }
}

} // verus!

verus! {

/// A process that the kernel lists: its PID and name.
pub struct ProcessEntry {
    /// The process ID.
    pub pid: u32,
    /// The process name.
    pub name: String,
}

/// The processes that a list of kernel process records names: those of positive PID,
/// with the name held in the record, in order.
pub open spec fn listed_processes(records: Seq<kinfo_proc>) -> Seq<(u32, Seq<char>)>
    decreases records.len(),
{
    if records.len() == 0 {
        seq![]
    } else {
        let prev = listed_processes(records.drop_last());
        let r = records.last();
        if r.kp_proc.p_pid > 0 {
            prev.push((r.kp_proc.p_pid as u32, utf8_lossy(nul_terminated(r.kp_eproc.p_comm@))))
        } else {
            prev
        }
    }
}

/// The PIDs and names of a sequence of process entries.
pub open spec fn entries_view(s: Seq<ProcessEntry>) -> Seq<(u32, Seq<char>)> {
    s.map_values(|e: ProcessEntry| (e.pid, e.name@))
}

/// The processes of the kernel's process table, as read with `sysctl(KERN_PROC_ALL)`:
/// records of a PID that is not positive are skipped.
pub fn list_processes(records: &Vec<kinfo_proc>) -> (r: Vec<ProcessEntry>)
    ensures
        entries_view(r@) == listed_processes(records@),
{
    let mut out: Vec<ProcessEntry> = Vec::new();
    let mut i: usize = 0;
    while i < records.len()
        invariant
            i <= records@.len(),
            entries_view(out@) == listed_processes(records@.take(i as int)),
        decreases records@.len() - i,
    {
        let rec = &records[i];
        proof {
            assert(records@.take(i + 1).drop_last() =~= records@.take(i as int));
        }
        if rec.kp_proc.p_pid > 0 {
            let name = extract_proc_name(rec);
            out.push(ProcessEntry { pid: rec.kp_proc.p_pid as u32, name });
            assert(entries_view(out@) =~= listed_processes(records@.take(i + 1)));
        }
        i = i + 1;
    }
    assert(records@.take(records@.len() as int) =~= records@);
    out
}

/// The resource figures of a process as its task information reports them.
#[derive(Debug, Clone, Copy)]
pub struct TaskReading {
    /// Resident memory in bytes.
    pub resident_size: u64,
    /// Total user CPU time.
    pub total_user: u64,
    /// Total system CPU time.
    pub total_system: u64,
    /// Number of threads.
    pub thread_num: i32,
}

/// The resource usage of a process.
#[derive(Debug, Clone, Copy, PartialEq, Eq, Structural)]
pub struct ProcessUsage {
    /// Memory usage in bytes: the resident size.
    pub memory_usage: u64,
    /// Total CPU time: user and system time together.
    pub total_cpu_time: u64,
    /// Number of threads, the reported count taken as unsigned.
    pub thread_count: u32,
}

/// The resource usage of a process from its task information; the two CPU times must
/// add up within 64 bits.
pub fn process_usage(t: TaskReading) -> (r: ProcessUsage)
    requires
        t.total_user + t.total_system <= u64::MAX,
    ensures
        r == (ProcessUsage {
            memory_usage: t.resident_size,
            total_cpu_time: (t.total_user + t.total_system) as u64,
            thread_count: t.thread_num as u32,
        }),
{
    ProcessUsage {
        memory_usage: t.resident_size,
        total_cpu_time: t.total_user + t.total_system,
        thread_count: t.thread_num as u32,
    }
}

/// The message for a failed process information call, when its result is not positive.
pub fn get_error_message(result: i32) -> (r: Option<String>)
    ensures
        result <= 0 ==> (r matches Some(s) && s@ == "Process info error: "@ + signed_decimal(
            result as int,
        )),
        result > 0 ==> r is None,
{
    if result <= 0 {
        let mut s = String::new();
        s.append("Process info error: ");
        append_signed_decimal(&mut s, result as i64);
        Some(s)
    } else {
        None
    }
}

/// Where a walk up the process tree stands.
#[derive(Debug, Clone, Copy, PartialEq, Eq, Structural)]
pub enum TreeWalk {
    /// The parent of `pid` is to be looked up; `depth` ancestors were found so far.
    Ask {
        /// The ancestors found so far.
        depth: u32,
        /// The process whose parent comes next.
        pid: u32,
    },
    /// The walk ended with this depth.
    Done(u32),
}

/// The start of a walk up the tree from `pid`.
pub fn tree_walk_start(pid: u32) -> (r: TreeWalk)
    ensures
        r == (TreeWalk::Ask { depth: 0, pid }),
{
    TreeWalk::Ask { depth: 0, pid }
}

/// The next state of a walk with `depth` ancestors found, given what the lookup of the
/// next parent gave: a parent adds one to the depth and ends the walk when it is PID 0
/// or 1; no parent, or a failed lookup, ends the walk.
pub fn tree_walk_step(depth: u32, parent: Result<Option<u32>, Error>) -> (r: TreeWalk)
    requires
        parent matches Ok(Some(_)) ==> depth < u32::MAX,
    ensures
        match parent {
            Ok(Some(p)) => if p == 0 || p == 1 {
                r == TreeWalk::Done((depth + 1) as u32)
            } else {
                r == (TreeWalk::Ask { depth: (depth + 1) as u32, pid: p })
            },
            _ => r == TreeWalk::Done(depth),
        },
{
    match parent {
        Ok(Some(p)) => {
            if p == 1 || p == 0 {
                TreeWalk::Done(depth + 1)
            } else {
                TreeWalk::Ask { depth: depth + 1, pid: p }
            }
        },
        _ => TreeWalk::Done(depth),
    }
}

} // verus!
