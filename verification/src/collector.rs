//! One refresh cycle: from the records of one iterator walk, and what was
//! looked up for them, to the summary of the system and the process list.

use vstd::prelude::*;
use std::collections::HashMap;
use crate::container::{
    spec_resolve, spec_resolve_path, CgroupResolver, ContainerRuntime,
};
use crate::loader::{get_cmdline, spec_get_cmdline};
use crate::process::{
    index_by_pid, lemma_last_index_of, spec_indexes, spec_last_index_of, spec_pids, spec_rows,
    ProcessInfo, ProcessRow, ProcessState,
};
use crate::records::{CmdlineEvent, TaskInfo};
use crate::system::{
    ratio, share, spec_delta, spec_ratio, spec_share, CpuStats, GpuDeviceInfo, MemoryInfo,
    SwapInfo, SystemInfo,
};
use crate::text::{decimal, spec_decimal, spec_utf8_lossy, utf8_lossy};

verus! {

broadcast use vstd::std_specs::hash::group_hash_axioms;

/// Process id of the kernel thread that every other kernel thread descends
/// from.
pub const KTHREADD_PID: u32 = 2;

/// Nanoseconds in one hundredth of a second.
pub const NS_PER_CENTI: u64 = 10000000;

/// What a GPU reports about one process, summed over the devices.
#[derive(Debug, Clone, Copy, PartialEq, Eq, Structural)]
pub struct ProcessGpuUsage {
    /// Share of the GPU in thousandths of a percent.
    pub gpu_percent: u64,
    pub gpu_mem_bytes: u64,
}

/// The system-wide counters read at the start of a cycle.
#[derive(Debug)]
pub struct SystemSample {
    pub cpu_total: CpuStats,
    pub cpus: Vec<CpuStats>,
    pub memory: MemoryInfo,
    pub swap: SwapInfo,
    pub load_avg: [u64; 3],
    pub uptime_centis: u64,
    pub gpus: Vec<GpuDeviceInfo>,
}

/// What the rows of one cycle are computed from, besides the records.
pub struct CycleView {
    /// CPU time of each process at the cycle before.
    pub prev_times: Map<u32, u64>,
    /// Ticks that passed on all cores together since the cycle before.
    pub sys_delta: nat,
    pub num_cpus: nat,
    pub page_size: u64,
    pub mem_total: u64,
    pub cmdlines: Map<u32, CmdlineEvent>,
    pub users: Map<u32, String>,
    pub gpu: Map<u32, ProcessGpuUsage>,
    /// Paths of the cgroup directories by inode number.
    pub paths: Map<u64, Seq<char>>,
}

/// How a task counts in the summary.
#[derive(Debug, Clone, Copy, PartialEq, Eq, Structural)]
pub enum Tally {
    Processes,
    UserThreads,
    KernelThreads,
    Running,
    Sleeping,
}

/// Whether the record is of a kernel thread.
pub open spec fn spec_is_kthread(t: TaskInfo) -> bool {
    t.ppid == KTHREADD_PID || t.pid == KTHREADD_PID
}

/// Whether the record is of a process: of the thread that leads its group.
pub open spec fn spec_is_process(t: TaskInfo) -> bool {
    t.tid == t.pid
}

/// Whether a record counts towards a tally. Every record is a kernel thread,
/// else a thread of a process, else a process; the leaders are also counted
/// by what they are doing.
pub open spec fn spec_counts(t: TaskInfo, tally: Tally) -> bool {
    match tally {
        Tally::KernelThreads => spec_is_kthread(t),
        Tally::UserThreads => !spec_is_kthread(t) && !spec_is_process(t),
        Tally::Processes => !spec_is_kthread(t) && spec_is_process(t),
        Tally::Running => spec_is_process(t) && ProcessState::spec_from_kernel_state(t.state)
            == ProcessState::Running,
        Tally::Sleeping => spec_is_process(t) && (ProcessState::spec_from_kernel_state(t.state)
            == ProcessState::Sleeping || ProcessState::spec_from_kernel_state(t.state)
            == ProcessState::Idle),
    }
}

/// Number of records among the first `n` that count towards `tally`.
pub open spec fn spec_tally(tasks: Seq<TaskInfo>, n: int, tally: Tally) -> nat
    decreases n,
{
    if n <= 0 {
        0
    } else if spec_counts(tasks[n - 1], tally) {
        spec_tally(tasks, n - 1, tally) + 1
    } else {
        spec_tally(tasks, n - 1, tally)
    }
}

/// A sum held at the largest value of the field.
pub open spec fn spec_sat_add(a: u64, b: u64) -> u64 {
    if a + b > u64::MAX {
        u64::MAX
    } else {
        (a + b) as u64
    }
}

/// A product held at the largest value of the field.
pub open spec fn spec_sat_mul(a: u64, b: u64) -> u64 {
    if a * b > u64::MAX {
        u64::MAX
    } else {
        (a * b) as u64
    }
}

/// A difference of priorities held at the smallest value of the field.
pub open spec fn spec_sat_sub_i32(a: i32, b: i32) -> i32 {
    if a - b < i32::MIN {
        i32::MIN
    } else if a - b > i32::MAX {
        i32::MAX
    } else {
        (a - b) as i32
    }
}

/// CPU share of a process, in thousandths of a percent of one core: the CPU
/// time it used since the cycle before, over the time that passed on one
/// core. That time is taken from the ticks that passed on all cores (a
/// hundred to the second) divided evenly over the cores; where no tick
/// passed the share is zero.
pub open spec fn spec_cpu_share(cpu_delta_ns: u64, sys_delta: nat, num_cpus: nat) -> u64 {
    let cores = if num_cpus >= 1 {
        num_cpus
    } else {
        1
    };
    if sys_delta > 0 {
        spec_ratio(cpu_delta_ns as nat * cores, sys_delta * 100)
    } else {
        0
    }
}

/// CPU share of a process in thousandths of a percent of one core.
pub fn cpu_share(cpu_delta_ns: u64, sys_delta: u128, num_cpus: usize) -> (s: u64)
    ensures
        s == spec_cpu_share(cpu_delta_ns, sys_delta as nat, num_cpus as nat),
        cpu_delta_ns == 0 ==> s == 0,
{
    let cores: u128 = if num_cpus >= 1 {
        num_cpus as u128
    } else {
        1
    };
    if sys_delta == 0 {
        return 0;
    }
    assert(cpu_delta_ns as u128 * cores <= 0xffff_ffff_ffff_ffff * 0xffff_ffff_ffff_ffff)
        by (nonlinear_arith)
        requires
            cpu_delta_ns <= 0xffff_ffff_ffff_ffff,
            cores <= 0xffff_ffff_ffff_ffff,
    {
    }
    let num: u128 = cpu_delta_ns as u128 * cores;
    if sys_delta > u128::MAX / 100 {
        // more ticks than any product of time and cores: the share rounds down to nothing
        assert(num as nat / (sys_delta as nat * 100) == 0) by (nonlinear_arith)
            requires
                num <= 0xffff_ffff_ffff_ffff * 0xffff_ffff_ffff_ffff,
                sys_delta > 0xffff_ffff_ffff_ffff_ffff_ffff_ffff_ffffint / 100,
        {
        }
        return 0;
    }
    let den: u128 = sys_delta * 100;
    if cpu_delta_ns == 0 {
        assert(num == 0) by (nonlinear_arith)
            requires
                num == cpu_delta_ns * cores,
                cpu_delta_ns == 0,
        {
        }
        assert(num as nat / den as nat == 0) by (nonlinear_arith)
            requires
                num == 0,
                den > 0,
        {
        }
    }
    ratio(num, den)
}

/// Position of the first NUL in `bytes` at or after `from`, or the length.
pub open spec fn spec_nul_position(bytes: Seq<u8>, from: int) -> int
    decreases bytes.len() - from,
{
    if from < 0 || from >= bytes.len() {
        bytes.len() as int
    } else if bytes[from] == 0 {
        from
    } else {
        spec_nul_position(bytes, from + 1)
    }
}

/// The process name that a record holds: its bytes before the first NUL,
/// read as text.
pub open spec fn spec_comm_text(comm: Seq<u8>) -> Seq<char> {
    spec_utf8_lossy(comm.subrange(0, spec_nul_position(comm, 0)))
}

/// The process name of a record as text.
pub fn comm_to_string(comm: &[u8; 16]) -> (name: String)
    ensures
        name@ == spec_comm_text(comm@),
{
    let mut nul: usize = 0;
    while nul < 16 && comm[nul] != 0
        invariant
            nul <= 16,
            spec_nul_position(comm@, 0) == spec_nul_position(comm@, nul as int),
        decreases 16 - nul,
    {
        nul += 1;
    }
    utf8_lossy(vstd::slice::slice_subrange(comm.as_slice(), 0, nul))
}

/// The name shown for the owner of a process: the name of the user, or the
/// number where the user has none.
pub open spec fn spec_user_name(users: Map<u32, String>, uid: u32) -> Seq<char> {
    if users.contains_key(uid) {
        users[uid]@
    } else {
        spec_decimal(uid as nat)
    }
}

/// The command line shown for a process: what was captured for it, or its
/// name in brackets where nothing was.
pub open spec fn spec_cmdline_or_comm(cmdlines: Map<u32, CmdlineEvent>, pid: u32, comm: Seq<char>) -> Seq<
    char,
> {
    let captured = if cmdlines.contains_key(pid) {
        spec_get_cmdline(cmdlines[pid])
    } else {
        None
    };
    match captured {
        Some(text) => text,
        None => seq!['['] + comm + seq![']'],
    }
}

/// The name of a container.
pub open spec fn spec_container_name(c: Option<(Seq<char>, ContainerRuntime)>) -> Option<Seq<char>> {
    match c {
        Some(info) => Some(info.0),
        None => None,
    }
}

/// CPU time of a task: user plus system time.
pub open spec fn spec_total_cpu_ns(t: TaskInfo) -> u64 {
    spec_sat_add(t.utime_ns, t.stime_ns)
}

/// CPU time that a task used since the cycle before; zero for a task seen
/// for the first time.
pub open spec fn spec_cpu_delta_ns(t: TaskInfo, prev_times: Map<u32, u64>) -> u64 {
    if prev_times.contains_key(t.pid) {
        spec_delta(spec_total_cpu_ns(t) as nat, prev_times[t.pid] as nat) as u64
    } else {
        0
    }
}

/// The row of a process, before the children are filled in.
pub open spec fn spec_process_row(t: TaskInfo, cx: CycleView) -> ProcessRow {
    let res_bytes = spec_sat_mul(t.rss_pages, cx.page_size);
    let comm = spec_comm_text(t.comm@);
    ProcessRow {
        pid: t.pid,
        ppid: t.ppid,
        uid: t.ruid,
        user: spec_user_name(cx.users, t.ruid),
        state: ProcessState::spec_from_kernel_state(t.state),
        priority: spec_sat_sub_i32(t.prio, 100),
        nice: spec_sat_sub_i32(t.static_prio, 120),
        virt_bytes: t.vsize_bytes,
        res_bytes,
        shr_bytes: spec_sat_mul(t.shmem_pages, cx.page_size),
        cpu_percent: spec_cpu_share(spec_cpu_delta_ns(t, cx.prev_times), cx.sys_delta, cx.num_cpus),
        mem_percent: spec_share(res_bytes as nat, cx.mem_total as nat),
        gpu_percent: if cx.gpu.contains_key(t.pid) {
            cx.gpu[t.pid].gpu_percent
        } else {
            0
        },
        gpu_mem_bytes: if cx.gpu.contains_key(t.pid) {
            cx.gpu[t.pid].gpu_mem_bytes
        } else {
            0
        },
        cpu_time_centis: spec_total_cpu_ns(t) / NS_PER_CENTI,
        start_time_ns: t.start_time_ns,
        comm,
        cmdline: spec_cmdline_or_comm(cx.cmdlines, t.pid, comm),
        container: spec_container_name(spec_resolve(cx.paths, t.cgroup_id)),
        cgroup_path: spec_resolve_path(cx.paths, t.cgroup_id),
        children: Seq::empty(),
        prev_cpu_ns: spec_total_cpu_ns(t),
        is_kernel_thread: spec_is_kthread(t),
        is_thread: false,
        tid: t.pid,
        tagged: false,
        tree_prefix: Seq::empty(),
    }
}

/// The rows of the processes among the first `n` records, in the order of
/// the records and without their children.
pub open spec fn spec_base_rows(tasks: Seq<TaskInfo>, cx: CycleView, n: int) -> Seq<ProcessRow>
    decreases n,
{
    if n <= 0 {
        Seq::empty()
    } else if spec_is_process(tasks[n - 1]) {
        spec_base_rows(tasks, cx, n - 1).push(spec_process_row(tasks[n - 1], cx))
    } else {
        spec_base_rows(tasks, cx, n - 1)
    }
}

/// Whether a row names `parent` as its parent. A process without a parent,
/// or that names itself, is nobody's child.
pub open spec fn spec_is_child_of(row: ProcessRow, parent: u32) -> bool {
    row.ppid != 0 && row.ppid != row.pid && row.ppid == parent
}

/// The process ids of the children of `parent` among the first `n` rows, in
/// the order of the rows.
pub open spec fn spec_children_upto(rows: Seq<ProcessRow>, parent: u32, n: int) -> Seq<u32>
    decreases n,
{
    if n <= 0 {
        Seq::empty()
    } else if spec_is_child_of(rows[n - 1], parent) {
        spec_children_upto(rows, parent, n - 1).push(rows[n - 1].pid)
    } else {
        spec_children_upto(rows, parent, n - 1)
    }
}

/// The children of the row at position `i` once the first `n` rows were
/// looked at. Where several rows carry one process id, the last of them has
/// the children.
pub open spec fn spec_children_of(rows: Seq<ProcessRow>, i: int, n: int) -> Seq<u32> {
    if spec_last_index_of(spec_pids(rows), rows[i].pid, rows.len() as int) == Some(i) {
        spec_children_upto(rows, rows[i].pid, n)
    } else {
        Seq::empty()
    }
}

/// The rows with their children filled in from the first `n` rows.
pub open spec fn spec_with_children(rows: Seq<ProcessRow>, n: int) -> Seq<ProcessRow> {
    Seq::new(
        rows.len(),
        |i: int| ProcessRow { children: spec_children_of(rows, i, n), ..rows[i] },
    )
}

/// The process list of a cycle: one row for each process among the records,
/// in their order, each with its children.
pub open spec fn spec_snapshot_rows(tasks: Seq<TaskInfo>, cx: CycleView) -> Seq<ProcessRow> {
    let base = spec_base_rows(tasks, cx, tasks.len() as int);
    spec_with_children(base, base.len() as int)
}

/// CPU time by process id, as the next cycle needs it. Only the first `n`
/// rows are looked at.
pub open spec fn spec_times(rows: Seq<ProcessRow>, n: int) -> Map<u32, u64>
    decreases n,
{
    if n <= 0 {
        Map::empty()
    } else {
        spec_times(rows, n - 1).insert(rows[n - 1].pid, rows[n - 1].prev_cpu_ns)
    }
}

/// The per-core samples with the shares of the change since the cycle
/// before; a core that the cycle before did not know stays as it is.
pub open spec fn spec_core_shares(cpus: Seq<CpuStats>, prev: Seq<CpuStats>) -> Seq<CpuStats> {
    Seq::new(
        cpus.len(),
        |i: int|
            if i < prev.len() {
                cpus[i].spec_with_percentages(prev[i])
            } else {
                cpus[i]
            },
    )
}

/// What survives from one cycle to the next.
pub struct Collector {
    pub cgroup_resolver: CgroupResolver,
    pub prev_cpu_total: CpuStats,
    pub prev_cpus: Vec<CpuStats>,
    /// CPU time of each process at the last cycle.
    pub prev_proc_times: HashMap<u32, u64>,
    /// Bytes in one page of memory.
    pub page_size: u64,
}

fn sat_sub_i32(a: i32, b: i32) -> (r: i32)
    ensures
        r == spec_sat_sub_i32(a, b),
{
    let d: i64 = a as i64 - b as i64;
    if d < i32::MIN as i64 {
        i32::MIN
    } else if d > i32::MAX as i64 {
        i32::MAX
    } else {
        d as i32
    }
}

fn sat_mul(a: u64, b: u64) -> (r: u64)
    ensures
        r == spec_sat_mul(a, b),
{
    match a.checked_mul(b) {
        Some(v) => v,
        None => u64::MAX,
    }
}

impl Collector {
    /// The resolver is in order.
    pub open spec fn wf(self) -> bool {
        self.cgroup_resolver.wf()
    }

    /// What the rows of a cycle are computed from, given the state that the
    /// collector is in when the rows are made.
    pub open spec fn spec_cycle(
        self,
        sample: SystemSample,
        cmdlines: Map<u32, CmdlineEvent>,
        users: Map<u32, String>,
        gpu: Map<u32, ProcessGpuUsage>,
        paths: Map<u64, Seq<char>>,
    ) -> CycleView {
        CycleView {
            prev_times: self.prev_proc_times@,
            sys_delta: spec_delta(
                sample.cpu_total.spec_total_ticks(),
                self.prev_cpu_total.spec_total_ticks(),
            ),
            num_cpus: sample.cpus@.len(),
            page_size: self.page_size,
            mem_total: sample.memory.total,
            cmdlines,
            users,
            gpu,
            paths,
        }
    }

    /// A collector that has seen no cycle yet. `seed_total` and `seed_cpus`
    /// are the CPU counters read at start, so that the first cycle shows the
    /// change since then and not since boot.
    pub fn new(page_size: u64, seed_total: CpuStats, seed_cpus: Vec<CpuStats>) -> (c: Collector)
        ensures
            c.wf(),
            c.page_size == page_size,
            c.prev_cpu_total == seed_total,
            c.prev_cpus@ == seed_cpus@,
            c.prev_proc_times@ == Map::<u32, u64>::empty(),
            c.cgroup_resolver.spec_paths() == Map::<u64, Seq<char>>::empty(),
            c.cgroup_resolver.spec_cycles() == 0,
    {
        Collector {
            cgroup_resolver: CgroupResolver::new(),
            prev_cpu_total: seed_total,
            prev_cpus: seed_cpus,
            prev_proc_times: HashMap::new(),
            page_size,
        }
    }

    /// A collector that stands in for one that was handed elsewhere.
    pub fn noop() -> (c: Collector)
        ensures
            c.wf(),
            c.page_size == 4096,
            c.prev_cpu_total.spec_total_ticks() == 0,
            c.prev_cpus@.len() == 0,
            c.prev_proc_times@ == Map::<u32, u64>::empty(),
    {
        Collector {
            cgroup_resolver: CgroupResolver::new(),
            prev_cpu_total: CpuStats::zero(),
            prev_cpus: Vec::new(),
            prev_proc_times: HashMap::new(),
            page_size: 4096,
        }
    }
}

impl ProcessRow {
    /// The row with `children` for its children.
    pub open spec fn with_children(self, children: Seq<u32>) -> ProcessRow {
        ProcessRow { children, ..self }
    }
}

/// Builds the row of one process, without its children.
fn process_row(
    t: &TaskInfo,
    resolver: &mut CgroupResolver,
    prev_times: &HashMap<u32, u64>,
    sys_delta: u128,
    num_cpus: usize,
    page_size: u64,
    mem_total: u64,
    cmdlines: &HashMap<u32, CmdlineEvent>,
    users: &HashMap<u32, String>,
    gpu: &HashMap<u32, ProcessGpuUsage>,
) -> (p: ProcessInfo)
    requires
        old(resolver).wf(),
    ensures
        final(resolver).wf(),
        final(resolver).spec_paths() == old(resolver).spec_paths(),
        final(resolver).spec_cycles() == old(resolver).spec_cycles(),
        p@ == spec_process_row(
            *t,
            CycleView {
                prev_times: prev_times@,
                sys_delta: sys_delta as nat,
                num_cpus: num_cpus as nat,
                page_size,
                mem_total,
                cmdlines: cmdlines@,
                users: users@,
                gpu: gpu@,
                paths: old(resolver).spec_paths(),
            },
        ),
{
    let state = ProcessState::from_kernel_state(t.state);
    let total_cpu_ns: u64 = t.utime_ns.saturating_add(t.stime_ns);
    let cpu_delta_ns: u64 = match prev_times.get(&t.pid) {
        Some(prev) => total_cpu_ns.saturating_sub(*prev),
        None => 0,
    };
    let cpu_percent = cpu_share(cpu_delta_ns, sys_delta, num_cpus);
    let res_bytes = sat_mul(t.rss_pages, page_size);
    let shr_bytes = sat_mul(t.shmem_pages, page_size);
    let mem_percent = share(res_bytes, mem_total as u128);
    let user: String = match users.get(&t.ruid) {
        Some(name) => name.clone(),
        None => decimal(t.ruid as u64),
    };
    let comm = comm_to_string(&t.comm);
    let captured: Option<String> = match cmdlines.get(&t.pid) {
        Some(event) => get_cmdline(event),
        None => None,
    };
    let cmdline: String = match captured {
        Some(text) => text,
        None => {
            let mut s = String::new();
            s.push('[');
            s.append(comm.as_str());
            s.push(']');
            assert(s@ =~= seq!['['] + comm@ + seq![']']);
            s
        },
    };
    let cgroup_path = resolver.resolve_path(t.cgroup_id);
    let container: Option<String> = match resolver.resolve(t.cgroup_id) {
        Some(c) => Some(c.name),
        None => None,
    };
    let (gpu_percent, gpu_mem_bytes): (u64, u64) = match gpu.get(&t.pid) {
        Some(usage) => (usage.gpu_percent, usage.gpu_mem_bytes),
        None => (0, 0),
    };
    ProcessInfo {
        pid: t.pid,
        ppid: t.ppid,
        uid: t.ruid,
        user,
        state,
        priority: sat_sub_i32(t.prio, 100),
        nice: sat_sub_i32(t.static_prio, 120),
        virt_bytes: t.vsize_bytes,
        res_bytes,
        shr_bytes,
        cpu_percent,
        mem_percent,
        gpu_percent,
        gpu_mem_bytes,
        cpu_time_centis: total_cpu_ns / NS_PER_CENTI,
        start_time_ns: t.start_time_ns,
        comm,
        cmdline,
        container,
        cgroup_path,
        children: Vec::new(),
        prev_cpu_ns: total_cpu_ns,
        is_kernel_thread: t.ppid == KTHREADD_PID || t.pid == KTHREADD_PID,
        is_thread: false,
        tid: t.pid,
        tagged: false,
        tree_prefix: String::new(),
    }
}

/// The counts of the summary.
#[derive(Debug, Clone, Copy, PartialEq, Eq, Structural)]
pub struct TaskCounts {
    pub processes: usize,
    pub user_threads: usize,
    pub kernel_threads: usize,
    pub running: usize,
    pub sleeping: usize,
}

/// Sorts the records of a walk into processes, threads of processes and
/// kernel threads, and counts the leaders that run and that sleep.
pub fn classify_tasks(tasks: &Vec<TaskInfo>) -> (c: TaskCounts)
    ensures
        c.processes == spec_tally(tasks@, tasks@.len() as int, Tally::Processes),
        c.user_threads == spec_tally(tasks@, tasks@.len() as int, Tally::UserThreads),
        c.kernel_threads == spec_tally(tasks@, tasks@.len() as int, Tally::KernelThreads),
        c.running == spec_tally(tasks@, tasks@.len() as int, Tally::Running),
        c.sleeping == spec_tally(tasks@, tasks@.len() as int, Tally::Sleeping),
        c.processes + c.user_threads + c.kernel_threads == tasks@.len(),
{
    let mut c = TaskCounts {
        processes: 0,
        user_threads: 0,
        kernel_threads: 0,
        running: 0,
        sleeping: 0,
    };
    let mut i: usize = 0;
    while i < tasks.len()
        invariant
            i <= tasks.len(),
            c.processes == spec_tally(tasks@, i as int, Tally::Processes),
            c.user_threads == spec_tally(tasks@, i as int, Tally::UserThreads),
            c.kernel_threads == spec_tally(tasks@, i as int, Tally::KernelThreads),
            c.running == spec_tally(tasks@, i as int, Tally::Running),
            c.sleeping == spec_tally(tasks@, i as int, Tally::Sleeping),
            c.processes + c.user_threads + c.kernel_threads == i,
            c.running <= i,
            c.sleeping <= i,
        decreases tasks.len() - i,
    {
        let t = &tasks[i];
        let is_kthread = t.ppid == KTHREADD_PID || t.pid == KTHREADD_PID;
        if is_kthread {
            c.kernel_threads = c.kernel_threads + 1;
        } else if t.tid != t.pid {
            c.user_threads = c.user_threads + 1;
        } else {
            c.processes = c.processes + 1;
        }
        if t.tid == t.pid {
            match ProcessState::from_kernel_state(t.state) {
                ProcessState::Running => {
                    c.running = c.running + 1;
                },
                ProcessState::Sleeping | ProcessState::Idle => {
                    c.sleeping = c.sleeping + 1;
                },
                _ => {},
            }
        }
        i += 1;
    }
    c
}

/// Fills in the children of every row from the parent that each row names.
/// A parent that is not in the list gets no child, and that is no error.
pub fn link_children(processes: &mut Vec<ProcessInfo>)
    ensures
        spec_rows(final(processes)@) == spec_with_children(
            spec_rows(old(processes)@),
            old(processes)@.len() as int,
        ),
{
    let index = index_by_pid(processes);
    let ghost base = spec_rows(processes@);
    let ghost pids = spec_pids(base);
    let n = processes.len();
    let mut j: usize = 0;
    // start from empty child lists
    while j < n
        invariant
            j <= n,
            n == processes@.len(),
            base.len() == n,
            forall|i: int|
                0 <= i < j ==> (#[trigger] processes@[i])@ == base[i].with_children(Seq::empty()),
            forall|i: int| j <= i < n ==> (#[trigger] processes@[i])@ == base[i],
        decreases n - j,
    {
        processes[j].children = Vec::new();
        j += 1;
    }
    j = 0;
    while j < n
        invariant
            j <= n,
            n == processes@.len(),
            base.len() == n,
            pids == spec_pids(base),
            spec_indexes(index@, pids),
            forall|i: int|
                0 <= i < n ==> (#[trigger] processes@[i])@ == base[i].with_children(
                    spec_children_of(base, i, j as int),
                ),
        decreases n - j,
    {
        let ppid = processes[j].ppid;
        let pid = processes[j].pid;
        assert(processes@[j as int]@.ppid == base[j as int].ppid);
        assert(processes@[j as int]@.pid == base[j as int].pid);
        if ppid != 0 && ppid != pid {
            proof {
                lemma_last_index_of(pids, ppid, n as int);
            }
            match index.get(&ppid) {
                Some(idx) => {
                    let k: usize = *idx;
                    assert(spec_last_index_of(pids, ppid, n as int) == Some(k as int));
                    assert(pids[k as int] == ppid);
                    processes[k].children.push(pid);
                    assert forall|i: int| 0 <= i < n implies (#[trigger] processes@[i])@
                        == base[i].with_children(spec_children_of(base, i, j + 1)) by {
                        if i == k {
                            assert(base[i].pid == ppid);
                        } else {
                            if base[i].pid == ppid {
                                assert(pids[i] == ppid);
                            }
                        }
                    }
                },
                None => {
                    assert(spec_last_index_of(pids, ppid, n as int) is None);
                    assert forall|i: int| 0 <= i < n implies (#[trigger] processes@[i])@
                        == base[i].with_children(spec_children_of(base, i, j + 1)) by {
                        assert(pids[i] != ppid);
                    }
                },
            }
        } else {
            assert forall|i: int| 0 <= i < n implies (#[trigger] processes@[i])@
                == base[i].with_children(spec_children_of(base, i, j + 1)) by {
            }
        }
        j += 1;
    }
    assert(spec_rows(processes@) =~= spec_with_children(base, n as int));
}

/// The CPU time of every process in the list, by process id.
pub fn proc_times(processes: &Vec<ProcessInfo>) -> (times: HashMap<u32, u64>)
    ensures
        times@ == spec_times(spec_rows(processes@), processes@.len() as int),
{
    let ghost rows = spec_rows(processes@);
    let mut times: HashMap<u32, u64> = HashMap::new();
    let mut i: usize = 0;
    while i < processes.len()
        invariant
            i <= processes.len(),
            rows == spec_rows(processes@),
            times@ == spec_times(rows, i as int),
        decreases processes.len() - i,
    {
        times.insert(processes[i].pid, processes[i].prev_cpu_ns);
        assert(rows[i as int] == processes@[i as int]@);
        i += 1;
    }
    times
}

/// Fills in, for every core, the shares of the change since the cycle
/// before.
pub fn core_shares(cpus: &mut Vec<CpuStats>, prev: &Vec<CpuStats>)
    ensures
        final(cpus)@ == spec_core_shares(old(cpus)@, prev@),
{
    let n = cpus.len();
    let mut i: usize = 0;
    while i < n
        invariant
            i <= n,
            n == cpus@.len(),
            n == old(cpus)@.len(),
            forall|k: int|
                0 <= k < i ==> cpus@[k] == #[trigger] spec_core_shares(old(cpus)@, prev@)[k],
            forall|k: int| i <= k < n ==> cpus@[k] == old(cpus)@[k],
        decreases n - i,
    {
        if i < prev.len() {
            let mut c = cpus[i];
            c.calc_percentages(&prev[i]);
            cpus[i] = c;
        }
        i += 1;
    }
    assert(cpus@ =~= spec_core_shares(old(cpus)@, prev@));
}

fn copy_cores(cpus: &Vec<CpuStats>) -> (c: Vec<CpuStats>)
    ensures
        c@ == cpus@,
{
    let mut c: Vec<CpuStats> = Vec::new();
    let mut i: usize = 0;
    while i < cpus.len()
        invariant
            i <= cpus.len(),
            c@ == cpus@.subrange(0, i as int),
        decreases cpus.len() - i,
    {
        c.push(cpus[i]);
        i += 1;
    }
    assert(cpus@.subrange(0, cpus@.len() as int) =~= cpus@);
    c
}

impl Collector {
    /// One refresh cycle.
    ///
    /// `sample` holds the system-wide counters read for this cycle, `tasks`
    /// the records of the iterator walk (none in degraded mode), `cmdlines`
    /// the entries of the command-line table and `users` the names of the
    /// users, as far as they were found; `gpu` what the GPUs report by
    /// process; `cgroup_walk` what a walk of the cgroup tree found, where
    /// one was made.
    ///
    /// The summary takes the counters of the sample, with the CPU shares of
    /// the change since the cycle before, and the counts of the records.
    /// The process list has one row for each process among the records, in
    /// their order. The collector remembers the counters and the CPU time
    /// of each process for the next cycle.
    pub fn collect(
        &mut self,
        sample: SystemSample,
        tasks: &Vec<TaskInfo>,
        cmdlines: &HashMap<u32, CmdlineEvent>,
        users: &HashMap<u32, String>,
        gpu: &HashMap<u32, ProcessGpuUsage>,
        cgroup_walk: Option<&[(u64, String)]>,
    ) -> (out: (SystemInfo, Vec<ProcessInfo>))
        requires
            old(self).wf(),
        ensures
            final(self).wf(),
            out.0.cpu_total == sample.cpu_total.spec_with_percentages(old(self).prev_cpu_total),
            out.0.cpus@ == spec_core_shares(sample.cpus@, old(self).prev_cpus@),
            out.0.memory == sample.memory,
            out.0.swap == sample.swap,
            out.0.load_avg == sample.load_avg,
            out.0.uptime_centis == sample.uptime_centis,
            out.0.gpus == sample.gpus,
            out.0.total_tasks == spec_tally(tasks@, tasks@.len() as int, Tally::Processes),
            out.0.user_threads == spec_tally(tasks@, tasks@.len() as int, Tally::UserThreads),
            out.0.kernel_threads == spec_tally(tasks@, tasks@.len() as int, Tally::KernelThreads),
            out.0.running_tasks == spec_tally(tasks@, tasks@.len() as int, Tally::Running),
            out.0.sleeping_tasks == spec_tally(tasks@, tasks@.len() as int, Tally::Sleeping),
            spec_rows(out.1@) == spec_snapshot_rows(
                tasks@,
                old(self).spec_cycle(
                    sample,
                    cmdlines@,
                    users@,
                    gpu@,
                    old(self).cgroup_resolver.spec_paths_after_tick(cgroup_walk),
                ),
            ),
            final(self).cgroup_resolver.spec_paths() == old(self).cgroup_resolver.spec_paths_after_tick(cgroup_walk),
            final(self).cgroup_resolver.spec_cycles() == old(self).cgroup_resolver.spec_cycles_after_tick(cgroup_walk),
            final(self).prev_cpu_total == out.0.cpu_total,
            final(self).prev_cpus@ == out.0.cpus@,
            final(self).prev_proc_times@ == spec_times(spec_rows(out.1@), out.1@.len() as int),
            final(self).page_size == old(self).page_size,
    {
        let SystemSample { cpu_total, cpus, memory, swap, load_avg, uptime_centis, gpus } = sample;
        let mut cpu_total = cpu_total;
        let mut cpus = cpus;
        let now_total: u128 = cpu_total.total_ticks();
        let prev_total: u128 = self.prev_cpu_total.total_ticks();
        let sys_delta: u128 = if now_total >= prev_total {
            now_total - prev_total
        } else {
            0
        };
        let num_cpus: usize = cpus.len();
        cpu_total.calc_percentages(&self.prev_cpu_total);
        core_shares(&mut cpus, &self.prev_cpus);

        self.cgroup_resolver.tick(cgroup_walk);

        let counts = classify_tasks(tasks);

        let ghost cx = old(self).spec_cycle(
            sample,
            cmdlines@,
            users@,
            gpu@,
            old(self).cgroup_resolver.spec_paths_after_tick(cgroup_walk),
        );
        let mut processes: Vec<ProcessInfo> = Vec::new();
        let mut i: usize = 0;
        while i < tasks.len()
            invariant
                i <= tasks.len(),
                self.cgroup_resolver.wf(),
                self.cgroup_resolver.spec_paths() == cx.paths,
                self.cgroup_resolver.spec_cycles() == old(self).cgroup_resolver.spec_cycles_after_tick(cgroup_walk),
                self.prev_proc_times@ == cx.prev_times,
                self.page_size == cx.page_size,
                self.page_size == old(self).page_size,
                sys_delta == cx.sys_delta,
                num_cpus == cx.num_cpus,
                memory.total == cx.mem_total,
                cmdlines@ == cx.cmdlines,
                users@ == cx.users,
                gpu@ == cx.gpu,
                spec_rows(processes@) == spec_base_rows(tasks@, cx, i as int),
            decreases tasks.len() - i,
        {
            let t = &tasks[i];
            if t.tid == t.pid {
                let ghost before = spec_rows(processes@);
                let p = process_row(
                    t,
                    &mut self.cgroup_resolver,
                    &self.prev_proc_times,
                    sys_delta,
                    num_cpus,
                    self.page_size,
                    memory.total,
                    cmdlines,
                    users,
                    gpu,
                );
                processes.push(p);
                assert(spec_rows(processes@) =~= before.push(spec_process_row(*t, cx)));
            }
            i += 1;
        }

        link_children(&mut processes);

        self.prev_cpu_total = cpu_total;
        self.prev_cpus = copy_cores(&cpus);
        self.prev_proc_times = proc_times(&processes);

        let sys_info = SystemInfo {
            cpu_total,
            cpus,
            memory,
            swap,
            load_avg,
            uptime_centis,
            total_tasks: counts.processes,
            user_threads: counts.user_threads,
            kernel_threads: counts.kernel_threads,
            running_tasks: counts.running,
            sleeping_tasks: counts.sleeping,
            gpus,
        };
        (sys_info, processes)
    }
}

/// A process that used no CPU time since the cycle before has a CPU share of
/// zero, whatever time passed.
pub proof fn lemma_idle_process_has_no_share(sys_delta: nat, num_cpus: nat)
    ensures
        spec_cpu_share(0, sys_delta, num_cpus) == 0,
{
    if sys_delta > 0 {
        assert(0nat / (sys_delta * 100) == 0) by (nonlinear_arith)
            requires
                sys_delta > 0,
        {
        }
        let cores = if num_cpus >= 1 {
            num_cpus
        } else {
            1
        };
        assert(0nat * cores == 0) by (nonlinear_arith);
    }
}

/// Where no tick passed on the system, every CPU share is zero.
pub proof fn lemma_no_tick_no_share(cpu_delta_ns: u64, num_cpus: nat)
    ensures
        spec_cpu_share(cpu_delta_ns, 0, num_cpus) == 0,
{
}

/// The more CPU time a process used over the same stretch, the larger its
/// share.
pub proof fn lemma_share_grows_with_time(a: u64, b: u64, sys_delta: nat, num_cpus: nat)
    requires
        a <= b,
    ensures
        spec_cpu_share(a, sys_delta, num_cpus) <= spec_cpu_share(b, sys_delta, num_cpus),
{
    if sys_delta > 0 {
        let cores = if num_cpus >= 1 {
            num_cpus
        } else {
            1
        };
        let den = sys_delta * 100;
        assert(a as nat * cores <= b as nat * cores) by (nonlinear_arith)
            requires
                a <= b,
        {
        }
        assert((a as nat * cores) / den <= (b as nat * cores) / den) by (nonlinear_arith)
            requires
                a as nat * cores <= b as nat * cores,
                den > 0,
        {
        }
    }
}

} // verus!
