//! One row of the process table, and how its fields are shown.

use vstd::prelude::*;
use std::collections::HashMap;
use crate::text::{
    chars_of, contains, decimal, lowercase, push_decimal, push_decimal2, round_half_even,
    spec_contains, spec_decimal, spec_decimal_padded, spec_lowercase, spec_round_half_even,
};

verus! {

broadcast use vstd::std_specs::hash::group_hash_axioms;

/// Scheduler state of a process.
#[derive(Debug, Clone, Copy, PartialEq, Eq, Structural)]
pub enum ProcessState {
    Running,
    Sleeping,
    DiskSleep,
    Zombie,
    Stopped,
    TracingStop,
    Dead,
    Idle,
    Unknown,
}

impl ProcessState {
    /// State named by a one-letter status code.
    pub open spec fn spec_from_proc_stat(c: char) -> ProcessState {
        if c == 'R' {
            ProcessState::Running
        } else if c == 'S' {
            ProcessState::Sleeping
        } else if c == 'D' {
            ProcessState::DiskSleep
        } else if c == 'Z' {
            ProcessState::Zombie
        } else if c == 'T' {
            ProcessState::Stopped
        } else if c == 't' {
            ProcessState::TracingStop
        } else if c == 'X' || c == 'x' {
            ProcessState::Dead
        } else if c == 'I' {
            ProcessState::Idle
        } else {
            ProcessState::Unknown
        }
    }

    /// State named by the scheduler-state byte of a task record.
    pub open spec fn spec_from_kernel_state(state: u8) -> ProcessState {
        if state == 0 {
            ProcessState::Running
        } else if state == 1 {
            ProcessState::Sleeping
        } else if state == 2 {
            ProcessState::DiskSleep
        } else if state == 4 {
            ProcessState::Zombie
        } else if state == 8 {
            ProcessState::Stopped
        } else {
            ProcessState::Unknown
        }
    }

    /// One-letter status code of the state.
    pub open spec fn spec_as_char(self) -> char {
        match self {
            ProcessState::Running => 'R',
            ProcessState::Sleeping => 'S',
            ProcessState::DiskSleep => 'D',
            ProcessState::Zombie => 'Z',
            ProcessState::Stopped => 'T',
            ProcessState::TracingStop => 't',
            ProcessState::Dead => 'X',
            ProcessState::Idle => 'I',
            ProcessState::Unknown => '?',
        }
    }

    pub fn from_proc_stat(c: char) -> (s: ProcessState)
        ensures
            s == Self::spec_from_proc_stat(c),
    {
        match c {
            'R' => ProcessState::Running,
            'S' => ProcessState::Sleeping,
            'D' => ProcessState::DiskSleep,
            'Z' => ProcessState::Zombie,
            'T' => ProcessState::Stopped,
            't' => ProcessState::TracingStop,
            'X' | 'x' => ProcessState::Dead,
            'I' => ProcessState::Idle,
            _ => ProcessState::Unknown,
        }
    }

    pub fn from_kernel_state(state: u8) -> (s: ProcessState)
        ensures
            s == Self::spec_from_kernel_state(state),
    {
        match state {
            0 => ProcessState::Running,
            1 => ProcessState::Sleeping,
            2 => ProcessState::DiskSleep,
            4 => ProcessState::Zombie,
            8 => ProcessState::Stopped,
            _ => ProcessState::Unknown,
        }
    }

    pub fn as_char(&self) -> (c: char)
        ensures
            c == self.spec_as_char(),
    {
        match self {
            ProcessState::Running => 'R',
            ProcessState::Sleeping => 'S',
            ProcessState::DiskSleep => 'D',
            ProcessState::Zombie => 'Z',
            ProcessState::Stopped => 'T',
            ProcessState::TracingStop => 't',
            ProcessState::Dead => 'X',
            ProcessState::Idle => 'I',
            ProcessState::Unknown => '?',
        }
    }
}

/// Reading the letter of a state back gives the state.
pub proof fn lemma_state_letter_round_trip(s: ProcessState)
    ensures
        ProcessState::spec_from_proc_stat(s.spec_as_char()) == s,
{
}

/// One row of the process table.
///
/// Percentages are held in thousandths of a percent, CPU time in hundredths of
/// a second.
#[derive(Debug)]
pub struct ProcessInfo {
    pub pid: u32,
    pub ppid: u32,
    pub uid: u32,
    pub user: String,
    pub state: ProcessState,
    pub priority: i32,
    pub nice: i32,
    pub virt_bytes: u64,
    pub res_bytes: u64,
    pub shr_bytes: u64,
    pub cpu_percent: u64,
    pub mem_percent: u64,
    pub gpu_percent: u64,
    pub gpu_mem_bytes: u64,
    pub cpu_time_centis: u64,
    pub start_time_ns: u64,
    pub comm: String,
    pub cmdline: String,
    pub container: Option<String>,
    pub cgroup_path: String,
    /// Process ids of the children, for the tree view.
    pub children: Vec<u32>,
    /// User plus system CPU time of this sample, for the next delta.
    pub prev_cpu_ns: u64,
    /// Whether this is a kernel thread (it is, or descends directly from, pid 2).
    pub is_kernel_thread: bool,
    /// Whether this is a thread of another process.
    pub is_thread: bool,
    pub tid: u32,
    /// Marked by the user.
    pub tagged: bool,
    /// Indentation and branch marks in front of the command in the tree view.
    pub tree_prefix: String,
}

/// What a [`ProcessInfo`] holds, as mathematical values.
pub struct ProcessRow {
    pub pid: u32,
    pub ppid: u32,
    pub uid: u32,
    pub user: Seq<char>,
    pub state: ProcessState,
    pub priority: i32,
    pub nice: i32,
    pub virt_bytes: u64,
    pub res_bytes: u64,
    pub shr_bytes: u64,
    pub cpu_percent: u64,
    pub mem_percent: u64,
    pub gpu_percent: u64,
    pub gpu_mem_bytes: u64,
    pub cpu_time_centis: u64,
    pub start_time_ns: u64,
    pub comm: Seq<char>,
    pub cmdline: Seq<char>,
    pub container: Option<Seq<char>>,
    pub cgroup_path: Seq<char>,
    pub children: Seq<u32>,
    pub prev_cpu_ns: u64,
    pub is_kernel_thread: bool,
    pub is_thread: bool,
    pub tid: u32,
    pub tagged: bool,
    pub tree_prefix: Seq<char>,
}

/// The characters of an optional string.
pub open spec fn spec_opt_text(o: Option<String>) -> Option<Seq<char>> {
    match o {
        Some(s) => Some(s@),
        None => None,
    }
}

impl View for ProcessInfo {
    type V = ProcessRow;

    open spec fn view(&self) -> ProcessRow {
        ProcessRow {
            pid: self.pid,
            ppid: self.ppid,
            uid: self.uid,
            user: self.user@,
            state: self.state,
            priority: self.priority,
            nice: self.nice,
            virt_bytes: self.virt_bytes,
            res_bytes: self.res_bytes,
            shr_bytes: self.shr_bytes,
            cpu_percent: self.cpu_percent,
            mem_percent: self.mem_percent,
            gpu_percent: self.gpu_percent,
            gpu_mem_bytes: self.gpu_mem_bytes,
            cpu_time_centis: self.cpu_time_centis,
            start_time_ns: self.start_time_ns,
            comm: self.comm@,
            cmdline: self.cmdline@,
            container: spec_opt_text(self.container),
            cgroup_path: self.cgroup_path@,
            children: self.children@,
            prev_cpu_ns: self.prev_cpu_ns,
            is_kernel_thread: self.is_kernel_thread,
            is_thread: self.is_thread,
            tid: self.tid,
            tagged: self.tagged,
            tree_prefix: self.tree_prefix@,
        }
    }
}

/// The rows that a list of processes holds, in order.
pub open spec fn spec_rows(list: Seq<ProcessInfo>) -> Seq<ProcessRow> {
    list.map_values(|p: ProcessInfo| p@)
}

/// The process ids of the rows, in order.
pub open spec fn spec_pids(rows: Seq<ProcessRow>) -> Seq<u32> {
    rows.map_values(|r: ProcessRow| r.pid)
}

impl ProcessRow {
    /// The row with the volatile fields of `src`: state, priorities, memory
    /// sizes, percentages, CPU time, name, command line and children. Identity,
    /// owner, tag and tree marks stay.
    pub open spec fn with_dynamic_fields(self, src: ProcessRow) -> ProcessRow {
        ProcessRow {
            state: src.state,
            priority: src.priority,
            nice: src.nice,
            virt_bytes: src.virt_bytes,
            res_bytes: src.res_bytes,
            shr_bytes: src.shr_bytes,
            cpu_percent: src.cpu_percent,
            mem_percent: src.mem_percent,
            gpu_percent: src.gpu_percent,
            gpu_mem_bytes: src.gpu_mem_bytes,
            cpu_time_centis: src.cpu_time_centis,
            comm: src.comm,
            cmdline: src.cmdline,
            children: src.children,
            prev_cpu_ns: src.prev_cpu_ns,
            ..self
        }
    }

    /// The row with its tag set to `tagged`.
    pub open spec fn with_tag(self, tagged: bool) -> ProcessRow {
        ProcessRow { tagged, ..self }
    }

    /// The row with its tree marks set to `prefix`.
    pub open spec fn with_tree_prefix(self, prefix: Seq<char>) -> ProcessRow {
        ProcessRow { tree_prefix: prefix, ..self }
    }
}

/// A copy of an optional string.
pub fn clone_opt_text(o: &Option<String>) -> (c: Option<String>)
    ensures
        spec_opt_text(c) == spec_opt_text(*o),
{
    match o {
        Some(s) => Some(s.clone()),
        None => None,
    }
}

impl Clone for ProcessInfo {
    fn clone(&self) -> (c: Self)
        ensures
            c@ == self@,
    {
        ProcessInfo {
            pid: self.pid,
            ppid: self.ppid,
            uid: self.uid,
            user: self.user.clone(),
            state: self.state,
            priority: self.priority,
            nice: self.nice,
            virt_bytes: self.virt_bytes,
            res_bytes: self.res_bytes,
            shr_bytes: self.shr_bytes,
            cpu_percent: self.cpu_percent,
            mem_percent: self.mem_percent,
            gpu_percent: self.gpu_percent,
            gpu_mem_bytes: self.gpu_mem_bytes,
            cpu_time_centis: self.cpu_time_centis,
            start_time_ns: self.start_time_ns,
            comm: self.comm.clone(),
            cmdline: self.cmdline.clone(),
            container: clone_opt_text(&self.container),
            cgroup_path: self.cgroup_path.clone(),
            children: self.children.clone(),
            prev_cpu_ns: self.prev_cpu_ns,
            is_kernel_thread: self.is_kernel_thread,
            is_thread: self.is_thread,
            tid: self.tid,
            tagged: self.tagged,
            tree_prefix: self.tree_prefix.clone(),
        }
    }
}

impl ProcessInfo {
    /// Takes the volatile fields of a fresh sample of the same process, and
    /// leaves identity, owner, tag and tree marks as they are.
    pub fn update_dynamic_fields(&mut self, src: &ProcessInfo)
        ensures
            final(self)@ == old(self)@.with_dynamic_fields(src@),
    {
        self.state = src.state;
        self.priority = src.priority;
        self.nice = src.nice;
        self.virt_bytes = src.virt_bytes;
        self.res_bytes = src.res_bytes;
        self.shr_bytes = src.shr_bytes;
        self.cpu_percent = src.cpu_percent;
        self.mem_percent = src.mem_percent;
        self.gpu_percent = src.gpu_percent;
        self.gpu_mem_bytes = src.gpu_mem_bytes;
        self.cpu_time_centis = src.cpu_time_centis;
        self.comm = src.comm.clone();
        self.cmdline = src.cmdline.clone();
        self.children = src.children.clone();
        self.prev_cpu_ns = src.prev_cpu_ns;
    }
}

/// The last position before `n` at which `pids` holds `pid`.
pub open spec fn spec_last_index_of(pids: Seq<u32>, pid: u32, n: int) -> Option<int>
    decreases n,
{
    if n <= 0 {
        None
    } else if pids[n - 1] == pid {
        Some(n - 1)
    } else {
        spec_last_index_of(pids, pid, n - 1)
    }
}

/// Whether `index` tells, for every process id, the last position at which
/// `pids` holds it.
pub open spec fn spec_indexes(index: Map<u32, usize>, pids: Seq<u32>) -> bool {
    forall|pid: u32|
        match #[trigger] spec_last_index_of(pids, pid, pids.len() as int) {
            Some(i) => index.contains_key(pid) && index[pid] == i,
            None => !index.contains_key(pid),
        }
}

/// What the last position of a process id means: the id stands there, and
/// nowhere after it.
pub proof fn lemma_last_index_of(pids: Seq<u32>, pid: u32, n: int)
    requires
        0 <= n <= pids.len(),
    ensures
        match spec_last_index_of(pids, pid, n) {
            Some(i) => 0 <= i < n && pids[i] == pid && forall|j: int| i < j < n ==> pids[j] != pid,
            None => forall|j: int| 0 <= j < n ==> pids[j] != pid,
        },
    decreases n,
{
    if n > 0 && pids[n - 1] != pid {
        lemma_last_index_of(pids, pid, n - 1);
    }
}

/// For every process id in the list, the last position that holds it.
pub fn index_by_pid(list: &Vec<ProcessInfo>) -> (index: HashMap<u32, usize>)
    ensures
        spec_indexes(index@, spec_pids(spec_rows(list@))),
{
    let ghost pids = spec_pids(spec_rows(list@));
    let mut index: HashMap<u32, usize> = HashMap::new();
    let mut i: usize = 0;
    while i < list.len()
        invariant
            i <= list.len(),
            pids == spec_pids(spec_rows(list@)),
            pids.len() == list@.len(),
            forall|pid: u32|
                match #[trigger] spec_last_index_of(pids, pid, i as int) {
                    Some(k) => index@.contains_key(pid) && index@[pid] == k,
                    None => !index@.contains_key(pid),
                },
        decreases list.len() - i,
    {
        let pid = list[i].pid;
        index.insert(pid, i);
        assert(pids[i as int] == pid);
        assert forall|q: u32|
            match #[trigger] spec_last_index_of(pids, q, i + 1) {
                Some(k) => index@.contains_key(q) && index@[q] == k,
                None => !index@.contains_key(q),
            } by {
            if q != pid {
                assert(spec_last_index_of(pids, q, i + 1) == spec_last_index_of(pids, q, i as int));
            }
        }
        i += 1;
    }
    index
}

/// Whether some row carries the process id `pid`.
pub open spec fn spec_has_pid(rows: Seq<ProcessRow>, pid: u32) -> bool {
    exists|i: int| 0 <= i < rows.len() && (#[trigger] rows[i]).pid == pid
}

/// An index of a list knows exactly the process ids that the list holds.
pub proof fn lemma_index_has_pid(index: Map<u32, usize>, rows: Seq<ProcessRow>, pid: u32)
    requires
        spec_indexes(index, spec_pids(rows)),
    ensures
        index.contains_key(pid) == spec_has_pid(rows, pid),
        index.contains_key(pid) ==> index[pid] < rows.len() && rows[index[pid] as int].pid == pid
            && spec_last_index_of(spec_pids(rows), pid, rows.len() as int) == Some(
            index[pid] as int,
        ),
{
    let pids = spec_pids(rows);
    lemma_last_index_of(pids, pid, pids.len() as int);
    match spec_last_index_of(pids, pid, pids.len() as int) {
        Some(k) => {
            assert(rows[k].pid == pid);
        },
        None => {
            assert forall|i: int| 0 <= i < rows.len() implies (#[trigger] rows[i]).pid != pid by {
                assert(pids[i] != pid);
            }
        },
    }
}

/// Which field of a row is copied to the clipboard.
#[derive(Debug, Clone, Copy, PartialEq, Eq, Structural)]
pub enum YankField {
    Row,
    Pid,
    User,
    Container,
    Name,
    Cmdline,
    GpuPercent,
    GpuMem,
}

/// Column that the process table can be sorted by.
#[derive(Debug, Clone, Copy, PartialEq, Eq, Structural)]
pub enum SortColumn {
    Pid,
    User,
    Priority,
    Nice,
    Virt,
    Res,
    Shr,
    State,
    CpuPercent,
    MemPercent,
    GpuPercent,
    GpuMem,
    Time,
    Container,
    Command,
}

impl SortColumn {
    /// The columns in display order.
    pub open spec fn spec_all() -> Seq<SortColumn> {
        seq![
            SortColumn::Pid,
            SortColumn::User,
            SortColumn::Priority,
            SortColumn::Nice,
            SortColumn::Virt,
            SortColumn::Res,
            SortColumn::Shr,
            SortColumn::State,
            SortColumn::CpuPercent,
            SortColumn::MemPercent,
            SortColumn::GpuPercent,
            SortColumn::GpuMem,
            SortColumn::Time,
            SortColumn::Container,
            SortColumn::Command,
        ]
    }

    /// Header text of the column.
    pub open spec fn spec_label(self) -> Seq<char> {
        match self {
            SortColumn::Pid => "PID"@,
            SortColumn::User => "USER"@,
            SortColumn::Priority => "PRI"@,
            SortColumn::Nice => "NI"@,
            SortColumn::Virt => "VIRT"@,
            SortColumn::Res => "RES"@,
            SortColumn::Shr => "SHR"@,
            SortColumn::State => "S"@,
            SortColumn::CpuPercent => "CPU%"@,
            SortColumn::MemPercent => "MEM%"@,
            SortColumn::GpuPercent => "GPU%"@,
            SortColumn::GpuMem => "GMEM"@,
            SortColumn::Time => "TIME+"@,
            SortColumn::Container => "CONT"@,
            SortColumn::Command => "Command"@,
        }
    }

    /// Width of the column in characters; 0 for the column that takes what is
    /// left.
    pub open spec fn spec_width(self) -> u16 {
        match self {
            SortColumn::Pid => 7,
            SortColumn::User => 9,
            SortColumn::Priority => 4,
            SortColumn::Nice => 4,
            SortColumn::Virt => 7,
            SortColumn::Res => 7,
            SortColumn::Shr => 7,
            SortColumn::State => 2,
            SortColumn::CpuPercent => 6,
            SortColumn::MemPercent => 6,
            SortColumn::GpuPercent => 5,
            SortColumn::GpuMem => 6,
            SortColumn::Time => 10,
            SortColumn::Container => 12,
            SortColumn::Command => 0,
        }
    }

    pub fn all() -> (cols: Vec<SortColumn>)
        ensures
            cols@ == Self::spec_all(),
    {
        let mut cols: Vec<SortColumn> = Vec::new();
        cols.push(SortColumn::Pid);
        cols.push(SortColumn::User);
        cols.push(SortColumn::Priority);
        cols.push(SortColumn::Nice);
        cols.push(SortColumn::Virt);
        cols.push(SortColumn::Res);
        cols.push(SortColumn::Shr);
        cols.push(SortColumn::State);
        cols.push(SortColumn::CpuPercent);
        cols.push(SortColumn::MemPercent);
        cols.push(SortColumn::GpuPercent);
        cols.push(SortColumn::GpuMem);
        cols.push(SortColumn::Time);
        cols.push(SortColumn::Container);
        cols.push(SortColumn::Command);
        assert(cols@ =~= Self::spec_all());
        cols
    }

    pub fn label(&self) -> (s: &'static str)
        ensures
            s@ == self.spec_label(),
    {
        match self {
            SortColumn::Pid => "PID",
            SortColumn::User => "USER",
            SortColumn::Priority => "PRI",
            SortColumn::Nice => "NI",
            SortColumn::Virt => "VIRT",
            SortColumn::Res => "RES",
            SortColumn::Shr => "SHR",
            SortColumn::State => "S",
            SortColumn::CpuPercent => "CPU%",
            SortColumn::MemPercent => "MEM%",
            SortColumn::GpuPercent => "GPU%",
            SortColumn::GpuMem => "GMEM",
            SortColumn::Time => "TIME+",
            SortColumn::Container => "CONT",
            SortColumn::Command => "Command",
        }
    }

    pub fn width(&self) -> (w: u16)
        ensures
            w == self.spec_width(),
    {
        match self {
            SortColumn::Pid => 7,
            SortColumn::User => 9,
            SortColumn::Priority => 4,
            SortColumn::Nice => 4,
            SortColumn::Virt => 7,
            SortColumn::Res => 7,
            SortColumn::Shr => 7,
            SortColumn::State => 2,
            SortColumn::CpuPercent => 6,
            SortColumn::MemPercent => 6,
            SortColumn::GpuPercent => 5,
            SortColumn::GpuMem => 6,
            SortColumn::Time => 10,
            SortColumn::Container => 12,
            SortColumn::Command => 0,
        }
    }
}

/// Bytes in one binary kilobyte, megabyte and gigabyte.
pub const KIB: u64 = 1024;

pub const MIB: u64 = 1048576;

pub const GIB: u64 = 1073741824;

/// A quantity in tenths, written with one decimal place.
pub open spec fn spec_one_decimal(tenths: nat) -> Seq<char> {
    spec_decimal(tenths / 10) + seq!['.'] + spec_decimal(tenths % 10)
}

/// Human-readable size: gigabytes with one decimal place, whole megabytes,
/// whole kilobytes, or bytes; each rounded to nearest, a tie going to the even
/// neighbour.
pub open spec fn spec_format_bytes(bytes: u64) -> Seq<char> {
    if bytes >= GIB {
        spec_one_decimal(spec_round_half_even(bytes as nat * 10, GIB as nat)) + seq!['G']
    } else if bytes >= MIB {
        spec_decimal(spec_round_half_even(bytes as nat, MIB as nat)) + seq!['M']
    } else if bytes >= KIB {
        spec_decimal(spec_round_half_even(bytes as nat, KIB as nat)) + seq!['K']
    } else {
        spec_decimal(bytes as nat) + seq!['B']
    }
}

/// Appends `tenths / 10`, a point and the last digit of `tenths`.
pub fn push_one_decimal(out: &mut String, tenths: u64)
    ensures
        final(out)@ == old(out)@ + spec_one_decimal(tenths as nat),
{
    push_decimal(out, tenths / 10);
    out.push('.');
    push_decimal(out, tenths % 10);
    assert(out@ =~= old(out)@ + spec_one_decimal(tenths as nat));
}

/// Formats a byte count for display (K, M, G).
pub fn format_bytes(bytes: u64) -> (s: String)
    ensures
        s@ == spec_format_bytes(bytes),
{
    let mut s = String::new();
    if bytes >= GIB {
        let tenths = round_half_even(bytes as u128 * 10, GIB as u128);
        assert(tenths <= bytes) by (nonlinear_arith)
            requires
                tenths == spec_round_half_even(bytes as nat * 10, GIB as nat),
                bytes >= GIB,
                GIB == 1073741824,
        {
        }
        push_one_decimal(&mut s, tenths as u64);
        s.push('G');
    } else if bytes >= MIB {
        let q = round_half_even(bytes as u128, MIB as u128);
        push_decimal(&mut s, q as u64);
        s.push('M');
    } else if bytes >= KIB {
        let q = round_half_even(bytes as u128, KIB as u128);
        push_decimal(&mut s, q as u64);
        s.push('K');
    } else {
        push_decimal(&mut s, bytes);
        s.push('B');
    }
    assert(s@ =~= spec_format_bytes(bytes));
    s
}

/// CPU time given in hundredths of a second, as `H:MM:SS.cc`, or `M:SS.cc`
/// below one hour.
pub open spec fn spec_format_time(centis: u64) -> Seq<char> {
    let hours = (centis / 360000) as nat;
    let mins = ((centis % 360000) / 6000) as nat;
    let s = ((centis % 6000) / 100) as nat;
    let cs = (centis % 100) as nat;
    if hours > 0 {
        spec_decimal(hours) + seq![':'] + spec_decimal_padded(mins, 2) + seq![':']
            + spec_decimal_padded(s, 2) + seq!['.'] + spec_decimal_padded(cs, 2)
    } else {
        spec_decimal(mins) + seq![':'] + spec_decimal_padded(s, 2) + seq!['.']
            + spec_decimal_padded(cs, 2)
    }
}

/// Formats CPU time, given in hundredths of a second, as `H:MM:SS.cc`.
pub fn format_time(centis: u64) -> (out: String)
    ensures
        out@ == spec_format_time(centis),
{
    let hours = centis / 360000;
    let mins = (centis % 360000) / 6000;
    let s = (centis % 6000) / 100;
    let cs = centis % 100;
    let mut out = String::new();
    if hours > 0 {
        push_decimal(&mut out, hours);
        out.push(':');
        push_decimal2(&mut out, mins);
    } else {
        push_decimal(&mut out, mins);
    }
    out.push(':');
    push_decimal2(&mut out, s);
    out.push('.');
    push_decimal2(&mut out, cs);
    assert(out@ =~= spec_format_time(centis));
    out
}

/// What a search looks at in a row, and the search text, all in the form in
/// which they are compared: name, command line, user and search text in
/// lowercase, the process id in decimal, and the search text as typed.
pub struct FilterTexts {
    pub comm: Vec<char>,
    pub cmdline: Vec<char>,
    pub pid: Vec<char>,
    pub user: Vec<char>,
    pub filter: Vec<char>,
    pub filter_lower: Vec<char>,
}

/// Whether a search matches: an empty search matches every row; else the
/// lowercase search text occurs in the name, the command line or the user
/// name, or the search text as typed occurs in the process id.
pub open spec fn spec_matches_lowered(
    comm: Seq<char>,
    cmdline: Seq<char>,
    pid: Seq<char>,
    user: Seq<char>,
    filter: Seq<char>,
    filter_lower: Seq<char>,
) -> bool {
    filter.len() == 0 || spec_contains(comm, filter_lower) || spec_contains(cmdline, filter_lower)
        || spec_contains(pid, filter) || spec_contains(user, filter_lower)
}

/// Whether the search text `filter` matches a row, without regard to case.
pub open spec fn spec_matches_filter(row: ProcessRow, filter: Seq<char>) -> bool {
    spec_matches_lowered(
        spec_lowercase(row.comm),
        spec_lowercase(row.cmdline),
        spec_decimal(row.pid as nat),
        spec_lowercase(row.user),
        filter,
        spec_lowercase(filter),
    )
}

/// Whether a search matches, given the texts in the form in which they are
/// compared.
pub fn matches_lowered(t: &FilterTexts) -> (m: bool)
    ensures
        m == spec_matches_lowered(
            t.comm@,
            t.cmdline@,
            t.pid@,
            t.user@,
            t.filter@,
            t.filter_lower@,
        ),
{
    if t.filter.len() == 0 {
        return true;
    }
    contains(t.comm.as_slice(), t.filter_lower.as_slice()) || contains(
        t.cmdline.as_slice(),
        t.filter_lower.as_slice(),
    ) || contains(t.pid.as_slice(), t.filter.as_slice()) || contains(
        t.user.as_slice(),
        t.filter_lower.as_slice(),
    )
}

/// Whether the search text `filter` matches the name, the command line, the
/// process id or the user of a process.
pub fn matches_filter(p: &ProcessInfo, filter: &str) -> (m: bool)
    ensures
        m == spec_matches_filter(p@, filter@),
{
    let t = FilterTexts {
        comm: chars_of(lowercase(p.comm.as_str()).as_str()),
        cmdline: chars_of(lowercase(p.cmdline.as_str()).as_str()),
        pid: chars_of(decimal(p.pid as u64).as_str()),
        user: chars_of(lowercase(p.user.as_str()).as_str()),
        filter: chars_of(filter),
        filter_lower: chars_of(lowercase(filter).as_str()),
    };
    matches_lowered(&t)
}

} // verus!
