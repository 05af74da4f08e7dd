//! The task iterator: what one visit of one task writes to the output.
//!
//! The program that runs in the kernel reads each field of the task at its
//! offset. Every such read can fail, and every pointer it follows can be
//! null. This module takes the outcome of the reads and decides what the
//! record holds: a failed read degrades to the field's default, a null hop
//! zeroes the fields behind it, and the record is always produced.

use vstd::prelude::*;
use crate::records::TaskInfo;

verus! {

/// Code returned to the kernel after a task was visited.
pub const ITER_CONTINUE: i32 = 0;

/// Code returned to the kernel when the walk is over.
pub const ITER_STOP: i32 = 1;

/// Bytes in one page of memory as the kernel counts virtual size.
pub const KERNEL_PAGE_SIZE: u64 = 4096;

/// Priority reported when the field cannot be read.
pub const DEFAULT_PRIO: i32 = 120;

/// Outcome of following a pointer field: the read failed with a code, the
/// pointer was null, or it led to what was read behind it.
#[derive(Debug, Clone, Copy, PartialEq, Eq)]
pub enum Hop<T> {
    Failed(i64),
    Null,
    At(T),
}

/// Reads behind the credentials pointer.
#[derive(Debug, Clone, Copy, PartialEq, Eq)]
pub struct CredReads {
    pub euid: Result<u32, i64>,
    pub uid: Result<u32, i64>,
}

/// Reads behind the memory-descriptor pointer.
#[derive(Debug, Clone, Copy, PartialEq, Eq)]
pub struct MmReads {
    /// Pages of virtual memory.
    pub total_vm: Result<u64, i64>,
    /// File-backed resident pages; transiently negative.
    pub file_count: Result<i64, i64>,
    /// Anonymous resident pages; transiently negative.
    pub anon_count: Result<i64, i64>,
    /// Shared-memory resident pages; transiently negative.
    pub shmem_count: Result<i64, i64>,
}

/// The chain from a task to the id of its cgroup directory: membership set,
/// default cgroup, directory node, id.
pub type CgroupChain = Hop<Hop<Hop<Result<u64, i64>>>>;

/// Outcome of every read that one visit of a task makes.
#[derive(Debug, Clone, Copy, PartialEq, Eq)]
pub struct TaskReads {
    pub tgid: Result<i32, i64>,
    pub tid: Result<i32, i64>,
    /// The parent task, and behind it the parent's process id.
    pub parent: Hop<Result<i32, i64>>,
    pub cred: Hop<CredReads>,
    pub state: Result<u32, i64>,
    pub utime: Result<u64, i64>,
    pub stime: Result<u64, i64>,
    pub prio: Result<i32, i64>,
    pub static_prio: Result<i32, i64>,
    pub mm: Hop<MmReads>,
    pub start_time: Result<u64, i64>,
    pub comm: Result<[u8; 16], i64>,
    pub cgroup: CgroupChain,
}

/// The value read, or `default` where the read failed.
pub open spec fn spec_or<T>(r: Result<T, i64>, default: T) -> T {
    match r {
        Ok(v) => v,
        Err(_) => default,
    }
}

/// A page counter clamped to zero from below.
pub open spec fn spec_clamp_pages(count: i64) -> u64 {
    if count > 0 {
        count as u64
    } else {
        0
    }
}

/// Virtual size in bytes of `pages` pages, modulo the width of the field.
pub open spec fn spec_vsize(pages: u64) -> u64 {
    ((pages as nat * KERNEL_PAGE_SIZE as nat) % 0x1_0000_0000_0000_0000) as u64
}

/// Resident pages: file-backed plus anonymous, each clamped first. No task
/// reaches the width of the field.
pub open spec fn spec_rss_pages(mm: MmReads) -> u64 {
    (spec_clamp_pages(spec_or(mm.file_count, 0)) + spec_clamp_pages(spec_or(mm.anon_count, 0)))
        as u64
}

/// The id at the end of the cgroup chain, an error where a read failed on the
/// way, and zero where a pointer on the way was null.
pub open spec fn spec_read_cgroup_id(chain: CgroupChain) -> Result<u64, i64> {
    match chain {
        Hop::Failed(e) => Err(e),
        Hop::Null => Ok(0),
        Hop::At(cgrp) => match cgrp {
            Hop::Failed(e) => Err(e),
            Hop::Null => Ok(0),
            Hop::At(kn) => match kn {
                Hop::Failed(e) => Err(e),
                Hop::Null => Ok(0),
                Hop::At(id) => id,
            },
        },
    }
}

/// Sixteen zero bytes: the process name where it cannot be read.
pub open spec fn spec_no_name() -> Seq<u8> {
    Seq::new(16, |i: int| 0u8)
}

impl TaskReads {
    /// Parent process id: zero where there is no parent or it cannot be read.
    pub open spec fn spec_ppid(self) -> u32 {
        match self.parent {
            Hop::At(tgid) => spec_or(tgid, 0) as u32,
            _ => 0,
        }
    }

    /// Effective user id: zero where there are no credentials.
    pub open spec fn spec_euid(self) -> u32 {
        match self.cred {
            Hop::At(c) => spec_or(c.euid, 0),
            _ => 0,
        }
    }

    /// Real user id: zero where there are no credentials.
    pub open spec fn spec_ruid(self) -> u32 {
        match self.cred {
            Hop::At(c) => spec_or(c.uid, 0),
            _ => 0,
        }
    }

    /// Virtual size in bytes: zero where there is no memory descriptor.
    pub open spec fn spec_vsize_bytes(self) -> u64 {
        match self.mm {
            Hop::At(mm) => spec_vsize(spec_or(mm.total_vm, 0)),
            _ => 0,
        }
    }

    /// Resident pages: zero where there is no memory descriptor.
    pub open spec fn spec_rss(self) -> u64 {
        match self.mm {
            Hop::At(mm) => spec_rss_pages(mm),
            _ => 0,
        }
    }

    /// Shared-memory pages: zero where there is no memory descriptor.
    pub open spec fn spec_shmem(self) -> u64 {
        match self.mm {
            Hop::At(mm) => spec_clamp_pages(spec_or(mm.shmem_count, 0)),
            _ => 0,
        }
    }

    /// Whether `info` is the record of a task whose reads came out as `self`.
    pub open spec fn describes(self, info: TaskInfo) -> bool {
        &&& info.pid == spec_or(self.tgid, 0) as u32
        &&& info.tid == spec_or(self.tid, 0) as u32
        &&& info.ppid == self.spec_ppid()
        &&& info.euid == self.spec_euid()
        &&& info.ruid == self.spec_ruid()
        &&& info.state == spec_or(self.state, 0) as u8
        &&& info._pad@ == Seq::new(3, |i: int| 0u8)
        &&& info.utime_ns == spec_or(self.utime, 0)
        &&& info.stime_ns == spec_or(self.stime, 0)
        &&& info.vsize_bytes == self.spec_vsize_bytes()
        &&& info.rss_pages == self.spec_rss()
        &&& info.start_time_ns == spec_or(self.start_time, 0)
        &&& info.comm@ == match self.comm {
            Ok(c) => c@,
            Err(_) => spec_no_name(),
        }
        &&& info.prio == spec_or(self.prio, DEFAULT_PRIO)
        &&& info.static_prio == spec_or(self.static_prio, DEFAULT_PRIO)
        &&& info.shmem_pages == self.spec_shmem()
        &&& info.cgroup_id == spec_or(spec_read_cgroup_id(self.cgroup), 0)
    }
}

fn or_u32(r: Result<u32, i64>, default: u32) -> (v: u32)
    ensures
        v == spec_or(r, default),
{
    match r {
        Ok(v) => v,
        Err(_) => default,
    }
}

fn or_i32(r: Result<i32, i64>, default: i32) -> (v: i32)
    ensures
        v == spec_or(r, default),
{
    match r {
        Ok(v) => v,
        Err(_) => default,
    }
}

fn or_u64(r: Result<u64, i64>, default: u64) -> (v: u64)
    ensures
        v == spec_or(r, default),
{
    match r {
        Ok(v) => v,
        Err(_) => default,
    }
}

fn or_i64(r: Result<i64, i64>, default: i64) -> (v: i64)
    ensures
        v == spec_or(r, default),
{
    match r {
        Ok(v) => v,
        Err(_) => default,
    }
}

fn clamp_pages(count: i64) -> (pages: u64)
    ensures
        pages == spec_clamp_pages(count),
{
    if count > 0 {
        count as u64
    } else {
        0
    }
}

/// Follows the chain from the task to the id of its cgroup directory.
pub fn read_cgroup_id(chain: &CgroupChain) -> (id: Result<u64, i64>)
    ensures
        id == spec_read_cgroup_id(*chain),
{
    match chain {
        Hop::Failed(e) => Err(*e),
        Hop::Null => Ok(0),
        Hop::At(cgrp) => match cgrp {
            Hop::Failed(e) => Err(*e),
            Hop::Null => Ok(0),
            Hop::At(kn) => match kn {
                Hop::Failed(e) => Err(*e),
                Hop::Null => Ok(0),
                Hop::At(id) => *id,
            },
        },
    }
}

/// Assembles the record of one task from the outcome of its reads.
pub fn task_record(reads: &TaskReads) -> (info: TaskInfo)
    ensures
        reads.describes(info),
{
    let tgid: i32 = or_i32(reads.tgid, 0);
    let tid: i32 = or_i32(reads.tid, 0);
    let ppid: u32 = match reads.parent {
        Hop::At(parent_tgid) => or_i32(parent_tgid, 0) as u32,
        _ => 0,
    };
    let (euid, ruid): (u32, u32) = match reads.cred {
        Hop::At(c) => (or_u32(c.euid, 0), or_u32(c.uid, 0)),
        _ => (0, 0),
    };
    let state: u32 = or_u32(reads.state, 0);
    let (vsize, rss_pages, shmem_pages): (u64, u64, u64) = match reads.mm {
        Hop::At(mm) => {
            let total_vm: u64 = or_u64(mm.total_vm, 0);
            let file: u64 = clamp_pages(or_i64(mm.file_count, 0));
            let anon: u64 = clamp_pages(or_i64(mm.anon_count, 0));
            let shmem: u64 = clamp_pages(or_i64(mm.shmem_count, 0));
            (total_vm.wrapping_mul(KERNEL_PAGE_SIZE), file + anon, shmem)
        },
        _ => (0, 0, 0),
    };
    let comm: [u8; 16] = match reads.comm {
        Ok(c) => c,
        Err(_) => [0u8; 16],
    };
    let cgroup_id: u64 = or_u64(read_cgroup_id(&reads.cgroup), 0);
    let info = TaskInfo {
        pid: tgid as u32,
        tid: tid as u32,
        ppid,
        euid,
        ruid,
        state: #[verifier::truncate]
        (state as u8),
        _pad: [0u8; 3],
        utime_ns: or_u64(reads.utime, 0),
        stime_ns: or_u64(reads.stime, 0),
        vsize_bytes: vsize,
        rss_pages,
        start_time_ns: or_u64(reads.start_time, 0),
        comm,
        prio: or_i32(reads.prio, DEFAULT_PRIO),
        static_prio: or_i32(reads.static_prio, DEFAULT_PRIO),
        shmem_pages,
        cgroup_id,
    };
    assert(info._pad@ =~= Seq::new(3, |i: int| 0u8));
    assert(reads.comm is Err ==> info.comm@ =~= spec_no_name());
    info
}

/// What the kernel hands to one invocation of the iterator, as addresses.
#[derive(Debug, Clone, Copy, PartialEq, Eq, Structural)]
pub struct IterTaskCtx {
    /// Where the description of the output channel lies.
    pub meta: u64,
    /// Where the task lies; zero once the walk is over.
    pub task: u64,
}

impl IterTaskCtx {
    /// The task that the invocation is for, none at the end of the walk.
    pub fn current_task(&self) -> (task: Option<u64>)
        ensures
            task == if self.task == 0 {
                None::<u64>
            } else {
                Some(self.task)
            },
    {
        if self.task == 0 {
            None
        } else {
            Some(self.task)
        }
    }
}

/// What one invocation of the iterator does.
#[derive(Debug, Clone, Copy, PartialEq, Eq)]
pub struct IterStep {
    /// The record to write to the output channel, if any.
    pub record: Option<TaskInfo>,
    /// Code handed back to the kernel.
    pub code: i32,
}

/// One invocation of the iterator: `None` means that the kernel passed no
/// task, which ends the walk; a task is always turned into a record.
pub fn dump_task(task: Option<&TaskReads>) -> (step: IterStep)
    ensures
        task is None ==> step.record is None && step.code == ITER_STOP,
        task matches Some(reads) ==> step.code == ITER_CONTINUE && step.record is Some
            && reads.describes(step.record->0),
{
    match task {
        None => IterStep { record: None, code: ITER_STOP },
        Some(reads) => IterStep { record: Some(task_record(reads)), code: ITER_CONTINUE },
    }
}

/// Code handed back to the kernel once the record went to the output
/// channel. A write that the channel refused (a negative result) skips the
/// record and does not end the walk.
pub fn after_write(write_result: i64) -> (code: i32)
    ensures
        code == ITER_CONTINUE,
{
    ITER_CONTINUE
}

/// A task without a memory descriptor, or whose descriptor cannot be
/// reached, reports no virtual, resident or shared memory.
pub proof fn lemma_no_mm_no_memory(reads: TaskReads, info: TaskInfo)
    requires
        reads.describes(info),
        !(reads.mm is At),
    ensures
        info.vsize_bytes == 0,
        info.rss_pages == 0,
        info.shmem_pages == 0,
{
}

/// The resident page count is the exact sum of the two clamped counters: the
/// sum of two clamped counters fits the field.
pub proof fn lemma_rss_is_exact_sum(mm: MmReads)
    ensures
        spec_rss_pages(mm) == spec_clamp_pages(spec_or(mm.file_count, 0)) + spec_clamp_pages(
            spec_or(mm.anon_count, 0),
        ),
{
}

} // verus!
