//! Byte offsets of the kernel structure fields that the kernel-side programs
//! read.
//!
//! The offsets belong to one kernel build and one architecture. They are
//! regenerated from the kernel's type information when the kernel changes, and
//! one table is chosen when the programs are built.

use vstd::prelude::*;

verus! {

/// Architectures that an offset table exists for.
#[derive(Debug, Clone, Copy, PartialEq, Eq, Structural)]
pub enum Arch {
    X86_64,
    Aarch64,
}

/// Where each field that is read lives inside its kernel structure.
#[derive(Debug, Clone, Copy, PartialEq, Eq, Structural)]
pub struct KernelOffsets {
    // task
    pub task_state: usize,
    pub task_prio: usize,
    pub task_static_prio: usize,
    pub task_mm: usize,
    pub task_pid: usize,
    pub task_tgid: usize,
    pub task_real_parent: usize,
    pub task_utime: usize,
    pub task_stime: usize,
    pub task_start_time: usize,
    pub task_cred: usize,
    pub task_comm: usize,
    pub task_cgroups: usize,
    // memory descriptor
    pub mm_total_vm: usize,
    pub mm_arg_start: usize,
    pub mm_arg_end: usize,
    pub mm_rss_file_count: usize,
    pub mm_rss_anon_count: usize,
    pub mm_rss_shmem_count: usize,
    // cgroup membership
    pub css_set_dfl_cgrp: usize,
    pub cgroup_kn: usize,
    pub kn_id: usize,
    // credentials
    pub cred_uid: usize,
    pub cred_euid: usize,
    // network
    pub sock_dst_cache: usize,
    pub sock_bound_dev_if: usize,
    pub dst_dev: usize,
    pub netdev_ifindex: usize,
}

/// Distance in bytes between two neighbours in the array of per-CPU page
/// counters of a memory descriptor.
pub const RSS_COUNTER_STRIDE: usize = 40;

/// The offset table of `arch`.
pub open spec fn spec_offsets(arch: Arch) -> KernelOffsets {
    match arch {
        Arch::X86_64 => KernelOffsets {
            task_state: 24,
            task_prio: 124,
            task_static_prio: 128,
            task_mm: 1712,
            task_pid: 1840,
            task_tgid: 1844,
            task_real_parent: 1856,
            task_utime: 2064,
            task_stime: 2072,
            task_start_time: 2184,
            task_cred: 2368,
            task_comm: 2384,
            task_cgroups: 2872,
            mm_total_vm: 248,
            mm_arg_start: 368,
            mm_arg_end: 376,
            mm_rss_file_count: 824,
            mm_rss_anon_count: 864,
            mm_rss_shmem_count: 944,
            css_set_dfl_cgrp: 136,
            cgroup_kn: 256,
            kn_id: 96,
            cred_uid: 8,
            cred_euid: 24,
            sock_dst_cache: 528,
            sock_bound_dev_if: 20,
            dst_dev: 0,
            netdev_ifindex: 224,
        },
        Arch::Aarch64 => KernelOffsets {
            task_state: 24,
            task_prio: 124,
            task_static_prio: 128,
            task_mm: 1616,
            task_pid: 1744,
            task_tgid: 1748,
            task_real_parent: 1760,
            task_utime: 1968,
            task_stime: 1976,
            task_start_time: 2088,
            task_cred: 2272,
            task_comm: 2288,
            task_cgroups: 2744,
            mm_total_vm: 232,
            mm_arg_start: 352,
            mm_arg_end: 360,
            mm_rss_file_count: 792,
            mm_rss_anon_count: 832,
            mm_rss_shmem_count: 912,
            css_set_dfl_cgrp: 120,
            cgroup_kn: 256,
            kn_id: 96,
            cred_uid: 8,
            cred_euid: 24,
            sock_dst_cache: 528,
            sock_bound_dev_if: 20,
            dst_dev: 0,
            netdev_ifindex: 224,
        },
    }
}

impl KernelOffsets {
    /// What every table must satisfy: the thread id sits right before the
    /// process id, user time right before system time, the argument bounds
    /// side by side, and the page counters one and three strides after the
    /// file-backed one.
    pub open spec fn consistent(self) -> bool {
        &&& self.task_tgid == self.task_pid + 4
        &&& self.task_stime == self.task_utime + 8
        &&& self.mm_arg_end == self.mm_arg_start + 8
        &&& self.mm_rss_anon_count == self.mm_rss_file_count + RSS_COUNTER_STRIDE
        &&& self.mm_rss_shmem_count == self.mm_rss_file_count + 3 * RSS_COUNTER_STRIDE
    }

    /// The offset table of `arch`.
    pub fn for_arch(arch: Arch) -> (t: KernelOffsets)
        ensures
            t == spec_offsets(arch),
            t.consistent(),
    {
        match arch {
            Arch::X86_64 => KernelOffsets {
                task_state: 24,
                task_prio: 124,
                task_static_prio: 128,
                task_mm: 1712,
                task_pid: 1840,
                task_tgid: 1844,
                task_real_parent: 1856,
                task_utime: 2064,
                task_stime: 2072,
                task_start_time: 2184,
                task_cred: 2368,
                task_comm: 2384,
                task_cgroups: 2872,
                mm_total_vm: 248,
                mm_arg_start: 368,
                mm_arg_end: 376,
                mm_rss_file_count: 824,
                mm_rss_anon_count: 864,
                mm_rss_shmem_count: 944,
                css_set_dfl_cgrp: 136,
                cgroup_kn: 256,
                kn_id: 96,
                cred_uid: 8,
                cred_euid: 24,
                sock_dst_cache: 528,
                sock_bound_dev_if: 20,
                dst_dev: 0,
                netdev_ifindex: 224,
            },
            Arch::Aarch64 => KernelOffsets {
                task_state: 24,
                task_prio: 124,
                task_static_prio: 128,
                task_mm: 1616,
                task_pid: 1744,
                task_tgid: 1748,
                task_real_parent: 1760,
                task_utime: 1968,
                task_stime: 1976,
                task_start_time: 2088,
                task_cred: 2272,
                task_comm: 2288,
                task_cgroups: 2744,
                mm_total_vm: 232,
                mm_arg_start: 352,
                mm_arg_end: 360,
                mm_rss_file_count: 792,
                mm_rss_anon_count: 832,
                mm_rss_shmem_count: 912,
                css_set_dfl_cgrp: 120,
                cgroup_kn: 256,
                kn_id: 96,
                cred_uid: 8,
                cred_euid: 24,
                sock_dst_cache: 528,
                sock_bound_dev_if: 20,
                dst_dev: 0,
                netdev_ifindex: 224,
            },
        }
    }
}

/// Address of the field that lies `offset` bytes into the structure at
/// `base`, computed as pointer arithmetic does: modulo the address space.
pub open spec fn spec_field_address(base: u64, offset: usize) -> u64 {
    ((base as nat + offset as nat) % 0x1_0000_0000_0000_0000) as u64
}

/// Address of the field that lies `offset` bytes into the structure at `base`.
pub fn field_address(base: u64, offset: usize) -> (addr: u64)
    ensures
        addr == spec_field_address(base, offset),
        base + offset <= u64::MAX ==> addr == base + offset,
{
    base.wrapping_add(offset as u64)
}

} // verus!
