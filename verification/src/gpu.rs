//! What the GPUs report, joined by process.
//!
//! A process can show up on a device as a compute and as a graphics client.
//! On one device it is counted once, with the larger of its amounts of
//! memory; over the devices its memory and its shares are summed.

use vstd::prelude::*;
use std::collections::HashMap;
use crate::collector::ProcessGpuUsage;
use crate::system::{spec_add_sat, GpuDeviceInfo};
use crate::text::{push_decimal, spec_decimal};

verus! {

broadcast use vstd::std_specs::hash::group_hash_axioms;

/// A process that runs on a device.
#[derive(Debug, Clone, Copy, PartialEq, Eq, Structural)]
pub struct GpuClient {
    pub pid: u32,
    /// Device memory in use, zero where the driver does not say.
    pub used_memory: u64,
}

/// The share of a device that a process used since the last poll.
#[derive(Debug, Clone, Copy, PartialEq, Eq, Structural)]
pub struct GpuUtilization {
    pub pid: u32,
    /// Share of the multiprocessors in percent.
    pub sm_util: u32,
}

/// What one device answered to one poll. A query that failed leaves its part
/// empty.
#[derive(Debug)]
pub struct GpuDeviceSample {
    pub index: u32,
    pub name: Option<String>,
    /// Utilization of the device in percent.
    pub utilization: Option<u32>,
    /// Memory in use and in all, in bytes.
    pub memory: Option<(u64, u64)>,
    /// Compute clients, then graphics clients.
    pub clients: Vec<GpuClient>,
    pub utilizations: Vec<GpuUtilization>,
}

/// Thousandths of a percent in one percent.
pub const MILLIS_PER_PERCENT: u64 = 1000;

/// The largest amount of memory among the first `n` clients of a device that
/// belong to the process; zero where none does.
pub open spec fn spec_device_memory(clients: Seq<GpuClient>, pid: u32, n: int) -> u64
    decreases n,
{
    if n <= 0 {
        0
    } else {
        let rest = spec_device_memory(clients, pid, n - 1);
        if clients[n - 1].pid == pid && clients[n - 1].used_memory > rest {
            clients[n - 1].used_memory
        } else {
            rest
        }
    }
}

/// The share of a device, in thousandths of a percent, that the first `n`
/// utilization samples give the process.
pub open spec fn spec_device_share(samples: Seq<GpuUtilization>, pid: u32, n: int) -> u64
    decreases n,
{
    if n <= 0 {
        0
    } else if samples[n - 1].pid == pid {
        spec_add_sat(
            spec_device_share(samples, pid, n - 1),
            (samples[n - 1].sm_util * MILLIS_PER_PERCENT) as u64,
        )
    } else {
        spec_device_share(samples, pid, n - 1)
    }
}

/// What the first `n` devices report about a process: its memory and its
/// shares, summed over the devices.
pub open spec fn spec_usage(devices: Seq<GpuDeviceSample>, pid: u32, n: int) -> ProcessGpuUsage
    decreases n,
{
    if n <= 0 {
        ProcessGpuUsage { gpu_percent: 0, gpu_mem_bytes: 0 }
    } else {
        let sum = spec_usage(devices, pid, n - 1);
        let d = devices[n - 1];
        ProcessGpuUsage {
            gpu_percent: spec_add_sat(
                sum.gpu_percent,
                spec_device_share(d.utilizations@, pid, d.utilizations@.len() as int),
            ),
            gpu_mem_bytes: spec_add_sat(
                sum.gpu_mem_bytes,
                spec_device_memory(d.clients@, pid, d.clients@.len() as int),
            ),
        }
    }
}

/// Whether a device names the process, as a client or in a utilization
/// sample.
pub open spec fn spec_names(d: GpuDeviceSample, pid: u32) -> bool {
    (exists|i: int| 0 <= i < d.clients@.len() && (#[trigger] d.clients@[i]).pid == pid) || (exists|
        i: int,
    | 0 <= i < d.utilizations@.len() && (#[trigger] d.utilizations@[i]).pid == pid)
}

/// Whether one of the first `n` devices names the process.
pub open spec fn spec_named(devices: Seq<GpuDeviceSample>, pid: u32, n: int) -> bool {
    exists|k: int| 0 <= k < n && spec_names(#[trigger] devices[k], pid)
}

/// The name shown for a device that does not tell its name.
pub open spec fn spec_fallback_name(index: u32) -> Seq<char> {
    seq!['G', 'P', 'U', ' '] + spec_decimal(index as nat)
}

/// What the header shows of a device.
pub open spec fn spec_device_info(d: GpuDeviceSample, info: GpuDeviceInfo) -> bool {
    &&& info.index == d.index
    &&& info.name@ == match d.name {
        Some(n) => n@,
        None => spec_fallback_name(d.index),
    }
    &&& info.utilization_pct == match d.utilization {
        Some(u) => u,
        None => 0,
    }
    &&& info.memory_used == match d.memory {
        Some(m) => m.0,
        None => 0,
    }
    &&& info.memory_total == match d.memory {
        Some(m) => m.1,
        None => 0,
    }
}

fn device_memory(clients: &Vec<GpuClient>, pid: u32) -> (m: u64)
    ensures
        m == spec_device_memory(clients@, pid, clients@.len() as int),
{
    let mut m: u64 = 0;
    let mut i: usize = 0;
    while i < clients.len()
        invariant
            i <= clients.len(),
            m == spec_device_memory(clients@, pid, i as int),
        decreases clients.len() - i,
    {
        if clients[i].pid == pid && clients[i].used_memory > m {
            m = clients[i].used_memory;
        }
        i += 1;
    }
    m
}

fn device_share(samples: &Vec<GpuUtilization>, pid: u32) -> (s: u64)
    ensures
        s == spec_device_share(samples@, pid, samples@.len() as int),
{
    let mut s: u64 = 0;
    let mut i: usize = 0;
    while i < samples.len()
        invariant
            i <= samples.len(),
            s == spec_device_share(samples@, pid, i as int),
        decreases samples.len() - i,
    {
        if samples[i].pid == pid {
            s = s.saturating_add(samples[i].sm_util as u64 * MILLIS_PER_PERCENT);
        }
        i += 1;
    }
    s
}

/// What the devices report about one process.
pub fn usage_of(devices: &[GpuDeviceSample], pid: u32) -> (u: ProcessGpuUsage)
    ensures
        u == spec_usage(devices@, pid, devices@.len() as int),
{
    let mut u = ProcessGpuUsage { gpu_percent: 0, gpu_mem_bytes: 0 };
    let mut k: usize = 0;
    while k < devices.len()
        invariant
            k <= devices.len(),
            u == spec_usage(devices@, pid, k as int),
        decreases devices.len() - k,
    {
        let d = &devices[k];
        u = ProcessGpuUsage {
            gpu_percent: u.gpu_percent.saturating_add(device_share(&d.utilizations, pid)),
            gpu_mem_bytes: u.gpu_mem_bytes.saturating_add(device_memory(&d.clients, pid)),
        };
        k += 1;
    }
    u
}

/// What the header shows of a device.
pub fn device_info(d: &GpuDeviceSample) -> (info: GpuDeviceInfo)
    ensures
        spec_device_info(*d, info),
{
    let name: String = match &d.name {
        Some(n) => n.clone(),
        None => {
            let mut s = String::new();
            s.push('G');
            s.push('P');
            s.push('U');
            s.push(' ');
            push_decimal(&mut s, d.index as u64);
            assert(s@ =~= spec_fallback_name(d.index));
            s
        },
    };
    let (memory_used, memory_total): (u64, u64) = match d.memory {
        Some(m) => m,
        None => (0, 0),
    };
    GpuDeviceInfo {
        index: d.index,
        name,
        utilization_pct: match d.utilization {
            Some(u) => u,
            None => 0,
        },
        memory_used,
        memory_total,
    }
}

/// Joins what the devices answered to one poll: what the header shows of
/// each device, and the usage of every process that a device names.
pub fn collect(devices: &[GpuDeviceSample]) -> (r: (Vec<GpuDeviceInfo>, HashMap<u32, ProcessGpuUsage>))
    ensures
        r.0@.len() == devices@.len(),
        forall|k: int| 0 <= k < devices@.len() ==> spec_device_info(devices@[k], #[trigger] r.0@[k]),
        forall|pid: u32|
            #[trigger] r.1@.contains_key(pid) == spec_named(devices@, pid, devices@.len() as int),
        forall|pid: u32|
            #[trigger] r.1@.contains_key(pid) ==> r.1@[pid] == spec_usage(
                devices@,
                pid,
                devices@.len() as int,
            ),
{
    let mut infos: Vec<GpuDeviceInfo> = Vec::new();
    let mut usage: HashMap<u32, ProcessGpuUsage> = HashMap::new();
    let n = devices.len();
    let mut k: usize = 0;
    while k < n
        invariant
            k <= n,
            n == devices@.len(),
            infos@.len() == k,
            forall|j: int| 0 <= j < k ==> spec_device_info(devices@[j], #[trigger] infos@[j]),
            forall|pid: u32| #[trigger] usage@.contains_key(pid) == spec_named(devices@, pid, k as int),
            forall|pid: u32|
                #[trigger] usage@.contains_key(pid) ==> usage@[pid] == spec_usage(
                    devices@,
                    pid,
                    n as int,
                ),
        decreases n - k,
    {
        let d = &devices[k];
        infos.push(device_info(d));
        let mut i: usize = 0;
        while i < d.clients.len()
            invariant
                i <= d.clients.len(),
                k < n,
                n == devices@.len(),
                *d == devices@[k as int],
                forall|pid: u32|
                    #[trigger] usage@.contains_key(pid) == (spec_named(devices@, pid, k as int)
                        || exists|j: int| 0 <= j < i && (#[trigger] d.clients@[j]).pid == pid),
                forall|pid: u32|
                    #[trigger] usage@.contains_key(pid) ==> usage@[pid] == spec_usage(
                        devices@,
                        pid,
                        n as int,
                    ),
            decreases d.clients.len() - i,
        {
            let pid = d.clients[i].pid;
            if !usage.contains_key(&pid) {
                usage.insert(pid, usage_of(devices, pid));
            }
            i += 1;
        }
        let mut i: usize = 0;
        while i < d.utilizations.len()
            invariant
                i <= d.utilizations.len(),
                k < n,
                n == devices@.len(),
                *d == devices@[k as int],
                forall|pid: u32|
                    #[trigger] usage@.contains_key(pid) == (spec_named(devices@, pid, k as int)
                        || (exists|j: int|
                        0 <= j < d.clients@.len() && (#[trigger] d.clients@[j]).pid == pid)
                        || exists|j: int| 0 <= j < i && (#[trigger] d.utilizations@[j]).pid == pid),
                forall|pid: u32|
                    #[trigger] usage@.contains_key(pid) ==> usage@[pid] == spec_usage(
                        devices@,
                        pid,
                        n as int,
                    ),
            decreases d.utilizations.len() - i,
        {
            let pid = d.utilizations[i].pid;
            if !usage.contains_key(&pid) {
                usage.insert(pid, usage_of(devices, pid));
            }
            i += 1;
        }
        assert forall|pid: u32| #[trigger]
            usage@.contains_key(pid) == spec_named(devices@, pid, k + 1) by {
            if spec_named(devices@, pid, k as int) {
                let j = choose|j: int| 0 <= j < k && spec_names(#[trigger] devices@[j], pid);
                assert(spec_names(devices@[j], pid));
            }
            if spec_names(*d, pid) {
                assert(spec_names(devices@[k as int], pid));
            }
            if spec_named(devices@, pid, k + 1) {
                let j = choose|j: int| 0 <= j < k + 1 && spec_names(#[trigger] devices@[j], pid);
                if j < k {
                    assert(spec_named(devices@, pid, k as int));
                }
            }
        }
        k += 1;
    }
    (infos, usage)
}

} // verus!
