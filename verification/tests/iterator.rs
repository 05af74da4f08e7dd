use bpftop::iterator::{
    after_write, dump_task, read_cgroup_id, task_record, CredReads, Hop, IterTaskCtx, MmReads,
    TaskReads, DEFAULT_PRIO, ITER_CONTINUE, ITER_STOP,
};
use bpftop::offsets::{field_address, Arch, KernelOffsets};

fn healthy() -> TaskReads {
    let mut comm = [0u8; 16];
    comm[..3].copy_from_slice(b"cat");
    TaskReads {
        tgid: Ok(100),
        tid: Ok(101),
        parent: Hop::At(Ok(1)),
        cred: Hop::At(CredReads { euid: Ok(1000), uid: Ok(1001) }),
        state: Ok(1),
        utime: Ok(10),
        stime: Ok(20),
        prio: Ok(110),
        static_prio: Ok(115),
        mm: Hop::At(MmReads {
            total_vm: Ok(7),
            file_count: Ok(3),
            anon_count: Ok(4),
            shmem_count: Ok(2),
        }),
        start_time: Ok(99),
        comm: Ok(comm),
        cgroup: Hop::At(Hop::At(Hop::At(Ok(4242)))),
    }
}

#[test]
fn healthy_task_is_reported_in_full() {
    let info = task_record(&healthy());
    assert_eq!(info.pid, 100);
    assert_eq!(info.tid, 101);
    assert_eq!(info.ppid, 1);
    assert_eq!(info.euid, 1000);
    assert_eq!(info.ruid, 1001);
    assert_eq!(info.state, 1);
    assert_eq!(info._pad, [0, 0, 0]);
    assert_eq!(info.utime_ns, 10);
    assert_eq!(info.stime_ns, 20);
    assert_eq!(info.vsize_bytes, 7 * 4096);
    assert_eq!(info.rss_pages, 7);
    assert_eq!(info.shmem_pages, 2);
    assert_eq!(info.start_time_ns, 99);
    assert_eq!(&info.comm[..4], b"cat\0");
    assert_eq!(info.prio, 110);
    assert_eq!(info.static_prio, 115);
    assert_eq!(info.cgroup_id, 4242);
}

#[test]
fn null_memory_descriptor_reports_no_memory() {
    let mut reads = healthy();
    reads.mm = Hop::Null;
    let info = task_record(&reads);
    assert_eq!((info.vsize_bytes, info.rss_pages, info.shmem_pages), (0, 0, 0));
    assert_eq!(info.pid, 100);
}

#[test]
fn unreadable_memory_descriptor_reports_no_memory() {
    let mut reads = healthy();
    reads.mm = Hop::Failed(-14);
    let info = task_record(&reads);
    assert_eq!((info.vsize_bytes, info.rss_pages, info.shmem_pages), (0, 0, 0));
}

#[test]
fn negative_page_counters_are_clamped_before_summing() {
    let mut reads = healthy();
    reads.mm = Hop::At(MmReads {
        total_vm: Ok(1),
        file_count: Ok(-5),
        anon_count: Ok(9),
        shmem_count: Ok(-1),
    });
    let info = task_record(&reads);
    assert_eq!(info.rss_pages, 9);
    assert_eq!(info.shmem_pages, 0);
}

#[test]
fn largest_page_counters_do_not_overflow() {
    let mut reads = healthy();
    reads.mm = Hop::At(MmReads {
        total_vm: Ok(u64::MAX),
        file_count: Ok(i64::MAX),
        anon_count: Ok(i64::MAX),
        shmem_count: Ok(i64::MAX),
    });
    let info = task_record(&reads);
    assert_eq!(info.rss_pages, 2 * (i64::MAX as u64));
    assert_eq!(info.shmem_pages, i64::MAX as u64);
    assert_eq!(info.vsize_bytes, u64::MAX.wrapping_mul(4096));
}

#[test]
fn failed_reads_degrade_to_defaults() {
    let reads = TaskReads {
        tgid: Err(-1),
        tid: Err(-1),
        parent: Hop::At(Err(-1)),
        cred: Hop::At(CredReads { euid: Err(-1), uid: Err(-1) }),
        state: Err(-1),
        utime: Err(-1),
        stime: Err(-1),
        prio: Err(-1),
        static_prio: Err(-1),
        mm: Hop::At(MmReads {
            total_vm: Err(-1),
            file_count: Err(-1),
            anon_count: Err(-1),
            shmem_count: Err(-1),
        }),
        start_time: Err(-1),
        comm: Err(-1),
        cgroup: Hop::At(Hop::At(Hop::At(Err(-1)))),
    };
    let info = task_record(&reads);
    assert_eq!(info.pid, 0);
    assert_eq!(info.tid, 0);
    assert_eq!(info.ppid, 0);
    assert_eq!(info.euid, 0);
    assert_eq!(info.ruid, 0);
    assert_eq!(info.state, 0);
    assert_eq!(info.utime_ns, 0);
    assert_eq!(info.stime_ns, 0);
    assert_eq!(info.prio, DEFAULT_PRIO);
    assert_eq!(info.static_prio, 120);
    assert_eq!(info.vsize_bytes, 0);
    assert_eq!(info.rss_pages, 0);
    assert_eq!(info.comm, [0u8; 16]);
    assert_eq!(info.cgroup_id, 0);
}

#[test]
fn null_parent_and_credentials_give_zero() {
    let mut reads = healthy();
    reads.parent = Hop::Null;
    reads.cred = Hop::Null;
    let info = task_record(&reads);
    assert_eq!(info.ppid, 0);
    assert_eq!((info.euid, info.ruid), (0, 0));
}

#[test]
fn state_keeps_its_low_byte() {
    let mut reads = healthy();
    reads.state = Ok(0x0102);
    assert_eq!(task_record(&reads).state, 2);
}

#[test]
fn cgroup_chain_short_circuits() {
    assert_eq!(read_cgroup_id(&Hop::Null), Ok(0));
    assert_eq!(read_cgroup_id(&Hop::Failed(-14)), Err(-14));
    assert_eq!(read_cgroup_id(&Hop::At(Hop::Null)), Ok(0));
    assert_eq!(read_cgroup_id(&Hop::At(Hop::Failed(-2))), Err(-2));
    assert_eq!(read_cgroup_id(&Hop::At(Hop::At(Hop::Null))), Ok(0));
    assert_eq!(read_cgroup_id(&Hop::At(Hop::At(Hop::Failed(-3)))), Err(-3));
    assert_eq!(read_cgroup_id(&Hop::At(Hop::At(Hop::At(Err(-4))))), Err(-4));
    assert_eq!(read_cgroup_id(&Hop::At(Hop::At(Hop::At(Ok(77))))), Ok(77));
    let mut reads = healthy();
    reads.cgroup = Hop::At(Hop::Failed(-2));
    assert_eq!(task_record(&reads).cgroup_id, 0);
}

#[test]
fn no_task_stops_the_walk() {
    let step = dump_task(None);
    assert_eq!(step.code, ITER_STOP);
    assert_eq!(step.code, 1);
    assert!(step.record.is_none());
}

#[test]
fn a_task_continues_the_walk() {
    let reads = healthy();
    let step = dump_task(Some(&reads));
    assert_eq!(step.code, ITER_CONTINUE);
    assert_eq!(step.record, Some(task_record(&reads)));
    assert_eq!(after_write(-1), 0);
    assert_eq!(after_write(0), 0);
}

#[test]
fn offset_tables() {
    let x = KernelOffsets::for_arch(Arch::X86_64);
    let a = KernelOffsets::for_arch(Arch::Aarch64);
    assert_eq!(x.task_mm, 1712);
    assert_eq!(a.task_mm, 1616);
    assert_eq!(x.task_tgid, 1844);
    assert_eq!(a.task_tgid, 1748);
    assert_eq!(x.mm_rss_anon_count - x.mm_rss_file_count, 40);
    assert_eq!(a.mm_rss_shmem_count - a.mm_rss_file_count, 120);
    assert_eq!(x.css_set_dfl_cgrp, 136);
    assert_eq!(a.css_set_dfl_cgrp, 120);
    assert_eq!(x.task_state, a.task_state);
    assert_eq!(x.netdev_ifindex, 224);
    assert_eq!(field_address(0x1000, 24), 0x1018);
    assert_eq!(field_address(u64::MAX, 1), 0);
}

#[test]
fn iterator_context_names_the_task() {
    assert_eq!(IterTaskCtx { meta: 8, task: 0 }.current_task(), None);
    assert_eq!(IterTaskCtx { meta: 8, task: 0xffff_0000 }.current_task(), Some(0xffff_0000));
}
