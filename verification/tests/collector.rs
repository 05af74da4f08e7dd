use std::collections::HashMap;

use bpftop::collector::{
    classify_tasks, comm_to_string, cpu_share, link_children, Collector, ProcessGpuUsage,
    SystemSample,
};
use bpftop::loader::{read_tasks, seed_cmdline};
use bpftop::process::{ProcessInfo, ProcessState};
use bpftop::records::{serialize_task, CmdlineEvent, RecordError, TaskInfo};
use bpftop::system::{CpuStats, MemoryInfo, SwapInfo};

fn comm(name: &str) -> [u8; 16] {
    let mut c = [0u8; 16];
    c[..name.len()].copy_from_slice(name.as_bytes());
    c
}

fn task(pid: u32, ppid: u32, name: &str) -> TaskInfo {
    TaskInfo {
        pid,
        tid: pid,
        ppid,
        euid: 1000,
        ruid: 1000,
        state: 1,
        _pad: [0; 3],
        utime_ns: 0,
        stime_ns: 0,
        vsize_bytes: 0,
        rss_pages: 0,
        start_time_ns: 0,
        comm: comm(name),
        prio: 120,
        static_prio: 120,
        shmem_pages: 0,
        cgroup_id: 0,
    }
}

fn cpu(user: u64, idle: u64) -> CpuStats {
    let mut c = CpuStats::zero();
    c.user = user;
    c.idle = idle;
    c
}

fn sample(total: CpuStats, cores: usize, mem_total: u64) -> SystemSample {
    let mut memory = MemoryInfo::zero();
    memory.total = mem_total;
    SystemSample {
        cpu_total: total,
        cpus: vec![CpuStats::zero(); cores],
        memory,
        swap: SwapInfo::zero(),
        load_avg: [52, 48, 40],
        uptime_centis: 123_456,
        gpus: Vec::new(),
    }
}

struct Lookups {
    cmdlines: HashMap<u32, CmdlineEvent>,
    users: HashMap<u32, String>,
    gpu: HashMap<u32, ProcessGpuUsage>,
}

fn lookups() -> Lookups {
    Lookups { cmdlines: HashMap::new(), users: HashMap::new(), gpu: HashMap::new() }
}

fn run(c: &mut Collector, s: SystemSample, tasks: &Vec<TaskInfo>, l: &Lookups) -> Vec<ProcessInfo> {
    c.collect(s, tasks, &l.cmdlines, &l.users, &l.gpu, None).1
}

#[test]
fn sleeping_process_without_tick_movement() {
    let mut c = Collector::new(4096, cpu(500, 500), Vec::new());
    let tasks = vec![task(100, 1, "sleeper")];
    let (sys, procs) =
        c.collect(sample(cpu(500, 500), 4, 1 << 30), &tasks, &HashMap::new(), &HashMap::new(), &HashMap::new(), None);
    assert_eq!(procs.len(), 1);
    let p = &procs[0];
    assert_eq!(p.pid, 100);
    assert_eq!(p.ppid, 1);
    assert_eq!(p.cpu_percent, 0);
    assert_eq!(p.mem_percent, 0);
    assert_eq!(p.state, ProcessState::Sleeping);
    assert_eq!(p.state.as_char(), 'S');
    assert_eq!(sys.total_tasks, 1);
    assert_eq!(sys.sleeping_tasks, 1);
    assert_eq!(sys.running_tasks, 0);
}

#[test]
fn one_tick_of_cpu_time_raises_only_that_process() {
    // a hundred ticks to the second: one tick is ten milliseconds
    let tick_ns = 10_000_000u64;
    let mut c = Collector::new(4096, cpu(1000, 1000), Vec::new());
    let l = lookups();
    let first = run(&mut c, sample(cpu(1100, 1100), 2, 0), &vec![task(100, 1, "a"), task(200, 1, "b")], &l);
    assert_eq!(first.iter().map(|p| p.cpu_percent).collect::<Vec<_>>(), vec![0, 0]);
    let mut a = task(100, 1, "a");
    a.utime_ns = tick_ns;
    let second = run(&mut c, sample(cpu(1200, 1200), 2, 0), &vec![a, task(200, 1, "b")], &l);
    assert_eq!(second.iter().map(|p| p.pid).collect::<Vec<_>>(), vec![100, 200]);
    // 200 ticks passed on two cores: one second on each; ten milliseconds are one percent
    assert_eq!(second[0].cpu_percent, 1000);
    assert_eq!(second[1].cpu_percent, 0);
    assert!(second[0].cpu_percent > first[0].cpu_percent);
    assert_eq!(second[1].cpu_percent, first[1].cpu_percent);
}

#[test]
fn cpu_share_formula() {
    assert_eq!(cpu_share(0, 0, 4), 0);
    assert_eq!(cpu_share(0, 100, 4), 0);
    assert_eq!(cpu_share(0, u64::MAX as u128, 0), 0);
    assert_eq!(cpu_share(123, 0, 4), 0);
    // one core, a hundred ticks: one second; half a second of CPU time is fifty percent
    assert_eq!(cpu_share(500_000_000, 100, 1), 50_000);
    assert_eq!(cpu_share(500_000_000, 100, 0), 50_000);
    // four cores share the hundred ticks: a quarter second each
    assert_eq!(cpu_share(250_000_000, 100, 4), 100_000);
    assert_eq!(cpu_share(1, 100, 1), 0);
    assert_eq!(cpu_share(u64::MAX, 1, usize::MAX), u64::MAX);
}

#[test]
fn memory_share_and_sizes() {
    let mut c = Collector::new(4096, cpu(0, 0), Vec::new());
    let mut t = task(5, 1, "mem");
    t.rss_pages = 256;
    t.shmem_pages = 2;
    t.vsize_bytes = 1 << 20;
    t.utime_ns = 1_500_000_000;
    t.stime_ns = 290_000_000;
    t.prio = 120;
    t.static_prio = 125;
    let procs = run(&mut c, sample(cpu(10, 10), 1, 4 << 20), &vec![t], &lookups());
    let p = &procs[0];
    assert_eq!(p.res_bytes, 1 << 20);
    assert_eq!(p.shr_bytes, 8192);
    assert_eq!(p.virt_bytes, 1 << 20);
    assert_eq!(p.mem_percent, 25_000);
    assert_eq!(p.cpu_time_centis, 179);
    assert_eq!(p.prev_cpu_ns, 1_790_000_000);
    assert_eq!(p.priority, 20);
    assert_eq!(p.nice, 5);
    assert_eq!(p.tid, 5);
    assert!(!p.is_thread);
    assert!(!p.tagged);
    assert_eq!(p.tree_prefix, "");
}

#[test]
fn extreme_values_do_not_overflow() {
    let mut c = Collector::new(u64::MAX, cpu(0, 0), Vec::new());
    let mut t = task(5, 1, "big");
    t.rss_pages = u64::MAX;
    t.utime_ns = u64::MAX;
    t.stime_ns = u64::MAX;
    t.prio = i32::MIN;
    t.static_prio = i32::MIN + 5;
    let procs = run(&mut c, sample(cpu(u64::MAX, u64::MAX), 1, 1), &vec![t], &lookups());
    let p = &procs[0];
    assert_eq!(p.res_bytes, u64::MAX);
    assert_eq!(p.prev_cpu_ns, u64::MAX);
    assert_eq!(p.priority, i32::MIN);
    assert_eq!(p.nice, i32::MIN);
    assert_eq!(p.mem_percent, u64::MAX);
}

#[test]
fn command_line_falls_back_to_the_name_in_brackets() {
    let mut c = Collector::new(4096, cpu(0, 0), Vec::new());
    let mut l = lookups();
    l.cmdlines.insert(10, seed_cmdline(10, "/usr/bin/top -d 1"));
    l.cmdlines.insert(11, seed_cmdline(11, "   "));
    let procs = run(
        &mut c,
        sample(cpu(1, 1), 1, 0),
        &vec![task(10, 1, "top"), task(11, 1, "blank"), task(300, 1, "processname")],
        &l,
    );
    assert_eq!(procs[0].cmdline, "/usr/bin/top -d 1");
    assert_eq!(procs[1].cmdline, "[blank]");
    assert_eq!(procs[2].cmdline, "[processname]");
    assert_eq!(procs[2].comm, "processname");
}

#[test]
fn user_name_falls_back_to_the_number() {
    let mut c = Collector::new(4096, cpu(0, 0), Vec::new());
    let mut l = lookups();
    l.users.insert(0, "root".to_string());
    let mut a = task(1, 0, "init");
    a.ruid = 0;
    let mut b = task(2, 1, "other");
    b.ruid = 4_000_000_000;
    let procs = run(&mut c, sample(cpu(1, 1), 1, 0), &vec![a, b], &l);
    assert_eq!(procs[0].user, "root");
    assert_eq!(procs[0].uid, 0);
    assert_eq!(procs[1].user, "4000000000");
}

#[test]
fn threads_are_counted_and_left_out() {
    let mut thread = task(100, 1, "worker");
    thread.tid = 101;
    let mut kthread = task(50, 2, "kworker");
    kthread.state = 0;
    let mut kthread_thread = task(50, 2, "kworker");
    kthread_thread.tid = 51;
    let kthreadd = task(2, 0, "kthreadd");
    let mut zombie = task(7, 1, "zombie");
    zombie.state = 4;
    let tasks = vec![task(100, 1, "main"), thread, kthread, kthread_thread, kthreadd, zombie];
    let counts = classify_tasks(&tasks);
    assert_eq!(counts.processes, 2);
    assert_eq!(counts.user_threads, 1);
    assert_eq!(counts.kernel_threads, 3);
    assert_eq!(counts.running, 1);
    assert_eq!(counts.sleeping, 2);
    let mut c = Collector::new(4096, cpu(0, 0), Vec::new());
    let (sys, procs) =
        c.collect(sample(cpu(1, 1), 1, 0), &tasks, &HashMap::new(), &HashMap::new(), &HashMap::new(), None);
    assert_eq!(procs.iter().map(|p| p.pid).collect::<Vec<_>>(), vec![100, 50, 2, 7]);
    assert_eq!(
        procs.iter().map(|p| p.is_kernel_thread).collect::<Vec<_>>(),
        vec![false, true, true, false]
    );
    assert_eq!(procs[3].state, ProcessState::Zombie);
    assert_eq!((sys.total_tasks, sys.user_threads, sys.kernel_threads), (2, 1, 3));
    assert_eq!((sys.running_tasks, sys.sleeping_tasks), (1, 2));
    assert_eq!(sys.load_avg, [52, 48, 40]);
    assert_eq!(sys.uptime_centis, 123_456);
}

#[test]
fn children_follow_the_parents_in_the_snapshot() {
    let mut c = Collector::new(4096, cpu(0, 0), Vec::new());
    let tasks = vec![
        task(1, 0, "init"),
        task(30, 1, "c"),
        task(20, 1, "b"),
        task(40, 20, "d"),
        task(50, 999, "orphan"),
        task(60, 60, "self"),
    ];
    let procs = run(&mut c, sample(cpu(1, 1), 1, 0), &tasks, &lookups());
    assert_eq!(procs[0].children, vec![30, 20]);
    assert_eq!(procs[1].children, Vec::<u32>::new());
    assert_eq!(procs[2].children, vec![40]);
    assert_eq!(procs[4].children, Vec::<u32>::new());
    assert_eq!(procs[5].children, Vec::<u32>::new());
    let mut again = procs.clone();
    again[0].children = vec![7, 7, 7];
    link_children(&mut again);
    assert_eq!(again[0].children, vec![30, 20]);
}

#[test]
fn gpu_usage_is_joined_by_process() {
    let mut c = Collector::new(4096, cpu(0, 0), Vec::new());
    let mut l = lookups();
    l.gpu.insert(10, ProcessGpuUsage { gpu_percent: 12_000, gpu_mem_bytes: 1 << 30 });
    let procs = run(&mut c, sample(cpu(1, 1), 1, 0), &vec![task(10, 1, "cuda"), task(11, 1, "cpu")], &l);
    assert_eq!((procs[0].gpu_percent, procs[0].gpu_mem_bytes), (12_000, 1 << 30));
    assert_eq!((procs[1].gpu_percent, procs[1].gpu_mem_bytes), (0, 0));
}

#[test]
fn system_shares_come_from_the_tick_deltas() {
    let mut prev = CpuStats::zero();
    prev.user = 100;
    prev.system = 50;
    prev.idle = 800;
    prev.iowait = 50;
    let mut now = prev;
    now.user = 150;
    now.system = 75;
    now.idle = 900;
    now.iowait = 75;
    now.calc_percentages(&prev);
    assert_eq!(now.total_ticks(), 1200);
    assert_eq!(now.busy_ticks(), 225);
    assert_eq!(now.user_pct, 25_000);
    assert_eq!(now.system_pct, 12_500);
    assert_eq!(now.idle_pct, 50_000);
    assert_eq!(now.iowait_pct, 12_500);
    assert_eq!(now.nice_pct, 0);
    assert_eq!(now.total_pct, 37_500);
    let mut same = now;
    same.calc_percentages(&now);
    assert_eq!(same, now);
}

#[test]
fn collector_carries_the_counters_to_the_next_cycle() {
    let mut c = Collector::new(4096, cpu(0, 0), vec![cpu(0, 0)]);
    let mut s = sample(cpu(100, 100), 0, 0);
    s.cpus = vec![cpu(50, 50), cpu(50, 50)];
    let mut t = task(9, 1, "x");
    t.utime_ns = 77;
    let (sys, _) = c.collect(s, &vec![t], &HashMap::new(), &HashMap::new(), &HashMap::new(), None);
    assert_eq!(sys.cpus[0].user_pct, 50_000);
    assert_eq!(sys.cpus[1].user_pct, 0);
    assert_eq!(c.prev_cpu_total.user, 100);
    assert_eq!(c.prev_cpus.len(), 2);
    assert_eq!(c.prev_proc_times.get(&9), Some(&77));
    assert_eq!(c.page_size, 4096);
    let noop = Collector::noop();
    assert_eq!(noop.page_size, 4096);
    assert!(noop.prev_proc_times.is_empty());
}

#[test]
fn container_is_resolved_from_the_cgroup_walk() {
    let mut c = Collector::new(4096, cpu(0, 0), Vec::new());
    let walk = vec![
        (5u64, "/system.slice/docker-0123456789abcdef0123.scope".to_string()),
        (6u64, "/user.slice".to_string()),
    ];
    let mut a = task(1, 0, "a");
    a.cgroup_id = 5;
    let mut b = task(2, 0, "b");
    b.cgroup_id = 6;
    let mut d = task(3, 0, "d");
    d.cgroup_id = 7;
    let tasks = vec![a, b, d];
    let l = lookups();
    // the walk is taken on the tenth cycle only
    for _ in 0..9 {
        let procs = c.collect(sample(cpu(1, 1), 1, 0), &tasks, &l.cmdlines, &l.users, &l.gpu, Some(&walk)).1;
        assert_eq!(procs[0].container, None);
        assert_eq!(procs[0].cgroup_path, "");
    }
    assert!(c.cgroup_resolver.refresh_due());
    let procs = c.collect(sample(cpu(1, 1), 1, 0), &tasks, &l.cmdlines, &l.users, &l.gpu, Some(&walk)).1;
    assert_eq!(procs[0].container, Some("0123456789ab".to_string()));
    assert_eq!(procs[0].cgroup_path, "/system.slice/docker-0123456789abcdef0123.scope");
    assert_eq!(procs[1].container, None);
    assert_eq!(procs[1].cgroup_path, "/user.slice");
    assert_eq!(procs[2].container, None);
    assert_eq!(procs[2].cgroup_path, "");
    assert!(!c.cgroup_resolver.refresh_due());
}

#[test]
fn process_name_stops_at_the_first_nul() {
    assert_eq!(comm_to_string(&comm("bash")), "bash");
    assert_eq!(comm_to_string(&[0u8; 16]), "");
    assert_eq!(comm_to_string(&[b'a'; 16]), "aaaaaaaaaaaaaaaa");
    let mut c = comm("ab");
    c[3] = b'z';
    assert_eq!(comm_to_string(&c), "ab");
    let mut bad = [0u8; 16];
    bad[0] = 0xff;
    bad[1] = b'x';
    assert_eq!(comm_to_string(&bad), "\u{fffd}x");
}

#[test]
fn missing_iterator_means_degraded_mode() {
    let read = read_tasks(None).unwrap();
    assert!(read.degraded);
    assert!(read.tasks.is_empty());
    let mut c = Collector::new(4096, cpu(0, 0), Vec::new());
    let (sys, procs) =
        c.collect(sample(cpu(10, 10), 2, 100), &read.tasks, &HashMap::new(), &HashMap::new(), &HashMap::new(), None);
    assert!(procs.is_empty());
    assert_eq!(sys.total_tasks, 0);
    assert_eq!(sys.memory.total, 100);
    assert_eq!(sys.cpu_total.user_pct, 50_000);
}

#[test]
fn iterator_output_of_the_wrong_size_fails_the_cycle() {
    let mut buf = serialize_task(&task(1, 0, "a"));
    let read = read_tasks(Some(&buf)).unwrap();
    assert!(!read.degraded);
    assert_eq!(read.tasks, vec![task(1, 0, "a")]);
    buf.pop();
    match read_tasks(Some(&buf)) {
        Err(RecordError::SizeMismatch { len, record_size }) => {
            assert_eq!((len, record_size), (103, 104));
        }
        Ok(_) => panic!("a partial record was accepted"),
    }
}
