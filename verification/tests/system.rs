use bpftop::diagnose::{
    comm_str, sample_stats, validate_alignment, validate_elf, validate_sample, SampleStats, Tally,
};
use bpftop::gpu::{collect, device_info, usage_of, GpuClient, GpuDeviceSample, GpuUtilization};
use bpftop::records::TaskInfo;
use bpftop::system::{
    parse_cpu_line, read_cpu_stats, read_load_avg, read_memory_info, read_uptime,
    read_zram_stats, BlockDevice, ZramStats,
};
use bpftop::text::{lines, parse_hundredths, parse_u64, tokens};

fn c(s: &str) -> Vec<char> {
    s.chars().collect()
}

fn words(s: &str) -> Vec<String> {
    tokens(&c(s)).into_iter().map(|w| w.into_iter().collect()).collect()
}

fn split_lines(s: &str) -> Vec<String> {
    lines(&c(s)).into_iter().map(|w| w.into_iter().collect()).collect()
}

#[test]
fn words_are_split_at_white_space() {
    assert_eq!(words("cpu  1 2\t3\n"), vec!["cpu", "1", "2", "3"]);
    assert_eq!(words(""), Vec::<String>::new());
    assert_eq!(words("   "), Vec::<String>::new());
    assert_eq!(words("a"), vec!["a"]);
    assert_eq!(words(" a\u{a0}b "), vec!["a", "b"]);
    for s in ["cpu  1 2\t3\n", " x  y", "MemTotal:  16 kB", "\u{2003}q\u{3000}"] {
        let reference: Vec<String> = s.split_whitespace().map(|w| w.to_string()).collect();
        assert_eq!(words(s), reference, "{s:?}");
    }
}

#[test]
fn lines_are_split_at_newlines() {
    assert_eq!(split_lines("a\nb\n"), vec!["a", "b"]);
    assert_eq!(split_lines("a\nb"), vec!["a", "b"]);
    assert_eq!(split_lines("a\r\nb\r\n"), vec!["a", "b"]);
    assert_eq!(split_lines("\n\nx"), vec!["", "", "x"]);
    assert_eq!(split_lines(""), Vec::<String>::new());
    assert_eq!(split_lines("\n"), vec![""]);
    for s in ["a\nb\n", "a\r\nb", "x\r", "\r\n", "a\n\r\nb\r", "one", "\n\n", "a\rb\n"] {
        let reference: Vec<String> = s.lines().map(|w| w.to_string()).collect();
        assert_eq!(split_lines(s), reference, "{s:?}");
    }
}

#[test]
fn numbers_with_a_point_are_read_as_hundredths() {
    assert_eq!(parse_hundredths(&c("0.52")), Some(52));
    assert_eq!(parse_hundredths(&c("12.00")), Some(1200));
    assert_eq!(parse_hundredths(&c("12")), Some(1200));
    assert_eq!(parse_hundredths(&c("12.")), Some(1200));
    assert_eq!(parse_hundredths(&c(".5")), Some(50));
    assert_eq!(parse_hundredths(&c("+1.5")), Some(150));
    assert_eq!(parse_hundredths(&c("1.239")), Some(123));
    assert_eq!(parse_hundredths(&c("12345.67")), Some(1234567));
    assert_eq!(parse_hundredths(&c("")), None);
    assert_eq!(parse_hundredths(&c(".")), None);
    assert_eq!(parse_hundredths(&c("-1.0")), None);
    assert_eq!(parse_hundredths(&c("1.2.3")), None);
    assert_eq!(parse_hundredths(&c("1e3")), None);
    assert_eq!(parse_hundredths(&c("1.x")), None);
    assert_eq!(parse_hundredths(&c("184467440737095516.15")), Some(u64::MAX));
    assert_eq!(parse_hundredths(&c("184467440737095516.16")), None);
    assert_eq!(parse_hundredths(&c("99999999999999999999999")), None);
    assert_eq!(parse_u64(&c("18446744073709551615")), Some(u64::MAX));
    assert_eq!(parse_u64(&c("18446744073709551616")), None);
    assert_eq!(parse_u64(&c("+0")), Some(0));
    assert_eq!(parse_u64(&c("")), None);
}

#[test]
fn cpu_line() {
    let s = parse_cpu_line(&c("cpu  100 5 50 800 25 3 2 1 0 0"));
    assert_eq!(
        (s.user, s.nice, s.system, s.idle, s.iowait, s.irq, s.softirq, s.steal),
        (100, 5, 50, 800, 25, 3, 2, 1)
    );
    assert_eq!(s.total_ticks(), 986);
    assert_eq!((s.user_pct, s.total_pct), (0, 0));
    let s = parse_cpu_line(&c("cpu7 1 2 3"));
    assert_eq!((s.user, s.nice, s.system, s.idle, s.steal), (1, 2, 3, 0, 0));
    let s = parse_cpu_line(&c("cpu 1 x 2 -3 4"));
    assert_eq!((s.user, s.nice, s.system, s.idle), (1, 2, 4, 0));
    let s = parse_cpu_line(&c("5 6 7"));
    assert_eq!((s.user, s.nice, s.system), (6, 7, 0));
    let s = parse_cpu_line(&c(""));
    assert_eq!(s.total_ticks(), 0);
}

#[test]
fn cpu_statistics() {
    let content = "cpu  10 0 5 100 0 0 0 0 0 0\ncpu0 6 0 3 50 0 0 0 0 0 0\ncpu1 4 0 2 50 0 0 0 0 0 0\nintr 12345\nctxt 1\ncpufreq 9\n";
    let (total, cpus) = read_cpu_stats(content);
    assert_eq!((total.user, total.system, total.idle), (10, 5, 100));
    assert_eq!(cpus.len(), 3);
    assert_eq!((cpus[0].user, cpus[1].user, cpus[2].user), (6, 4, 9));
    let (total, cpus) = read_cpu_stats("");
    assert_eq!(total.total_ticks(), 0);
    assert!(cpus.is_empty());
    let (total, _) = read_cpu_stats("cpu  1\ncpu  2\n");
    assert_eq!(total.user, 2);
}

#[test]
fn memory_statistics() {
    let content = "MemTotal:       16000000 kB\nMemFree:         1000000 kB\nMemAvailable:    9000000 kB\nBuffers:          500000 kB\nCached:          4000000 kB\nSwapCached:            0 kB\nSReclaimable:     250000 kB\nSwapTotal:       8000000 kB\nSwapFree:        6000000 kB\nHugePages_Total:       0\nBogus\nMemFree: x kB\n";
    let zram = ZramStats { orig: 300, compr: 100, mem_used: 120 };
    let (mem, swap) = read_memory_info(content, zram);
    assert_eq!(mem.total, 16_000_000 * 1024);
    assert_eq!(mem.free, 1_000_000 * 1024);
    assert_eq!(mem.available, 9_000_000 * 1024);
    assert_eq!(mem.buffers, 500_000 * 1024);
    assert_eq!(mem.cached, 4_000_000 * 1024);
    assert_eq!(mem.s_reclaimable, 250_000 * 1024);
    assert_eq!(mem.used, (16_000_000 - 1_000_000 - 500_000 - 4_000_000 - 250_000) * 1024);
    assert_eq!(mem.zram_mem_used, 120);
    assert_eq!(swap.total, 8_000_000 * 1024);
    assert_eq!(swap.free, 6_000_000 * 1024);
    assert_eq!(swap.used, 2_000_000 * 1024);
    assert_eq!((swap.zram_orig, swap.zram_compr), (300, 100));
    assert_eq!(swap.zram_compression_ratio(), Some(3000));
    let (mem, swap) = read_memory_info(
        "MemTotal 5\nMemTotal:: 7 kB\nMemFree: 99999999999999999999\nSwapFree: 18446744073709551615\nCached: 9\n",
        ZramStats { orig: 0, compr: 0, mem_used: 0 },
    );
    assert_eq!(mem.total, 7 * 1024);
    assert_eq!(mem.free, 0);
    assert_eq!(mem.cached, 9 * 1024);
    assert_eq!(mem.used, 0);
    assert_eq!(swap.free, u64::MAX);
    assert_eq!(swap.used, 0);
}

#[test]
fn compressed_swap_statistics() {
    let dev = |name: &str, mm_stat: Option<&str>| BlockDevice {
        name: name.to_string(),
        mm_stat: mm_stat.map(|s| s.to_string()),
    };
    let devices = vec![
        dev("sda", Some("1 2 3")),
        dev("zram0", Some("1000 400 500 0 600 0 0 0 0\n")),
        dev("zram1", Some("10 4 5")),
        dev("zram2", Some("10 4")),
        dev("zram3", Some("10 x 5 6")),
        dev("zram4", None),
        dev("zram5", Some("")),
    ];
    assert_eq!(read_zram_stats(&devices), ZramStats { orig: 1010, compr: 404, mem_used: 505 });
    assert_eq!(read_zram_stats(&[]), ZramStats { orig: 0, compr: 0, mem_used: 0 });
    let big = vec![dev("zram0", Some("18446744073709551615 1 1")), dev("zram1", Some("5 1 1"))];
    assert_eq!(read_zram_stats(&big), ZramStats { orig: u64::MAX, compr: 2, mem_used: 2 });
}

#[test]
fn load_and_uptime() {
    assert_eq!(read_load_avg("0.52 0.48 0.40 2/1234 56789\n"), [52, 48, 40]);
    assert_eq!(read_load_avg("12.5 x"), [1250, 0, 0]);
    assert_eq!(read_load_avg(""), [0, 0, 0]);
    assert_eq!(read_uptime("12345.67 54321.00\n"), 1_234_567);
    assert_eq!(read_uptime(""), 0);
    assert_eq!(read_uptime("up"), 0);
}

fn device(index: u32, clients: &[(u32, u64)], utilizations: &[(u32, u32)]) -> GpuDeviceSample {
    GpuDeviceSample {
        index,
        name: Some(format!("card{index}")),
        utilization: Some(40),
        memory: Some((1 << 30, 8 << 30)),
        clients: clients.iter().map(|&(pid, used_memory)| GpuClient { pid, used_memory }).collect(),
        utilizations: utilizations
            .iter()
            .map(|&(pid, sm_util)| GpuUtilization { pid, sm_util })
            .collect(),
    }
}

#[test]
fn gpu_usage_is_the_larger_on_a_device_and_summed_over_devices() {
    let devices = vec![
        device(0, &[(10, 100), (11, 7), (10, 300), (10, 200)], &[(10, 50), (12, 5), (10, 1)]),
        device(1, &[(10, 1000), (13, 0)], &[(11, 9)]),
    ];
    let (infos, usage) = collect(&devices);
    assert_eq!(infos.len(), 2);
    assert_eq!(infos[1].index, 1);
    assert_eq!(infos[1].name, "card1");
    assert_eq!(infos[1].utilization_pct, 40);
    assert_eq!((infos[1].memory_used, infos[1].memory_total), (1 << 30, 8 << 30));
    let mut pids: Vec<u32> = usage.keys().copied().collect();
    pids.sort();
    assert_eq!(pids, vec![10, 11, 12, 13]);
    assert_eq!((usage[&10].gpu_mem_bytes, usage[&10].gpu_percent), (1300, 51_000));
    assert_eq!((usage[&11].gpu_mem_bytes, usage[&11].gpu_percent), (7, 9_000));
    assert_eq!((usage[&12].gpu_mem_bytes, usage[&12].gpu_percent), (0, 5_000));
    assert_eq!((usage[&13].gpu_mem_bytes, usage[&13].gpu_percent), (0, 0));
    assert_eq!(usage_of(&devices, 99).gpu_mem_bytes, 0);
    let (infos, usage) = collect(&[]);
    assert!(infos.is_empty() && usage.is_empty());
    let big = vec![device(0, &[(1, u64::MAX)], &[]), device(1, &[(1, 5)], &[(1, u32::MAX)])];
    let u = usage_of(&big, 1);
    assert_eq!(u.gpu_mem_bytes, u64::MAX);
    assert_eq!(u.gpu_percent, u32::MAX as u64 * 1000);
}

#[test]
fn gpu_without_answers_gets_defaults() {
    let d = GpuDeviceSample {
        index: 3,
        name: None,
        utilization: None,
        memory: None,
        clients: Vec::new(),
        utilizations: Vec::new(),
    };
    let info = device_info(&d);
    assert_eq!(info.name, "GPU 3");
    assert_eq!(info.utilization_pct, 0);
    assert_eq!((info.memory_used, info.memory_total), (0, 0));
}

#[test]
fn object_file_is_checked() {
    assert_eq!(validate_elf(&[]), Err("eBPF binary too small: 0 bytes".to_string()));
    assert_eq!(validate_elf(&[0x7f; 15]), Err("eBPF binary too small: 15 bytes".to_string()));
    let mut obj = vec![0u8; 64];
    obj[..4].copy_from_slice(b"\x7fELF");
    assert_eq!(validate_elf(&obj), Ok("valid ELF, 64 bytes".to_string()));
    obj[3] = b'G';
    assert_eq!(validate_elf(&obj), Err("Not an ELF: magic=7f 45 4c 47".to_string()));
    assert_eq!(validate_elf(&[0xab; 16]), Err("Not an ELF: magic=ab ab ab ab".to_string()));
    assert_eq!(validate_elf(&[0x05; 16]), Err("Not an ELF: magic=05 05 05 05".to_string()));
}

fn record(pid: u32, name: &str, rss: u64) -> TaskInfo {
    let mut comm = [0u8; 16];
    comm[..name.len()].copy_from_slice(name.as_bytes());
    TaskInfo {
        pid,
        tid: pid,
        ppid: 0,
        euid: 0,
        ruid: 0,
        state: 0,
        _pad: [0; 3],
        utime_ns: 0,
        stime_ns: 0,
        vsize_bytes: 0,
        rss_pages: rss,
        start_time_ns: 0,
        comm,
        prio: 0,
        static_prio: 0,
        shmem_pages: 0,
        cgroup_id: 0,
    }
}

#[test]
fn samples_are_judged() {
    assert_eq!(
        validate_alignment(105),
        Err("BPF-side TaskInfo size differs! remainder=1 (BPF writes different size)".to_string())
    );
    assert_eq!(validate_alignment(0), Err("0 tasks parsed despite non-zero bytes".to_string()));
    assert_eq!(validate_alignment(208), Ok("2 tasks, alignment OK".to_string()));
    let tasks = vec![record(1, "init", 5), record(2, "", 0), record(0, "", 0), record(0, "x", 1)];
    let stats = sample_stats(&tasks);
    assert_eq!(
        stats,
        SampleStats { total: 4, nonzero_pids: 2, nonzero_comm: 2, nonzero_rss: 2, all_zero: 1 }
    );
    assert_eq!(
        validate_sample(&stats),
        Ok("data looks valid: 2 tasks with PIDs, 2 with comms".to_string())
    );
    let zeros = sample_stats(&[record(0, "", 0), record(0, "", 0)]);
    assert_eq!(
        validate_sample(&zeros),
        Err("ALL entries are zeros — task pointer offset is wrong in IterTaskCtx".to_string())
    );
    assert_eq!(validate_sample(&sample_stats(&[])), validate_sample(&zeros));
    let nameless = sample_stats(&[record(1, "", 0)]);
    assert_eq!(
        validate_sample(&nameless),
        Err("All comms are empty — TASK_COMM offset is likely wrong".to_string())
    );
    let few = sample_stats(&[record(0, "a", 0), record(0, "b", 0), record(0, "c", 0), record(1, "d", 0)]);
    assert_eq!(
        validate_sample(&few),
        Err("Only 1/4 have non-zero PIDs — check field offsets".to_string())
    );
    assert_eq!(comm_str(&record(1, "bash", 0).comm), "bash");
    let mut tally = Tally { pass: 0, fail: 0 };
    tally.report(true);
    tally.report(true);
    assert_eq!(tally.exit_code(), 0);
    tally.report(false);
    assert_eq!((tally.pass, tally.fail, tally.exit_code()), (2, 1, 1));
}
