use bpftop::records::{
    parse_cmdline, parse_net_stats, parse_task, parse_tasks, serialize_cmdline,
    serialize_net_stats, serialize_task, CmdlineEvent, NetStats, RecordError, TaskInfo,
    CMDLINE_EVENT_SIZE, FILE_INFO_SIZE, NET_STATS_SIZE, TASK_INFO_SIZE,
};

fn sample_task() -> TaskInfo {
    let mut comm = [0u8; 16];
    comm[..4].copy_from_slice(b"bash");
    TaskInfo {
        pid: 100,
        tid: 100,
        ppid: 1,
        euid: 1000,
        ruid: 1001,
        state: 1,
        _pad: [0; 3],
        utime_ns: 5_000_000,
        stime_ns: 7_000_000,
        vsize_bytes: 4096 * 10,
        rss_pages: 3,
        start_time_ns: 123_456_789,
        comm,
        prio: 120,
        static_prio: -5,
        shmem_pages: 1,
        cgroup_id: 0x0102_0304_0506_0708,
    }
}

#[test]
fn task_image_round_trip() {
    let t = sample_task();
    let bytes = serialize_task(&t);
    assert_eq!(bytes.len(), TASK_INFO_SIZE);
    assert_eq!(parse_task(&bytes), t);
}

#[test]
fn task_image_is_the_c_layout() {
    let bytes = serialize_task(&sample_task());
    assert_eq!(&bytes[0..4], &[100, 0, 0, 0]);
    assert_eq!(&bytes[4..8], &[100, 0, 0, 0]);
    assert_eq!(&bytes[8..12], &[1, 0, 0, 0]);
    assert_eq!(&bytes[12..16], &1000u32.to_le_bytes());
    assert_eq!(&bytes[16..20], &1001u32.to_le_bytes());
    assert_eq!(bytes[20], 1);
    assert_eq!(&bytes[21..24], &[0, 0, 0]);
    assert_eq!(&bytes[24..32], &5_000_000u64.to_le_bytes());
    assert_eq!(&bytes[32..40], &7_000_000u64.to_le_bytes());
    assert_eq!(&bytes[40..48], &40960u64.to_le_bytes());
    assert_eq!(&bytes[48..56], &3u64.to_le_bytes());
    assert_eq!(&bytes[56..64], &123_456_789u64.to_le_bytes());
    assert_eq!(&bytes[64..68], b"bash");
    assert_eq!(&bytes[68..80], &[0u8; 12]);
    assert_eq!(&bytes[80..84], &120i32.to_le_bytes());
    assert_eq!(&bytes[84..88], &(-5i32).to_le_bytes());
    assert_eq!(&bytes[88..96], &1u64.to_le_bytes());
    assert_eq!(&bytes[96..104], &[8, 7, 6, 5, 4, 3, 2, 1]);
}

#[test]
fn record_sizes() {
    assert_eq!(TASK_INFO_SIZE, 104);
    assert_eq!(CMDLINE_EVENT_SIZE, 264);
    assert_eq!(NET_STATS_SIZE, 24);
    assert_eq!(FILE_INFO_SIZE, 304);
}

#[test]
fn every_image_parses_back_to_itself() {
    let mut bytes = vec![0u8; TASK_INFO_SIZE];
    for (i, b) in bytes.iter_mut().enumerate() {
        *b = (i * 7 + 3) as u8;
    }
    let t = parse_task(&bytes);
    assert_eq!(serialize_task(&t), bytes);
}

#[test]
fn parse_tasks_reads_every_record_in_order() {
    let mut a = sample_task();
    let mut b = sample_task();
    a.pid = 1;
    b.pid = 2;
    b.prio = -1;
    let mut buf = serialize_task(&a);
    buf.extend(serialize_task(&b));
    let tasks = parse_tasks(&buf).unwrap();
    assert_eq!(tasks, vec![a, b]);
}

#[test]
fn parse_tasks_of_nothing_is_nothing() {
    assert_eq!(parse_tasks(&[]).unwrap(), vec![]);
}

#[test]
fn parse_tasks_refuses_a_partial_record() {
    let mut buf = serialize_task(&sample_task());
    buf.push(0);
    assert_eq!(
        parse_tasks(&buf),
        Err(RecordError::SizeMismatch { len: 105, record_size: 104 })
    );
    assert_eq!(
        parse_tasks(&buf[..103]),
        Err(RecordError::SizeMismatch { len: 103, record_size: 104 })
    );
}

#[test]
fn cmdline_image_round_trip() {
    let mut cmdline = [0u8; 256];
    cmdline[..2].copy_from_slice(b"ls");
    cmdline[255] = 9;
    let e = CmdlineEvent { pid: 0x01020304, len: 2, cmdline };
    let bytes = serialize_cmdline(&e);
    assert_eq!(bytes.len(), CMDLINE_EVENT_SIZE);
    assert_eq!(&bytes[..10], &[4, 3, 2, 1, 2, 0, 0, 0, b'l', b's']);
    assert_eq!(bytes[263], 9);
    assert_eq!(parse_cmdline(&bytes), e);
}

#[test]
fn net_stats_image_round_trip() {
    let s = NetStats { tx_bytes: 1, rx_bytes: u64::MAX, ifindex: 7, _pad: 0 };
    let bytes = serialize_net_stats(&s);
    assert_eq!(bytes.len(), NET_STATS_SIZE);
    assert_eq!(&bytes[..8], &[1, 0, 0, 0, 0, 0, 0, 0]);
    assert_eq!(&bytes[8..16], &[0xff; 8]);
    assert_eq!(&bytes[16..], &[7, 0, 0, 0, 0, 0, 0, 0]);
    assert_eq!(parse_net_stats(&bytes), s);
}
