use bpftop::iterator::Hop;
use bpftop::probes::{
    account, capture_event, capture_plan, pid_of, read_sock_ifindex, received, ArgBounds,
    CopyRequest, KernelTables, PendingReceive, SockReads, CMDLINE_TABLE_CAPACITY,
    RECV_STASH_CAPACITY,
};
use bpftop::records::NetStats;
use bpftop::table::BoundedTable;

fn sock(ifindex: i32) -> SockReads {
    SockReads { dst: Hop::At(Hop::At(Ok(ifindex))), bound_dev_if: Ok(0) }
}

fn tid(pid: u32, thread: u32) -> u64 {
    ((pid as u64) << 32) | thread as u64
}

#[test]
fn pid_is_the_upper_half() {
    assert_eq!(pid_of(tid(300, 42)), 300);
    assert_eq!(pid_of(42), 0);
    assert_eq!(pid_of(u64::MAX), u32::MAX);
}

#[test]
fn capture_plan_needs_ordered_bounds() {
    let plan = |start: u64, end: u64| {
        capture_plan(&Hop::At(ArgBounds { arg_start: Ok(start), arg_end: Ok(end) }))
    };
    assert_eq!(plan(1000, 1010), Some(CopyRequest { src: 1000, max_len: 10 }));
    assert_eq!(plan(1000, 5000), Some(CopyRequest { src: 1000, max_len: 255 }));
    assert_eq!(plan(1000, 1255), Some(CopyRequest { src: 1000, max_len: 255 }));
    assert_eq!(plan(1000, 1254), Some(CopyRequest { src: 1000, max_len: 254 }));
    assert_eq!(plan(1000, 1000), None);
    assert_eq!(plan(1000, 999), None);
    assert_eq!(plan(0, 10), None);
    assert_eq!(capture_plan(&Hop::Null), None);
    assert_eq!(capture_plan(&Hop::Failed(-1)), None);
    assert_eq!(
        capture_plan(&Hop::At(ArgBounds { arg_start: Err(-1), arg_end: Ok(5) })),
        None
    );
    assert_eq!(
        capture_plan(&Hop::At(ArgBounds { arg_start: Ok(5), arg_end: Err(-1) })),
        None
    );
}

#[test]
fn capture_event_keeps_at_most_255_bytes() {
    let e = capture_event(7, Ok(b"ls"));
    assert_eq!(e.pid, 7);
    assert_eq!(e.len, 2);
    assert_eq!(&e.cmdline[..3], b"ls\0");
    assert!(e.cmdline[2..].iter().all(|b| *b == 0));
    let long = vec![b'x'; 300];
    let e = capture_event(7, Ok(&long));
    assert_eq!(e.len, 255);
    assert!(e.cmdline[..255].iter().all(|b| *b == b'x'));
    assert_eq!(e.cmdline[255], 0);
    let e = capture_event(7, Err(-1));
    assert_eq!(e.len, 0);
    assert_eq!(e.cmdline, [0u8; 256]);
}

#[test]
fn inverted_argument_bounds_capture_nothing() {
    let mut t = KernelTables::new();
    let mm = Hop::At(ArgBounds { arg_start: Ok(2000), arg_end: Ok(2000) });
    assert_eq!(t.capture_cmdline(tid(300, 300), &mm, Ok(b"ignored")), 0);
    assert!(t.cmdlines.get(300).is_none());
    let mm = Hop::At(ArgBounds { arg_start: Ok(2000), arg_end: Ok(1000) });
    assert_eq!(t.capture_cmdline(tid(300, 300), &mm, Ok(b"ignored")), 0);
    assert!(t.cmdlines.get(300).is_none());
    assert_eq!(t.cmdlines.len(), 0);
}

#[test]
fn process_start_overwrites_a_stale_entry() {
    let mut t = KernelTables::new();
    let mm = Hop::At(ArgBounds { arg_start: Ok(2000), arg_end: Ok(2010) });
    t.capture_cmdline(tid(300, 300), &mm, Ok(b"old"));
    t.capture_cmdline(tid(300, 301), &mm, Ok(b"newer"));
    let e = t.cmdlines.get(300).unwrap();
    assert_eq!(e.len, 5);
    assert_eq!(&e.cmdline[..5], b"newer");
    assert_eq!(t.cmdlines.len(), 1);
}

#[test]
fn process_exit_drops_cmdline_and_counters() {
    let mut t = KernelTables::new();
    let mm = Hop::At(ArgBounds { arg_start: Ok(2000), arg_end: Ok(2010) });
    t.capture_cmdline(tid(300, 300), &mm, Ok(b"a"));
    t.capture_cmdline(tid(301, 301), &mm, Ok(b"b"));
    t.account_tx(tid(300, 300), 10, &sock(2));
    t.account_tx(tid(301, 301), 10, &sock(2));
    assert_eq!(t.cleanup_cmdline(tid(300, 5)), 0);
    assert!(t.cmdlines.get(300).is_none());
    assert!(t.net_stats.get(300).is_none());
    assert!(t.cmdlines.get(301).is_some());
    assert!(t.net_stats.get(301).is_some());
}

#[test]
fn interface_comes_from_route_then_bound_device() {
    assert_eq!(read_sock_ifindex(&sock(3)), 3);
    let s = SockReads { dst: Hop::At(Hop::At(Ok(0))), bound_dev_if: Ok(5) };
    assert_eq!(read_sock_ifindex(&s), 5);
    let s = SockReads { dst: Hop::At(Hop::At(Ok(-1))), bound_dev_if: Ok(5) };
    assert_eq!(read_sock_ifindex(&s), 5);
    let s = SockReads { dst: Hop::Null, bound_dev_if: Ok(6) };
    assert_eq!(read_sock_ifindex(&s), 6);
    let s = SockReads { dst: Hop::At(Hop::Null), bound_dev_if: Ok(7) };
    assert_eq!(read_sock_ifindex(&s), 7);
    let s = SockReads { dst: Hop::Failed(-1), bound_dev_if: Err(-1) };
    assert_eq!(read_sock_ifindex(&s), 0);
    let s = SockReads { dst: Hop::At(Hop::At(Err(-1))), bound_dev_if: Ok(-3) };
    assert_eq!(read_sock_ifindex(&s), 0);
}

#[test]
fn account_adds_and_keeps_the_interface() {
    let first = account(None, 100, 0, 2);
    assert_eq!(first, NetStats { tx_bytes: 100, rx_bytes: 0, ifindex: 2, _pad: 0 });
    let second = account(Some(&first), 0, 50, 0);
    assert_eq!(second, NetStats { tx_bytes: 100, rx_bytes: 50, ifindex: 2, _pad: 0 });
    let third = account(Some(&second), 1, 1, 9);
    assert_eq!(third, NetStats { tx_bytes: 101, rx_bytes: 51, ifindex: 9, _pad: 0 });
}

#[test]
fn counters_never_decrease() {
    let full = NetStats { tx_bytes: u64::MAX - 1, rx_bytes: u64::MAX, ifindex: 1, _pad: 0 };
    let next = account(Some(&full), 5, 5, 0);
    assert_eq!(next.tx_bytes, u64::MAX);
    assert_eq!(next.rx_bytes, u64::MAX);
    let mut t = KernelTables::new();
    let mut last = (0u64, 0u64);
    for size in [0u64, 1, 1000, u64::MAX / 2, u64::MAX / 2, 17] {
        t.kprobe_tcp_sendmsg(tid(9, 9), Some(&sock(1)), Some(size));
        t.kprobe_tcp_recvmsg(tid(9, 9), Some(0xdead));
        t.kretprobe_tcp_recvmsg(tid(9, 9), 100, &sock(1));
        let s = *t.net_stats.get(9).unwrap();
        assert!(s.tx_bytes >= last.0 && s.rx_bytes >= last.1);
        last = (s.tx_bytes, s.rx_bytes);
    }
    assert_eq!(last.0, u64::MAX);
    assert_eq!(last.1, 600);
}

#[test]
fn send_probes_account_on_entry() {
    let mut t = KernelTables::new();
    assert_eq!(t.kprobe_tcp_sendmsg(tid(5, 6), Some(&sock(2)), Some(100)), 0);
    assert_eq!(t.kprobe_udp_sendmsg(tid(5, 7), Some(&sock(0)), Some(11)), 0);
    assert_eq!(
        *t.net_stats.get(5).unwrap(),
        NetStats { tx_bytes: 111, rx_bytes: 0, ifindex: 2, _pad: 0 }
    );
    assert_eq!(t.kprobe_udp_sendmsg(tid(5, 7), None, Some(11)), 0);
    assert_eq!(t.kprobe_udp_sendmsg(tid(5, 7), Some(&sock(0)), None), 0);
    assert_eq!(t.net_stats.get(5).unwrap().tx_bytes, 111);
    assert_eq!(t.try_sendmsg(tid(5, 7), None, None), Err(-1));
}

#[test]
fn failed_receive_clears_the_stash_and_nothing_else() {
    let mut t = KernelTables::new();
    t.kprobe_tcp_sendmsg(tid(7, 7), Some(&sock(2)), Some(100));
    let before = *t.net_stats.get(7).unwrap();
    assert_eq!(t.kprobe_tcp_recvmsg(42, Some(0xffff_8000_0000_1000)), 0);
    assert_eq!(t.recv_stash.get(42), Some(&0xffff_8000_0000_1000));
    assert_eq!(t.kretprobe_tcp_recvmsg(42, -1, &sock(3)), 0);
    assert!(t.recv_stash.get(42).is_none());
    assert_eq!(t.recv_stash.len(), 0);
    assert_eq!(t.net_stats.len(), 1);
    assert_eq!(*t.net_stats.get(7).unwrap(), before);
    assert!(t.net_stats.get(0).is_none());
}

#[test]
fn empty_receive_accounts_nothing() {
    let mut t = KernelTables::new();
    t.kprobe_udp_recvmsg(tid(8, 8), Some(1));
    assert_eq!(t.kretprobe_udp_recvmsg(tid(8, 8), 0, &sock(3)), 0);
    assert!(t.recv_stash.get(tid(8, 8)).is_none());
    assert_eq!(t.net_stats.len(), 0);
}

#[test]
fn receive_accounts_at_return() {
    let mut t = KernelTables::new();
    t.kprobe_udp_recvmsg(tid(8, 8), Some(0x1000));
    assert_eq!(t.net_stats.len(), 0);
    t.kretprobe_udp_recvmsg(tid(8, 8), 512, &sock(3));
    assert_eq!(
        *t.net_stats.get(8).unwrap(),
        NetStats { tx_bytes: 0, rx_bytes: 512, ifindex: 3, _pad: 0 }
    );
    assert!(t.recv_stash.get(tid(8, 8)).is_none());
}

#[test]
fn receive_without_stash_knows_no_interface() {
    let mut t = KernelTables::new();
    t.kretprobe_tcp_recvmsg(tid(8, 8), 10, &sock(3));
    assert_eq!(
        *t.net_stats.get(8).unwrap(),
        NetStats { tx_bytes: 0, rx_bytes: 10, ifindex: 0, _pad: 0 }
    );
    t.kprobe_tcp_recvmsg(tid(8, 8), None);
    assert!(t.recv_stash.get(tid(8, 8)).is_none());
}

#[test]
fn receive_in_two_steps() {
    let mut t = KernelTables::new();
    t.try_stash_recv_sock(tid(1, 2), Some(77)).unwrap();
    assert_eq!(t.recv_return(tid(1, 2), 9), Some(PendingReceive { size: 9, sock: 77 }));
    assert_eq!(t.recv_return(tid(1, 2), 9), Some(PendingReceive { size: 9, sock: 0 }));
    t.try_stash_recv_sock(tid(1, 2), Some(77)).unwrap();
    assert_eq!(t.recv_return(tid(1, 2), -11), None);
    assert_eq!(t.pop_recv_sock(tid(1, 2)), 0);
    assert_eq!(received(i32::MAX), Some(i32::MAX as u64));
    assert_eq!(received(0), None);
    assert_eq!(received(i32::MIN), None);
    t.account_rx(tid(1, 2), 9, None);
    assert_eq!(t.net_stats.get(1).unwrap().rx_bytes, 9);
}

#[test]
fn a_full_table_drops_new_keys_silently() {
    let mut t: BoundedTable<u32> = BoundedTable::new(2);
    assert!(t.upsert(1, 10));
    assert!(t.upsert(2, 20));
    assert!(!t.upsert(3, 30));
    assert_eq!(t.len(), 2);
    assert!(t.get(3).is_none());
    assert!(t.upsert(2, 21));
    assert_eq!(t.get(2), Some(&21));
    assert_eq!(t.remove(1), Some(10));
    assert_eq!(t.remove(1), None);
    assert!(t.upsert(3, 30));
    assert!(t.contains_key(3));
    assert_eq!(t.capacity(), 2);
}

#[test]
fn table_capacities() {
    let t = KernelTables::new();
    assert_eq!(t.cmdlines.capacity(), CMDLINE_TABLE_CAPACITY);
    assert_eq!(t.cmdlines.capacity(), 32768);
    assert_eq!(t.net_stats.capacity(), 32768);
    assert_eq!(t.recv_stash.capacity(), RECV_STASH_CAPACITY);
    assert_eq!(t.recv_stash.capacity(), 8192);
}

#[test]
fn a_full_stash_drops_silently() {
    let mut t = KernelTables::new();
    for k in 0..(RECV_STASH_CAPACITY as u64) {
        t.kprobe_tcp_recvmsg(k, Some(k + 1));
    }
    assert_eq!(t.recv_stash.len(), RECV_STASH_CAPACITY);
    t.kprobe_tcp_recvmsg(1 << 40, Some(5));
    assert_eq!(t.recv_stash.len(), RECV_STASH_CAPACITY);
    assert!(t.recv_stash.get(1 << 40).is_none());
    t.kprobe_tcp_recvmsg(3, Some(99));
    assert_eq!(t.recv_stash.get(3), Some(&99));
}
