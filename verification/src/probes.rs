//! The probes: command-line capture at process start, network byte accounting
//! at send and receive, and the clean-up at process exit.
//!
//! The tables that the probes share are held here as bounded stores. A table
//! that is full drops a new key without an error: the display then falls back
//! to what the task record holds.

use vstd::prelude::*;
use crate::iterator::{spec_or, Hop};
use crate::records::{CmdlineEvent, NetStats, CMDLINE_MAX_LEN};
use crate::table::BoundedTable;

verus! {

/// Entries of the command-line table.
pub const CMDLINE_TABLE_CAPACITY: usize = 32768;

/// Entries of the network counter table.
pub const NET_TABLE_CAPACITY: usize = 32768;

/// Entries of the table that carries a socket from the entry of a receive
/// call to its return.
pub const RECV_STASH_CAPACITY: usize = 8192;

/// Process id held in the upper half of the combined process/thread id.
pub open spec fn spec_pid_of(pid_tgid: u64) -> u32 {
    (pid_tgid >> 32) as u32
}

/// Process id of the task that the combined process/thread id names.
pub fn pid_of(pid_tgid: u64) -> (pid: u32)
    ensures
        pid == spec_pid_of(pid_tgid),
        pid as int == pid_tgid as int / 0x1_0000_0000,
{
    assert(pid_tgid >> 32 <= 0xffff_ffff) by (bit_vector);
    assert(pid_tgid >> 32 == pid_tgid / 0x1_0000_0000) by (bit_vector);
    (pid_tgid >> 32) as u32
}

// ---------------------------------------------------------------------------
// Command-line capture
// ---------------------------------------------------------------------------
/// Reads behind the memory-descriptor pointer of a freshly started process.
#[derive(Debug, Clone, Copy, PartialEq, Eq)]
pub struct ArgBounds {
    pub arg_start: Result<u64, i64>,
    pub arg_end: Result<u64, i64>,
}

/// The copy from user memory that a process start asks for.
#[derive(Debug, Clone, Copy, PartialEq, Eq, Structural)]
pub struct CopyRequest {
    /// Address of the first argument byte.
    pub src: u64,
    /// Most bytes to copy.
    pub max_len: usize,
}

/// The copy that a process start asks for: none where the memory descriptor
/// or a bound cannot be read, where there is no descriptor, or where the
/// bounds are empty or inverted; else from the start of the arguments, for
/// their length and at most 255 bytes.
pub open spec fn spec_capture_plan(mm: Hop<ArgBounds>) -> Option<CopyRequest> {
    match mm {
        Hop::At(b) => match (b.arg_start, b.arg_end) {
            (Ok(start), Ok(end)) => if start == 0 || end <= start {
                None
            } else {
                Some(
                    CopyRequest {
                        src: start,
                        max_len: if end - start < CMDLINE_MAX_LEN {
                            (end - start) as usize
                        } else {
                            CMDLINE_MAX_LEN
                        },
                    },
                )
            },
            _ => None,
        },
        _ => None,
    }
}

/// Decides whether a process start captures anything, and from where.
pub fn capture_plan(mm: &Hop<ArgBounds>) -> (plan: Option<CopyRequest>)
    ensures
        plan == spec_capture_plan(*mm),
{
    match mm {
        Hop::At(b) => match (b.arg_start, b.arg_end) {
            (Ok(start), Ok(end)) => {
                if start == 0 || end <= start {
                    None
                } else {
                    let span: u64 = end - start;
                    let max_len: usize = if span < CMDLINE_MAX_LEN as u64 {
                        span as usize
                    } else {
                        CMDLINE_MAX_LEN
                    };
                    Some(CopyRequest { src: start, max_len })
                }
            },
            _ => None,
        },
        _ => None,
    }
}

/// Number of bytes kept of what the copy returned.
pub open spec fn spec_captured_len(copied: Result<Seq<u8>, i64>) -> nat {
    match copied {
        Ok(bytes) => if bytes.len() < CMDLINE_MAX_LEN {
            bytes.len()
        } else {
            CMDLINE_MAX_LEN as nat
        },
        Err(_) => 0,
    }
}

/// Whether `event` is the entry made for `pid` when the copy from user memory
/// came out as `copied`: the bytes kept, then zeros. A failed copy still
/// makes an entry, of length zero.
pub open spec fn spec_is_capture(event: CmdlineEvent, pid: u32, copied: Result<Seq<u8>, i64>) -> bool {
    let n = spec_captured_len(copied);
    &&& event.pid == pid
    &&& event.len == n
    &&& forall|i: int| 0 <= i < n ==> event.cmdline@[i] == copied->Ok_0[i]
    &&& forall|i: int| n <= i < 256 ==> event.cmdline@[i] == 0
}

/// The view of a copy's outcome.
pub open spec fn spec_copied(copied: Result<&[u8], i64>) -> Result<Seq<u8>, i64> {
    match copied {
        Ok(b) => Ok(b@),
        Err(e) => Err(e),
    }
}

/// Builds the table entry of `pid` from what the copy returned.
pub fn capture_event(pid: u32, copied: Result<&[u8], i64>) -> (event: CmdlineEvent)
    ensures
        spec_is_capture(event, pid, spec_copied(copied)),
{
    let mut cmdline: [u8; 256] = [0u8; 256];
    let mut len: usize = 0;
    match copied {
        Ok(bytes) => {
            let n: usize = if bytes.len() < CMDLINE_MAX_LEN {
                bytes.len()
            } else {
                CMDLINE_MAX_LEN
            };
            while len < n
                invariant
                    len <= n <= CMDLINE_MAX_LEN,
                    n <= bytes.len(),
                    forall|i: int| 0 <= i < len ==> cmdline@[i] == bytes@[i],
                    forall|i: int| len <= i < 256 ==> cmdline@[i] == 0,
                decreases n - len,
            {
                cmdline[len] = bytes[len];
                len += 1;
            }
        },
        Err(_) => {},
    }
    CmdlineEvent { pid, len: len as u32, cmdline }
}

// ---------------------------------------------------------------------------
// Network accounting
// ---------------------------------------------------------------------------
/// Reads that resolve the interface of a socket.
#[derive(Debug, Clone, Copy, PartialEq, Eq)]
pub struct SockReads {
    /// The cached route, behind it the device, behind it the interface index.
    pub dst: Hop<Hop<Result<i32, i64>>>,
    /// Index of the device that the socket is bound to.
    pub bound_dev_if: Result<i32, i64>,
}

/// Interface index that the cached route gives: zero unless every hop can be
/// read, none is null and the index is positive.
pub open spec fn spec_route_ifindex(dst: Hop<Hop<Result<i32, i64>>>) -> u32 {
    match dst {
        Hop::At(dev) => match dev {
            Hop::At(ifidx) => if spec_or(ifidx, 0) > 0 {
                spec_or(ifidx, 0) as u32
            } else {
                0
            },
            _ => 0,
        },
        _ => 0,
    }
}

/// Interface of a socket: from the cached route, else from the bound device,
/// else zero.
pub open spec fn spec_sock_ifindex(sk: SockReads) -> u32 {
    if spec_route_ifindex(sk.dst) != 0 {
        spec_route_ifindex(sk.dst)
    } else if spec_or(sk.bound_dev_if, 0) > 0 {
        spec_or(sk.bound_dev_if, 0) as u32
    } else {
        0
    }
}

/// Resolves the interface index of a socket, best effort.
pub fn read_sock_ifindex(sk: &SockReads) -> (ifindex: u32)
    ensures
        ifindex == spec_sock_ifindex(*sk),
{
    match sk.dst {
        Hop::At(dev) => match dev {
            Hop::At(ifidx) => match ifidx {
                Ok(i) => {
                    if i > 0 {
                        return i as u32;
                    }
                },
                Err(_) => {},
            },
            _ => {},
        },
        _ => {},
    }
    match sk.bound_dev_if {
        Ok(bound) => if bound > 0 {
            bound as u32
        } else {
            0
        },
        Err(_) => 0,
    }
}

/// Sum of a counter and an increment, held at the largest value once reached.
pub open spec fn spec_add_bytes(counter: u64, more: u64) -> u64 {
    if counter + more > u64::MAX {
        u64::MAX
    } else {
        (counter + more) as u64
    }
}

/// Counters of a process after `tx` sent and `rx` received bytes were
/// observed on interface `ifindex`: added to what was there, or a fresh entry.
/// An unknown interface (zero) leaves the one on record.
pub open spec fn spec_account(prev: Option<NetStats>, tx: u64, rx: u64, ifindex: u32) -> NetStats {
    match prev {
        Some(s) => NetStats {
            tx_bytes: spec_add_bytes(s.tx_bytes, tx),
            rx_bytes: spec_add_bytes(s.rx_bytes, rx),
            ifindex: if ifindex != 0 {
                ifindex
            } else {
                s.ifindex
            },
            _pad: s._pad,
        },
        None => NetStats { tx_bytes: tx, rx_bytes: rx, ifindex, _pad: 0 },
    }
}

/// The entry that replaces `prev` after `tx` sent and `rx` received bytes.
pub fn account(prev: Option<&NetStats>, tx: u64, rx: u64, ifindex: u32) -> (next: NetStats)
    ensures
        next == spec_account(
            match prev {
                Some(s) => Some(*s),
                None => None,
            },
            tx,
            rx,
            ifindex,
        ),
{
    match prev {
        Some(s) => NetStats {
            tx_bytes: s.tx_bytes.saturating_add(tx),
            rx_bytes: s.rx_bytes.saturating_add(rx),
            ifindex: if ifindex != 0 {
                ifindex
            } else {
                s.ifindex
            },
            _pad: s._pad,
        },
        None => NetStats { tx_bytes: tx, rx_bytes: rx, ifindex, _pad: 0 },
    }
}

/// Bytes that a receive call delivered: its return value where that is
/// positive. An error or an empty read accounts nothing.
pub open spec fn spec_received(ret: i32) -> Option<u64> {
    if ret > 0 {
        Some(ret as u64)
    } else {
        None
    }
}

/// Bytes to account for a receive call that returned `ret`.
pub fn received(ret: i32) -> (size: Option<u64>)
    ensures
        size == spec_received(ret),
{
    if ret > 0 {
        Some(ret as u64)
    } else {
        None
    }
}

/// No counter of a process that is in both tables is smaller in `after`.
pub open spec fn spec_counters_kept(before: Map<u64, NetStats>, after: Map<u64, NetStats>) -> bool {
    forall|k: u64| #[trigger]
        before.contains_key(k) && after.contains_key(k) ==> before[k].tx_bytes <= after[k].tx_bytes
            && before[k].rx_bytes <= after[k].rx_bytes
}

/// The table after one upsert that may have been dropped for want of room.
pub open spec fn spec_upsert<V>(m: Map<u64, V>, capacity: usize, key: u64, value: V) -> Map<u64, V> {
    if m.contains_key(key) || m.len() < capacity {
        m.insert(key, value)
    } else {
        m
    }
}

/// The tables that the probes keep.
pub struct KernelTables {
    /// Captured command lines by process id.
    pub cmdlines: BoundedTable<CmdlineEvent>,
    /// Byte counters by process id.
    pub net_stats: BoundedTable<NetStats>,
    /// Socket of the receive call that a thread is in, by combined
    /// process/thread id.
    pub recv_stash: BoundedTable<u64>,
}

/// What a return probe of a receive call is left to account.
#[derive(Debug, Clone, Copy, PartialEq, Eq, Structural)]
pub struct PendingReceive {
    /// Bytes received.
    pub size: u64,
    /// The socket stashed at entry, zero where none was.
    pub sock: u64,
}

impl KernelTables {
    /// Every table is within its capacity.
    pub open spec fn wf(self) -> bool {
        &&& self.cmdlines.wf()
        &&& self.net_stats.wf()
        &&& self.recv_stash.wf()
    }

    /// The capacities never change.
    pub open spec fn same_capacities(self, other: KernelTables) -> bool {
        &&& self.cmdlines.spec_capacity() == other.cmdlines.spec_capacity()
        &&& self.net_stats.spec_capacity() == other.net_stats.spec_capacity()
        &&& self.recv_stash.spec_capacity() == other.recv_stash.spec_capacity()
    }

    /// The counters after a send probe ran for the thread `pid_tgid`.
    pub open spec fn spec_after_send(
        self,
        pid_tgid: u64,
        sk: Option<SockReads>,
        size: Option<u64>,
    ) -> Map<u64, NetStats> {
        match (sk, size) {
            (Some(s), Some(n)) => spec_upsert(
                self.net_stats@,
                self.net_stats.spec_capacity(),
                spec_pid_of(pid_tgid) as u64,
                spec_account(
                    self.net_stats@.get(spec_pid_of(pid_tgid) as u64),
                    n,
                    0,
                    spec_sock_ifindex(s),
                ),
            ),
            _ => self.net_stats@,
        }
    }

    /// The counters after the return probe of a receive call ran for the
    /// thread `pid_tgid`: untouched unless the call delivered bytes.
    pub open spec fn spec_after_recv(self, pid_tgid: u64, ret: i32, sock: SockReads) -> Map<
        u64,
        NetStats,
    > {
        if ret > 0 {
            spec_upsert(
                self.net_stats@,
                self.net_stats.spec_capacity(),
                spec_pid_of(pid_tgid) as u64,
                spec_account(
                    self.net_stats@.get(spec_pid_of(pid_tgid) as u64),
                    0,
                    ret as u64,
                    if self.recv_stash@.contains_key(pid_tgid) && self.recv_stash@[pid_tgid] != 0 {
                        spec_sock_ifindex(sock)
                    } else {
                        0
                    },
                ),
            )
        } else {
            self.net_stats@
        }
    }

    /// The stash after the entry probe of a receive call ran for the thread
    /// `pid_tgid`.
    pub open spec fn spec_after_recv_entry(self, pid_tgid: u64, sk: Option<u64>) -> Map<u64, u64> {
        match sk {
            Some(ptr) => spec_upsert(
                self.recv_stash@,
                self.recv_stash.spec_capacity(),
                pid_tgid,
                ptr,
            ),
            None => self.recv_stash@,
        }
    }

    /// Empty tables with the capacities that the programs are built with.
    pub fn new() -> (t: KernelTables)
        ensures
            t.wf(),
            t.cmdlines@ == Map::<u64, CmdlineEvent>::empty(),
            t.net_stats@ == Map::<u64, NetStats>::empty(),
            t.recv_stash@ == Map::<u64, u64>::empty(),
            t.cmdlines.spec_capacity() == CMDLINE_TABLE_CAPACITY,
            t.net_stats.spec_capacity() == NET_TABLE_CAPACITY,
            t.recv_stash.spec_capacity() == RECV_STASH_CAPACITY,
    {
        KernelTables {
            cmdlines: BoundedTable::new(CMDLINE_TABLE_CAPACITY),
            net_stats: BoundedTable::new(NET_TABLE_CAPACITY),
            recv_stash: BoundedTable::new(RECV_STASH_CAPACITY),
        }
    }

    /// Process start: captures the command line of the calling process where
    /// its argument bounds are in order, over any stale entry of a reused
    /// process id. `copied` is what the copy that [`capture_plan`] asked for
    /// returned, and is not looked at where it asked for none.
    pub fn capture_cmdline(
        &mut self,
        pid_tgid: u64,
        mm: &Hop<ArgBounds>,
        copied: Result<&[u8], i64>,
    ) -> (code: i32)
        requires
            old(self).wf(),
        ensures
            code == 0,
            final(self).wf(),
            final(self).same_capacities(*old(self)),
            final(self).net_stats@ == old(self).net_stats@,
            final(self).recv_stash@ == old(self).recv_stash@,
            spec_capture_plan(*mm) is None ==> final(self).cmdlines@ == old(self).cmdlines@,
            spec_capture_plan(*mm) is Some ==> exists|event: CmdlineEvent|
                spec_is_capture(event, spec_pid_of(pid_tgid), spec_copied(copied)) && final(self).cmdlines@ == spec_upsert(
                    old(self).cmdlines@,
                    old(self).cmdlines.spec_capacity(),
                    spec_pid_of(pid_tgid) as u64,
                    event,
                ),
    {
        let pid = pid_of(pid_tgid);
        match capture_plan(mm) {
            None => {},
            Some(_) => {
                let event = capture_event(pid, copied);
                let _ = self.cmdlines.upsert(pid as u64, event);
            },
        }
        0
    }

    /// Process exit: drops the command line and the counters of the calling
    /// process.
    pub fn cleanup_cmdline(&mut self, pid_tgid: u64) -> (code: i32)
        requires
            old(self).wf(),
        ensures
            code == 0,
            final(self).wf(),
            final(self).same_capacities(*old(self)),
            final(self).cmdlines@ == old(self).cmdlines@.remove(spec_pid_of(pid_tgid) as u64),
            final(self).net_stats@ == old(self).net_stats@.remove(spec_pid_of(pid_tgid) as u64),
            final(self).net_stats@ == spec_net_step(
                old(self).net_stats@,
                old(self).net_stats.spec_capacity(),
                NetEvent::Exit { pid_tgid },
            ),
            final(self).recv_stash@ == old(self).recv_stash@,
            spec_counters_kept(old(self).net_stats@, final(self).net_stats@),
    {
        let pid = pid_of(pid_tgid);
        let _ = self.cmdlines.remove(pid as u64);
        let _ = self.net_stats.remove(pid as u64);
        0
    }

    /// Adds `size` sent bytes to the counters of the calling process.
    pub fn account_tx(&mut self, pid_tgid: u64, size: u64, sk: &SockReads)
        requires
            old(self).wf(),
        ensures
            final(self).wf(),
            final(self).net_stats@ == spec_net_step(
                old(self).net_stats@,
                old(self).net_stats.spec_capacity(),
                NetEvent::Send { pid_tgid, size, sock: *sk },
            ),
            final(self).same_capacities(*old(self)),
            final(self).cmdlines@ == old(self).cmdlines@,
            final(self).recv_stash@ == old(self).recv_stash@,
            final(self).net_stats@ == spec_upsert(
                old(self).net_stats@,
                old(self).net_stats.spec_capacity(),
                spec_pid_of(pid_tgid) as u64,
                spec_account(
                    old(self).net_stats@.get(spec_pid_of(pid_tgid) as u64),
                    size,
                    0,
                    spec_sock_ifindex(*sk),
                ),
            ),
            spec_counters_kept(old(self).net_stats@, final(self).net_stats@),
    {
        let pid = pid_of(pid_tgid);
        let ifindex = read_sock_ifindex(sk);
        let next = account(self.net_stats.get(pid as u64), size, 0, ifindex);
        let _ = self.net_stats.upsert(pid as u64, next);
    }

    /// Adds `size` received bytes to the counters of the calling process.
    /// `sk` is `None` where no socket was stashed.
    pub fn account_rx(&mut self, pid_tgid: u64, size: u64, sk: Option<&SockReads>)
        requires
            old(self).wf(),
        ensures
            final(self).wf(),
            final(self).same_capacities(*old(self)),
            final(self).cmdlines@ == old(self).cmdlines@,
            final(self).recv_stash@ == old(self).recv_stash@,
            final(self).net_stats@ == spec_upsert(
                old(self).net_stats@,
                old(self).net_stats.spec_capacity(),
                spec_pid_of(pid_tgid) as u64,
                spec_account(
                    old(self).net_stats@.get(spec_pid_of(pid_tgid) as u64),
                    0,
                    size,
                    match sk {
                        Some(s) => spec_sock_ifindex(*s),
                        None => 0,
                    },
                ),
            ),
            spec_counters_kept(old(self).net_stats@, final(self).net_stats@),
    {
        let pid = pid_of(pid_tgid);
        let ifindex = match sk {
            Some(s) => read_sock_ifindex(s),
            None => 0,
        };
        let next = account(self.net_stats.get(pid as u64), 0, size, ifindex);
        let _ = self.net_stats.upsert(pid as u64, next);
    }

    /// Entry of a receive call: remembers the socket for the return probe of
    /// the same thread. Without a socket argument nothing happens.
    pub fn try_stash_recv_sock(&mut self, pid_tgid: u64, sk: Option<u64>) -> (r: Result<u32, i64>)
        requires
            old(self).wf(),
        ensures
            final(self).wf(),
            final(self).same_capacities(*old(self)),
            final(self).cmdlines@ == old(self).cmdlines@,
            final(self).net_stats@ == old(self).net_stats@,
            match sk {
                Some(ptr) => r == Ok::<u32, i64>(0) && final(self).recv_stash@ == spec_upsert(
                    old(self).recv_stash@,
                    old(self).recv_stash.spec_capacity(),
                    pid_tgid,
                    ptr,
                ),
                None => r == Err::<u32, i64>(-1i64) && final(self).recv_stash@ == old(self).recv_stash@,
            },
    {
        match sk {
            Some(ptr) => {
                let _ = self.recv_stash.upsert(pid_tgid, ptr);
                Ok(0)
            },
            None => Err(-1),
        }
    }

    /// Takes the socket that the thread stashed, zero where it stashed none.
    /// The entry is gone afterwards either way.
    pub fn pop_recv_sock(&mut self, pid_tgid: u64) -> (sk: u64)
        requires
            old(self).wf(),
        ensures
            final(self).wf(),
            final(self).same_capacities(*old(self)),
            final(self).cmdlines@ == old(self).cmdlines@,
            final(self).net_stats@ == old(self).net_stats@,
            final(self).recv_stash@ == old(self).recv_stash@.remove(pid_tgid),
            !final(self).recv_stash@.contains_key(pid_tgid),
            sk == match old(self).recv_stash@.get(pid_tgid) {
                Some(ptr) => ptr,
                None => 0,
            },
    {
        match self.recv_stash.remove(pid_tgid) {
            Some(ptr) => ptr,
            None => 0,
        }
    }

    /// Return of a receive call, first half: pops the stash of the thread
    /// whatever the call returned, and says what is left to account. The
    /// counters are not touched.
    pub fn recv_return(&mut self, pid_tgid: u64, ret: i32) -> (pending: Option<PendingReceive>)
        requires
            old(self).wf(),
        ensures
            final(self).wf(),
            final(self).same_capacities(*old(self)),
            final(self).cmdlines@ == old(self).cmdlines@,
            final(self).net_stats@ == old(self).net_stats@,
            final(self).recv_stash@ == old(self).recv_stash@.remove(pid_tgid),
            !final(self).recv_stash@.contains_key(pid_tgid),
            pending == match spec_received(ret) {
                Some(size) => Some(
                    PendingReceive {
                        size,
                        sock: match old(self).recv_stash@.get(pid_tgid) {
                            Some(ptr) => ptr,
                            None => 0,
                        },
                    },
                ),
                None => None,
            },
    {
        let sock = self.pop_recv_sock(pid_tgid);
        match received(ret) {
            Some(size) => Some(PendingReceive { size, sock }),
            None => None,
        }
    }

    /// Send probe of either protocol: accounts the bytes on entry. Without
    /// both arguments nothing happens.
    pub fn try_sendmsg(&mut self, pid_tgid: u64, sk: Option<&SockReads>, size: Option<u64>) -> (r:
        Result<u32, i64>)
        requires
            old(self).wf(),
        ensures
            final(self).wf(),
            final(self).same_capacities(*old(self)),
            final(self).cmdlines@ == old(self).cmdlines@,
            final(self).recv_stash@ == old(self).recv_stash@,
            spec_counters_kept(old(self).net_stats@, final(self).net_stats@),
            match (sk, size) {
                (Some(s), Some(n)) => r == Ok::<u32, i64>(0) && final(self).net_stats@
                    == spec_upsert(
                    old(self).net_stats@,
                    old(self).net_stats.spec_capacity(),
                    spec_pid_of(pid_tgid) as u64,
                    spec_account(
                        old(self).net_stats@.get(spec_pid_of(pid_tgid) as u64),
                        n,
                        0,
                        spec_sock_ifindex(*s),
                    ),
                ),
                _ => r == Err::<u32, i64>(-1i64) && final(self).net_stats@ == old(self).net_stats@,
            },
    {
        match (sk, size) {
            (Some(s), Some(n)) => {
                self.account_tx(pid_tgid, n, s);
                Ok(0)
            },
            _ => Err(-1),
        }
    }

    /// Return of a receive call, both halves: pops the stash, and where the
    /// call delivered bytes adds them to the counters of the calling process.
    /// `sock` holds the reads made at the stashed socket; it is not looked at
    /// where no socket was stashed or nothing was delivered.
    pub fn try_recvmsg(&mut self, pid_tgid: u64, ret: i32, sock: &SockReads) -> (r: Result<
        u32,
        i64,
    >)
        requires
            old(self).wf(),
        ensures
            r == Ok::<u32, i64>(0),
            final(self).wf(),
            final(self).same_capacities(*old(self)),
            final(self).cmdlines@ == old(self).cmdlines@,
            final(self).recv_stash@ == old(self).recv_stash@.remove(pid_tgid),
            !final(self).recv_stash@.contains_key(pid_tgid),
            spec_counters_kept(old(self).net_stats@, final(self).net_stats@),
            final(self).net_stats@ == spec_net_step(
                old(self).net_stats@,
                old(self).net_stats.spec_capacity(),
                NetEvent::Receive {
                    pid_tgid,
                    ret,
                    ifindex: if old(self).recv_stash@.contains_key(pid_tgid) && old(self).recv_stash@[pid_tgid] != 0 {
                        spec_sock_ifindex(*sock)
                    } else {
                        0
                    },
                },
            ),
            ret <= 0 ==> final(self).net_stats@ == old(self).net_stats@,
            ret > 0 ==> final(self).net_stats@ == spec_upsert(
                old(self).net_stats@,
                old(self).net_stats.spec_capacity(),
                spec_pid_of(pid_tgid) as u64,
                spec_account(
                    old(self).net_stats@.get(spec_pid_of(pid_tgid) as u64),
                    0,
                    ret as u64,
                    if old(self).recv_stash@.contains_key(pid_tgid) && old(self).recv_stash@[pid_tgid]
                        != 0 {
                        spec_sock_ifindex(*sock)
                    } else {
                        0
                    },
                ),
            ),
    {
        match self.recv_return(pid_tgid, ret) {
            Some(pending) => {
                if pending.sock != 0 {
                    self.account_rx(pid_tgid, pending.size, Some(sock));
                } else {
                    self.account_rx(pid_tgid, pending.size, None);
                }
            },
            None => {},
        }
        Ok(0)
    }

    /// Send probe on TCP.
    pub fn kprobe_tcp_sendmsg(&mut self, pid_tgid: u64, sk: Option<&SockReads>, size: Option<u64>) -> (code: u32)
        requires
            old(self).wf(),
        ensures
            code == 0,
            final(self).wf(),
            final(self).same_capacities(*old(self)),
            final(self).cmdlines@ == old(self).cmdlines@,
            final(self).recv_stash@ == old(self).recv_stash@,
            spec_counters_kept(old(self).net_stats@, final(self).net_stats@),
            final(self).net_stats@ == old(self).spec_after_send(pid_tgid, spec_deref(sk), size),
    {
        match self.try_sendmsg(pid_tgid, sk, size) {
            Ok(code) => code,
            Err(_) => 0,
        }
    }

    /// Send probe on UDP.
    pub fn kprobe_udp_sendmsg(&mut self, pid_tgid: u64, sk: Option<&SockReads>, size: Option<u64>) -> (code: u32)
        requires
            old(self).wf(),
        ensures
            code == 0,
            final(self).wf(),
            final(self).same_capacities(*old(self)),
            final(self).cmdlines@ == old(self).cmdlines@,
            final(self).recv_stash@ == old(self).recv_stash@,
            spec_counters_kept(old(self).net_stats@, final(self).net_stats@),
            final(self).net_stats@ == old(self).spec_after_send(pid_tgid, spec_deref(sk), size),
    {
        match self.try_sendmsg(pid_tgid, sk, size) {
            Ok(code) => code,
            Err(_) => 0,
        }
    }

    /// Entry probe of a receive call on TCP.
    pub fn kprobe_tcp_recvmsg(&mut self, pid_tgid: u64, sk: Option<u64>) -> (code: u32)
        requires
            old(self).wf(),
        ensures
            code == 0,
            final(self).wf(),
            final(self).same_capacities(*old(self)),
            final(self).cmdlines@ == old(self).cmdlines@,
            final(self).net_stats@ == old(self).net_stats@,
            final(self).recv_stash@ == old(self).spec_after_recv_entry(pid_tgid, sk),
    {
        match self.try_stash_recv_sock(pid_tgid, sk) {
            Ok(code) => code,
            Err(_) => 0,
        }
    }

    /// Entry probe of a receive call on UDP.
    pub fn kprobe_udp_recvmsg(&mut self, pid_tgid: u64, sk: Option<u64>) -> (code: u32)
        requires
            old(self).wf(),
        ensures
            code == 0,
            final(self).wf(),
            final(self).same_capacities(*old(self)),
            final(self).cmdlines@ == old(self).cmdlines@,
            final(self).net_stats@ == old(self).net_stats@,
            final(self).recv_stash@ == old(self).spec_after_recv_entry(pid_tgid, sk),
    {
        match self.try_stash_recv_sock(pid_tgid, sk) {
            Ok(code) => code,
            Err(_) => 0,
        }
    }

    /// Return probe of a receive call on TCP.
    pub fn kretprobe_tcp_recvmsg(&mut self, pid_tgid: u64, ret: i32, sock: &SockReads) -> (code: u32)
        requires
            old(self).wf(),
        ensures
            code == 0,
            final(self).wf(),
            final(self).same_capacities(*old(self)),
            final(self).cmdlines@ == old(self).cmdlines@,
            final(self).recv_stash@ == old(self).recv_stash@.remove(pid_tgid),
            spec_counters_kept(old(self).net_stats@, final(self).net_stats@),
            final(self).net_stats@ == old(self).spec_after_recv(pid_tgid, ret, *sock),
    {
        match self.try_recvmsg(pid_tgid, ret, sock) {
            Ok(code) => code,
            Err(_) => 0,
        }
    }

    /// Return probe of a receive call on UDP.
    pub fn kretprobe_udp_recvmsg(&mut self, pid_tgid: u64, ret: i32, sock: &SockReads) -> (code: u32)
        requires
            old(self).wf(),
        ensures
            code == 0,
            final(self).wf(),
            final(self).same_capacities(*old(self)),
            final(self).cmdlines@ == old(self).cmdlines@,
            final(self).recv_stash@ == old(self).recv_stash@.remove(pid_tgid),
            spec_counters_kept(old(self).net_stats@, final(self).net_stats@),
            final(self).net_stats@ == old(self).spec_after_recv(pid_tgid, ret, *sock),
    {
        match self.try_recvmsg(pid_tgid, ret, sock) {
            Ok(code) => code,
            Err(_) => 0,
        }
    }
}

/// What an optional reference points at.
pub open spec fn spec_deref<T>(o: Option<&T>) -> Option<T> {
    match o {
        Some(r) => Some(*r),
        None => None,
    }
}

/// A receive call that failed or delivered nothing clears the stash of its
/// thread and leaves every counter as it was.
pub proof fn lemma_failed_receive_only_clears_stash(
    tables: KernelTables,
    pid_tgid: u64,
    ret: i32,
    sock: SockReads,
)
    requires
        ret <= 0,
    ensures
        tables.spec_after_recv(pid_tgid, ret, sock) == tables.net_stats@,
        !tables.recv_stash@.remove(pid_tgid).contains_key(pid_tgid),
{
}

/// Adding to a counter never makes it smaller, whatever is added and however
/// large it already is.
pub proof fn lemma_account_never_decreases(prev: NetStats, tx: u64, rx: u64, ifindex: u32)
    ensures
        spec_account(Some(prev), tx, rx, ifindex).tx_bytes >= prev.tx_bytes,
        spec_account(Some(prev), tx, rx, ifindex).rx_bytes >= prev.rx_bytes,
        spec_account(Some(prev), tx, rx, ifindex).tx_bytes >= tx || spec_account(
            Some(prev),
            tx,
            rx,
            ifindex,
        ).tx_bytes == u64::MAX,
{
}

/// What a probe saw, as far as the counters are concerned.
pub enum NetEvent {
    /// A send of `size` bytes by a thread, over a socket with these reads.
    Send { pid_tgid: u64, size: u64, sock: SockReads },
    /// The return of a receive call with the value `ret`; `ifindex` is the
    /// interface that the stashed socket resolved to, zero for none.
    Receive { pid_tgid: u64, ret: i32, ifindex: u32 },
    /// The exit of a process.
    Exit { pid_tgid: u64 },
}

/// The counters after one event, in a table for `capacity` entries.
pub open spec fn spec_net_step(m: Map<u64, NetStats>, capacity: usize, e: NetEvent) -> Map<
    u64,
    NetStats,
> {
    match e {
        NetEvent::Send { pid_tgid, size, sock } => spec_upsert(
            m,
            capacity,
            spec_pid_of(pid_tgid) as u64,
            spec_account(m.get(spec_pid_of(pid_tgid) as u64), size, 0, spec_sock_ifindex(sock)),
        ),
        NetEvent::Receive { pid_tgid, ret, ifindex } => if ret > 0 {
            spec_upsert(
                m,
                capacity,
                spec_pid_of(pid_tgid) as u64,
                spec_account(m.get(spec_pid_of(pid_tgid) as u64), 0, ret as u64, ifindex),
            )
        } else {
            m
        },
        NetEvent::Exit { pid_tgid } => m.remove(spec_pid_of(pid_tgid) as u64),
    }
}

/// The counters after the first `n` of a run of events.
pub open spec fn spec_net_run(m: Map<u64, NetStats>, capacity: usize, events: Seq<NetEvent>, n: int) -> Map<
    u64,
    NetStats,
>
    decreases n,
{
    if n <= 0 {
        m
    } else {
        spec_net_step(spec_net_run(m, capacity, events, n - 1), capacity, events[n - 1])
    }
}

/// Whether one of the first `n` events is the exit of the process `pid`.
pub open spec fn spec_exits(events: Seq<NetEvent>, pid: u64, n: int) -> bool {
    exists|i: int|
        0 <= i < n && (#[trigger] events[i] matches NetEvent::Exit { pid_tgid } && spec_pid_of(
            pid_tgid,
        ) as u64 == pid)
}

/// For as long as a process lives, its counters are kept and never decrease,
/// whatever is sent and received, by it or by others.
pub proof fn lemma_counters_never_decrease_in_a_lifetime(
    m: Map<u64, NetStats>,
    capacity: usize,
    events: Seq<NetEvent>,
    n: int,
    pid: u64,
)
    requires
        0 <= n <= events.len(),
        m.contains_key(pid),
        !spec_exits(events, pid, n),
    ensures
        spec_net_run(m, capacity, events, n).contains_key(pid),
        spec_net_run(m, capacity, events, n)[pid].tx_bytes >= m[pid].tx_bytes,
        spec_net_run(m, capacity, events, n)[pid].rx_bytes >= m[pid].rx_bytes,
    decreases n,
{
    if n > 0 {
        assert(!spec_exits(events, pid, n - 1)) by {
            if spec_exits(events, pid, n - 1) {
                let i = choose|i: int|
                    0 <= i < n - 1 && (#[trigger] events[i] matches NetEvent::Exit { pid_tgid }
                        && spec_pid_of(pid_tgid) as u64 == pid);
                assert(0 <= i < n);
            }
        }
        lemma_counters_never_decrease_in_a_lifetime(m, capacity, events, n - 1, pid);
        let before = spec_net_run(m, capacity, events, n - 1);
        match events[n - 1] {
            NetEvent::Exit { pid_tgid } => {
                assert(spec_pid_of(pid_tgid) as u64 != pid) by {
                    if spec_pid_of(pid_tgid) as u64 == pid {
                        assert(events[n - 1] matches NetEvent::Exit { pid_tgid: p } && spec_pid_of(
                            p,
                        ) as u64 == pid);
                    }
                }
            },
            _ => {},
        }
    }
}

} // verus!
