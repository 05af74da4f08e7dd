//! Fixed-size telemetry records and their byte layout.
//!
//! Every record is laid out as a C struct on a little-endian machine: fields
//! in declaration order, each at its natural alignment. The producer writes
//! the image of a record; the consumer reads it back byte for byte.

use vstd::prelude::*;
use vstd::bytes::*;
use vstd::slice::*;

verus! {

/// Size in bytes of one [`TaskInfo`] image.
pub const TASK_INFO_SIZE: usize = 104;

/// Size in bytes of one [`CmdlineEvent`] image.
pub const CMDLINE_EVENT_SIZE: usize = 264;

/// Size in bytes of one [`NetStats`] image.
pub const NET_STATS_SIZE: usize = 24;

/// Size in bytes of one [`FileInfo`] image.
pub const FILE_INFO_SIZE: usize = 304;

/// Bytes reserved for the argument string of a [`CmdlineEvent`].
pub const CMDLINE_CAPACITY: usize = 256;

/// Most argument bytes that are ever captured for one process.
pub const CMDLINE_MAX_LEN: usize = 255;

/// What one walk of the task iterator reports about one task.
#[derive(Clone, Copy, Debug, PartialEq, Eq)]
pub struct TaskInfo {
    /// Process id (thread-group id in kernel terms).
    pub pid: u32,
    /// Thread id.
    pub tid: u32,
    /// Parent process id.
    pub ppid: u32,
    /// Effective user id.
    pub euid: u32,
    /// Real user id.
    pub ruid: u32,
    /// Scheduler state (0 running, 1 sleeping, 2 disk wait, 4 zombie, 8 stopped).
    pub state: u8,
    pub _pad: [u8; 3],
    /// User CPU time in nanoseconds.
    pub utime_ns: u64,
    /// System CPU time in nanoseconds.
    pub stime_ns: u64,
    /// Virtual memory size in bytes.
    pub vsize_bytes: u64,
    /// Resident set size in pages.
    pub rss_pages: u64,
    /// Start time in nanoseconds since boot.
    pub start_time_ns: u64,
    /// Process name, NUL-terminated when shorter than the field.
    pub comm: [u8; 16],
    /// Kernel scheduling priority.
    pub prio: i32,
    /// Static priority (nice value plus 120).
    pub static_prio: i32,
    /// Shared-memory pages.
    pub shmem_pages: u64,
    /// Inode number of the task's cgroup directory.
    pub cgroup_id: u64,
}

/// Argument string captured when a process starts, keyed by process id.
#[derive(Clone, Copy, Debug, PartialEq, Eq)]
pub struct CmdlineEvent {
    pub pid: u32,
    /// Number of captured bytes in `cmdline`.
    pub len: u32,
    pub cmdline: [u8; 256],
}

/// Accumulated network byte counters of one process.
#[derive(Clone, Copy, Debug, PartialEq, Eq)]
pub struct NetStats {
    pub tx_bytes: u64,
    pub rx_bytes: u64,
    /// Interface last seen carrying traffic of the process, 0 when unknown.
    pub ifindex: u32,
    pub _pad: u32,
}

/// What the file iterator reports about one open file descriptor.
#[derive(Clone, Copy, Debug, PartialEq, Eq)]
pub struct FileInfo {
    /// Process that owns the descriptor.
    pub pid: u32,
    /// Descriptor number.
    pub fd: u32,
    /// 0 regular file, 1 socket, 2 pipe, 3 other.
    pub fd_type: u8,
    /// Socket address family.
    pub sock_family: u8,
    /// Socket type.
    pub sock_type: u8,
    /// TCP connection state.
    pub sock_state: u8,
    /// Source address (IPv4 in the first four bytes, or IPv6).
    pub src_addr: [u8; 16],
    /// Destination address.
    pub dst_addr: [u8; 16],
    /// Source port in network byte order.
    pub src_port: u16,
    /// Destination port in network byte order.
    pub dst_port: u16,
    /// File or socket path, NUL-terminated.
    pub path: [u8; 256],
}

/// Why a buffer of record images was refused.
#[derive(Clone, Copy, Debug, PartialEq, Eq)]
pub enum RecordError {
    /// The buffer does not hold a whole number of records: producer and
    /// consumer disagree about the layout.
    SizeMismatch { len: usize, record_size: usize },
}

/// Little-endian image of a signed 32-bit field.
pub open spec fn spec_i32_to_le_bytes(x: i32) -> Seq<u8> {
    spec_u32_to_le_bytes(x as u32)
}

/// Signed 32-bit value held by four little-endian bytes.
pub open spec fn spec_i32_from_le_bytes(s: Seq<u8>) -> i32 {
    spec_u32_from_le_bytes(s) as i32
}

impl TaskInfo {
    /// The 104-byte image of the record.
    pub open spec fn wire(self) -> Seq<u8> {
        spec_u32_to_le_bytes(self.pid) + spec_u32_to_le_bytes(self.tid) + spec_u32_to_le_bytes(
            self.ppid,
        ) + spec_u32_to_le_bytes(self.euid) + spec_u32_to_le_bytes(self.ruid) + seq![self.state]
            + self._pad@ + spec_u64_to_le_bytes(self.utime_ns) + spec_u64_to_le_bytes(
            self.stime_ns,
        ) + spec_u64_to_le_bytes(self.vsize_bytes) + spec_u64_to_le_bytes(self.rss_pages)
            + spec_u64_to_le_bytes(self.start_time_ns) + self.comm@ + spec_i32_to_le_bytes(
            self.prio,
        ) + spec_i32_to_le_bytes(self.static_prio) + spec_u64_to_le_bytes(self.shmem_pages)
            + spec_u64_to_le_bytes(self.cgroup_id)
    }

    /// Whether `self` is the record that the 104 bytes `b` hold, field by field.
    pub open spec fn read_from(self, b: Seq<u8>) -> bool {
        &&& self.pid == spec_u32_from_le_bytes(b.subrange(0, 4))
        &&& self.tid == spec_u32_from_le_bytes(b.subrange(4, 8))
        &&& self.ppid == spec_u32_from_le_bytes(b.subrange(8, 12))
        &&& self.euid == spec_u32_from_le_bytes(b.subrange(12, 16))
        &&& self.ruid == spec_u32_from_le_bytes(b.subrange(16, 20))
        &&& self.state == b[20]
        &&& self._pad@ == b.subrange(21, 24)
        &&& self.utime_ns == spec_u64_from_le_bytes(b.subrange(24, 32))
        &&& self.stime_ns == spec_u64_from_le_bytes(b.subrange(32, 40))
        &&& self.vsize_bytes == spec_u64_from_le_bytes(b.subrange(40, 48))
        &&& self.rss_pages == spec_u64_from_le_bytes(b.subrange(48, 56))
        &&& self.start_time_ns == spec_u64_from_le_bytes(b.subrange(56, 64))
        &&& self.comm@ == b.subrange(64, 80)
        &&& self.prio == spec_i32_from_le_bytes(b.subrange(80, 84))
        &&& self.static_prio == spec_i32_from_le_bytes(b.subrange(84, 88))
        &&& self.shmem_pages == spec_u64_from_le_bytes(b.subrange(88, 96))
        &&& self.cgroup_id == spec_u64_from_le_bytes(b.subrange(96, 104))
    }
}

/// A signed field survives the trip through its unsigned image.
pub proof fn lemma_i32_image(x: i32)
    ensures
        spec_i32_to_le_bytes(x).len() == 4,
        spec_i32_from_le_bytes(spec_i32_to_le_bytes(x)) == x,
{
    lemma_auto_spec_u32_to_from_le_bytes();
    assert(spec_u32_to_le_bytes(x as u32).len() == 4);
    assert((x as u32) as i32 == x) by (bit_vector);
}

/// Four bytes are the image of the signed value they hold.
pub proof fn lemma_i32_bytes(s: Seq<u8>)
    requires
        s.len() == 4,
    ensures
        spec_i32_to_le_bytes(spec_i32_from_le_bytes(s)) == s,
{
    lemma_auto_spec_u32_to_from_le_bytes();
    let u = spec_u32_from_le_bytes(s);
    assert((u as i32) as u32 == u) by (bit_vector);
}

/// Appends the image of `x`.
fn put_u32(out: &mut Vec<u8>, x: u32)
    ensures
        final(out)@ == old(out)@ + spec_u32_to_le_bytes(x),
{
    let mut b = u32_to_le_bytes(x);
    out.append(&mut b);
}

/// Appends the image of `x`.
fn put_u64(out: &mut Vec<u8>, x: u64)
    ensures
        final(out)@ == old(out)@ + spec_u64_to_le_bytes(x),
{
    let mut b = u64_to_le_bytes(x);
    out.append(&mut b);
}

/// Appends the image of `x`.
fn put_i32(out: &mut Vec<u8>, x: i32)
    ensures
        final(out)@ == old(out)@ + spec_i32_to_le_bytes(x),
{
    put_u32(out, x as u32);
}

/// Appends the bytes of `s` in order.
fn put_bytes(out: &mut Vec<u8>, s: &[u8])
    ensures
        final(out)@ == old(out)@ + s@,
{
    let mut i: usize = 0;
    while i < s.len()
        invariant
            i <= s@.len(),
            out@ == old(out)@ + s@.subrange(0, i as int),
        decreases s@.len() - i,
    {
        out.push(s[i]);
        i += 1;
    }
    assert(s@.subrange(0, s@.len() as int) == s@);
}

fn get_u32(buf: &[u8], off: usize) -> (r: u32)
    requires
        off + 4 <= buf.len(),
    ensures
        r == spec_u32_from_le_bytes(buf@.subrange(off as int, off + 4)),
{
    u32_from_le_bytes(slice_subrange(buf, off, off + 4))
}

fn get_u64(buf: &[u8], off: usize) -> (r: u64)
    requires
        off + 8 <= buf.len(),
    ensures
        r == spec_u64_from_le_bytes(buf@.subrange(off as int, off + 8)),
{
    u64_from_le_bytes(slice_subrange(buf, off, off + 8))
}

fn get_i32(buf: &[u8], off: usize) -> (r: i32)
    requires
        off + 4 <= buf.len(),
    ensures
        r == spec_i32_from_le_bytes(buf@.subrange(off as int, off + 4)),
{
    get_u32(buf, off) as i32
}

fn get_array<const N: usize>(buf: &[u8], off: usize) -> (r: [u8; N])
    requires
        off + N <= buf.len(),
    ensures
        r@ == buf@.subrange(off as int, off + N),
{
    let mut r: [u8; N] = vstd::array::array_fill_for_copy_types(0u8);
    let mut i: usize = 0;
    while i < N
        invariant
            i <= N,
            off + N <= buf.len(),
            forall|j: int| 0 <= j < i ==> r@[j] == buf@[off + j],
        decreases N - i,
    {
        r[i] = buf[off + i];
        i += 1;
    }
    assert(r@ =~= buf@.subrange(off as int, off + N));
    r
}

/// Writes the image of `t`: what the producer hands to its output channel.
pub fn serialize_task(t: &TaskInfo) -> (out: Vec<u8>)
    ensures
        out@ == t.wire(),
        out@.len() == TASK_INFO_SIZE,
{
    proof {
        lemma_auto_spec_u32_to_from_le_bytes();
        lemma_auto_spec_u64_to_from_le_bytes();
    }
    let mut out: Vec<u8> = Vec::new();
    put_u32(&mut out, t.pid);
    put_u32(&mut out, t.tid);
    put_u32(&mut out, t.ppid);
    put_u32(&mut out, t.euid);
    put_u32(&mut out, t.ruid);
    out.push(t.state);
    put_bytes(&mut out, t._pad.as_slice());
    put_u64(&mut out, t.utime_ns);
    put_u64(&mut out, t.stime_ns);
    put_u64(&mut out, t.vsize_bytes);
    put_u64(&mut out, t.rss_pages);
    put_u64(&mut out, t.start_time_ns);
    put_bytes(&mut out, t.comm.as_slice());
    put_i32(&mut out, t.prio);
    put_i32(&mut out, t.static_prio);
    put_u64(&mut out, t.shmem_pages);
    put_u64(&mut out, t.cgroup_id);
    assert(Seq::<u8>::empty() + spec_u32_to_le_bytes(t.pid) == spec_u32_to_le_bytes(t.pid));
    assert(out@ == t.wire());
    out
}

/// Reads one record from exactly one image.
pub fn parse_task(buf: &[u8]) -> (t: TaskInfo)
    requires
        buf.len() == TASK_INFO_SIZE,
    ensures
        t.read_from(buf@),
        t.wire() == buf@,
{
    let t = TaskInfo {
        pid: get_u32(buf, 0),
        tid: get_u32(buf, 4),
        ppid: get_u32(buf, 8),
        euid: get_u32(buf, 12),
        ruid: get_u32(buf, 16),
        state: buf[20],
        _pad: get_array::<3>(buf, 21),
        utime_ns: get_u64(buf, 24),
        stime_ns: get_u64(buf, 32),
        vsize_bytes: get_u64(buf, 40),
        rss_pages: get_u64(buf, 48),
        start_time_ns: get_u64(buf, 56),
        comm: get_array::<16>(buf, 64),
        prio: get_i32(buf, 80),
        static_prio: get_i32(buf, 84),
        shmem_pages: get_u64(buf, 88),
        cgroup_id: get_u64(buf, 96),
    };
    proof {
        lemma_read_is_image(t, buf@);
    }
    t
}

/// A record read from 104 bytes has exactly those bytes as its image.
pub proof fn lemma_read_is_image(t: TaskInfo, b: Seq<u8>)
    requires
        b.len() == TASK_INFO_SIZE,
        t.read_from(b),
    ensures
        t.wire() == b,
{
    lemma_auto_spec_u32_to_from_le_bytes();
    lemma_auto_spec_u64_to_from_le_bytes();
    lemma_i32_bytes(b.subrange(80, 84));
    lemma_i32_bytes(b.subrange(84, 88));
    assert(seq![t.state] == b.subrange(20, 21));
    assert(t.wire() =~= b);
}

/// The `i`-th image in a buffer of images laid end to end.
pub open spec fn spec_record_bytes(buf: Seq<u8>, i: int) -> Seq<u8> {
    buf.subrange(i * TASK_INFO_SIZE as int, (i + 1) * TASK_INFO_SIZE as int)
}

/// Reads every record of the iterator's output. A buffer that is not a whole
/// number of images is refused: producer and consumer then disagree about
/// the layout, and no record in it can be trusted.
pub fn parse_tasks(buf: &[u8]) -> (r: Result<Vec<TaskInfo>, RecordError>)
    ensures
        match r {
            Ok(tasks) => buf@.len() % TASK_INFO_SIZE as nat == 0 && tasks@.len() == buf@.len()
                / TASK_INFO_SIZE as nat && forall|i: int|
                0 <= i < tasks@.len() ==> (#[trigger] tasks@[i]).wire() == spec_record_bytes(
                    buf@,
                    i,
                ) && tasks@[i].read_from(spec_record_bytes(buf@, i)),
            Err(e) => buf@.len() % TASK_INFO_SIZE as nat != 0 && e == (RecordError::SizeMismatch {
                len: buf.len(),
                record_size: TASK_INFO_SIZE,
            }),
        },
{
    if buf.len() % TASK_INFO_SIZE != 0 {
        return Err(RecordError::SizeMismatch { len: buf.len(), record_size: TASK_INFO_SIZE });
    }
    let mut tasks: Vec<TaskInfo> = Vec::new();
    let mut off: usize = 0;
    while off < buf.len()
        invariant
            off <= buf.len(),
            off % TASK_INFO_SIZE == 0,
            buf.len() % TASK_INFO_SIZE == 0,
            tasks@.len() == off / TASK_INFO_SIZE,
            forall|k: int|
                0 <= k < tasks@.len() ==> (#[trigger] tasks@[k]).wire() == spec_record_bytes(
                    buf@,
                    k,
                ) && tasks@[k].read_from(spec_record_bytes(buf@, k)),
        decreases buf.len() - off,
    {
        let image = slice_subrange(buf, off, off + TASK_INFO_SIZE);
        let t = parse_task(image);
        assert(image@ == spec_record_bytes(buf@, tasks@.len() as int));
        tasks.push(t);
        off += TASK_INFO_SIZE;
    }
    Ok(tasks)
}

/// Two records with the same image are the same record: what is written and
/// read back is what was there, in every field.
pub proof fn lemma_image_determines_record(a: TaskInfo, b: TaskInfo)
    requires
        a.wire() == b.wire(),
    ensures
        a == b,
{
    lemma_auto_spec_u32_to_from_le_bytes();
    lemma_auto_spec_u64_to_from_le_bytes();
    lemma_image_is_read_back(a);
    lemma_image_is_read_back(b);
    lemma_i32_image(a.prio);
    lemma_i32_image(b.prio);
    lemma_i32_image(a.static_prio);
    lemma_i32_image(b.static_prio);
    let w = a.wire();
    assert(a._pad =~= b._pad);
    assert(a.comm =~= b.comm);
}

/// The image of a record is 104 bytes long, and the record is read back
/// from it.
pub proof fn lemma_image_is_read_back(t: TaskInfo)
    ensures
        t.wire().len() == TASK_INFO_SIZE,
        t.read_from(t.wire()),
{
    lemma_auto_spec_u32_to_from_le_bytes();
    lemma_auto_spec_u64_to_from_le_bytes();
    lemma_i32_image(t.prio);
    lemma_i32_image(t.static_prio);
    let w = t.wire();
    assert(w.subrange(0, 4) =~= spec_u32_to_le_bytes(t.pid));
    assert(w.subrange(4, 8) =~= spec_u32_to_le_bytes(t.tid));
    assert(w.subrange(8, 12) =~= spec_u32_to_le_bytes(t.ppid));
    assert(w.subrange(12, 16) =~= spec_u32_to_le_bytes(t.euid));
    assert(w.subrange(16, 20) =~= spec_u32_to_le_bytes(t.ruid));
    assert(w.subrange(21, 24) =~= t._pad@);
    assert(w.subrange(24, 32) =~= spec_u64_to_le_bytes(t.utime_ns));
    assert(w.subrange(32, 40) =~= spec_u64_to_le_bytes(t.stime_ns));
    assert(w.subrange(40, 48) =~= spec_u64_to_le_bytes(t.vsize_bytes));
    assert(w.subrange(48, 56) =~= spec_u64_to_le_bytes(t.rss_pages));
    assert(w.subrange(56, 64) =~= spec_u64_to_le_bytes(t.start_time_ns));
    assert(w.subrange(64, 80) =~= t.comm@);
    assert(w.subrange(80, 84) =~= spec_i32_to_le_bytes(t.prio));
    assert(w.subrange(84, 88) =~= spec_i32_to_le_bytes(t.static_prio));
    assert(w.subrange(88, 96) =~= spec_u64_to_le_bytes(t.shmem_pages));
    assert(w.subrange(96, 104) =~= spec_u64_to_le_bytes(t.cgroup_id));
}

impl CmdlineEvent {
    /// The 264-byte image of the entry.
    pub open spec fn wire(self) -> Seq<u8> {
        spec_u32_to_le_bytes(self.pid) + spec_u32_to_le_bytes(self.len) + self.cmdline@
    }

    /// Whether `self` is the entry that the 264 bytes `b` hold, field by
    /// field.
    pub open spec fn read_from(self, b: Seq<u8>) -> bool {
        &&& self.pid == spec_u32_from_le_bytes(b.subrange(0, 4))
        &&& self.len == spec_u32_from_le_bytes(b.subrange(4, 8))
        &&& self.cmdline@ == b.subrange(8, 264)
    }
}

/// Writes the image of a command-line entry.
pub fn serialize_cmdline(e: &CmdlineEvent) -> (out: Vec<u8>)
    ensures
        out@ == e.wire(),
        out@.len() == CMDLINE_EVENT_SIZE,
{
    proof {
        lemma_auto_spec_u32_to_from_le_bytes();
    }
    let mut out: Vec<u8> = Vec::new();
    put_u32(&mut out, e.pid);
    put_u32(&mut out, e.len);
    put_bytes(&mut out, e.cmdline.as_slice());
    assert(Seq::<u8>::empty() + spec_u32_to_le_bytes(e.pid) == spec_u32_to_le_bytes(e.pid));
    out
}

/// Reads a command-line entry from exactly one image.
pub fn parse_cmdline(buf: &[u8]) -> (e: CmdlineEvent)
    requires
        buf.len() == CMDLINE_EVENT_SIZE,
    ensures
        e.read_from(buf@),
        e.wire() == buf@,
{
    let e = CmdlineEvent {
        pid: get_u32(buf, 0),
        len: get_u32(buf, 4),
        cmdline: get_array::<256>(buf, 8),
    };
    proof {
        lemma_auto_spec_u32_to_from_le_bytes();
        assert(e.wire() =~= buf@);
    }
    e
}

/// Two command-line entries with the same image are the same entry.
pub proof fn lemma_image_determines_cmdline(a: CmdlineEvent, b: CmdlineEvent)
    requires
        a.wire() == b.wire(),
    ensures
        a == b,
{
    lemma_auto_spec_u32_to_from_le_bytes();
    let w = a.wire();
    assert(w.subrange(0, 4) =~= spec_u32_to_le_bytes(a.pid));
    assert(w.subrange(0, 4) =~= spec_u32_to_le_bytes(b.pid));
    assert(w.subrange(4, 8) =~= spec_u32_to_le_bytes(a.len));
    assert(w.subrange(4, 8) =~= spec_u32_to_le_bytes(b.len));
    assert(w.subrange(8, 264) =~= a.cmdline@);
    assert(w.subrange(8, 264) =~= b.cmdline@);
    assert(a.cmdline =~= b.cmdline);
}

impl NetStats {
    /// The 24-byte image of the counters.
    pub open spec fn wire(self) -> Seq<u8> {
        spec_u64_to_le_bytes(self.tx_bytes) + spec_u64_to_le_bytes(self.rx_bytes)
            + spec_u32_to_le_bytes(self.ifindex) + spec_u32_to_le_bytes(self._pad)
    }

    /// Whether `self` is what the 24 bytes `b` hold, field by field.
    pub open spec fn read_from(self, b: Seq<u8>) -> bool {
        &&& self.tx_bytes == spec_u64_from_le_bytes(b.subrange(0, 8))
        &&& self.rx_bytes == spec_u64_from_le_bytes(b.subrange(8, 16))
        &&& self.ifindex == spec_u32_from_le_bytes(b.subrange(16, 20))
        &&& self._pad == spec_u32_from_le_bytes(b.subrange(20, 24))
    }
}

/// Writes the image of the network counters of a process.
pub fn serialize_net_stats(s: &NetStats) -> (out: Vec<u8>)
    ensures
        out@ == s.wire(),
        out@.len() == NET_STATS_SIZE,
{
    proof {
        lemma_auto_spec_u32_to_from_le_bytes();
        lemma_auto_spec_u64_to_from_le_bytes();
    }
    let mut out: Vec<u8> = Vec::new();
    put_u64(&mut out, s.tx_bytes);
    put_u64(&mut out, s.rx_bytes);
    put_u32(&mut out, s.ifindex);
    put_u32(&mut out, s._pad);
    assert(Seq::<u8>::empty() + spec_u64_to_le_bytes(s.tx_bytes) == spec_u64_to_le_bytes(
        s.tx_bytes,
    ));
    out
}

/// Reads the network counters of a process from exactly one image.
pub fn parse_net_stats(buf: &[u8]) -> (s: NetStats)
    requires
        buf.len() == NET_STATS_SIZE,
    ensures
        s.read_from(buf@),
        s.wire() == buf@,
{
    let s = NetStats {
        tx_bytes: get_u64(buf, 0),
        rx_bytes: get_u64(buf, 8),
        ifindex: get_u32(buf, 16),
        _pad: get_u32(buf, 20),
    };
    proof {
        lemma_auto_spec_u32_to_from_le_bytes();
        lemma_auto_spec_u64_to_from_le_bytes();
        assert(s.wire() =~= buf@);
    }
    s
}

/// Two sets of network counters with the same image are the same.
pub proof fn lemma_image_determines_net_stats(a: NetStats, b: NetStats)
    requires
        a.wire() == b.wire(),
    ensures
        a == b,
{
    lemma_auto_spec_u32_to_from_le_bytes();
    lemma_auto_spec_u64_to_from_le_bytes();
    let w = a.wire();
    assert(w.subrange(0, 8) =~= spec_u64_to_le_bytes(a.tx_bytes));
    assert(w.subrange(0, 8) =~= spec_u64_to_le_bytes(b.tx_bytes));
    assert(w.subrange(8, 16) =~= spec_u64_to_le_bytes(a.rx_bytes));
    assert(w.subrange(8, 16) =~= spec_u64_to_le_bytes(b.rx_bytes));
    assert(w.subrange(16, 20) =~= spec_u32_to_le_bytes(a.ifindex));
    assert(w.subrange(16, 20) =~= spec_u32_to_le_bytes(b.ifindex));
    assert(w.subrange(20, 24) =~= spec_u32_to_le_bytes(a._pad));
    assert(w.subrange(20, 24) =~= spec_u32_to_le_bytes(b._pad));
}

impl FileInfo {
    /// The 304-byte image of the record.
    pub open spec fn wire(self) -> Seq<u8> {
        spec_u32_to_le_bytes(self.pid) + spec_u32_to_le_bytes(self.fd) + seq![
            self.fd_type,
            self.sock_family,
            self.sock_type,
            self.sock_state,
        ] + self.src_addr@ + self.dst_addr@ + spec_u16_to_le_bytes(self.src_port)
            + spec_u16_to_le_bytes(self.dst_port) + self.path@
    }
}

/// The image of a file record has the size that the consumer expects.
pub proof fn lemma_file_image_size(f: FileInfo)
    ensures
        f.wire().len() == FILE_INFO_SIZE,
{
    lemma_auto_spec_u32_to_from_le_bytes();
    lemma_auto_spec_u16_to_from_le_bytes();
}

} // verus!
