//! System-wide counters: CPU ticks, memory, swap, load and uptime.
//!
//! Shares are held in thousandths of a percent, load averages in hundredths,
//! so that every value is an exact integer.

use vstd::prelude::*;
use crate::text::{
    chars_of, lines, parse_hundredths, parse_u64, push_decimal, push_decimal2, same_text,
    spec_decimal, spec_decimal_padded, spec_lines_from, spec_parse_hundredths, spec_parse_u64,
    spec_starts_with, spec_texts, spec_tokens, spec_trim_end_matches, starts_with, tokens,
    trim_end_matches_len,
};

verus! {

/// Thousandths of a percent in the whole.
pub const FULL_SHARE: u64 = 100000;

/// `num / den` rounded down and held at the largest value of the field; zero
/// where `den` is zero.
pub open spec fn spec_ratio(num: nat, den: nat) -> u64 {
    if den == 0 {
        0
    } else if num / den > u64::MAX {
        u64::MAX
    } else {
        (num / den) as u64
    }
}

/// `num / den` rounded down and held at the largest value of the field.
pub fn ratio(num: u128, den: u128) -> (q: u64)
    ensures
        q == spec_ratio(num as nat, den as nat),
{
    if den == 0 {
        0
    } else {
        let q: u128 = num / den;
        if q > u64::MAX as u128 {
            u64::MAX
        } else {
            q as u64
        }
    }
}

/// `part` as a share of `whole`, in thousandths of a percent; zero of an
/// empty whole.
pub open spec fn spec_share(part: nat, whole: nat) -> u64 {
    spec_ratio(part * FULL_SHARE as nat, whole)
}

/// `part` as a share of `whole`, in thousandths of a percent.
pub fn share(part: u64, whole: u128) -> (s: u64)
    ensures
        s == spec_share(part as nat, whole as nat),
        part == 0 ==> s == 0,
{
    let num: u128 = part as u128 * FULL_SHARE as u128;
    let s = ratio(num, whole);
    if part == 0 && whole != 0 {
        assert(num == 0) by (nonlinear_arith)
            requires
                part == 0,
                num == part * FULL_SHARE,
        {
        }
        assert(num as nat / whole as nat == 0) by (nonlinear_arith)
            requires
                num == 0,
                whole > 0,
        {
        }
    }
    s
}

/// The difference `now - before`, zero where the counter went backwards.
pub open spec fn spec_delta(now: nat, before: nat) -> nat {
    if now >= before {
        (now - before) as nat
    } else {
        0
    }
}

/// Tick counters of one CPU, or of all together, and the shares computed
/// from their change since the sample before.
#[derive(Debug, Clone, Copy, PartialEq, Eq, Structural)]
pub struct CpuStats {
    pub user: u64,
    pub nice: u64,
    pub system: u64,
    pub idle: u64,
    pub iowait: u64,
    pub irq: u64,
    pub softirq: u64,
    pub steal: u64,
    pub user_pct: u64,
    pub system_pct: u64,
    pub nice_pct: u64,
    pub iowait_pct: u64,
    pub idle_pct: u64,
    pub total_pct: u64,
}

impl CpuStats {
    /// All ticks counted.
    pub open spec fn spec_total_ticks(self) -> nat {
        (self.user + self.nice + self.system + self.idle + self.iowait + self.irq + self.softirq
            + self.steal) as nat
    }

    /// Ticks not spent idle or waiting for I/O.
    pub open spec fn spec_busy_ticks(self) -> nat {
        (self.user + self.nice + self.system + self.irq + self.softirq + self.steal) as nat
    }

    /// The sample with the shares of the change since `prev`; as it is where
    /// no tick passed.
    pub open spec fn spec_with_percentages(self, prev: CpuStats) -> CpuStats {
        let total = spec_delta(self.spec_total_ticks(), prev.spec_total_ticks());
        if total == 0 {
            self
        } else {
            CpuStats {
                user_pct: spec_share(spec_delta(self.user as nat, prev.user as nat), total),
                nice_pct: spec_share(spec_delta(self.nice as nat, prev.nice as nat), total),
                system_pct: spec_share(spec_delta(self.system as nat, prev.system as nat), total),
                iowait_pct: spec_share(spec_delta(self.iowait as nat, prev.iowait as nat), total),
                idle_pct: spec_share(spec_delta(self.idle as nat, prev.idle as nat), total),
                total_pct: spec_ratio(
                    spec_delta(self.spec_busy_ticks(), prev.spec_busy_ticks()) * FULL_SHARE as nat,
                    total,
                ),
                ..self
            }
        }
    }

    /// Counters all zero.
    pub fn zero() -> (c: CpuStats)
        ensures
            c.spec_total_ticks() == 0,
            c.user_pct == 0 && c.system_pct == 0 && c.nice_pct == 0 && c.iowait_pct == 0
                && c.idle_pct == 0 && c.total_pct == 0,
    {
        CpuStats {
            user: 0,
            nice: 0,
            system: 0,
            idle: 0,
            iowait: 0,
            irq: 0,
            softirq: 0,
            steal: 0,
            user_pct: 0,
            system_pct: 0,
            nice_pct: 0,
            iowait_pct: 0,
            idle_pct: 0,
            total_pct: 0,
        }
    }

    /// All ticks counted.
    pub fn total_ticks(&self) -> (t: u128)
        ensures
            t == self.spec_total_ticks(),
    {
        self.user as u128 + self.nice as u128 + self.system as u128 + self.idle as u128
            + self.iowait as u128 + self.irq as u128 + self.softirq as u128 + self.steal as u128
    }

    /// Ticks not spent idle or waiting for I/O.
    pub fn busy_ticks(&self) -> (t: u128)
        ensures
            t == self.spec_busy_ticks(),
            t == self.spec_total_ticks() - self.idle - self.iowait,
    {
        self.total_ticks() - self.idle as u128 - self.iowait as u128
    }

    /// Fills in the shares of the change since `prev`. Where no tick passed
    /// the shares stay as they are.
    pub fn calc_percentages(&mut self, prev: &CpuStats)
        ensures
            *final(self) == old(self).spec_with_percentages(*prev),
    {
        let now_total = self.total_ticks();
        let prev_total = prev.total_ticks();
        if now_total <= prev_total {
            return ;
        }
        let total: u128 = now_total - prev_total;
        let busy_now = self.busy_ticks();
        let busy_prev = prev.busy_ticks();
        let busy: u128 = if busy_now >= busy_prev {
            busy_now - busy_prev
        } else {
            0
        };
        self.user_pct = share(self.user.saturating_sub(prev.user), total);
        self.nice_pct = share(self.nice.saturating_sub(prev.nice), total);
        self.system_pct = share(self.system.saturating_sub(prev.system), total);
        self.iowait_pct = share(self.iowait.saturating_sub(prev.iowait), total);
        self.idle_pct = share(self.idle.saturating_sub(prev.idle), total);
        self.total_pct = ratio(busy * FULL_SHARE as u128, total);
    }
}

/// Memory counters, in bytes.
#[derive(Debug, Clone, Copy, PartialEq, Eq, Structural)]
pub struct MemoryInfo {
    pub total: u64,
    pub free: u64,
    pub available: u64,
    pub buffers: u64,
    pub cached: u64,
    pub s_reclaimable: u64,
    pub used: u64,
    /// Physical memory that backs compressed swap.
    pub zram_mem_used: u64,
}

impl MemoryInfo {
    /// Counters all zero.
    pub fn zero() -> (m: MemoryInfo)
        ensures
            m.total == 0 && m.free == 0 && m.available == 0 && m.buffers == 0,
            m.cached == 0 && m.s_reclaimable == 0 && m.used == 0 && m.zram_mem_used == 0,
    {
        MemoryInfo {
            total: 0,
            free: 0,
            available: 0,
            buffers: 0,
            cached: 0,
            s_reclaimable: 0,
            used: 0,
            zram_mem_used: 0,
        }
    }

    /// Memory in use: the total less what is free, buffered, cached or
    /// reclaimable; never below zero.
    pub open spec fn spec_used(self) -> u64 {
        spec_delta(
            self.total as nat,
            (self.free + self.buffers + self.cached + self.s_reclaimable) as nat,
        ) as u64
    }

    /// Memory in use, from the other counters.
    pub fn compute_used(&self) -> (used: u64)
        ensures
            used == self.spec_used(),
    {
        let rest: u128 = self.free as u128 + self.buffers as u128 + self.cached as u128
            + self.s_reclaimable as u128;
        if self.total as u128 >= rest {
            (self.total as u128 - rest) as u64
        } else {
            0
        }
    }

    /// Share of the memory in use, in thousandths of a percent.
    pub fn used_pct(&self) -> (p: u64)
        ensures
            p == spec_share(self.used as nat, self.total as nat),
    {
        share(self.used, self.total as u128)
    }
}

/// Swap counters, in bytes.
#[derive(Debug, Clone, Copy, PartialEq, Eq, Structural)]
pub struct SwapInfo {
    pub total: u64,
    pub free: u64,
    pub used: u64,
    /// Bytes stored in compressed swap before compression.
    pub zram_orig: u64,
    /// Bytes that they take once compressed.
    pub zram_compr: u64,
}

impl SwapInfo {
    /// Counters all zero.
    pub fn zero() -> (s: SwapInfo)
        ensures
            s.total == 0 && s.free == 0 && s.used == 0 && s.zram_orig == 0 && s.zram_compr == 0,
    {
        SwapInfo { total: 0, free: 0, used: 0, zram_orig: 0, zram_compr: 0 }
    }

    /// Share of the swap in use, in thousandths of a percent.
    pub fn used_pct(&self) -> (p: u64)
        ensures
            p == spec_share(self.used as nat, self.total as nat),
    {
        share(self.used, self.total as u128)
    }

    /// Compression ratio of compressed swap, in thousandths; none where
    /// nothing is stored.
    pub fn zram_compression_ratio(&self) -> (r: Option<u64>)
        ensures
            r == if self.zram_compr > 0 {
                Some(spec_ratio(self.zram_orig as nat * 1000, self.zram_compr as nat))
            } else {
                None
            },
    {
        if self.zram_compr > 0 {
            Some(ratio(self.zram_orig as u128 * 1000, self.zram_compr as u128))
        } else {
            None
        }
    }
}

/// One GPU, for the header.
#[derive(Debug)]
pub struct GpuDeviceInfo {
    pub index: u32,
    pub name: String,
    pub utilization_pct: u32,
    pub memory_used: u64,
    pub memory_total: u64,
}

/// What is known about the system as a whole after one cycle.
#[derive(Debug)]
pub struct SystemInfo {
    pub cpu_total: CpuStats,
    pub cpus: Vec<CpuStats>,
    pub memory: MemoryInfo,
    pub swap: SwapInfo,
    /// Load averages over one, five and fifteen minutes, in hundredths.
    pub load_avg: [u64; 3],
    /// Time since boot in hundredths of a second.
    pub uptime_centis: u64,
    /// Processes.
    pub total_tasks: usize,
    /// Threads of processes.
    pub user_threads: usize,
    /// Threads of the kernel.
    pub kernel_threads: usize,
    pub running_tasks: usize,
    pub sleeping_tasks: usize,
    pub gpus: Vec<GpuDeviceInfo>,
}

/// Uptime as `Dd HH:MM:SS`, without the days where there are none.
pub open spec fn spec_format_uptime(secs: u64) -> Seq<char> {
    let days = (secs / 86400) as nat;
    let hours = ((secs % 86400) / 3600) as nat;
    let mins = ((secs % 3600) / 60) as nat;
    let s = (secs % 60) as nat;
    let clock = spec_decimal_padded(hours, 2) + seq![':'] + spec_decimal_padded(mins, 2) + seq![
        ':',
    ] + spec_decimal_padded(s, 2);
    if days > 0 {
        spec_decimal(days) + seq!['d', ' '] + clock
    } else {
        clock
    }
}

/// Formats an uptime given in whole seconds.
pub fn format_uptime(secs: u64) -> (out: String)
    ensures
        out@ == spec_format_uptime(secs),
{
    let days = secs / 86400;
    let hours = (secs % 86400) / 3600;
    let mins = (secs % 3600) / 60;
    let s = secs % 60;
    let mut out = String::new();
    if days > 0 {
        push_decimal(&mut out, days);
        out.push('d');
        out.push(' ');
    }
    push_decimal2(&mut out, hours);
    out.push(':');
    push_decimal2(&mut out, mins);
    out.push(':');
    push_decimal2(&mut out, s);
    assert(out@ =~= spec_format_uptime(secs));
    out
}

/// The numbers among the words from position `from` up to, and without,
/// `upto`, in their order. A word that is no number is passed over.
pub open spec fn spec_numbers(words: Seq<Seq<char>>, from: int, upto: int) -> Seq<u64>
    decreases upto - from,
{
    if upto <= from {
        Seq::empty()
    } else {
        match spec_parse_u64(words[upto - 1]) {
            Some(v) => spec_numbers(words, from, upto - 1).push(v),
            None => spec_numbers(words, from, upto - 1),
        }
    }
}

/// The number at position `i`, zero past the end.
pub open spec fn spec_number_at(numbers: Seq<u64>, i: int) -> u64 {
    if 0 <= i < numbers.len() {
        numbers[i]
    } else {
        0
    }
}

/// The tick counters that a line of the CPU statistics holds: the numbers
/// after its first word, in the order user, nice, system, idle, I/O wait,
/// interrupts, soft interrupts, steal; zero for what is missing.
pub open spec fn spec_parse_cpu_line(line: Seq<char>) -> CpuStats {
    let words = spec_tokens(line, 0);
    let n = spec_numbers(words, 1, words.len() as int);
    CpuStats {
        user: spec_number_at(n, 0),
        nice: spec_number_at(n, 1),
        system: spec_number_at(n, 2),
        idle: spec_number_at(n, 3),
        iowait: spec_number_at(n, 4),
        irq: spec_number_at(n, 5),
        softirq: spec_number_at(n, 6),
        steal: spec_number_at(n, 7),
        user_pct: 0,
        system_pct: 0,
        nice_pct: 0,
        iowait_pct: 0,
        idle_pct: 0,
        total_pct: 0,
    }
}

fn numbers_of(words: &Vec<Vec<char>>, from: usize) -> (n: Vec<u64>)
    ensures
        n@ == spec_numbers(spec_texts(words@), from as int, words@.len() as int),
{
    let ghost texts = spec_texts(words@);
    let mut n: Vec<u64> = Vec::new();
    let mut i: usize = from;
    while i < words.len()
        invariant
            from <= i,
            i <= words.len() || i == from,
            texts == spec_texts(words@),
            n@ == spec_numbers(texts, from as int, i as int),
        decreases words.len() - i,
    {
        assert(texts[i as int] == words@[i as int]@);
        match parse_u64(words[i].as_slice()) {
            Some(v) => {
                n.push(v);
            },
            None => {},
        }
        i += 1;
    }
    proof {
        if from > words@.len() {
            assert(spec_numbers(texts, from as int, words@.len() as int) =~= Seq::<u64>::empty());
        }
    }
    n
}

fn number_at(n: &Vec<u64>, i: usize) -> (v: u64)
    ensures
        v == spec_number_at(n@, i as int),
{
    if i < n.len() {
        n[i]
    } else {
        0
    }
}

/// Reads the tick counters of one line of the CPU statistics.
pub fn parse_cpu_line(line: &[char]) -> (c: CpuStats)
    ensures
        c == spec_parse_cpu_line(line@),
{
    let words = tokens(line);
    let n = numbers_of(&words, 1);
    CpuStats {
        user: number_at(&n, 0),
        nice: number_at(&n, 1),
        system: number_at(&n, 2),
        idle: number_at(&n, 3),
        iowait: number_at(&n, 4),
        irq: number_at(&n, 5),
        softirq: number_at(&n, 6),
        steal: number_at(&n, 7),
        user_pct: 0,
        system_pct: 0,
        nice_pct: 0,
        iowait_pct: 0,
        idle_pct: 0,
        total_pct: 0,
    }
}

/// The word that begins the line of all CPUs together.
pub open spec fn spec_total_prefix() -> Seq<char> {
    seq!['c', 'p', 'u', ' ']
}

/// The word that begins the line of every CPU.
pub open spec fn spec_cpu_prefix() -> Seq<char> {
    seq!['c', 'p', 'u']
}

/// The counters of all CPUs together: of the last line among the first `n`
/// that begins with `cpu` and a blank; all zero where there is none.
pub open spec fn spec_cpu_total(lines: Seq<Seq<char>>, n: int) -> CpuStats
    decreases n,
{
    if n <= 0 {
        spec_parse_cpu_line(Seq::empty())
    } else if spec_starts_with(lines[n - 1], spec_total_prefix()) {
        spec_parse_cpu_line(lines[n - 1])
    } else {
        spec_cpu_total(lines, n - 1)
    }
}

/// The counters of each CPU: of the lines among the first `n` that begin
/// with `cpu` but not with `cpu` and a blank, in their order.
pub open spec fn spec_cpu_cores(lines: Seq<Seq<char>>, n: int) -> Seq<CpuStats>
    decreases n,
{
    if n <= 0 {
        Seq::empty()
    } else if !spec_starts_with(lines[n - 1], spec_total_prefix()) && spec_starts_with(
        lines[n - 1],
        spec_cpu_prefix(),
    ) {
        spec_cpu_cores(lines, n - 1).push(spec_parse_cpu_line(lines[n - 1]))
    } else {
        spec_cpu_cores(lines, n - 1)
    }
}

/// Reads the CPU statistics: the counters of all CPUs together, and those of
/// each CPU.
pub fn read_cpu_stats(content: &str) -> (r: (CpuStats, Vec<CpuStats>))
    ensures
        r.0 == spec_cpu_total(
            spec_lines_from(content@, 0),
            spec_lines_from(content@, 0).len() as int,
        ),
        r.1@ == spec_cpu_cores(
            spec_lines_from(content@, 0),
            spec_lines_from(content@, 0).len() as int,
        ),
{
    let chars = chars_of(content);
    let all = lines(chars.as_slice());
    let ghost texts = spec_texts(all@);
    let total_prefix: [char; 4] = ['c', 'p', 'u', ' '];
    let cpu_prefix: [char; 3] = ['c', 'p', 'u'];
    assert(total_prefix@ =~= spec_total_prefix());
    assert(cpu_prefix@ =~= spec_cpu_prefix());
    let mut total = CpuStats::zero();
    let mut cpus: Vec<CpuStats> = Vec::new();
    proof {
        let none = Seq::<char>::empty();
        assert(spec_tokens(none, 0) =~= Seq::<Seq<char>>::empty());
        assert(spec_numbers(Seq::<Seq<char>>::empty(), 1, 0) =~= Seq::<u64>::empty());
    }
    let mut i: usize = 0;
    while i < all.len()
        invariant
            i <= all.len(),
            texts == spec_texts(all@),
            total_prefix@ == spec_total_prefix(),
            cpu_prefix@ == spec_cpu_prefix(),
            total == spec_cpu_total(texts, i as int),
            cpus@ == spec_cpu_cores(texts, i as int),
        decreases all.len() - i,
    {
        let line = all[i].as_slice();
        assert(texts[i as int] == line@);
        if starts_with(line, total_prefix.as_slice()) {
            total = parse_cpu_line(line);
        } else if starts_with(line, cpu_prefix.as_slice()) {
            cpus.push(parse_cpu_line(line));
        }
        i += 1;
    }
    (total, cpus)
}

/// The key of a line of the memory statistics and its value in bytes: the
/// first word without the colons after it, and the second word read as a
/// number of kilobytes. A value too large for the field is held at the
/// largest. None where the line has no second word or that is no number.
pub open spec fn spec_mem_entry(line: Seq<char>) -> Option<(Seq<char>, u64)> {
    let words = spec_tokens(line, 0);
    if words.len() >= 2 {
        match spec_parse_u64(words[1]) {
            Some(kb) => Some(
                (
                    spec_trim_end_matches(words[0], seq![':']),
                    if kb * 1024 > u64::MAX {
                        u64::MAX
                    } else {
                        (kb * 1024) as u64
                    },
                ),
            ),
            None => None,
        }
    } else {
        None
    }
}

/// The value that a line of the memory statistics gives for the key `key`.
pub open spec fn spec_mem_value(line: Seq<char>, key: Seq<char>) -> Option<u64> {
    match spec_mem_entry(line) {
        Some(e) => if e.0 == key {
            Some(e.1)
        } else {
            None
        },
        None => None,
    }
}

/// The value of the last line among the first `n` that gives one for the
/// key; zero where none does.
pub open spec fn spec_mem_field(lines: Seq<Seq<char>>, key: Seq<char>, n: int) -> u64
    decreases n,
{
    if n <= 0 {
        0
    } else {
        match spec_mem_value(lines[n - 1], key) {
            Some(v) => v,
            None => spec_mem_field(lines, key, n - 1),
        }
    }
}

/// What the compressed swap devices use, summed over the devices.
#[derive(Debug, Clone, Copy, PartialEq, Eq, Structural)]
pub struct ZramStats {
    /// Bytes stored before compression.
    pub orig: u64,
    /// Bytes that they take once compressed.
    pub compr: u64,
    /// Physical memory in use.
    pub mem_used: u64,
}

/// The memory and swap counters that the memory statistics give.
pub open spec fn spec_memory_info(content: Seq<char>, zram: ZramStats) -> (MemoryInfo, SwapInfo) {
    let l = spec_lines_from(content, 0);
    let n = l.len() as int;
    let mem = MemoryInfo {
        total: spec_mem_field(l, "MemTotal"@, n),
        free: spec_mem_field(l, "MemFree"@, n),
        available: spec_mem_field(l, "MemAvailable"@, n),
        buffers: spec_mem_field(l, "Buffers"@, n),
        cached: spec_mem_field(l, "Cached"@, n),
        s_reclaimable: spec_mem_field(l, "SReclaimable"@, n),
        used: 0,
        zram_mem_used: zram.mem_used,
    };
    let swap_total = spec_mem_field(l, "SwapTotal"@, n);
    let swap_free = spec_mem_field(l, "SwapFree"@, n);
    (
        MemoryInfo { used: mem.spec_used(), ..mem },
        SwapInfo {
            total: swap_total,
            free: swap_free,
            used: spec_delta(swap_total as nat, swap_free as nat) as u64,
            zram_orig: zram.orig,
            zram_compr: zram.compr,
        },
    )
}

/// The key of a line of the memory statistics and its value in bytes.
fn mem_entry(line: &[char]) -> (e: Option<(Vec<char>, u64)>)
    ensures
        match e {
            Some(kv) => spec_mem_entry(line@) == Some((kv.0@, kv.1)),
            None => spec_mem_entry(line@) is None,
        },
{
    let words = tokens(line);
    let ghost texts = spec_texts(words@);
    if words.len() < 2 {
        return None;
    }
    assert(texts[0] == words@[0]@);
    assert(texts[1] == words@[1]@);
    let kb = match parse_u64(words[1].as_slice()) {
        Some(v) => v,
        None => {
            return None;
        },
    };
    let colon: [char; 1] = [':'];
    assert(colon@ =~= seq![':']);
    let n = trim_end_matches_len(words[0].as_slice(), colon.as_slice());
    let key = vstd::slice::slice_to_vec(vstd::slice::slice_subrange(words[0].as_slice(), 0, n));
    let bytes: u64 = match kb.checked_mul(1024) {
        Some(b) => b,
        None => u64::MAX,
    };
    Some((key, bytes))
}

/// Reads the memory statistics. `zram` is what the compressed swap devices
/// report.
pub fn read_memory_info(content: &str, zram: ZramStats) -> (r: (MemoryInfo, SwapInfo))
    ensures
        r == spec_memory_info(content@, zram),
{
    let chars = chars_of(content);
    let all = lines(chars.as_slice());
    let ghost l = spec_texts(all@);
    let k_total = chars_of("MemTotal");
    let k_free = chars_of("MemFree");
    let k_available = chars_of("MemAvailable");
    let k_buffers = chars_of("Buffers");
    let k_cached = chars_of("Cached");
    let k_reclaimable = chars_of("SReclaimable");
    let k_swap_total = chars_of("SwapTotal");
    let k_swap_free = chars_of("SwapFree");
    let mut mem = MemoryInfo::zero();
    mem.zram_mem_used = zram.mem_used;
    let mut swap_total: u64 = 0;
    let mut swap_free: u64 = 0;
    let mut i: usize = 0;
    while i < all.len()
        invariant
            i <= all.len(),
            l == spec_texts(all@),
            k_total@ == "MemTotal"@,
            k_free@ == "MemFree"@,
            k_available@ == "MemAvailable"@,
            k_buffers@ == "Buffers"@,
            k_cached@ == "Cached"@,
            k_reclaimable@ == "SReclaimable"@,
            k_swap_total@ == "SwapTotal"@,
            k_swap_free@ == "SwapFree"@,
            mem.total == spec_mem_field(l, "MemTotal"@, i as int),
            mem.free == spec_mem_field(l, "MemFree"@, i as int),
            mem.available == spec_mem_field(l, "MemAvailable"@, i as int),
            mem.buffers == spec_mem_field(l, "Buffers"@, i as int),
            mem.cached == spec_mem_field(l, "Cached"@, i as int),
            mem.s_reclaimable == spec_mem_field(l, "SReclaimable"@, i as int),
            mem.used == 0,
            mem.zram_mem_used == zram.mem_used,
            swap_total == spec_mem_field(l, "SwapTotal"@, i as int),
            swap_free == spec_mem_field(l, "SwapFree"@, i as int),
        decreases all.len() - i,
    {
        assert(l[i as int] == all@[i as int]@);
        proof {
            reveal_strlit("MemTotal");
            reveal_strlit("MemFree");
            reveal_strlit("MemAvailable");
            reveal_strlit("Buffers");
            reveal_strlit("Cached");
            reveal_strlit("SReclaimable");
            reveal_strlit("SwapTotal");
            reveal_strlit("SwapFree");
            assert("MemTotal"@.len() == 8 && "MemFree"@.len() == 7 && "MemAvailable"@.len() == 12);
            assert("Buffers"@.len() == 7 && "Cached"@.len() == 6 && "SReclaimable"@.len() == 12);
            assert("SwapTotal"@.len() == 9 && "SwapFree"@.len() == 8);
            assert("MemFree"@[0] == 'M' && "Buffers"@[0] == 'B');
            assert("MemAvailable"@[0] == 'M' && "SReclaimable"@[0] == 'S');
            assert("MemTotal"@[0] == 'M' && "SwapFree"@[0] == 'S');
        }
        match mem_entry(all[i].as_slice()) {
            Some(kv) => {
                let key = kv.0.as_slice();
                let val = kv.1;
                if same_text(key, k_total.as_slice()) {
                    mem.total = val;
                } else if same_text(key, k_free.as_slice()) {
                    mem.free = val;
                } else if same_text(key, k_available.as_slice()) {
                    mem.available = val;
                } else if same_text(key, k_buffers.as_slice()) {
                    mem.buffers = val;
                } else if same_text(key, k_cached.as_slice()) {
                    mem.cached = val;
                } else if same_text(key, k_reclaimable.as_slice()) {
                    mem.s_reclaimable = val;
                } else if same_text(key, k_swap_total.as_slice()) {
                    swap_total = val;
                } else if same_text(key, k_swap_free.as_slice()) {
                    swap_free = val;
                }
            },
            None => {},
        }
        i += 1;
    }
    mem.used = mem.compute_used();
    let swap = SwapInfo {
        total: swap_total,
        free: swap_free,
        used: swap_total.saturating_sub(swap_free),
        zram_orig: zram.orig,
        zram_compr: zram.compr,
    };
    (mem, swap)
}

/// One block device: its name, and the contents of its memory statistics
/// where it has any.
#[derive(Debug)]
pub struct BlockDevice {
    pub name: String,
    pub mm_stat: Option<String>,
}

/// What one block device adds to the statistics of the compressed swap: the
/// first three numbers of its statistics, where the device is a compressed
/// swap device and has three numbers in front.
pub open spec fn spec_zram_of(dev: BlockDevice) -> Option<ZramStats> {
    match dev.mm_stat {
        Some(content) => {
            let words = spec_tokens(content@, 0);
            if spec_starts_with(dev.name@, "zram"@) && words.len() >= 3 {
                match (spec_parse_u64(words[0]), spec_parse_u64(words[1]), spec_parse_u64(words[2])) {
                    (Some(orig), Some(compr), Some(mem_used)) => Some(
                        ZramStats { orig, compr, mem_used },
                    ),
                    _ => None,
                }
            } else {
                None
            }
        },
        None => None,
    }
}

/// A sum of byte counts held at the largest value of the field.
pub open spec fn spec_add_sat(a: u64, b: u64) -> u64 {
    if a + b > u64::MAX {
        u64::MAX
    } else {
        (a + b) as u64
    }
}

/// The statistics of the compressed swap over the first `n` block devices.
pub open spec fn spec_zram_stats(devices: Seq<BlockDevice>, n: int) -> ZramStats
    decreases n,
{
    if n <= 0 {
        ZramStats { orig: 0, compr: 0, mem_used: 0 }
    } else {
        let sum = spec_zram_stats(devices, n - 1);
        match spec_zram_of(devices[n - 1]) {
            Some(z) => ZramStats {
                orig: spec_add_sat(sum.orig, z.orig),
                compr: spec_add_sat(sum.compr, z.compr),
                mem_used: spec_add_sat(sum.mem_used, z.mem_used),
            },
            None => sum,
        }
    }
}

fn zram_of(dev: &BlockDevice) -> (z: Option<ZramStats>)
    ensures
        z == spec_zram_of(*dev),
{
    let content = match &dev.mm_stat {
        Some(c) => chars_of(c.as_str()),
        None => {
            return None;
        },
    };
    let name = chars_of(dev.name.as_str());
    let prefix = chars_of("zram");
    if !starts_with(name.as_slice(), prefix.as_slice()) {
        return None;
    }
    let words = tokens(content.as_slice());
    let ghost texts = spec_texts(words@);
    if words.len() < 3 {
        return None;
    }
    assert(texts[0] == words@[0]@);
    assert(texts[1] == words@[1]@);
    assert(texts[2] == words@[2]@);
    match (
        parse_u64(words[0].as_slice()),
        parse_u64(words[1].as_slice()),
        parse_u64(words[2].as_slice()),
    ) {
        (Some(orig), Some(compr), Some(mem_used)) => Some(ZramStats { orig, compr, mem_used }),
        _ => None,
    }
}

/// Sums what the compressed swap devices among the block devices report.
pub fn read_zram_stats(devices: &[BlockDevice]) -> (z: ZramStats)
    ensures
        z == spec_zram_stats(devices@, devices@.len() as int),
{
    let mut sum = ZramStats { orig: 0, compr: 0, mem_used: 0 };
    let mut i: usize = 0;
    while i < devices.len()
        invariant
            i <= devices.len(),
            sum == spec_zram_stats(devices@, i as int),
        decreases devices.len() - i,
    {
        match zram_of(&devices[i]) {
            Some(z) => {
                sum = ZramStats {
                    orig: sum.orig.saturating_add(z.orig),
                    compr: sum.compr.saturating_add(z.compr),
                    mem_used: sum.mem_used.saturating_add(z.mem_used),
                };
            },
            None => {},
        }
        i += 1;
    }
    sum
}

/// The word at position `i` read as hundredths; zero where there is no such
/// word or it is no number.
pub open spec fn spec_hundredths_at(words: Seq<Seq<char>>, i: int) -> u64 {
    if 0 <= i < words.len() {
        match spec_parse_hundredths(words[i]) {
            Some(v) => v,
            None => 0,
        }
    } else {
        0
    }
}

fn hundredths_at(words: &Vec<Vec<char>>, i: usize) -> (v: u64)
    ensures
        v == spec_hundredths_at(spec_texts(words@), i as int),
{
    if i < words.len() {
        assert(spec_texts(words@)[i as int] == words@[i as int]@);
        match parse_hundredths(words[i].as_slice()) {
            Some(v) => v,
            None => 0,
        }
    } else {
        0
    }
}

/// Reads the load averages over one, five and fifteen minutes, in
/// hundredths.
pub fn read_load_avg(content: &str) -> (load: [u64; 3])
    ensures
        load@ == seq![
            spec_hundredths_at(spec_tokens(content@, 0), 0),
            spec_hundredths_at(spec_tokens(content@, 0), 1),
            spec_hundredths_at(spec_tokens(content@, 0), 2),
        ],
{
    let chars = chars_of(content);
    let words = tokens(chars.as_slice());
    let load = [hundredths_at(&words, 0), hundredths_at(&words, 1), hundredths_at(&words, 2)];
    assert(load@ =~= seq![
        spec_hundredths_at(spec_tokens(content@, 0), 0),
        spec_hundredths_at(spec_tokens(content@, 0), 1),
        spec_hundredths_at(spec_tokens(content@, 0), 2),
    ]);
    load
}

/// Reads the time since boot, in hundredths of a second.
pub fn read_uptime(content: &str) -> (centis: u64)
    ensures
        centis == spec_hundredths_at(spec_tokens(content@, 0), 0),
{
    let chars = chars_of(content);
    let words = tokens(chars.as_slice());
    hundredths_at(&words, 0)
}

} // verus!
