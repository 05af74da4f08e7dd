//! Checks of the pipeline from the kernel programs to the records: what is
//! looked at, and the verdict that is reported.

use vstd::prelude::*;
use crate::collector::{comm_to_string, spec_comm_text};
use crate::records::{TaskInfo, TASK_INFO_SIZE};
use crate::text::{chars_of, push_decimal, spec_decimal, spec_digit_value};

verus! {

/// Bytes that the smallest object file has.
pub const MIN_ELF_SIZE: usize = 16;

/// The hexadecimal digit `d`.
pub open spec fn spec_hex_digit(d: int) -> char {
    if d == 0 {
        '0'
    } else if d == 1 {
        '1'
    } else if d == 2 {
        '2'
    } else if d == 3 {
        '3'
    } else if d == 4 {
        '4'
    } else if d == 5 {
        '5'
    } else if d == 6 {
        '6'
    } else if d == 7 {
        '7'
    } else if d == 8 {
        '8'
    } else if d == 9 {
        '9'
    } else if d == 10 {
        'a'
    } else if d == 11 {
        'b'
    } else if d == 12 {
        'c'
    } else if d == 13 {
        'd'
    } else if d == 14 {
        'e'
    } else {
        'f'
    }
}

/// A byte as two hexadecimal digits.
pub open spec fn spec_hex2(b: u8) -> Seq<char> {
    seq![spec_hex_digit(b as int / 16), spec_hex_digit(b as int % 16)]
}

fn hex_digit(d: u8) -> (c: char)
    requires
        d < 16,
    ensures
        c == spec_hex_digit(d as int),
{
    if d == 0 {
        '0'
    } else if d == 1 {
        '1'
    } else if d == 2 {
        '2'
    } else if d == 3 {
        '3'
    } else if d == 4 {
        '4'
    } else if d == 5 {
        '5'
    } else if d == 6 {
        '6'
    } else if d == 7 {
        '7'
    } else if d == 8 {
        '8'
    } else if d == 9 {
        '9'
    } else if d == 10 {
        'a'
    } else if d == 11 {
        'b'
    } else if d == 12 {
        'c'
    } else if d == 13 {
        'd'
    } else if d == 14 {
        'e'
    } else {
        'f'
    }
}

fn push_hex2(out: &mut String, b: u8)
    ensures
        final(out)@ == old(out)@ + spec_hex2(b),
{
    out.push(hex_digit(b / 16));
    out.push(hex_digit(b % 16));
    assert(out@ =~= old(out)@ + spec_hex2(b));
}

/// Whether the bytes begin as an object file does.
pub open spec fn spec_has_elf_magic(obj: Seq<u8>) -> bool {
    obj.len() >= 4 && obj[0] == 0x7f && obj[1] == 0x45 && obj[2] == 0x4c && obj[3] == 0x46
}

/// The verdict on the object file that holds the kernel programs.
pub open spec fn spec_validate_elf(obj: Seq<u8>) -> Result<Seq<char>, Seq<char>> {
    if obj.len() < MIN_ELF_SIZE {
        Err("eBPF binary too small: "@ + spec_decimal(obj.len()) + " bytes"@)
    } else if !spec_has_elf_magic(obj) {
        Err(
            "Not an ELF: magic="@ + spec_hex2(obj[0]) + seq![' '] + spec_hex2(obj[1]) + seq![' ']
                + spec_hex2(obj[2]) + seq![' '] + spec_hex2(obj[3]),
        )
    } else {
        Ok("valid ELF, "@ + spec_decimal(obj.len()) + " bytes"@)
    }
}

/// The view of a verdict.
pub open spec fn spec_verdict(r: Result<String, String>) -> Result<Seq<char>, Seq<char>> {
    match r {
        Ok(s) => Ok(s@),
        Err(s) => Err(s@),
    }
}

/// Checks that the object file with the kernel programs looks like one.
pub fn validate_elf(obj: &[u8]) -> (r: Result<String, String>)
    ensures
        spec_verdict(r) == spec_validate_elf(obj@),
{
    let size = obj.len();
    let mut s = String::new();
    if size < MIN_ELF_SIZE {
        s.append("eBPF binary too small: ");
        push_decimal(&mut s, size as u64);
        s.append(" bytes");
        assert(s@ =~= "eBPF binary too small: "@ + spec_decimal(obj@.len()) + " bytes"@);
        return Err(s);
    }
    if obj[0] != 0x7f || obj[1] != 0x45 || obj[2] != 0x4c || obj[3] != 0x46 {
        s.append("Not an ELF: magic=");
        push_hex2(&mut s, obj[0]);
        s.push(' ');
        push_hex2(&mut s, obj[1]);
        s.push(' ');
        push_hex2(&mut s, obj[2]);
        s.push(' ');
        push_hex2(&mut s, obj[3]);
        assert(s@ =~= "Not an ELF: magic="@ + spec_hex2(obj@[0]) + seq![' '] + spec_hex2(obj@[1])
            + seq![' '] + spec_hex2(obj@[2]) + seq![' '] + spec_hex2(obj@[3]));
        return Err(s);
    }
    s.append("valid ELF, ");
    push_decimal(&mut s, size as u64);
    s.append(" bytes");
    assert(s@ =~= "valid ELF, "@ + spec_decimal(obj@.len()) + " bytes"@);
    Ok(s)
}

/// The process name of a record as text.
pub fn comm_str(comm: &[u8; 16]) -> (name: String)
    ensures
        name@ == spec_comm_text(comm@),
{
    comm_to_string(comm)
}

/// The verdict on the size of the iterator's output.
pub open spec fn spec_validate_alignment(len: nat) -> Result<Seq<char>, Seq<char>> {
    if len % TASK_INFO_SIZE as nat != 0 {
        Err(
            "BPF-side TaskInfo size differs! remainder="@ + spec_decimal(
                len % TASK_INFO_SIZE as nat,
            ) + " (BPF writes different size)"@,
        )
    } else if len / TASK_INFO_SIZE as nat == 0 {
        Err("0 tasks parsed despite non-zero bytes"@)
    } else {
        Ok(spec_decimal(len / TASK_INFO_SIZE as nat) + " tasks, alignment OK"@)
    }
}

/// Checks that the iterator's output is a whole, positive number of
/// records.
pub fn validate_alignment(len: usize) -> (r: Result<String, String>)
    ensures
        spec_verdict(r) == spec_validate_alignment(len as nat),
{
    let count = len / TASK_INFO_SIZE;
    let remainder = len % TASK_INFO_SIZE;
    let mut s = String::new();
    if remainder != 0 {
        s.append("BPF-side TaskInfo size differs! remainder=");
        push_decimal(&mut s, remainder as u64);
        s.append(" (BPF writes different size)");
        assert(s@ =~= "BPF-side TaskInfo size differs! remainder="@ + spec_decimal(
            len as nat % TASK_INFO_SIZE as nat,
        ) + " (BPF writes different size)"@);
        Err(s)
    } else if count == 0 {
        s.append("0 tasks parsed despite non-zero bytes");
        assert(s@ =~= "0 tasks parsed despite non-zero bytes"@);
        Err(s)
    } else {
        push_decimal(&mut s, count as u64);
        s.append(" tasks, alignment OK");
        assert(s@ =~= spec_decimal(len as nat / TASK_INFO_SIZE as nat) + " tasks, alignment OK"@);
        Ok(s)
    }
}

/// What is counted in a sample of records.
#[derive(Debug, Clone, Copy, PartialEq, Eq, Structural)]
pub struct SampleStats {
    pub total: usize,
    /// Records with a process id other than zero.
    pub nonzero_pids: usize,
    /// Records with a name.
    pub nonzero_comm: usize,
    /// Records with resident memory.
    pub nonzero_rss: usize,
    /// Records without process id, thread id, parent and name.
    pub all_zero: usize,
}

/// Whether a record has a name.
pub open spec fn spec_has_comm(t: TaskInfo) -> bool {
    exists|i: int| 0 <= i < 16 && #[trigger] t.comm@[i] != 0
}

/// Whether a record is empty: no process id, thread id, parent or name.
pub open spec fn spec_is_all_zero(t: TaskInfo) -> bool {
    t.pid == 0 && t.tid == 0 && t.ppid == 0 && !spec_has_comm(t)
}

/// What is counted in the first `n` records.
pub open spec fn spec_sample_stats(tasks: Seq<TaskInfo>, n: int) -> SampleStats
    decreases n,
{
    if n <= 0 {
        SampleStats { total: 0, nonzero_pids: 0, nonzero_comm: 0, nonzero_rss: 0, all_zero: 0 }
    } else {
        let s = spec_sample_stats(tasks, n - 1);
        let t = tasks[n - 1];
        SampleStats {
            total: (s.total + 1) as usize,
            nonzero_pids: if t.pid != 0 {
                (s.nonzero_pids + 1) as usize
            } else {
                s.nonzero_pids
            },
            nonzero_comm: if spec_has_comm(t) {
                (s.nonzero_comm + 1) as usize
            } else {
                s.nonzero_comm
            },
            nonzero_rss: if t.rss_pages > 0 {
                (s.nonzero_rss + 1) as usize
            } else {
                s.nonzero_rss
            },
            all_zero: if spec_is_all_zero(t) {
                (s.all_zero + 1) as usize
            } else {
                s.all_zero
            },
        }
    }
}

fn has_comm(t: &TaskInfo) -> (b: bool)
    ensures
        b == spec_has_comm(*t),
{
    let mut i: usize = 0;
    while i < 16
        invariant
            i <= 16,
            forall|k: int| 0 <= k < i ==> t.comm@[k] == 0,
        decreases 16 - i,
    {
        if t.comm[i] != 0 {
            return true;
        }
        i += 1;
    }
    false
}

/// Counts what a sample of records holds.
pub fn sample_stats(tasks: &[TaskInfo]) -> (s: SampleStats)
    ensures
        s == spec_sample_stats(tasks@, tasks@.len() as int),
{
    let mut s = SampleStats {
        total: 0,
        nonzero_pids: 0,
        nonzero_comm: 0,
        nonzero_rss: 0,
        all_zero: 0,
    };
    let mut i: usize = 0;
    while i < tasks.len()
        invariant
            i <= tasks.len(),
            s == spec_sample_stats(tasks@, i as int),
            s.total == i,
            s.nonzero_pids <= i && s.nonzero_comm <= i && s.nonzero_rss <= i && s.all_zero <= i,
        decreases tasks.len() - i,
    {
        let t = &tasks[i];
        let named = has_comm(t);
        s = SampleStats {
            total: s.total + 1,
            nonzero_pids: if t.pid != 0 {
                s.nonzero_pids + 1
            } else {
                s.nonzero_pids
            },
            nonzero_comm: if named {
                s.nonzero_comm + 1
            } else {
                s.nonzero_comm
            },
            nonzero_rss: if t.rss_pages > 0 {
                s.nonzero_rss + 1
            } else {
                s.nonzero_rss
            },
            all_zero: if t.pid == 0 && t.tid == 0 && t.ppid == 0 && !named {
                s.all_zero + 1
            } else {
                s.all_zero
            },
        };
        i += 1;
    }
    s
}

/// The verdict on a sample of records: whether the offsets that the kernel
/// programs read at can be right.
pub open spec fn spec_validate_sample(s: SampleStats) -> Result<Seq<char>, Seq<char>> {
    if s.all_zero == s.total {
        Err("ALL entries are zeros \u{2014} task pointer offset is wrong in IterTaskCtx"@)
    } else if s.nonzero_comm == 0 {
        Err("All comms are empty \u{2014} TASK_COMM offset is likely wrong"@)
    } else if s.nonzero_pids < s.total / 2 {
        Err(
            "Only "@ + spec_decimal(s.nonzero_pids as nat) + seq!['/'] + spec_decimal(
                s.total as nat,
            ) + " have non-zero PIDs \u{2014} check field offsets"@,
        )
    } else {
        Ok(
            "data looks valid: "@ + spec_decimal(s.nonzero_pids as nat) + " tasks with PIDs, "@
                + spec_decimal(s.nonzero_comm as nat) + " with comms"@,
        )
    }
}

/// Judges a sample of records by its counts.
pub fn validate_sample(s: &SampleStats) -> (r: Result<String, String>)
    ensures
        spec_verdict(r) == spec_validate_sample(*s),
{
    let mut out = String::new();
    if s.all_zero == s.total {
        out.append("ALL entries are zeros \u{2014} task pointer offset is wrong in IterTaskCtx");
        assert(out@ =~= "ALL entries are zeros \u{2014} task pointer offset is wrong in IterTaskCtx"@);
        Err(out)
    } else if s.nonzero_comm == 0 {
        out.append("All comms are empty \u{2014} TASK_COMM offset is likely wrong");
        assert(out@ =~= "All comms are empty \u{2014} TASK_COMM offset is likely wrong"@);
        Err(out)
    } else if s.nonzero_pids < s.total / 2 {
        out.append("Only ");
        push_decimal(&mut out, s.nonzero_pids as u64);
        out.push('/');
        push_decimal(&mut out, s.total as u64);
        out.append(" have non-zero PIDs \u{2014} check field offsets");
        assert(out@ =~= "Only "@ + spec_decimal(s.nonzero_pids as nat) + seq!['/'] + spec_decimal(
            s.total as nat,
        ) + " have non-zero PIDs \u{2014} check field offsets"@);
        Err(out)
    } else {
        out.append("data looks valid: ");
        push_decimal(&mut out, s.nonzero_pids as u64);
        out.append(" tasks with PIDs, ");
        push_decimal(&mut out, s.nonzero_comm as u64);
        out.append(" with comms");
        assert(out@ =~= "data looks valid: "@ + spec_decimal(s.nonzero_pids as nat)
            + " tasks with PIDs, "@ + spec_decimal(s.nonzero_comm as nat) + " with comms"@);
        Ok(out)
    }
}

/// The number of checks that passed and that failed.
#[derive(Debug, Clone, Copy, PartialEq, Eq, Structural)]
pub struct Tally {
    pub pass: u32,
    pub fail: u32,
}

impl Tally {
    /// Counts one more check.
    pub fn report(&mut self, passed: bool)
        ensures
            final(self).pass == if passed && old(self).pass < u32::MAX {
                (old(self).pass + 1) as u32
            } else {
                old(self).pass
            },
            final(self).fail == if !passed && old(self).fail < u32::MAX {
                (old(self).fail + 1) as u32
            } else {
                old(self).fail
            },
    {
        if passed {
            if self.pass < u32::MAX {
                self.pass = self.pass + 1;
            }
        } else if self.fail < u32::MAX {
            self.fail = self.fail + 1;
        }
    }

    /// The code that the program ends with: zero where no check failed.
    pub fn exit_code(&self) -> (code: i32)
        ensures
            code == if self.fail > 0 {
                1i32
            } else {
                0i32
            },
    {
        if self.fail > 0 {
            1
        } else {
            0
        }
    }
}

/// Whether a name of the process directory is that of a process: whether it
/// is made of decimal digits only.
pub open spec fn spec_is_pid_name(name: Seq<char>) -> bool {
    forall|i: int| 0 <= i < name.len() ==> spec_digit_value(#[trigger] name[i]) is Some
}

/// Number of names among the first `n` that are those of processes.
pub open spec fn spec_count_pid_names(names: Seq<String>, n: int) -> nat
    decreases n,
{
    if n <= 0 {
        0
    } else if spec_is_pid_name(names[n - 1]@) {
        spec_count_pid_names(names, n - 1) + 1
    } else {
        spec_count_pid_names(names, n - 1)
    }
}

fn is_pid_name(name: &str) -> (b: bool)
    ensures
        b == spec_is_pid_name(name@),
{
    let chars = chars_of(name);
    let mut i: usize = 0;
    while i < chars.len()
        invariant
            i <= chars.len(),
            chars@ == name@,
            forall|k: int| 0 <= k < i ==> spec_digit_value(#[trigger] chars@[k]) is Some,
        decreases chars.len() - i,
    {
        let n: u32 = chars[i] as u32;
        if n < 48 || n > 57 {
            assert(spec_digit_value(chars@[i as int]) is None);
            return false;
        }
        i += 1;
    }
    true
}

/// Counts the processes that the process directory lists.
pub fn count_proc_pids(names: &[String]) -> (count: usize)
    ensures
        count == spec_count_pid_names(names@, names@.len() as int),
{
    let mut count: usize = 0;
    let mut i: usize = 0;
    while i < names.len()
        invariant
            i <= names.len(),
            count == spec_count_pid_names(names@, i as int),
            count <= i,
        decreases names.len() - i,
    {
        if is_pid_name(names[i].as_str()) {
            count += 1;
        }
        i += 1;
    }
    count
}

} // verus!
