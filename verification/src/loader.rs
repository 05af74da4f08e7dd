//! Userspace side of the kernel tables: decoding what the probes wrote, and
//! seeding the command-line table for processes that were running before the
//! probes were attached.

use vstd::prelude::*;
use vstd::string::StringSliceAdditionalSpecFns;
use std::collections::HashMap;
use crate::probes::{capture_event, spec_is_capture};
use crate::records::{parse_tasks, CmdlineEvent, NetStats, RecordError, TaskInfo, CMDLINE_CAPACITY};
use crate::text::{chars_of, parse_u32, spec_parse_u32, spec_trim, string_of, trim};

verus! {

broadcast use vstd::std_specs::hash::group_hash_axioms;

/// What a walk of the task iterator gave.
#[derive(Debug)]
pub struct TaskRead {
    /// The records, none where the iterator could not be run.
    pub tasks: Vec<TaskInfo>,
    /// Whether the iterator could not be run: the process list is then empty
    /// and the display says so.
    pub degraded: bool,
}

/// Turns the output of one iterator walk into records. `None` stands for an
/// iterator that could not be attached or read: the cycle goes on without
/// processes. Output of the wrong size fails the cycle.
pub fn read_tasks(output: Option<&[u8]>) -> (r: Result<TaskRead, RecordError>)
    ensures
        match output {
            None => r matches Ok(read) && read.degraded && read.tasks@.len() == 0,
            Some(buf) => match r {
                Ok(read) => !read.degraded && buf@.len() % crate::records::TASK_INFO_SIZE as nat
                    == 0 && read.tasks@.len() == buf@.len() / crate::records::TASK_INFO_SIZE as nat
                    && forall|i: int|
                    0 <= i < read.tasks@.len() ==> (#[trigger] read.tasks@[i]).wire()
                        == crate::records::spec_record_bytes(buf@, i),
                Err(e) => buf@.len() % crate::records::TASK_INFO_SIZE as nat != 0 && e == (
                RecordError::SizeMismatch {
                    len: buf.len(),
                    record_size: crate::records::TASK_INFO_SIZE,
                }),
            },
        },
{
    match output {
        None => Ok(TaskRead { tasks: Vec::new(), degraded: true }),
        Some(buf) => match parse_tasks(buf) {
            Ok(tasks) => Ok(TaskRead { tasks, degraded: false }),
            Err(e) => Err(e),
        },
    }
}

/// The character that a captured byte is shown as: a space for the NUL that
/// separates two arguments, else the character with the number of the byte.
pub open spec fn spec_cmdline_char(b: u8) -> char {
    if b == 0 {
        ' '
    } else {
        b as char
    }
}

/// Number of bytes of an entry that count: its length, at most the field.
pub open spec fn spec_event_len(event: CmdlineEvent) -> int {
    if event.len < CMDLINE_CAPACITY {
        event.len as int
    } else {
        CMDLINE_CAPACITY as int
    }
}

/// The command line that a table entry holds: its bytes as characters,
/// without white space at the ends; none where nothing is left.
pub open spec fn spec_get_cmdline(event: CmdlineEvent) -> Option<Seq<char>> {
    let raw = event.cmdline@.subrange(0, spec_event_len(event));
    let text = spec_trim(raw.map_values(|b: u8| spec_cmdline_char(b)));
    if text.len() == 0 {
        None
    } else {
        Some(text)
    }
}

/// Decodes the command line of a table entry.
pub fn get_cmdline(event: &CmdlineEvent) -> (cmdline: Option<String>)
    ensures
        match cmdline {
            Some(s) => spec_get_cmdline(*event) == Some(s@),
            None => spec_get_cmdline(*event) is None,
        },
{
    let len: usize = if (event.len as usize) < CMDLINE_CAPACITY {
        event.len as usize
    } else {
        CMDLINE_CAPACITY
    };
    let ghost raw = event.cmdline@.subrange(0, len as int);
    let mut chars: Vec<char> = Vec::new();
    let mut i: usize = 0;
    while i < len
        invariant
            i <= len <= CMDLINE_CAPACITY,
            raw == event.cmdline@.subrange(0, len as int),
            chars@ == raw.subrange(0, i as int).map_values(|b: u8| spec_cmdline_char(b)),
        decreases len - i,
    {
        let b = event.cmdline[i];
        let c = if b == 0 {
            ' '
        } else {
            b as char
        };
        chars.push(c);
        assert(chars@ =~= raw.subrange(0, i + 1).map_values(|b: u8| spec_cmdline_char(b)));
        i += 1;
    }
    assert(raw.subrange(0, len as int) =~= raw);
    let text = trim(chars.as_slice());
    if text.len() == 0 {
        None
    } else {
        Some(string_of(text))
    }
}

/// The table entry that seeds the command line of `pid` with `cmdline`: the
/// first 255 bytes of its UTF-8 form.
pub fn seed_cmdline(pid: u32, cmdline: &str) -> (event: CmdlineEvent)
    ensures
        spec_is_capture(event, pid, Ok(cmdline.spec_bytes())),
{
    capture_event(pid, Ok(cmdline.as_bytes()))
}

/// One entry of the process directory: its name, and the contents of its
/// command-line file where that could be read as text.
#[derive(Debug)]
pub struct ProcEntry {
    pub name: String,
    pub cmdline: Option<String>,
}

/// The command line that a command-line file holds: its NULs turned into
/// spaces, without white space at the ends.
pub open spec fn spec_proc_cmdline(contents: Seq<char>) -> Seq<char> {
    spec_trim(
        contents.map_values(
            |c: char|
                if c == '\0' {
                    ' '
                } else {
                    c
                },
        ),
    )
}

/// The process id and command line that an entry of the process directory
/// seeds the table with: none unless the name is a number, the file could be
/// read and a command line is left.
pub open spec fn spec_seed_of(entry: ProcEntry) -> Option<(u32, Seq<char>)> {
    match (spec_parse_u32(entry.name@), entry.cmdline) {
        (Some(pid), Some(contents)) => if spec_proc_cmdline(contents@).len() == 0 {
            None
        } else {
            Some((pid, spec_proc_cmdline(contents@)))
        },
        _ => None,
    }
}

/// The seeds of the first `n` entries, in order.
pub open spec fn spec_seeds(entries: Seq<ProcEntry>, n: int) -> Seq<(u32, Seq<char>)>
    decreases n,
{
    if n <= 0 {
        Seq::empty()
    } else {
        match spec_seed_of(entries[n - 1]) {
            Some(seed) => spec_seeds(entries, n - 1).push(seed),
            None => spec_seeds(entries, n - 1),
        }
    }
}

/// The process id and command line that one entry seeds the table with.
pub fn seed_of(entry: &ProcEntry) -> (seed: Option<(u32, String)>)
    ensures
        match seed {
            Some(s) => spec_seed_of(*entry) == Some((s.0, s.1@)),
            None => spec_seed_of(*entry) is None,
        },
{
    let name = chars_of(entry.name.as_str());
    let pid = match parse_u32(name.as_slice()) {
        Some(p) => p,
        None => {
            return None;
        },
    };
    let contents = match &entry.cmdline {
        Some(c) => chars_of(c.as_str()),
        None => {
            return None;
        },
    };
    let mut spaced: Vec<char> = Vec::new();
    let mut i: usize = 0;
    while i < contents.len()
        invariant
            i <= contents.len(),
            spaced@ == contents@.subrange(0, i as int).map_values(
                |c: char|
                    if c == '\0' {
                        ' '
                    } else {
                        c
                    },
            ),
        decreases contents.len() - i,
    {
        let c = contents[i];
        spaced.push(
            if c == '\0' {
                ' '
            } else {
                c
            },
        );
        assert(spaced@ =~= contents@.subrange(0, i + 1).map_values(
            |c: char|
                if c == '\0' {
                    ' '
                } else {
                    c
                },
        ));
        i += 1;
    }
    assert(contents@.subrange(0, contents@.len() as int) =~= contents@);
    let text = trim(spaced.as_slice());
    if text.len() == 0 {
        None
    } else {
        Some((pid, string_of(text)))
    }
}

/// What to seed the command-line table with after one scan of the process
/// directory: for each process found, its id and command line.
pub fn seed_cmdlines_from_proc(entries: &[ProcEntry]) -> (seeds: Vec<(u32, String)>)
    ensures
        seeds@.len() == spec_seeds(entries@, entries@.len() as int).len(),
        forall|i: int|
            0 <= i < seeds@.len() ==> (#[trigger] seeds@[i]).0 == spec_seeds(
                entries@,
                entries@.len() as int,
            )[i].0 && seeds@[i].1@ == spec_seeds(entries@, entries@.len() as int)[i].1,
{
    let mut seeds: Vec<(u32, String)> = Vec::new();
    let mut i: usize = 0;
    while i < entries.len()
        invariant
            i <= entries.len(),
            seeds@.len() == spec_seeds(entries@, i as int).len(),
            forall|k: int|
                0 <= k < seeds@.len() ==> (#[trigger] seeds@[k]).0 == spec_seeds(
                    entries@,
                    i as int,
                )[k].0 && seeds@[k].1@ == spec_seeds(entries@, i as int)[k].1,
        decreases entries.len() - i,
    {
        match seed_of(&entries[i]) {
            Some(seed) => {
                seeds.push(seed);
            },
            None => {},
        }
        i += 1;
    }
    seeds
}

/// The counters of every process in a dump of the network table, by process
/// id: sent bytes, received bytes and interface. Only the first `n` entries
/// are looked at; a process id listed twice keeps its later entry.
pub open spec fn spec_net_stats(entries: Seq<(u32, NetStats)>, n: int) -> Map<u32, (u64, u64, u32)>
    decreases n,
{
    if n <= 0 {
        Map::empty()
    } else {
        let (pid, s) = entries[n - 1];
        spec_net_stats(entries, n - 1).insert(pid, (s.tx_bytes, s.rx_bytes, s.ifindex))
    }
}

/// Indexes a dump of the network table by process id.
pub fn read_net_stats(entries: &[(u32, NetStats)]) -> (stats: HashMap<u32, (u64, u64, u32)>)
    ensures
        stats@ == spec_net_stats(entries@, entries@.len() as int),
{
    let mut stats: HashMap<u32, (u64, u64, u32)> = HashMap::new();
    let mut i: usize = 0;
    while i < entries.len()
        invariant
            i <= entries.len(),
            stats@ == spec_net_stats(entries@, i as int),
        decreases entries.len() - i,
    {
        let (pid, s) = entries[i];
        stats.insert(pid, (s.tx_bytes, s.rx_bytes, s.ifindex));
        i += 1;
    }
    stats
}

} // verus!
