//! Freezing and thawing a cgroup: which files are touched, and how what
//! they hold is read.

use vstd::prelude::*;
use crate::text::{
    chars_of, lines, parse_u32, push_decimal, same_text, spec_decimal, spec_lines_from,
    spec_parse_u32, spec_texts, spec_trim, trim,
};

verus! {

/// Where the cgroup tree is mounted.
pub open spec fn spec_cgroup_base() -> Seq<char> {
    "/sys/fs/cgroup"@
}

/// Name of the cgroup that holds the processes that were frozen out of the
/// root cgroup.
pub open spec fn spec_managed_dir() -> Seq<char> {
    "bpftop.freeze"@
}

/// The file `file` of the cgroup with the path `cgroup_path`.
pub open spec fn spec_control_file(cgroup_path: Seq<char>, file: Seq<char>) -> Seq<char> {
    spec_cgroup_base() + cgroup_path + seq!['/'] + file
}

/// The file `file` of the cgroup with the path `cgroup_path`.
pub fn control_file(cgroup_path: &str, file: &str) -> (path: String)
    ensures
        path@ == spec_control_file(cgroup_path@, file@),
{
    let mut path = String::new();
    path.append("/sys/fs/cgroup");
    path.append(cgroup_path);
    path.push('/');
    path.append(file);
    assert(path@ =~= spec_control_file(cgroup_path@, file@));
    path
}

/// The path, below the mount point, of the cgroup that a process of the
/// root cgroup is moved to before it is frozen.
pub open spec fn spec_managed_cgroup(pid: u32) -> Seq<char> {
    seq!['/'] + spec_managed_dir() + seq!['/'] + spec_decimal(pid as nat)
}

/// The path of the cgroup that a process of the root cgroup is moved to.
pub fn managed_cgroup(pid: u32) -> (path: String)
    ensures
        path@ == spec_managed_cgroup(pid),
{
    let mut path = String::new();
    path.push('/');
    path.append("bpftop.freeze");
    path.push('/');
    push_decimal(&mut path, pid as u64);
    assert(path@ =~= spec_managed_cgroup(pid));
    path
}

/// The process ids among the first `n` lines: of every line that, without
/// the white space at its ends, is a number.
pub open spec fn spec_cgroup_pids(lines: Seq<Seq<char>>, n: int) -> Seq<u32>
    decreases n,
{
    if n <= 0 {
        Seq::empty()
    } else {
        match spec_parse_u32(spec_trim(lines[n - 1])) {
            Some(pid) => spec_cgroup_pids(lines, n - 1).push(pid),
            None => spec_cgroup_pids(lines, n - 1),
        }
    }
}

/// Reads the process ids that the process list of a cgroup holds.
pub fn read_cgroup_pids(contents: &str) -> (pids: Vec<u32>)
    ensures
        pids@ == spec_cgroup_pids(
            spec_lines_from(contents@, 0),
            spec_lines_from(contents@, 0).len() as int,
        ),
{
    let chars = chars_of(contents);
    let all = lines(chars.as_slice());
    let ghost texts = spec_texts(all@);
    let mut pids: Vec<u32> = Vec::new();
    let mut i: usize = 0;
    while i < all.len()
        invariant
            i <= all.len(),
            texts == spec_texts(all@),
            pids@ == spec_cgroup_pids(texts, i as int),
        decreases all.len() - i,
    {
        assert(texts[i as int] == all@[i as int]@);
        match parse_u32(trim(all[i].as_slice())) {
            Some(pid) => {
                pids.push(pid);
            },
            None => {},
        }
        i += 1;
    }
    pids
}

/// Whether the freeze flag of a cgroup says that it is frozen: whether it
/// holds a one and nothing but white space around it.
pub fn is_frozen(contents: &str) -> (frozen: bool)
    ensures
        frozen == (spec_trim(contents@) == seq!['1']),
{
    let chars = chars_of(contents);
    let one: [char; 1] = ['1'];
    assert(one@ =~= seq!['1']);
    same_text(trim(chars.as_slice()), one.as_slice())
}

/// What is written to the freeze flag of a cgroup to freeze it.
pub fn freeze_cgroup() -> (flag: &'static str)
    ensures
        flag@ == "1"@,
{
    "1"
}

/// What is written to the freeze flag of a cgroup to thaw it.
pub fn thaw_cgroup() -> (flag: &'static str)
    ensures
        flag@ == "0"@,
{
    "0"
}

} // verus!
