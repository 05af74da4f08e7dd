//! From the inode number of a cgroup directory to its path, and from the path
//! to the container that the cgroup belongs to.

use vstd::prelude::*;
use vstd::slice::slice_subrange;
use std::collections::HashMap;
use crate::text::{
    chars_of, contains, find_char, spec_contains, spec_find_char, spec_starts_with,
    spec_trim_end_matches, starts_with, string_of, trim_end_matches_len,
};

verus! {

broadcast use vstd::std_specs::hash::group_hash_axioms;

/// The runtime that manages a container.
#[derive(Debug, Clone, Copy, PartialEq, Eq, Structural)]
pub enum ContainerRuntime {
    Docker,
    Containerd,
    Podman,
    Unknown,
}

/// The container that a process runs in.
#[derive(Debug)]
pub struct ContainerInfo {
    /// Shortened container id.
    pub name: String,
    pub runtime: ContainerRuntime,
}

impl View for ContainerInfo {
    type V = (Seq<char>, ContainerRuntime);

    open spec fn view(&self) -> (Seq<char>, ContainerRuntime) {
        (self.name@, self.runtime)
    }
}

impl Clone for ContainerInfo {
    fn clone(&self) -> (c: Self)
        ensures
            c@ == self@,
    {
        ContainerInfo { name: self.name.clone(), runtime: self.runtime }
    }
}

/// What an optional container holds.
pub open spec fn spec_container(o: Option<ContainerInfo>) -> Option<(Seq<char>, ContainerRuntime)> {
    match o {
        Some(c) => Some(c@),
        None => None,
    }
}

/// Characters kept of a container id.
pub const SHORT_ID_LEN: usize = 12;

/// Cycles between two walks of the cgroup tree.
pub const REFRESH_CYCLES: u32 = 10;

/// The first twelve characters of an id, or all of a shorter one.
pub open spec fn spec_short_id(id: Seq<char>) -> Seq<char> {
    if id.len() > SHORT_ID_LEN {
        id.subrange(0, SHORT_ID_LEN as int)
    } else {
        id
    }
}

/// The id in the path segment `seg`: what follows `prefix`, without the
/// trailing `suffix`, where `seg` begins with `prefix` and that is not empty.
pub open spec fn spec_segment_id(seg: Seq<char>, prefix: Seq<char>, suffix: Seq<char>) -> Option<
    Seq<char>,
> {
    if spec_starts_with(seg, prefix) {
        let id = spec_trim_end_matches(seg.subrange(prefix.len() as int, seg.len() as int), suffix);
        if id.len() > 0 {
            Some(id)
        } else {
            None
        }
    } else {
        None
    }
}

/// The id of the first segment of `path`, at or after position `from`, that
/// holds one. Segments are what the slashes of the path separate.
pub open spec fn spec_scope_id_from(
    path: Seq<char>,
    prefix: Seq<char>,
    suffix: Seq<char>,
    from: int,
) -> Option<Seq<char>>
    decreases path.len() - from,
{
    if from < 0 || from > path.len() {
        None
    } else {
        let end = spec_find_char(path, '/', from);
        match spec_segment_id(path.subrange(from, end), prefix, suffix) {
            Some(id) => Some(id),
            None => if end >= path.len() || end < from {
                None
            } else {
                spec_scope_id_from(path, prefix, suffix, end + 1)
            },
        }
    }
}

/// The id that a path holds for the scope prefix `prefix`: of its first
/// segment that begins with `prefix` and has an id left once every trailing
/// `.scope` is taken off.
pub open spec fn spec_extract_scope_id(path: Seq<char>, prefix: Seq<char>) -> Option<Seq<char>> {
    spec_scope_id_from(path, prefix, ".scope"@, 0)
}

/// Position where the last segment of `path` begins: after its last slash
/// before `upto`, or zero.
pub open spec fn spec_last_segment_start(path: Seq<char>, upto: int) -> int
    decreases upto,
{
    if upto <= 0 || upto > path.len() {
        0
    } else if path[upto - 1] == '/' {
        upto
    } else {
        spec_last_segment_start(path, upto - 1)
    }
}

/// The last segment of `path`.
pub open spec fn spec_last_segment(path: Seq<char>) -> Seq<char> {
    path.subrange(spec_last_segment_start(path, path.len() as int), path.len() as int)
}

/// The container that a cgroup path names, if any. A Docker, containerd or
/// Podman scope is looked for in this order; failing those, a path that
/// mentions `kubepods` names the container of its last segment, unless that
/// segment is empty or names the pod itself.
pub open spec fn spec_parse_container(path: Seq<char>) -> Option<(Seq<char>, ContainerRuntime)> {
    if let Some(id) = spec_extract_scope_id(path, "docker-"@) {
        Some((spec_short_id(id), ContainerRuntime::Docker))
    } else if let Some(id) = spec_extract_scope_id(path, "containerd-"@) {
        Some((spec_short_id(id), ContainerRuntime::Containerd))
    } else if let Some(id) = spec_extract_scope_id(path, "libpod-"@) {
        Some((spec_short_id(id), ContainerRuntime::Podman))
    } else if spec_contains(path, "kubepods"@) && spec_last_segment(path).len() > 0
        && !spec_starts_with(spec_last_segment(path), "pod"@) {
        Some((spec_short_id(spec_last_segment(path)), ContainerRuntime::Containerd))
    } else {
        None
    }
}

fn segment_id(seg: &[char], prefix: &[char], suffix: &[char]) -> (id: Option<Vec<char>>)
    ensures
        match id {
            Some(v) => spec_segment_id(seg@, prefix@, suffix@) == Some(v@),
            None => spec_segment_id(seg@, prefix@, suffix@) is None,
        },
{
    if starts_with(seg, prefix) {
        let rest = slice_subrange(seg, prefix.len(), seg.len());
        let n = trim_end_matches_len(rest, suffix);
        if n > 0 {
            let kept = slice_subrange(rest, 0, n);
            Some(vstd::slice::slice_to_vec(kept))
        } else {
            None
        }
    } else {
        None
    }
}

fn scope_id_in(path: &[char], prefix: &[char], suffix: &[char]) -> (id: Option<Vec<char>>)
    ensures
        match id {
            Some(v) => spec_scope_id_from(path@, prefix@, suffix@, 0) == Some(v@),
            None => spec_scope_id_from(path@, prefix@, suffix@, 0) is None,
        },
{
    let mut from: usize = 0;
    loop
        invariant
            from <= path.len(),
            spec_scope_id_from(path@, prefix@, suffix@, 0) == spec_scope_id_from(
                path@,
                prefix@,
                suffix@,
                from as int,
            ),
        decreases path.len() - from,
    {
        let end = find_char(path, '/', from);
        let seg = slice_subrange(path, from, end);
        match segment_id(seg, prefix, suffix) {
            Some(v) => {
                return Some(v);
            },
            None => {
                if end >= path.len() {
                    return None;
                }
                from = end + 1;
            },
        }
    }
}

/// The id that `path` holds for the scope prefix `prefix`.
pub fn extract_scope_id(path: &str, prefix: &str) -> (id: Option<String>)
    ensures
        match id {
            Some(s) => spec_extract_scope_id(path@, prefix@) == Some(s@),
            None => spec_extract_scope_id(path@, prefix@) is None,
        },
{
    let p = chars_of(path);
    let pre = chars_of(prefix);
    let suffix = chars_of(".scope");
    match scope_id_in(p.as_slice(), pre.as_slice(), suffix.as_slice()) {
        Some(v) => Some(string_of(v.as_slice())),
        None => None,
    }
}

fn short_id_of(id: &[char]) -> (s: String)
    ensures
        s@ == spec_short_id(id@),
{
    if id.len() > SHORT_ID_LEN {
        string_of(slice_subrange(id, 0, SHORT_ID_LEN))
    } else {
        string_of(id)
    }
}

/// The first twelve characters of an id.
pub fn short_id(id: &str) -> (s: String)
    ensures
        s@ == spec_short_id(id@),
{
    let v = chars_of(id);
    short_id_of(v.as_slice())
}

fn last_segment_start(path: &[char]) -> (at: usize)
    ensures
        at == spec_last_segment_start(path@, path@.len() as int),
        at <= path.len(),
{
    let mut upto: usize = path.len();
    while upto > 0
        invariant
            upto <= path.len(),
            spec_last_segment_start(path@, path@.len() as int) == spec_last_segment_start(
                path@,
                upto as int,
            ),
        decreases upto,
    {
        if path[upto - 1] == '/' {
            return upto;
        }
        upto -= 1;
    }
    0
}

/// The container that a cgroup path names, if any.
pub fn parse_container_from_cgroup(cgroup_path: &str) -> (info: Option<ContainerInfo>)
    ensures
        spec_container(info) == spec_parse_container(cgroup_path@),
{
    let path = chars_of(cgroup_path);
    let suffix = chars_of(".scope");
    let docker = chars_of("docker-");
    if let Some(id) = scope_id_in(path.as_slice(), docker.as_slice(), suffix.as_slice()) {
        return Some(
            ContainerInfo { name: short_id_of(id.as_slice()), runtime: ContainerRuntime::Docker },
        );
    }
    let containerd = chars_of("containerd-");
    if let Some(id) = scope_id_in(path.as_slice(), containerd.as_slice(), suffix.as_slice()) {
        return Some(
            ContainerInfo {
                name: short_id_of(id.as_slice()),
                runtime: ContainerRuntime::Containerd,
            },
        );
    }
    let libpod = chars_of("libpod-");
    if let Some(id) = scope_id_in(path.as_slice(), libpod.as_slice(), suffix.as_slice()) {
        return Some(
            ContainerInfo { name: short_id_of(id.as_slice()), runtime: ContainerRuntime::Podman },
        );
    }
    let kubepods = chars_of("kubepods");
    if contains(path.as_slice(), kubepods.as_slice()) {
        let start = last_segment_start(path.as_slice());
        let last = slice_subrange(path.as_slice(), start, path.len());
        let pod = chars_of("pod");
        if last.len() > 0 && !starts_with(last, pod.as_slice()) {
            return Some(
                ContainerInfo { name: short_id_of(last), runtime: ContainerRuntime::Containerd },
            );
        }
    }
    None
}

/// The paths that a walk of the cgroup tree found, by inode number. Where
/// the walk lists a number twice, the later entry stands. Only the first `n`
/// entries are looked at.
pub open spec fn spec_path_map(entries: Seq<(u64, String)>, n: int) -> Map<u64, Seq<char>>
    decreases n,
{
    if n <= 0 {
        Map::empty()
    } else {
        spec_path_map(entries, n - 1).insert(entries[n - 1].0, entries[n - 1].1@)
    }
}

/// The container of the cgroup with inode number `cgroup_id`: none for the
/// number zero and for a number that the walk did not find.
pub open spec fn spec_resolve(paths: Map<u64, Seq<char>>, cgroup_id: u64) -> Option<
    (Seq<char>, ContainerRuntime),
> {
    if cgroup_id == 0 || !paths.contains_key(cgroup_id) {
        None
    } else {
        spec_parse_container(paths[cgroup_id])
    }
}

/// The path of the cgroup with inode number `cgroup_id`, empty where the
/// walk did not find the number.
pub open spec fn spec_resolve_path(paths: Map<u64, Seq<char>>, cgroup_id: u64) -> Seq<char> {
    if paths.contains_key(cgroup_id) {
        paths[cgroup_id]
    } else {
        Seq::empty()
    }
}

/// Resolves the inode numbers of cgroup directories, as task records carry
/// them, to paths and containers.
///
/// The paths come from a walk of the cgroup tree, which is repeated every
/// tenth cycle: the tree changes far less often than the processes do.
pub struct CgroupResolver {
    id_to_path: HashMap<u64, String>,
    /// What was parsed from the path of an inode number, kept until the next
    /// walk.
    id_to_container: HashMap<u64, Option<ContainerInfo>>,
    cycles_since_refresh: u32,
}

impl CgroupResolver {
    /// The path on record for each inode number.
    pub closed spec fn spec_paths(self) -> Map<u64, Seq<char>> {
        Map::new(
            |k: u64| self.id_to_path@.contains_key(k),
            |k: u64| self.id_to_path@[k]@,
        )
    }

    /// Cycles since the last walk.
    pub closed spec fn spec_cycles(self) -> u32 {
        self.cycles_since_refresh
    }

    /// The next walk is at most ten cycles away, and what is kept of earlier
    /// answers agrees with the paths on record.
    pub closed spec fn wf(self) -> bool {
        &&& self.cycles_since_refresh < REFRESH_CYCLES
        &&& forall|k: u64| #[trigger]
            self.id_to_container@.contains_key(k) ==> self.id_to_path@.contains_key(k)
                && spec_container(self.id_to_container@[k]) == spec_parse_container(
                self.id_to_path@[k]@,
            )
    }

    /// A resolver that knows no path yet.
    pub fn new() -> (r: Self)
        ensures
            r.wf(),
            r.spec_paths() == Map::<u64, Seq<char>>::empty(),
            r.spec_cycles() == 0,
    {
        let r = CgroupResolver {
            id_to_path: HashMap::new(),
            id_to_container: HashMap::new(),
            cycles_since_refresh: 0,
        };
        assert(r.spec_paths() =~= Map::<u64, Seq<char>>::empty());
        r
    }

    /// Whether the coming cycle is one that walks the cgroup tree.
    pub fn refresh_due(&self) -> (due: bool)
        ensures
            due == (self.spec_cycles() + 1 >= REFRESH_CYCLES),
    {
        self.cycles_since_refresh >= REFRESH_CYCLES - 1
    }

    /// Replaces the paths on record by what a walk of the cgroup tree found.
    pub fn refresh_inode_map(&mut self, entries: &[(u64, String)])
        requires
            old(self).wf(),
        ensures
            final(self).wf(),
            final(self).spec_cycles() == old(self).spec_cycles(),
            final(self).spec_paths() == spec_path_map(entries@, entries@.len() as int),
    {
        self.id_to_path.clear();
        self.id_to_container.clear();
        assert(self.spec_paths() =~= spec_path_map(entries@, 0));
        let mut i: usize = 0;
        while i < entries.len()
            invariant
                i <= entries.len(),
                self.wf(),
                self.id_to_container@ == Map::<u64, Option<ContainerInfo>>::empty(),
                self.spec_cycles() == old(self).spec_cycles(),
                self.spec_paths() == spec_path_map(entries@, i as int),
            decreases entries.len() - i,
        {
            let ghost before = self.spec_paths();
            let id = entries[i].0;
            let path = entries[i].1.clone();
            self.id_to_path.insert(id, path);
            assert(self.spec_paths() =~= before.insert(id, entries@[i as int].1@));
            i += 1;
        }
    }

    /// The paths on record after one more cycle was counted.
    pub open spec fn spec_paths_after_tick(self, walk: Option<&[(u64, String)]>) -> Map<
        u64,
        Seq<char>,
    > {
        match walk {
            Some(entries) => if self.spec_cycles() + 1 >= REFRESH_CYCLES {
                spec_path_map(entries@, entries@.len() as int)
            } else {
                self.spec_paths()
            },
            None => self.spec_paths(),
        }
    }

    /// The cycles since the last walk after one more cycle was counted.
    pub open spec fn spec_cycles_after_tick(self, walk: Option<&[(u64, String)]>) -> u32 {
        if self.spec_cycles() + 1 >= REFRESH_CYCLES {
            match walk {
                Some(_) => 0,
                None => self.spec_cycles(),
            }
        } else {
            (self.spec_cycles() + 1) as u32
        }
    }

    /// Counts one cycle. On every tenth cycle the paths are replaced by what
    /// `walk` found; where that cycle comes without a walk, the next one is
    /// due again.
    pub fn tick(&mut self, walk: Option<&[(u64, String)]>)
        requires
            old(self).wf(),
        ensures
            final(self).wf(),
            final(self).spec_cycles() == old(self).spec_cycles_after_tick(walk),
            final(self).spec_paths() == old(self).spec_paths_after_tick(walk),
    {
        if self.cycles_since_refresh + 1 >= REFRESH_CYCLES {
            match walk {
                Some(entries) => {
                    self.refresh_inode_map(entries);
                    self.cycles_since_refresh = 0;
                },
                None => {},
            }
        } else {
            self.cycles_since_refresh = self.cycles_since_refresh + 1;
        }
    }

    /// The container of the cgroup with inode number `cgroup_id`, if it
    /// belongs to one.
    pub fn resolve(&mut self, cgroup_id: u64) -> (info: Option<ContainerInfo>)
        requires
            old(self).wf(),
        ensures
            final(self).wf(),
            final(self).spec_paths() == old(self).spec_paths(),
            final(self).spec_cycles() == old(self).spec_cycles(),
            spec_container(info) == spec_resolve(old(self).spec_paths(), cgroup_id),
    {
        if cgroup_id == 0 {
            return None;
        }
        let path = match self.id_to_path.get(&cgroup_id) {
            Some(p) => p,
            None => {
                return None;
            },
        };
        match self.id_to_container.get(&cgroup_id) {
            Some(cached) => {
                return match cached {
                    Some(c) => Some(c.clone()),
                    None => None,
                };
            },
            None => {},
        }
        let info = parse_container_from_cgroup(path.as_str());
        let kept = match &info {
            Some(c) => Some(c.clone()),
            None => None,
        };
        self.id_to_container.insert(cgroup_id, kept);
        info
    }

    /// The path of the cgroup with inode number `cgroup_id`, empty where it
    /// is not on record.
    pub fn resolve_path(&self, cgroup_id: u64) -> (path: String)
        ensures
            path@ == spec_resolve_path(self.spec_paths(), cgroup_id),
    {
        match self.id_to_path.get(&cgroup_id) {
            Some(p) => p.clone(),
            None => String::new(),
        }
    }
}

} // verus!
