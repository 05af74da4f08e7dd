//! The process tree: the rows in depth-first order, children in ascending
//! order of process id, each with the marks that draw its branch.

use vstd::prelude::*;
use std::collections::HashMap;
use std::collections::HashSet;
use crate::process::{
    index_by_pid, lemma_last_index_of, spec_has_pid, spec_indexes, spec_last_index_of, spec_pids,
    spec_rows, ProcessInfo, ProcessRow,
};

verus! {

broadcast use vstd::std_specs::hash::group_hash_axioms;

/// One line of the flattened tree.
#[derive(Debug)]
pub struct TreeEntry {
    pub pid: u32,
    /// Distance from the root of the tree.
    pub depth: u16,
    /// Indentation and branch mark in front of the command.
    pub prefix: String,
    /// Whether the process is the last among its siblings.
    pub is_last: bool,
}

/// What a [`TreeEntry`] holds, as mathematical values.
pub struct TreeNode {
    pub pid: u32,
    pub depth: u16,
    pub prefix: Seq<char>,
    pub is_last: bool,
}

impl View for TreeEntry {
    type V = TreeNode;

    open spec fn view(&self) -> TreeNode {
        TreeNode { pid: self.pid, depth: self.depth, prefix: self.prefix@, is_last: self.is_last }
    }
}

/// The lines that a list of entries holds, in order.
pub open spec fn spec_nodes(entries: Seq<TreeEntry>) -> Seq<TreeNode> {
    entries.map_values(|e: TreeEntry| e@)
}

/// Which rows one level of the tree is picked from.
#[derive(Debug, Clone, Copy, PartialEq, Eq, Structural)]
pub enum Pick {
    /// The rows without a parent in the list.
    Roots,
    /// The rows whose parent is the process with this id.
    ChildrenOf(u32),
}

/// One past the largest process id.
pub const PID_LIMIT: u64 = 0x1_0000_0000;

/// Whether a row belongs to a level of the tree. A root is a row that names
/// no parent, or a parent that is not in the list; a child of a process is a
/// row that names it as its parent and is not its own parent.
pub open spec fn spec_picked(rows: Seq<ProcessRow>, row: ProcessRow, pick: Pick) -> bool {
    match pick {
        Pick::Roots => row.ppid == 0 || !spec_has_pid(rows, row.ppid),
        Pick::ChildrenOf(parent) => row.ppid != 0 && row.ppid != row.pid && row.ppid == parent,
    }
}

/// The least process id, not below `floor`, of a row of the level among the
/// first `n` rows.
pub open spec fn spec_least(rows: Seq<ProcessRow>, pick: Pick, floor: int, n: int) -> Option<u32>
    decreases n,
{
    if n <= 0 {
        None
    } else {
        let rest = spec_least(rows, pick, floor, n - 1);
        let row = rows[n - 1];
        if spec_picked(rows, row, pick) && row.pid >= floor && (rest is None || row.pid
            < rest->0) {
            Some(row.pid)
        } else {
            rest
        }
    }
}

/// The depth one level down, held at the largest value of the field.
pub open spec fn spec_deeper(depth: u16) -> u16 {
    if depth < u16::MAX {
        (depth + 1) as u16
    } else {
        depth
    }
}

/// The marks in front of a process: none at the root level; else the
/// indentation of its level and an elbow for the last sibling, a tee for the
/// others.
pub open spec fn spec_prefix(depth: u16, is_last: bool, indent: Seq<char>) -> Seq<char> {
    if depth == 0 {
        Seq::empty()
    } else if is_last {
        indent + seq!['\u{2514}', '\u{2500}']
    } else {
        indent + seq!['\u{251c}', '\u{2500}']
    }
}

/// The indentation of the children of a process: none below a root; else
/// that of the process, widened by blanks below a last sibling and by a
/// vertical bar below the others.
pub open spec fn spec_child_indent(depth: u16, is_last: bool, indent: Seq<char>) -> Seq<char> {
    if depth == 0 {
        Seq::empty()
    } else if is_last {
        indent + seq![' ', ' ']
    } else {
        indent + seq!['\u{2502}', ' ']
    }
}

/// The lines of one process and of what hangs below it. The children of a
/// collapsed process are left out. `fuel` bounds the depth that is followed.
pub open spec fn spec_subtree(
    rows: Seq<ProcessRow>,
    collapsed: Set<u32>,
    pid: u32,
    depth: u16,
    is_last: bool,
    indent: Seq<char>,
    fuel: nat,
) -> Seq<TreeNode>
    decreases fuel, 0nat,
{
    let node = TreeNode { pid, depth, prefix: spec_prefix(depth, is_last, indent), is_last };
    if fuel == 0 || collapsed.contains(pid) {
        seq![node]
    } else {
        seq![node] + spec_level(
            rows,
            collapsed,
            Pick::ChildrenOf(pid),
            0,
            spec_deeper(depth),
            spec_child_indent(depth, is_last, indent),
            (fuel - 1) as nat,
        )
    }
}

/// The lines of the processes of one level whose id is not below `floor`, in
/// ascending order of process id, each followed by what hangs below it.
pub open spec fn spec_level(
    rows: Seq<ProcessRow>,
    collapsed: Set<u32>,
    pick: Pick,
    floor: int,
    depth: u16,
    indent: Seq<char>,
    fuel: nat,
) -> Seq<TreeNode>
    decreases fuel, PID_LIMIT + 1 - floor,
{
    if floor < 0 || floor > PID_LIMIT {
        Seq::empty()
    } else {
        match spec_least(rows, pick, floor, rows.len() as int) {
            None => Seq::empty(),
            Some(pid) => if pid < floor {
                Seq::empty()
            } else {
                spec_subtree(
                    rows,
                    collapsed,
                    pid,
                    depth,
                    spec_least(rows, pick, pid + 1, rows.len() as int) is None,
                    indent,
                    fuel,
                ) + spec_level(rows, collapsed, pick, pid + 1, depth, indent, fuel)
            },
        }
    }
}

/// The flattened tree of a list of rows: a depth-first walk from the roots.
/// No branch is followed deeper than there are rows.
pub open spec fn spec_build_tree(rows: Seq<ProcessRow>, collapsed: Set<u32>) -> Seq<TreeNode> {
    spec_level(rows, collapsed, Pick::Roots, 0, 0, Seq::empty(), rows.len())
}

/// The least process id of a level is a row of the level, not below the
/// floor, and no row of the level lies between the floor and it.
pub proof fn lemma_least(rows: Seq<ProcessRow>, pick: Pick, floor: int, n: int)
    requires
        0 <= n <= rows.len(),
    ensures
        match spec_least(rows, pick, floor, n) {
            Some(pid) => pid >= floor && (exists|i: int|
                0 <= i < n && spec_picked(rows, #[trigger] rows[i], pick) && rows[i].pid == pid)
                && forall|i: int|
                0 <= i < n && spec_picked(rows, #[trigger] rows[i], pick) && rows[i].pid >= floor
                    ==> rows[i].pid >= pid,
            None => forall|i: int|
                0 <= i < n && spec_picked(rows, #[trigger] rows[i], pick) ==> rows[i].pid < floor,
        },
    decreases n,
{
    if n > 0 {
        lemma_least(rows, pick, floor, n - 1);
    }
}

fn picked(list: &Vec<ProcessInfo>, index: &HashMap<u32, usize>, i: usize, pick: Pick) -> (b: bool)
    requires
        i < list.len(),
        spec_indexes(index@, spec_pids(spec_rows(list@))),
    ensures
        b == spec_picked(spec_rows(list@), spec_rows(list@)[i as int], pick),
{
    let ghost rows = spec_rows(list@);
    let ghost pids = spec_pids(rows);
    let ppid = list[i].ppid;
    let pid = list[i].pid;
    match pick {
        Pick::Roots => {
            if ppid == 0 {
                true
            } else {
                proof {
                    lemma_last_index_of(pids, ppid, pids.len() as int);
                    if spec_last_index_of(pids, ppid, pids.len() as int) is Some {
                        let k = spec_last_index_of(pids, ppid, pids.len() as int)->0;
                        assert(rows[k].pid == ppid);
                    } else {
                        assert forall|k: int| 0 <= k < rows.len() implies (#[trigger] rows[k]).pid
                            != ppid by {
                            assert(pids[k] != ppid);
                        }
                    }
                }
                !index.contains_key(&ppid)
            }
        },
        Pick::ChildrenOf(parent) => ppid != 0 && ppid != pid && ppid == parent,
    }
}

/// The least process id, not below `floor`, of a row of the level.
fn least(list: &Vec<ProcessInfo>, index: &HashMap<u32, usize>, pick: Pick, floor: u64) -> (r: Option<
    u32,
>)
    requires
        spec_indexes(index@, spec_pids(spec_rows(list@))),
    ensures
        r == spec_least(spec_rows(list@), pick, floor as int, list@.len() as int),
{
    let ghost rows = spec_rows(list@);
    let mut best: Option<u32> = None;
    let mut i: usize = 0;
    while i < list.len()
        invariant
            i <= list.len(),
            rows == spec_rows(list@),
            spec_indexes(index@, spec_pids(rows)),
            best == spec_least(rows, pick, floor as int, i as int),
        decreases list.len() - i,
    {
        let pid = list[i].pid;
        assert(rows[i as int].pid == pid);
        if pid as u64 >= floor && picked(list, index, i, pick) {
            let better = match best {
                None => true,
                Some(b) => pid < b,
            };
            if better {
                best = Some(pid);
            }
        }
        i += 1;
    }
    best
}

fn with_marks(indent: &String, first: char, second: char) -> (s: String)
    ensures
        s@ == indent@ + seq![first, second],
{
    let mut s = indent.clone();
    s.push(first);
    s.push(second);
    assert(s@ =~= indent@ + seq![first, second]);
    s
}

fn prefix_of(depth: u16, is_last: bool, indent: &String) -> (s: String)
    ensures
        s@ == spec_prefix(depth, is_last, indent@),
{
    if depth == 0 {
        String::new()
    } else if is_last {
        with_marks(indent, '\u{2514}', '\u{2500}')
    } else {
        with_marks(indent, '\u{251c}', '\u{2500}')
    }
}

fn child_indent_of(depth: u16, is_last: bool, indent: &String) -> (s: String)
    ensures
        s@ == spec_child_indent(depth, is_last, indent@),
{
    if depth == 0 {
        String::new()
    } else if is_last {
        with_marks(indent, ' ', ' ')
    } else {
        with_marks(indent, '\u{2502}', ' ')
    }
}

/// Appends the lines of one process and of what hangs below it.
pub fn build_subtree(
    list: &Vec<ProcessInfo>,
    index: &HashMap<u32, usize>,
    collapsed: &HashSet<u32>,
    pid: u32,
    depth: u16,
    is_last: bool,
    indent: &String,
    fuel: usize,
    entries: &mut Vec<TreeEntry>,
)
    requires
        spec_indexes(index@, spec_pids(spec_rows(list@))),
    ensures
        spec_nodes(final(entries)@) == spec_nodes(old(entries)@) + spec_subtree(
            spec_rows(list@),
            collapsed@,
            pid,
            depth,
            is_last,
            indent@,
            fuel as nat,
        ),
    decreases fuel, 0nat,
{
    let ghost start = spec_nodes(entries@);
    let prefix = prefix_of(depth, is_last, indent);
    entries.push(TreeEntry { pid, depth, prefix, is_last });
    let ghost node = TreeNode {
        pid,
        depth,
        prefix: spec_prefix(depth, is_last, indent@),
        is_last,
    };
    assert(spec_nodes(entries@) =~= start + seq![node]);
    if fuel > 0 && !collapsed.contains(&pid) {
        let deeper: u16 = if depth < u16::MAX {
            depth + 1
        } else {
            depth
        };
        let child_indent = child_indent_of(depth, is_last, indent);
        build_level(
            list,
            index,
            collapsed,
            Pick::ChildrenOf(pid),
            deeper,
            &child_indent,
            fuel - 1,
            entries,
        );
        assert(spec_nodes(entries@) =~= start + spec_subtree(
            spec_rows(list@),
            collapsed@,
            pid,
            depth,
            is_last,
            indent@,
            fuel as nat,
        ));
    }
}

/// Appends the lines of the processes of one level, in ascending order of
/// process id, each followed by what hangs below it.
pub fn build_level(
    list: &Vec<ProcessInfo>,
    index: &HashMap<u32, usize>,
    collapsed: &HashSet<u32>,
    pick: Pick,
    depth: u16,
    indent: &String,
    fuel: usize,
    entries: &mut Vec<TreeEntry>,
)
    requires
        spec_indexes(index@, spec_pids(spec_rows(list@))),
    ensures
        spec_nodes(final(entries)@) == spec_nodes(old(entries)@) + spec_level(
            spec_rows(list@),
            collapsed@,
            pick,
            0,
            depth,
            indent@,
            fuel as nat,
        ),
    decreases fuel, 1nat,
{
    let ghost rows = spec_rows(list@);
    let ghost start = spec_nodes(entries@);
    let mut floor: u64 = 0;
    let mut next = least(list, index, pick, floor);
    loop
        invariant
            rows == spec_rows(list@),
            spec_indexes(index@, spec_pids(rows)),
            floor <= PID_LIMIT,
            next == spec_least(rows, pick, floor as int, rows.len() as int),
            spec_nodes(entries@) + spec_level(
                rows,
                collapsed@,
                pick,
                floor as int,
                depth,
                indent@,
                fuel as nat,
            ) == start + spec_level(rows, collapsed@, pick, 0, depth, indent@, fuel as nat),
        ensures
            spec_nodes(entries@) == start + spec_level(
                rows,
                collapsed@,
                pick,
                0,
                depth,
                indent@,
                fuel as nat,
            ),
        decreases PID_LIMIT + 1 - floor,
    {
        let pid = match next {
            None => {
                assert(spec_nodes(entries@) + Seq::<TreeNode>::empty() =~= spec_nodes(entries@));
                break ;
            },
            Some(pid) => pid,
        };
        proof {
            lemma_least(rows, pick, floor as int, rows.len() as int);
        }
        let after = least(list, index, pick, pid as u64 + 1);
        let ghost before = spec_nodes(entries@);
        let ghost rest = spec_level(
            rows,
            collapsed@,
            pick,
            pid + 1,
            depth,
            indent@,
            fuel as nat,
        );
        let ghost sub = spec_subtree(
            rows,
            collapsed@,
            pid,
            depth,
            after is None,
            indent@,
            fuel as nat,
        );
        build_subtree(list, index, collapsed, pid, depth, after.is_none(), indent, fuel, entries);
        assert((before + sub) + rest =~= before + (sub + rest));
        floor = pid as u64 + 1;
        next = after;
    }
}

/// Flattens the process tree: a depth-first walk from the roots, children in
/// ascending order of process id. The children of a collapsed process are
/// left out.
pub fn build_tree(processes: &Vec<ProcessInfo>, collapsed: &HashSet<u32>) -> (tree: Vec<TreeEntry>)
    ensures
        spec_nodes(tree@) == spec_build_tree(spec_rows(processes@), collapsed@),
{
    let index = index_by_pid(processes);
    let mut tree: Vec<TreeEntry> = Vec::new();
    let indent = String::new();
    build_level(
        processes,
        &index,
        collapsed,
        Pick::Roots,
        0,
        &indent,
        processes.len(),
        &mut tree,
    );
    assert(spec_nodes(tree@) =~= spec_build_tree(spec_rows(processes@), collapsed@));
    tree
}

/// The rows in the order of the first `n` lines of the tree, each with the
/// marks of its line. A line whose process is not in the list is passed
/// over; where several rows carry its process id, the last is taken.
pub open spec fn spec_tree_ordered(rows: Seq<ProcessRow>, tree: Seq<TreeNode>, n: int) -> Seq<
    ProcessRow,
>
    decreases n,
{
    if n <= 0 {
        Seq::empty()
    } else {
        let node = tree[n - 1];
        match spec_last_index_of(spec_pids(rows), node.pid, rows.len() as int) {
            Some(i) => spec_tree_ordered(rows, tree, n - 1).push(
                rows[i].with_tree_prefix(node.prefix),
            ),
            None => spec_tree_ordered(rows, tree, n - 1),
        }
    }
}

/// Puts the rows in the order of the tree and gives each the marks of its
/// line.
pub fn tree_ordered_processes(processes: &Vec<ProcessInfo>, tree: &Vec<TreeEntry>) -> (ordered: Vec<
    ProcessInfo,
>)
    ensures
        spec_rows(ordered@) == spec_tree_ordered(
            spec_rows(processes@),
            spec_nodes(tree@),
            tree@.len() as int,
        ),
{
    let index = index_by_pid(processes);
    let ghost rows = spec_rows(processes@);
    let ghost nodes = spec_nodes(tree@);
    let mut ordered: Vec<ProcessInfo> = Vec::new();
    let mut k: usize = 0;
    while k < tree.len()
        invariant
            k <= tree.len(),
            rows == spec_rows(processes@),
            nodes == spec_nodes(tree@),
            spec_indexes(index@, spec_pids(rows)),
            spec_rows(ordered@) == spec_tree_ordered(rows, nodes, k as int),
        decreases tree.len() - k,
    {
        let entry = &tree[k];
        assert(nodes[k as int] == entry@);
        proof {
            lemma_last_index_of(spec_pids(rows), entry.pid, rows.len() as int);
        }
        match index.get(&entry.pid) {
            Some(i) => {
                let ghost before = spec_rows(ordered@);
                let mut p = processes[*i].clone();
                p.tree_prefix = entry.prefix.clone();
                ordered.push(p);
                assert(spec_rows(ordered@) =~= before.push(
                    rows[*i as int].with_tree_prefix(entry@.prefix),
                ));
            },
            None => {},
        }
        k += 1;
    }
    ordered
}

} // verus!
