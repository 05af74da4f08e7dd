//! Folding and unfolding the branches of the process tree.

use vstd::prelude::*;
use std::collections::HashMap;
use std::collections::HashSet;
use crate::app::{spec_reshown, App, AppView};
use crate::process::{
    index_by_pid, lemma_index_has_pid, spec_indexes, spec_last_index_of, spec_pids, spec_rows,
    ProcessInfo, ProcessRow,
};

verus! {

broadcast use vstd::std_specs::hash::group_hash_axioms;

/// The ancestors of the process `pid`, nearest first: its parent, the parent
/// of that, and so on, until a process names no parent, names itself, or is
/// not in the list. At most `fuel` ancestors are followed.
pub open spec fn spec_ancestors(rows: Seq<ProcessRow>, pid: u32, fuel: nat) -> Seq<u32>
    decreases fuel,
{
    match spec_last_index_of(spec_pids(rows), pid, rows.len() as int) {
        None => Seq::empty(),
        Some(i) => {
            let parent = rows[i].ppid;
            if parent == 0 || parent == pid || fuel == 0 {
                Seq::empty()
            } else {
                seq![parent] + spec_ancestors(rows, parent, (fuel - 1) as nat)
            }
        },
    }
}

/// Whether the process `pid` is among the ancestors of the process `of`.
pub open spec fn spec_descends(rows: Seq<ProcessRow>, of: u32, pid: u32) -> bool {
    spec_ancestors(rows, of, rows.len()).contains(pid)
}

/// The processes among the first `n` rows that descend from `pid`, in the
/// order of the rows.
pub open spec fn spec_descendants(rows: Seq<ProcessRow>, pid: u32, n: int) -> Seq<u32>
    decreases n,
{
    if n <= 0 {
        Seq::empty()
    } else if spec_descends(rows, rows[n - 1].pid, pid) {
        spec_descendants(rows, pid, n - 1).push(rows[n - 1].pid)
    } else {
        spec_descendants(rows, pid, n - 1)
    }
}

/// The processes among the first `n` rows that have children, in the order
/// of the rows.
pub open spec fn spec_parents(rows: Seq<ProcessRow>, n: int) -> Seq<u32>
    decreases n,
{
    if n <= 0 {
        Seq::empty()
    } else if rows[n - 1].children.len() > 0 {
        spec_parents(rows, n - 1).push(rows[n - 1].pid)
    } else {
        spec_parents(rows, n - 1)
    }
}

/// The set with the first `n` of `pids` added.
pub open spec fn spec_with_pids(set: Set<u32>, pids: Seq<u32>, n: int) -> Set<u32>
    decreases n,
{
    if n <= 0 {
        set
    } else {
        spec_with_pids(set, pids, n - 1).insert(pids[n - 1])
    }
}

/// The set with the first `n` of `pids` taken out.
pub open spec fn spec_without_pids(set: Set<u32>, pids: Seq<u32>, n: int) -> Set<u32>
    decreases n,
{
    if n <= 0 {
        set
    } else {
        spec_without_pids(set, pids, n - 1).remove(pids[n - 1])
    }
}

/// The process under the cursor, if the cursor is on a row.
pub open spec fn spec_under_cursor(v: AppView) -> Option<ProcessRow> {
    if v.selected < v.filtered.len() {
        Some(v.filtered[v.selected as int])
    } else {
        None
    }
}

/// Whether `after` is `before` with the process under the cursor unfolded;
/// the same where the cursor is on no row.
pub open spec fn spec_expands(before: AppView, after: AppView) -> bool {
    match spec_under_cursor(before) {
        Some(row) => spec_reshown(
            AppView { collapsed: before.collapsed.remove(row.pid), ..before },
            after,
        ),
        None => after == before,
    }
}

/// Whether `after` is `before` with the process under the cursor folded; the
/// same where the cursor is on no row or the process has no children.
pub open spec fn spec_collapses(before: AppView, after: AppView) -> bool {
    match spec_under_cursor(before) {
        Some(row) => if row.children.len() > 0 {
            spec_reshown(AppView { collapsed: before.collapsed.insert(row.pid), ..before }, after)
        } else {
            after == before
        },
        None => after == before,
    }
}

fn ancestors_in(list: &Vec<ProcessInfo>, index: &HashMap<u32, usize>, pid: u32) -> (r: Vec<u32>)
    requires
        spec_indexes(index@, spec_pids(spec_rows(list@))),
    ensures
        r@ == spec_ancestors(spec_rows(list@), pid, list@.len()),
{
    let ghost rows = spec_rows(list@);
    let mut result: Vec<u32> = Vec::new();
    let mut current: u32 = pid;
    let mut fuel: usize = list.len();
    loop
        invariant
            rows == spec_rows(list@),
            spec_indexes(index@, spec_pids(rows)),
            fuel <= list@.len(),
            result@ + spec_ancestors(rows, current, fuel as nat) == spec_ancestors(
                rows,
                pid,
                list@.len(),
            ),
        ensures
            result@ == spec_ancestors(rows, pid, list@.len()),
        decreases fuel,
    {
        proof {
            lemma_index_has_pid(index@, rows, current);
            crate::process::lemma_last_index_of(spec_pids(rows), current, rows.len() as int);
        }
        let parent = match index.get(&current) {
            Some(i) => {
                assert(rows[*i as int] == list@[*i as int]@);
                list[*i].ppid
            },
            None => {
                assert(result@ + Seq::<u32>::empty() =~= result@);
                break ;
            },
        };
        if parent == 0 || parent == current || fuel == 0 {
            assert(result@ + Seq::<u32>::empty() =~= result@);
            break ;
        }
        let ghost before = result@;
        let ghost rest = spec_ancestors(rows, parent, (fuel - 1) as nat);
        result.push(parent);
        assert((before + seq![parent]) + rest =~= before + (seq![parent] + rest));
        assert(result@ =~= before + seq![parent]);
        current = parent;
        fuel = fuel - 1;
    }
    result
}

fn contains_pid(pids: &Vec<u32>, pid: u32) -> (b: bool)
    ensures
        b == pids@.contains(pid),
{
    let mut i: usize = 0;
    while i < pids.len()
        invariant
            i <= pids.len(),
            forall|k: int| 0 <= k < i ==> pids@[k] != pid,
        decreases pids.len() - i,
    {
        if pids[i] == pid {
            return true;
        }
        i += 1;
    }
    false
}

fn insert_all(set: &mut HashSet<u32>, pids: &Vec<u32>)
    ensures
        final(set)@ == spec_with_pids(old(set)@, pids@, pids@.len() as int),
{
    let mut i: usize = 0;
    while i < pids.len()
        invariant
            i <= pids.len(),
            set@ == spec_with_pids(old(set)@, pids@, i as int),
        decreases pids.len() - i,
    {
        set.insert(pids[i]);
        i += 1;
    }
}

fn remove_all(set: &mut HashSet<u32>, pids: &Vec<u32>)
    ensures
        final(set)@ == spec_without_pids(old(set)@, pids@, pids@.len() as int),
{
    let mut i: usize = 0;
    while i < pids.len()
        invariant
            i <= pids.len(),
            set@ == spec_without_pids(old(set)@, pids@, i as int),
        decreases pids.len() - i,
    {
        let pid = pids[i];
        set.remove(&pid);
        i += 1;
    }
}

impl App {
    /// The ancestors of a process, nearest first.
    pub fn ancestor_pids(&self, pid: u32) -> (r: Vec<u32>)
        ensures
            r@ == spec_ancestors(self@.all, pid, self@.all.len()),
    {
        let index = index_by_pid(&self.all_processes);
        ancestors_in(&self.all_processes, &index, pid)
    }

    /// The processes that descend from a process, in the order of the rows.
    pub fn descendant_pids(&self, pid: u32) -> (r: Vec<u32>)
        ensures
            r@ == spec_descendants(self@.all, pid, self@.all.len() as int),
    {
        let ghost rows = self@.all;
        let index = index_by_pid(&self.all_processes);
        let mut result: Vec<u32> = Vec::new();
        let mut i: usize = 0;
        while i < self.all_processes.len()
            invariant
                i <= self.all_processes.len(),
                rows == spec_rows(self.all_processes@),
                spec_indexes(index@, spec_pids(rows)),
                result@ == spec_descendants(rows, pid, i as int),
            decreases self.all_processes.len() - i,
        {
            let q = self.all_processes[i].pid;
            assert(rows[i as int] == self.all_processes@[i as int]@);
            let up = ancestors_in(&self.all_processes, &index, q);
            if contains_pid(&up, pid) {
                result.push(q);
            }
            i += 1;
        }
        result
    }

    /// Unfolds the process under the cursor.
    pub fn expand_tree_node(&mut self)
        ensures
            spec_expands(old(self)@, final(self)@),
    {
        if self.selected < self.filtered_processes.len() {
            let pid = self.filtered_processes[self.selected].pid;
            self.collapsed_pids.remove(&pid);
            self.update_filtered_processes();
        }
    }

    /// Folds the process under the cursor, if it has children.
    pub fn collapse_tree_node(&mut self)
        ensures
            spec_collapses(old(self)@, final(self)@),
    {
        if self.selected < self.filtered_processes.len() {
            if self.filtered_processes[self.selected].children.len() > 0 {
                let pid = self.filtered_processes[self.selected].pid;
                self.collapsed_pids.insert(pid);
                self.update_filtered_processes();
            }
        }
    }

    /// Unfolds the process under the cursor if it is folded, and folds it if
    /// it is not and has children.
    pub fn toggle_tree_node(&mut self)
        ensures
            match spec_under_cursor(old(self)@) {
                Some(row) => if old(self)@.collapsed.contains(row.pid) {
                    spec_reshown(
                        AppView { collapsed: old(self)@.collapsed.remove(row.pid), ..old(self)@ },
                        final(self)@,
                    )
                } else if row.children.len() > 0 {
                    spec_reshown(
                        AppView { collapsed: old(self)@.collapsed.insert(row.pid), ..old(self)@ },
                        final(self)@,
                    )
                } else {
                    final(self)@ == old(self)@
                },
                None => final(self)@ == old(self)@,
            },
    {
        if self.selected < self.filtered_processes.len() {
            let pid = self.filtered_processes[self.selected].pid;
            let has_children = self.filtered_processes[self.selected].children.len() > 0;
            if self.collapsed_pids.contains(&pid) {
                self.collapsed_pids.remove(&pid);
                self.update_filtered_processes();
            } else if has_children {
                self.collapsed_pids.insert(pid);
                self.update_filtered_processes();
            }
        }
    }

    /// Unfolds the process under the cursor and everything that descends
    /// from it.
    pub fn expand_tree_recursive(&mut self)
        ensures
            match spec_under_cursor(old(self)@) {
                Some(row) => spec_reshown(
                    AppView {
                        collapsed: spec_without_pids(
                            old(self)@.collapsed.remove(row.pid),
                            spec_descendants(old(self)@.all, row.pid, old(self)@.all.len() as int),
                            spec_descendants(
                                old(self)@.all,
                                row.pid,
                                old(self)@.all.len() as int,
                            ).len() as int,
                        ),
                        ..old(self)@
                    },
                    final(self)@,
                ),
                None => final(self)@ == old(self)@,
            },
    {
        if self.selected < self.filtered_processes.len() {
            let pid = self.filtered_processes[self.selected].pid;
            let below = self.descendant_pids(pid);
            self.collapsed_pids.remove(&pid);
            remove_all(&mut self.collapsed_pids, &below);
            self.update_filtered_processes();
        }
    }

    /// Folds the process under the cursor, if it has children, and every
    /// ancestor of it.
    pub fn collapse_tree_recursive(&mut self)
        ensures
            match spec_under_cursor(old(self)@) {
                Some(row) => spec_reshown(
                    AppView {
                        collapsed: spec_with_pids(
                            if row.children.len() > 0 {
                                old(self)@.collapsed.insert(row.pid)
                            } else {
                                old(self)@.collapsed
                            },
                            spec_ancestors(old(self)@.all, row.pid, old(self)@.all.len()),
                            spec_ancestors(old(self)@.all, row.pid, old(self)@.all.len()).len() as int,
                        ),
                        ..old(self)@
                    },
                    final(self)@,
                ),
                None => final(self)@ == old(self)@,
            },
    {
        if self.selected < self.filtered_processes.len() {
            let pid = self.filtered_processes[self.selected].pid;
            let has_children = self.filtered_processes[self.selected].children.len() > 0;
            let above = self.ancestor_pids(pid);
            if has_children {
                self.collapsed_pids.insert(pid);
            }
            insert_all(&mut self.collapsed_pids, &above);
            self.update_filtered_processes();
        }
    }

    /// Unfolds every process.
    pub fn expand_all_tree(&mut self)
        ensures
            spec_reshown(
                AppView { collapsed: Set::<u32>::empty(), ..old(self)@ },
                final(self)@,
            ),
    {
        self.collapsed_pids.clear();
        self.update_filtered_processes();
    }

    /// Folds every process that has children.
    pub fn collapse_all_tree(&mut self)
        ensures
            spec_reshown(
                AppView {
                    collapsed: spec_with_pids(
                        old(self)@.collapsed,
                        spec_parents(old(self)@.all, old(self)@.all.len() as int),
                        spec_parents(old(self)@.all, old(self)@.all.len() as int).len() as int,
                    ),
                    ..old(self)@
                },
                final(self)@,
            ),
    {
        let ghost rows = self@.all;
        let mut parents: Vec<u32> = Vec::new();
        let mut i: usize = 0;
        while i < self.all_processes.len()
            invariant
                i <= self.all_processes.len(),
                self@ == old(self)@,
                rows == spec_rows(self.all_processes@),
                parents@ == spec_parents(rows, i as int),
            decreases self.all_processes.len() - i,
        {
            assert(rows[i as int] == self.all_processes@[i as int]@);
            if self.all_processes[i].children.len() > 0 {
                parents.push(self.all_processes[i].pid);
            }
            i += 1;
        }
        insert_all(&mut self.collapsed_pids, &parents);
        self.update_filtered_processes();
    }
}

} // verus!
