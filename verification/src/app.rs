//! The long-lived state behind the display: the process table and what the
//! user has made of it, and how each new snapshot is taken into it.
//!
//! A snapshot that holds the same processes as the table only refreshes the
//! rows where they stand. A snapshot in which a process appeared or left
//! replaces the rows, and keeps the marks of the processes that are still
//! there.

use vstd::prelude::*;
use std::collections::HashMap;
use std::collections::HashSet;
use crate::process::{
    index_by_pid, lemma_index_has_pid, lemma_last_index_of, matches_filter, spec_has_pid,
    spec_indexes, spec_last_index_of, spec_matches_filter, spec_opt_text, spec_pids, spec_rows,
    ProcessInfo, ProcessRow, SortColumn,
};
use crate::sorting::{sort_processes, spec_in_order};
use crate::system::{CpuStats, MemoryInfo, SwapInfo, SystemInfo};
use crate::tree::{
    build_tree, spec_build_tree, spec_tree_ordered, tree_ordered_processes, TreeNode,
};

verus! {

broadcast use vstd::std_specs::hash::group_hash_axioms;

/// What the keys currently mean.
#[derive(Debug, Clone, Copy, PartialEq, Eq, Structural)]
pub enum AppMode {
    Normal,
    Search,
    Filter,
    Help,
    Kill,
    SortSelect,
    Visual,
}

/// Most marks that the jump list keeps.
pub const JUMP_LIST_LIMIT: usize = 100;

/// Milliseconds for which a flash message is shown.
pub const FLASH_MILLIS: u64 = 2000;

/// The state behind the display.
#[derive(Debug)]
pub struct App {
    pub mode: AppMode,
    /// What the last cycle found about the system.
    pub sys_info: SystemInfo,
    /// Every process of the last snapshot.
    pub all_processes: Vec<ProcessInfo>,
    /// The processes that are shown, in the order in which they are shown.
    pub filtered_processes: Vec<ProcessInfo>,
    /// Position of the cursor in the shown rows.
    pub selected: usize,
    /// Position of the first row on screen.
    pub scroll_offset: usize,
    /// Rows that fit on screen.
    pub visible_rows: usize,
    pub sort_column: SortColumn,
    pub sort_ascending: bool,
    pub tree_view: bool,
    pub show_threads: bool,
    pub show_kernel_threads: bool,
    /// Processes whose children are folded away in the tree.
    pub collapsed_pids: HashSet<u32>,
    /// The search text as it is being typed.
    pub filter_query: String,
    /// The search text that the table is filtered by.
    pub active_filter: String,
    /// Only the processes of this user are shown.
    pub user_filter: Option<String>,
    pub kill_signal_idx: usize,
    pub kill_pid_scroll: usize,
    /// The mode that the kill dialog returns to.
    pub pre_kill_mode: AppMode,
    /// First key of a two-key command.
    pub pending_key: Option<char>,
    /// Processes that the cursor jumped away from.
    pub jump_list: Vec<u32>,
    pub jump_pos: usize,
    /// Where the visual selection began.
    pub visual_anchor: Option<usize>,
    /// A message for the status bar and the time, in milliseconds, at which
    /// it was set.
    pub flash_message: Option<(String, u64)>,
    pub header_height: u16,
    /// Whether the screen has to be drawn again.
    pub dirty: bool,
    pub ebpf_loaded: bool,
    /// Why the kernel programs could not be loaded.
    pub ebpf_error: Option<String>,
}

/// What an [`App`] holds, as mathematical values.
pub struct AppView {
    pub mode: AppMode,
    pub sys_info: SystemInfo,
    pub all: Seq<ProcessRow>,
    pub filtered: Seq<ProcessRow>,
    pub selected: usize,
    pub scroll_offset: usize,
    pub visible_rows: usize,
    pub sort_column: SortColumn,
    pub sort_ascending: bool,
    pub tree_view: bool,
    pub show_threads: bool,
    pub show_kernel_threads: bool,
    pub collapsed: Set<u32>,
    pub filter_query: Seq<char>,
    pub active_filter: Seq<char>,
    pub user_filter: Option<Seq<char>>,
    pub kill_signal_idx: usize,
    pub kill_pid_scroll: usize,
    pub pre_kill_mode: AppMode,
    pub pending_key: Option<char>,
    pub jump_list: Seq<u32>,
    pub jump_pos: usize,
    pub visual_anchor: Option<usize>,
    pub flash: Option<(Seq<char>, u64)>,
    pub header_height: u16,
    pub dirty: bool,
    pub ebpf_loaded: bool,
    pub ebpf_error: Option<Seq<char>>,
}

/// The text and time of a flash message.
pub open spec fn spec_flash(f: Option<(String, u64)>) -> Option<(Seq<char>, u64)> {
    match f {
        Some(m) => Some((m.0@, m.1)),
        None => None,
    }
}

impl View for App {
    type V = AppView;

    open spec fn view(&self) -> AppView {
        AppView {
            mode: self.mode,
            sys_info: self.sys_info,
            all: spec_rows(self.all_processes@),
            filtered: spec_rows(self.filtered_processes@),
            selected: self.selected,
            scroll_offset: self.scroll_offset,
            visible_rows: self.visible_rows,
            sort_column: self.sort_column,
            sort_ascending: self.sort_ascending,
            tree_view: self.tree_view,
            show_threads: self.show_threads,
            show_kernel_threads: self.show_kernel_threads,
            collapsed: self.collapsed_pids@,
            filter_query: self.filter_query@,
            active_filter: self.active_filter@,
            user_filter: spec_opt_text(self.user_filter),
            kill_signal_idx: self.kill_signal_idx,
            kill_pid_scroll: self.kill_pid_scroll,
            pre_kill_mode: self.pre_kill_mode,
            pending_key: self.pending_key,
            jump_list: self.jump_list@,
            jump_pos: self.jump_pos,
            visual_anchor: self.visual_anchor,
            flash: spec_flash(self.flash_message),
            header_height: self.header_height,
            dirty: self.dirty,
            ebpf_loaded: self.ebpf_loaded,
            ebpf_error: spec_opt_text(self.ebpf_error),
        }
    }
}

/// Whether a row passes the filters: threads and kernel threads only where
/// they are asked for, only the processes of the chosen user, only what the
/// search text matches.
pub open spec fn spec_shown(row: ProcessRow, v: AppView) -> bool {
    &&& v.show_threads || !row.is_thread
    &&& v.show_kernel_threads || !row.is_kernel_thread
    &&& v.user_filter matches Some(user) ==> row.user == user
    &&& spec_matches_filter(row, v.active_filter)
}

/// The rows among the first `n` that pass the filters, in their order.
pub open spec fn spec_kept(rows: Seq<ProcessRow>, v: AppView, n: int) -> Seq<ProcessRow>
    decreases n,
{
    if n <= 0 {
        Seq::empty()
    } else if spec_shown(rows[n - 1], v) {
        spec_kept(rows, v, n - 1).push(rows[n - 1])
    } else {
        spec_kept(rows, v, n - 1)
    }
}

/// The cursor held inside a table of `len` rows.
pub open spec fn spec_clamped_selection(selected: usize, len: nat) -> usize {
    if len == 0 {
        0
    } else if selected < len {
        selected
    } else {
        (len - 1) as usize
    }
}

/// The scroll position held so that the screen stays filled: at most the
/// rows that do not fit, or the last row where the height is not known.
pub open spec fn spec_clamped_scroll(scroll: usize, len: nat, visible_rows: usize) -> usize {
    let room: nat = if visible_rows > 0 {
        visible_rows as nat
    } else {
        1
    };
    let max_offset: nat = if len >= room {
        (len - room) as nat
    } else {
        0
    };
    if scroll <= max_offset {
        scroll
    } else {
        max_offset as usize
    }
}

/// Whether `shown` is what the table shows of the rows of `v`: the rows that
/// pass the filters, in the order of the tree where the tree is on, else in
/// the order of the sort column.
pub open spec fn spec_shows(v: AppView, shown: Seq<ProcessRow>) -> bool {
    let kept = spec_kept(v.all, v, v.all.len() as int);
    if v.tree_view {
        let tree = spec_build_tree(kept, v.collapsed);
        shown == spec_tree_ordered(kept, tree, tree.len() as int)
    } else {
        shown.to_multiset() == kept.to_multiset() && spec_in_order(
            shown,
            v.sort_column,
            v.sort_ascending,
        )
    }
}

/// Whether `after` is `before` with its shown rows made anew.
pub open spec fn spec_reshown(before: AppView, after: AppView) -> bool {
    spec_shows(before, after.filtered) && after == spec_with_shown(before, after.filtered)
}

/// The state after the shown rows were made anew: they are `shown`, and
/// cursor and scroll position are held inside them.
pub open spec fn spec_with_shown(v: AppView, shown: Seq<ProcessRow>) -> AppView {
    AppView {
        filtered: shown,
        selected: spec_clamped_selection(v.selected, shown.len()),
        scroll_offset: spec_clamped_scroll(v.scroll_offset, shown.len(), v.visible_rows),
        ..v
    }
}

impl App {
    /// The state at start: no process yet, the cursor on the first row, the
    /// table sorted by process id.
    pub fn new(tree_view: bool, show_threads: bool, show_kernel_threads: bool, ebpf_error: Option<String>) -> (app: App)
        ensures
            app@.mode == AppMode::Normal,
            app@.all.len() == 0,
            app@.filtered.len() == 0,
            app@.selected == 0 && app@.scroll_offset == 0 && app@.visible_rows == 0,
            app@.sort_column == SortColumn::Pid && app@.sort_ascending,
            app@.tree_view == tree_view,
            app@.show_threads == show_threads,
            app@.show_kernel_threads == show_kernel_threads,
            app@.collapsed == Set::<u32>::empty(),
            app@.filter_query.len() == 0 && app@.active_filter.len() == 0,
            app@.user_filter is None,
            app@.jump_list.len() == 0 && app@.jump_pos == 0,
            app@.visual_anchor is None && app@.pending_key is None && app@.flash is None,
            app@.header_height == 4,
            app@.dirty,
            app@.ebpf_loaded == (ebpf_error is None),
            app@.ebpf_error == spec_opt_text(ebpf_error),
    {
        let ebpf_loaded = ebpf_error.is_none();
        App {
            mode: AppMode::Normal,
            sys_info: SystemInfo {
                cpu_total: CpuStats::zero(),
                cpus: Vec::new(),
                memory: MemoryInfo::zero(),
                swap: SwapInfo::zero(),
                load_avg: [0u64; 3],
                uptime_centis: 0,
                total_tasks: 0,
                user_threads: 0,
                kernel_threads: 0,
                running_tasks: 0,
                sleeping_tasks: 0,
                gpus: Vec::new(),
            },
            all_processes: Vec::new(),
            filtered_processes: Vec::new(),
            selected: 0,
            scroll_offset: 0,
            visible_rows: 0,
            sort_column: SortColumn::Pid,
            sort_ascending: true,
            tree_view,
            show_threads,
            show_kernel_threads,
            collapsed_pids: HashSet::new(),
            filter_query: String::new(),
            active_filter: String::new(),
            user_filter: None,
            kill_signal_idx: 0,
            kill_pid_scroll: 0,
            pre_kill_mode: AppMode::Normal,
            pending_key: None,
            jump_list: Vec::new(),
            jump_pos: 0,
            visual_anchor: None,
            flash_message: None,
            header_height: 4,
            dirty: true,
            ebpf_loaded,
            ebpf_error,
        }
    }

    /// Whether a row passes the filters.
    fn shown(&self, p: &ProcessInfo) -> (b: bool)
        ensures
            b == spec_shown(p@, self@),
    {
        if !self.show_threads && p.is_thread {
            return false;
        }
        if !self.show_kernel_threads && p.is_kernel_thread {
            return false;
        }
        match &self.user_filter {
            Some(user) => {
                if p.user != *user {
                    return false;
                }
            },
            None => {},
        }
        matches_filter(p, self.active_filter.as_str())
    }

    /// The rows that pass the filters, in their order.
    fn kept_rows(&self) -> (procs: Vec<ProcessInfo>)
        ensures
            spec_rows(procs@) == spec_kept(self@.all, self@, self@.all.len() as int),
    {
        let ghost v = self@;
        let mut procs: Vec<ProcessInfo> = Vec::new();
        let mut i: usize = 0;
        while i < self.all_processes.len()
            invariant
                i <= self.all_processes.len(),
                self@ == v,
                spec_rows(procs@) == spec_kept(v.all, v, i as int),
            decreases self.all_processes.len() - i,
        {
            let p = &self.all_processes[i];
            assert(v.all[i as int] == p@);
            if self.shown(p) {
                let ghost before = spec_rows(procs@);
                procs.push(p.clone());
                assert(spec_rows(procs@) =~= before.push(p@));
            }
            i += 1;
        }
        procs
    }

    /// Makes the shown rows anew from all rows: filters them, puts them in
    /// the order of the tree or of the sort column, and holds cursor and
    /// scroll position inside the new rows.
    #[verifier::rlimit(60)]
    pub fn update_filtered_processes(&mut self)
        ensures
            spec_reshown(old(self)@, final(self)@),
    {
        let mut procs = self.kept_rows();
        if self.tree_view {
            let tree = build_tree(&procs, &self.collapsed_pids);
            procs = tree_ordered_processes(&procs, &tree);
        } else {
            sort_processes(&mut procs, self.sort_column, self.sort_ascending);
        }
        self.filtered_processes = procs;
        let len = self.filtered_processes.len();
        if len > 0 {
            if self.selected >= len {
                self.selected = len - 1;
            }
        } else {
            self.selected = 0;
        }
        let room: usize = if self.visible_rows > 0 {
            self.visible_rows
        } else {
            1
        };
        let max_offset: usize = if len >= room {
            len - room
        } else {
            0
        };
        if self.scroll_offset > max_offset {
            self.scroll_offset = max_offset;
        }
    }
}

/// Whether two lists hold the same processes: every process id of one is a
/// process id of the other.
pub open spec fn spec_same_pids(a: Seq<ProcessRow>, b: Seq<ProcessRow>) -> bool {
    &&& forall|i: int| 0 <= i < a.len() ==> spec_has_pid(b, (#[trigger] a[i]).pid)
    &&& forall|j: int| 0 <= j < b.len() ==> spec_has_pid(a, (#[trigger] b[j]).pid)
}

/// A row with the volatile fields of the sample that a snapshot holds of its
/// process; as it is where the snapshot holds none.
pub open spec fn spec_refreshed_row(row: ProcessRow, fresh: Seq<ProcessRow>) -> ProcessRow {
    match spec_last_index_of(spec_pids(fresh), row.pid, fresh.len() as int) {
        Some(k) => row.with_dynamic_fields(fresh[k]),
        None => row,
    }
}

/// The rows, each where it stands, refreshed from a snapshot.
pub open spec fn spec_refreshed(rows: Seq<ProcessRow>, fresh: Seq<ProcessRow>) -> Seq<ProcessRow> {
    Seq::new(rows.len(), |i: int| spec_refreshed_row(rows[i], fresh))
}

/// Whether some row of the process `pid` is tagged.
pub open spec fn spec_is_tagged(rows: Seq<ProcessRow>, pid: u32) -> bool {
    exists|i: int| 0 <= i < rows.len() && (#[trigger] rows[i]).pid == pid && rows[i].tagged
}

/// The processes that are tagged, in all rows or in the shown ones.
pub open spec fn spec_tagged_pids(v: AppView) -> Set<u32> {
    Set::new(|pid: u32| spec_is_tagged(v.all, pid) || spec_is_tagged(v.filtered, pid))
}

/// The rows that replace the table: of the first `n` rows of the snapshot
/// those that are the last of their process, in the order of the snapshot,
/// tagged where their process was.
pub open spec fn spec_rebuilt(fresh: Seq<ProcessRow>, tagged: Set<u32>, n: int) -> Seq<ProcessRow>
    decreases n,
{
    if n <= 0 {
        Seq::empty()
    } else {
        let row = fresh[n - 1];
        if spec_last_index_of(spec_pids(fresh), row.pid, fresh.len() as int) == Some(n - 1) {
            spec_rebuilt(fresh, tagged, n - 1).push(
                row.with_tag(row.tagged || tagged.contains(row.pid)),
            )
        } else {
            spec_rebuilt(fresh, tagged, n - 1)
        }
    }
}

/// The state once the rows were replaced by a snapshot, before the shown
/// rows are made anew.
pub open spec fn spec_replaced(v: AppView, sys_info: SystemInfo, fresh: Seq<ProcessRow>) -> AppView {
    AppView {
        sys_info,
        all: spec_rebuilt(fresh, spec_tagged_pids(v), fresh.len() as int),
        dirty: true,
        ..v
    }
}

/// The state after a snapshot was taken in. Where it holds the processes of
/// the table, every row is refreshed where it stands and nothing else moves.
/// Else the rows are replaced and the shown rows, `shown`, made anew.
pub open spec fn spec_merged(
    v: AppView,
    sys_info: SystemInfo,
    fresh: Seq<ProcessRow>,
    shown: Seq<ProcessRow>,
) -> AppView {
    if spec_same_pids(v.all, fresh) {
        AppView {
            sys_info,
            all: spec_refreshed(v.all, fresh),
            filtered: spec_refreshed(v.filtered, fresh),
            dirty: true,
            ..v
        }
    } else {
        spec_with_shown(spec_replaced(v, sys_info, fresh), shown)
    }
}

/// Whether every process of `list` is a process of `other`.
fn pids_known(list: &Vec<ProcessInfo>, other: &Vec<ProcessInfo>, other_index: &HashMap<u32, usize>) -> (b:
    bool)
    requires
        spec_indexes(other_index@, spec_pids(spec_rows(other@))),
    ensures
        b == forall|i: int|
            0 <= i < list@.len() ==> spec_has_pid(
                spec_rows(other@),
                (#[trigger] spec_rows(list@)[i]).pid,
            ),
{
    let ghost rows = spec_rows(list@);
    let ghost others = spec_rows(other@);
    let mut i: usize = 0;
    while i < list.len()
        invariant
            i <= list.len(),
            rows == spec_rows(list@),
            others == spec_rows(other@),
            spec_indexes(other_index@, spec_pids(others)),
            forall|k: int| 0 <= k < i ==> spec_has_pid(others, (#[trigger] rows[k]).pid),
        decreases list.len() - i,
    {
        let pid = list[i].pid;
        assert(rows[i as int].pid == pid);
        proof {
            lemma_index_has_pid(other_index@, others, pid);
        }
        if !other_index.contains_key(&pid) {
            return false;
        }
        i += 1;
    }
    true
}

/// Refreshes every row, where it stands, from the snapshot.
fn refresh_rows(list: &mut Vec<ProcessInfo>, fresh: &Vec<ProcessInfo>, index: &HashMap<u32, usize>)
    requires
        spec_indexes(index@, spec_pids(spec_rows(fresh@))),
    ensures
        spec_rows(final(list)@) == spec_refreshed(spec_rows(old(list)@), spec_rows(fresh@)),
{
    let ghost before = spec_rows(list@);
    let ghost news = spec_rows(fresh@);
    let n = list.len();
    let mut i: usize = 0;
    while i < n
        invariant
            i <= n,
            n == list@.len(),
            before.len() == n,
            news == spec_rows(fresh@),
            spec_indexes(index@, spec_pids(news)),
            forall|k: int| 0 <= k < i ==> (#[trigger] list@[k])@ == spec_refreshed_row(before[k], news),
            forall|k: int| i <= k < n ==> (#[trigger] list@[k])@ == before[k],
        decreases n - i,
    {
        let pid = list[i].pid;
        proof {
            lemma_index_has_pid(index@, news, pid);
            crate::process::lemma_last_index_of(spec_pids(news), pid, news.len() as int);
        }
        match index.get(&pid) {
            Some(k) => {
                assert(news[*k as int] == fresh@[*k as int]@);
                list[i].update_dynamic_fields(&fresh[*k]);
            },
            None => {},
        }
        i += 1;
    }
    assert(spec_rows(list@) =~= spec_refreshed(before, news));
}

/// Adds the processes that are tagged in `list` to `tagged`.
fn collect_tagged(list: &Vec<ProcessInfo>, tagged: &mut HashSet<u32>)
    ensures
        forall|pid: u32|
            final(tagged)@.contains(pid) == (old(tagged)@.contains(pid) || spec_is_tagged(
                spec_rows(list@),
                pid,
            )),
{
    let ghost rows = spec_rows(list@);
    let mut i: usize = 0;
    while i < list.len()
        invariant
            i <= list.len(),
            rows == spec_rows(list@),
            forall|pid: u32|
                tagged@.contains(pid) == (old(tagged)@.contains(pid) || spec_is_tagged(
                    rows.subrange(0, i as int),
                    pid,
                )),
        decreases list.len() - i,
    {
        let ghost seen = rows.subrange(0, i as int);
        let ghost more = rows.subrange(0, i + 1);
        let pid = list[i].pid;
        let is_tagged = list[i].tagged;
        assert(rows[i as int] == list@[i as int]@);
        if is_tagged {
            tagged.insert(pid);
        }
        assert forall|q: u32|
            tagged@.contains(q) == (old(tagged)@.contains(q) || spec_is_tagged(more, q)) by {
            if spec_is_tagged(seen, q) {
                let k = choose|k: int| 0 <= k < seen.len() && (#[trigger] seen[k]).pid == q && seen[k].tagged;
                assert(more[k] == seen[k]);
            }
            if spec_is_tagged(more, q) {
                let k = choose|k: int| 0 <= k < more.len() && (#[trigger] more[k]).pid == q && more[k].tagged;
                if k < i {
                    assert(seen[k] == more[k]);
                } else {
                    assert(more[k] == rows[i as int]);
                }
            }
            if is_tagged && q == pid {
                assert(more[i as int] == rows[i as int]);
            }
        }
        i += 1;
    }
    assert(rows.subrange(0, list@.len() as int) =~= rows);
}

/// The rows that replace the table.
fn rebuild_rows(fresh: &Vec<ProcessInfo>, index: &HashMap<u32, usize>, tagged: &HashSet<u32>) -> (list: Vec<
    ProcessInfo,
>)
    requires
        spec_indexes(index@, spec_pids(spec_rows(fresh@))),
    ensures
        spec_rows(list@) == spec_rebuilt(spec_rows(fresh@), tagged@, fresh@.len() as int),
{
    let ghost news = spec_rows(fresh@);
    let mut list: Vec<ProcessInfo> = Vec::new();
    let mut i: usize = 0;
    while i < fresh.len()
        invariant
            i <= fresh.len(),
            news == spec_rows(fresh@),
            spec_indexes(index@, spec_pids(news)),
            spec_rows(list@) == spec_rebuilt(news, tagged@, i as int),
        decreases fresh.len() - i,
    {
        let pid = fresh[i].pid;
        assert(news[i as int] == fresh@[i as int]@);
        proof {
            lemma_index_has_pid(index@, news, pid);
        }
        let is_last = match index.get(&pid) {
            Some(k) => *k == i,
            None => false,
        };
        if is_last {
            let ghost before = spec_rows(list@);
            let mut p = fresh[i].clone();
            if tagged.contains(&pid) {
                p.tagged = true;
            }
            list.push(p);
            assert(spec_rows(list@) =~= before.push(
                news[i as int].with_tag(news[i as int].tagged || tagged@.contains(pid)),
            ));
        }
        i += 1;
    }
    list
}

impl App {
    /// Takes a snapshot into the table.
    ///
    /// Where the snapshot holds the same processes as the table, every row,
    /// of all and of the shown ones, takes the volatile fields of its
    /// process where it stands: no row moves, and cursor, tags and folded
    /// processes stay. Else the rows are replaced by the snapshot, the
    /// processes that were tagged stay tagged, and the shown rows are made
    /// anew.
    pub fn merge_data(&mut self, sys_info: SystemInfo, processes: Vec<ProcessInfo>)
        ensures
            !spec_same_pids(old(self)@.all, spec_rows(processes@)) ==> spec_shows(
                spec_replaced(old(self)@, sys_info, spec_rows(processes@)),
                final(self)@.filtered,
            ),
            final(self)@ == spec_merged(
                old(self)@,
                sys_info,
                spec_rows(processes@),
                final(self)@.filtered,
            ),
    {
        let ghost v = self@;
        let ghost fresh = spec_rows(processes@);
        self.sys_info = sys_info;
        self.dirty = true;
        let new_index = index_by_pid(&processes);
        let old_index = index_by_pid(&self.all_processes);
        let unchanged = pids_known(&self.all_processes, &processes, &new_index) && pids_known(
            &processes,
            &self.all_processes,
            &old_index,
        );
        if unchanged {
            refresh_rows(&mut self.all_processes, &processes, &new_index);
            refresh_rows(&mut self.filtered_processes, &processes, &new_index);
        } else {
            let mut tagged: HashSet<u32> = HashSet::new();
            collect_tagged(&self.all_processes, &mut tagged);
            collect_tagged(&self.filtered_processes, &mut tagged);
            assert(tagged@ =~= spec_tagged_pids(v));
            self.all_processes = rebuild_rows(&processes, &new_index, &tagged);
            assert(self@ == spec_replaced(v, sys_info, fresh));
            self.update_filtered_processes();
        }
    }
}

/// Whether `row` is `source` but for the marks of the tree.
pub open spec fn spec_same_but_marks(row: ProcessRow, source: ProcessRow) -> bool {
    row == source.with_tree_prefix(row.tree_prefix)
}

/// Every row that passes the filters is one of the rows.
pub proof fn lemma_kept_from_rows(rows: Seq<ProcessRow>, v: AppView, n: int, j: int)
    requires
        0 <= n <= rows.len(),
        0 <= j < spec_kept(rows, v, n).len(),
    ensures
        exists|k: int| 0 <= k < n && spec_kept(rows, v, n)[j] == #[trigger] rows[k],
    decreases n,
{
    if spec_shown(rows[n - 1], v) && j == spec_kept(rows, v, n - 1).len() {
        assert(spec_kept(rows, v, n)[j] == rows[n - 1]);
    } else {
        lemma_kept_from_rows(rows, v, n - 1, j);
    }
}

/// Every row in the order of the tree is one of the rows, but for the marks
/// of the tree.
pub proof fn lemma_tree_ordered_from_rows(rows: Seq<ProcessRow>, tree: Seq<TreeNode>, n: int, j: int)
    requires
        0 <= n <= tree.len(),
        0 <= j < spec_tree_ordered(rows, tree, n).len(),
    ensures
        exists|k: int|
            0 <= k < rows.len() && spec_same_but_marks(
                spec_tree_ordered(rows, tree, n)[j],
                #[trigger] rows[k],
            ),
    decreases n,
{
    let node = tree[n - 1];
    lemma_last_index_of(spec_pids(rows), node.pid, rows.len() as int);
    match spec_last_index_of(spec_pids(rows), node.pid, rows.len() as int) {
        Some(i) => {
            if j == spec_tree_ordered(rows, tree, n - 1).len() {
                assert(spec_same_but_marks(spec_tree_ordered(rows, tree, n)[j], rows[i]));
            } else {
                lemma_tree_ordered_from_rows(rows, tree, n - 1, j);
            }
        },
        None => {
            lemma_tree_ordered_from_rows(rows, tree, n - 1, j);
        },
    }
}

/// Every shown row is one of all rows, but for the marks of the tree.
pub proof fn lemma_shown_from_all(v: AppView, shown: Seq<ProcessRow>, j: int)
    requires
        spec_shows(v, shown),
        0 <= j < shown.len(),
    ensures
        exists|k: int| 0 <= k < v.all.len() && spec_same_but_marks(shown[j], #[trigger] v.all[k]),
{
    let kept = spec_kept(v.all, v, v.all.len() as int);
    if v.tree_view {
        let tree = spec_build_tree(kept, v.collapsed);
        lemma_tree_ordered_from_rows(kept, tree, tree.len() as int, j);
        let i = choose|i: int| 0 <= i < kept.len() && spec_same_but_marks(shown[j], #[trigger] kept[i]);
        lemma_kept_from_rows(v.all, v, v.all.len() as int, i);
        let k = choose|k: int| 0 <= k < v.all.len() && kept[i] == #[trigger] v.all[k];
        assert(spec_same_but_marks(shown[j], v.all[k]));
    } else {
        shown.to_multiset_ensures();
        kept.to_multiset_ensures();
        assert(shown.contains(shown[j]));
        assert(shown.to_multiset().count(shown[j]) > 0);
        assert(kept.to_multiset().count(shown[j]) > 0);
        assert(kept.contains(shown[j]));
        let i = choose|i: int| 0 <= i < kept.len() && kept[i] == shown[j];
        lemma_kept_from_rows(v.all, v, v.all.len() as int, i);
        let k = choose|k: int| 0 <= k < v.all.len() && kept[i] == #[trigger] v.all[k];
        assert(spec_same_but_marks(shown[j], v.all[k]));
    }
}

/// Every row that replaces the table is the last row that the snapshot
/// holds of its process, tagged where the process was.
pub proof fn lemma_rebuilt_from_snapshot(fresh: Seq<ProcessRow>, tagged: Set<u32>, n: int, j: int)
    requires
        0 <= n <= fresh.len(),
        0 <= j < spec_rebuilt(fresh, tagged, n).len(),
    ensures
        exists|k: int|
            0 <= k < n && spec_rebuilt(fresh, tagged, n)[j] == (#[trigger] fresh[k]).with_tag(
                fresh[k].tagged || tagged.contains(fresh[k].pid),
            ),
    decreases n,
{
    let row = fresh[n - 1];
    if spec_last_index_of(spec_pids(fresh), row.pid, fresh.len() as int) == Some(n - 1) && j
        == spec_rebuilt(fresh, tagged, n - 1).len() {
        assert(spec_rebuilt(fresh, tagged, n)[j] == fresh[n - 1].with_tag(
            fresh[n - 1].tagged || tagged.contains(fresh[n - 1].pid),
        ));
    } else {
        lemma_rebuilt_from_snapshot(fresh, tagged, n - 1, j);
    }
}

/// Every process of the snapshot has a row among those that replace the
/// table.
pub proof fn lemma_rebuilt_holds_every_process(fresh: Seq<ProcessRow>, tagged: Set<u32>, n: int, k: int)
    requires
        0 <= k < n <= fresh.len(),
        spec_last_index_of(spec_pids(fresh), fresh[k].pid, fresh.len() as int) == Some(k),
    ensures
        exists|j: int|
            0 <= j < spec_rebuilt(fresh, tagged, n).len() && (#[trigger] spec_rebuilt(
                fresh,
                tagged,
                n,
            )[j]).pid == fresh[k].pid,
    decreases n,
{
    if k == n - 1 {
        let j = spec_rebuilt(fresh, tagged, n - 1).len() as int;
        assert(spec_rebuilt(fresh, tagged, n)[j].pid == fresh[k].pid);
    } else {
        lemma_rebuilt_holds_every_process(fresh, tagged, n - 1, k);
        let j = choose|j: int|
            0 <= j < spec_rebuilt(fresh, tagged, n - 1).len() && (#[trigger] spec_rebuilt(
                fresh,
                tagged,
                n - 1,
            )[j]).pid == fresh[k].pid;
        assert(spec_rebuilt(fresh, tagged, n)[j] == spec_rebuilt(fresh, tagged, n - 1)[j]);
    }
}

/// A snapshot of the same processes leaves every row where it stands, with
/// its tag, and leaves cursor, scroll position, folded processes, filters
/// and order as they are.
pub proof fn lemma_same_processes_nothing_moves(
    v: AppView,
    sys_info: SystemInfo,
    fresh: Seq<ProcessRow>,
    shown: Seq<ProcessRow>,
)
    requires
        spec_same_pids(v.all, fresh),
    ensures
        ({
            let m = spec_merged(v, sys_info, fresh, shown);
            &&& spec_pids(m.all) == spec_pids(v.all)
            &&& spec_pids(m.filtered) == spec_pids(v.filtered)
            &&& forall|i: int| 0 <= i < v.all.len() ==> (#[trigger] m.all[i]).tagged == v.all[i].tagged
            &&& forall|i: int|
                0 <= i < v.filtered.len() ==> (#[trigger] m.filtered[i]).tagged
                    == v.filtered[i].tagged && m.filtered[i].tree_prefix
                    == v.filtered[i].tree_prefix
            &&& m.collapsed == v.collapsed
            &&& m.selected == v.selected
            &&& m.scroll_offset == v.scroll_offset
            &&& m.sort_column == v.sort_column
            &&& m.sort_ascending == v.sort_ascending
            &&& m.tree_view == v.tree_view
            &&& spec_tagged_pids(m) == spec_tagged_pids(v)
        }),
{
    let m = spec_merged(v, sys_info, fresh, shown);
    assert(spec_pids(m.all) =~= spec_pids(v.all));
    assert(spec_pids(m.filtered) =~= spec_pids(v.filtered));
    assert forall|pid: u32| spec_is_tagged(m.all, pid) == spec_is_tagged(v.all, pid) by {
        if spec_is_tagged(m.all, pid) {
            let i = choose|i: int| 0 <= i < m.all.len() && (#[trigger] m.all[i]).pid == pid && m.all[i].tagged;
            assert(v.all[i].pid == pid && v.all[i].tagged);
        }
        if spec_is_tagged(v.all, pid) {
            let i = choose|i: int| 0 <= i < v.all.len() && (#[trigger] v.all[i]).pid == pid && v.all[i].tagged;
            assert(m.all[i].pid == pid && m.all[i].tagged);
        }
    }
    assert forall|pid: u32| spec_is_tagged(m.filtered, pid) == spec_is_tagged(v.filtered, pid) by {
        if spec_is_tagged(m.filtered, pid) {
            let i = choose|i: int|
                0 <= i < m.filtered.len() && (#[trigger] m.filtered[i]).pid == pid
                    && m.filtered[i].tagged;
            assert(v.filtered[i].pid == pid && v.filtered[i].tagged);
        }
        if spec_is_tagged(v.filtered, pid) {
            let i = choose|i: int|
                0 <= i < v.filtered.len() && (#[trigger] v.filtered[i]).pid == pid
                    && v.filtered[i].tagged;
            assert(m.filtered[i].pid == pid && m.filtered[i].tagged);
        }
    }
    assert(spec_tagged_pids(m) =~= spec_tagged_pids(v));
}

/// After the rows were replaced, a process that the snapshot no longer holds
/// has no row left, shown or not, and is no longer tagged.
pub proof fn lemma_rebuild_drops_the_gone(
    v: AppView,
    sys_info: SystemInfo,
    fresh: Seq<ProcessRow>,
    shown: Seq<ProcessRow>,
    gone: u32,
)
    requires
        !spec_same_pids(v.all, fresh),
        spec_shows(spec_replaced(v, sys_info, fresh), shown),
        !spec_has_pid(fresh, gone),
    ensures
        ({
            let m = spec_merged(v, sys_info, fresh, shown);
            &&& !spec_has_pid(m.all, gone)
            &&& !spec_has_pid(m.filtered, gone)
            &&& !spec_tagged_pids(m).contains(gone)
        }),
{
    let r = spec_replaced(v, sys_info, fresh);
    let m = spec_merged(v, sys_info, fresh, shown);
    assert forall|j: int| 0 <= j < m.all.len() implies (#[trigger] m.all[j]).pid != gone by {
        lemma_rebuilt_from_snapshot(fresh, spec_tagged_pids(v), fresh.len() as int, j);
    }
    assert forall|j: int| 0 <= j < m.filtered.len() implies (#[trigger] m.filtered[j]).pid
        != gone by {
        lemma_shown_from_all(r, shown, j);
        let k = choose|k: int| 0 <= k < r.all.len() && spec_same_but_marks(shown[j], #[trigger] r.all[k]);
        assert(m.all[k].pid != gone);
    }
}

/// After the rows were replaced, a process that was tagged and that the
/// snapshot still holds has a row, and every row of it, shown or not, is
/// tagged.
pub proof fn lemma_rebuild_keeps_tags(
    v: AppView,
    sys_info: SystemInfo,
    fresh: Seq<ProcessRow>,
    shown: Seq<ProcessRow>,
    kept: u32,
)
    requires
        !spec_same_pids(v.all, fresh),
        spec_shows(spec_replaced(v, sys_info, fresh), shown),
        spec_has_pid(fresh, kept),
        spec_tagged_pids(v).contains(kept),
    ensures
        ({
            let m = spec_merged(v, sys_info, fresh, shown);
            &&& spec_is_tagged(m.all, kept)
            &&& forall|j: int|
                0 <= j < m.all.len() && (#[trigger] m.all[j]).pid == kept ==> m.all[j].tagged
            &&& forall|j: int|
                0 <= j < m.filtered.len() && (#[trigger] m.filtered[j]).pid == kept
                    ==> m.filtered[j].tagged
        }),
{
    let r = spec_replaced(v, sys_info, fresh);
    let m = spec_merged(v, sys_info, fresh, shown);
    let tagged = spec_tagged_pids(v);
    assert forall|j: int| 0 <= j < m.all.len() && (#[trigger] m.all[j]).pid == kept implies m.all[j].tagged by {
        lemma_rebuilt_from_snapshot(fresh, tagged, fresh.len() as int, j);
    }
    assert forall|j: int|
        0 <= j < m.filtered.len() && (#[trigger] m.filtered[j]).pid == kept implies m.filtered[j].tagged by {
        lemma_shown_from_all(r, shown, j);
        let k = choose|k: int| 0 <= k < r.all.len() && spec_same_but_marks(shown[j], #[trigger] r.all[k]);
        assert(m.all[k].pid == kept);
    }
    let pids = spec_pids(fresh);
    lemma_last_index_of(pids, kept, fresh.len() as int);
    let i = choose|i: int| 0 <= i < fresh.len() && (#[trigger] fresh[i]).pid == kept;
    assert(pids[i] == kept);
    let k = spec_last_index_of(pids, kept, fresh.len() as int)->0;
    assert(fresh[k].pid == kept);
    lemma_rebuilt_holds_every_process(fresh, tagged, fresh.len() as int, k);
}

/// The state after the snapshots that queued up were taken in: only the last
/// of them is, the others are passed over.
pub open spec fn spec_latest(snapshots: Seq<(SystemInfo, Vec<ProcessInfo>)>) -> Option<
    (SystemInfo, Vec<ProcessInfo>),
> {
    if snapshots.len() == 0 {
        None
    } else {
        Some(snapshots[snapshots.len() - 1])
    }
}

impl App {
    /// Takes in the snapshots that queued up since the last look. Only the
    /// most recent is merged; older ones are dropped unseen.
    pub fn apply_latest(&mut self, snapshots: Vec<(SystemInfo, Vec<ProcessInfo>)>)
        ensures
            match spec_latest(snapshots@) {
                Some(last) => {
                    &&& !spec_same_pids(old(self)@.all, spec_rows(last.1@)) ==> spec_shows(
                        spec_replaced(old(self)@, last.0, spec_rows(last.1@)),
                        final(self)@.filtered,
                    )
                    &&& final(self)@ == spec_merged(
                        old(self)@,
                        last.0,
                        spec_rows(last.1@),
                        final(self)@.filtered,
                    )
                },
                None => final(self)@ == old(self)@,
            },
    {
        let mut snapshots = snapshots;
        match snapshots.pop() {
            Some(last) => {
                let (sys_info, processes) = last;
                self.merge_data(sys_info, processes);
            },
            None => {},
        }
    }

    /// Asks for the screen to be drawn again.
    pub fn mark_dirty(&mut self)
        ensures
            final(self)@ == (AppView { dirty: true, ..old(self)@ }),
    {
        self.dirty = true;
    }

    /// Notes that the screen was drawn.
    pub fn mark_drawn(&mut self)
        ensures
            final(self)@ == (AppView { dirty: false, ..old(self)@ }),
    {
        self.dirty = false;
    }
}

} // verus!
