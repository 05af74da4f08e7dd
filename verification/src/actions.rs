//! What the user does to the table: moving the cursor, tagging, jumping
//! back and forth, selecting a range, choosing whose processes to see and
//! whom to signal.

use vstd::prelude::*;
use crate::app::{spec_reshown, App, AppMode, AppView, FLASH_MILLIS, JUMP_LIST_LIMIT};
use crate::process::{spec_rows, ProcessInfo, ProcessRow};

verus! {

/// The scroll position that keeps the cursor on screen: unchanged where the
/// height of the screen is not known or the cursor is in sight, else moved
/// by as little as brings the cursor into sight.
pub open spec fn spec_scroll_for(selected: usize, scroll: usize, visible_rows: usize) -> usize {
    if visible_rows == 0 {
        scroll
    } else if selected < scroll {
        selected
    } else if selected >= scroll + visible_rows {
        (selected - visible_rows + 1) as usize
    } else {
        scroll
    }
}

/// The state with the cursor at `selected` and the scroll position following
/// it.
pub open spec fn spec_selected(v: AppView, selected: usize) -> AppView {
    AppView {
        selected,
        scroll_offset: spec_scroll_for(selected, v.scroll_offset, v.visible_rows),
        ..v
    }
}

/// Where the cursor lands when moved by `delta` rows: held inside the
/// table; where it was in an empty table.
pub open spec fn spec_moved(selected: usize, delta: i32, len: nat) -> usize {
    if len == 0 {
        selected
    } else if selected + delta < 0 {
        0
    } else if selected + delta >= len {
        (len - 1) as usize
    } else {
        (selected + delta) as usize
    }
}

/// The state after the cursor moved by `delta` rows.
pub open spec fn spec_after_move(v: AppView, delta: i32) -> AppView {
    if v.filtered.len() == 0 {
        v
    } else {
        spec_selected(v, spec_moved(v.selected, delta, v.filtered.len()))
    }
}

/// The first position before `n` at which a row of the process `pid`
/// stands.
pub open spec fn spec_first_index_of(rows: Seq<ProcessRow>, pid: u32, n: int) -> Option<int>
    decreases n,
{
    if n <= 0 {
        None
    } else {
        match spec_first_index_of(rows, pid, n - 1) {
            Some(i) => Some(i),
            None => if rows[n - 1].pid == pid {
                Some(n - 1)
            } else {
                None
            },
        }
    }
}

/// The rows with the tag of the first row of the process `pid` set to
/// `tagged`.
pub open spec fn spec_tag_first(rows: Seq<ProcessRow>, pid: u32, tagged: bool) -> Seq<ProcessRow> {
    match spec_first_index_of(rows, pid, rows.len() as int) {
        Some(i) => rows.update(i, rows[i].with_tag(tagged)),
        None => rows,
    }
}

/// The rows, none of them tagged.
pub open spec fn spec_untagged(rows: Seq<ProcessRow>) -> Seq<ProcessRow> {
    Seq::new(rows.len(), |i: int| rows[i].with_tag(false))
}

/// The state after the tag of the row under the cursor was flipped, in the
/// shown rows and in all rows, and the cursor moved one row down.
pub open spec fn spec_after_toggle_tag(v: AppView) -> AppView {
    if v.selected < v.filtered.len() {
        let row = v.filtered[v.selected as int];
        spec_after_move(
            AppView {
                filtered: v.filtered.update(v.selected as int, row.with_tag(!row.tagged)),
                all: spec_tag_first(v.all, row.pid, !row.tagged),
                ..v
            },
            1,
        )
    } else {
        spec_after_move(v, 1)
    }
}

/// The jump list after the process `pid` was marked at position `pos`: what
/// lay behind the position is dropped, the mark added, and only the last
/// hundred marks kept.
pub open spec fn spec_marked(list: Seq<u32>, pos: usize, pid: u32) -> Seq<u32> {
    let cut = if pos < list.len() {
        list.subrange(0, pos as int)
    } else {
        list
    };
    let grown = cut.push(pid);
    if grown.len() > JUMP_LIST_LIMIT {
        grown.subrange(grown.len() - JUMP_LIST_LIMIT, grown.len() as int)
    } else {
        grown
    }
}

/// The state after the process under the cursor was marked in the jump
/// list; as it was where the cursor is on no row.
pub open spec fn spec_after_mark(v: AppView) -> AppView {
    if v.selected < v.filtered.len() {
        let list = spec_marked(v.jump_list, v.jump_pos, v.filtered[v.selected as int].pid);
        AppView { jump_list: list, jump_pos: list.len() as usize, ..v }
    } else {
        v
    }
}

/// The state after the cursor went to the process at the current position of
/// the jump list; as it was where the position is past the list or the
/// process is not shown.
pub open spec fn spec_after_navigate(v: AppView) -> AppView {
    if v.jump_pos < v.jump_list.len() {
        match spec_first_index_of(v.filtered, v.jump_list[v.jump_pos as int], v.filtered.len() as int) {
            Some(i) => spec_selected(v, i as usize),
            None => v,
        }
    } else {
        v
    }
}

/// The state after a jump back. From the end of the list the place that is
/// left is marked first, so that a jump forward returns to it.
pub open spec fn spec_after_jump_back(v: AppView) -> AppView {
    if v.jump_list.len() == 0 {
        v
    } else if v.jump_pos == v.jump_list.len() {
        let m = spec_after_mark(v);
        if m.jump_pos >= 2 {
            spec_after_navigate(AppView { jump_pos: (m.jump_pos - 2) as usize, ..m })
        } else {
            m
        }
    } else if v.jump_pos > 0 {
        spec_after_navigate(AppView { jump_pos: (v.jump_pos - 1) as usize, ..v })
    } else {
        v
    }
}

/// The state after a jump forward.
pub open spec fn spec_after_jump_forward(v: AppView) -> AppView {
    if v.jump_pos + 1 < v.jump_list.len() {
        spec_after_navigate(AppView { jump_pos: (v.jump_pos + 1) as usize, ..v })
    } else {
        v
    }
}

/// The rows between anchor and cursor, both included.
pub open spec fn spec_visual_range(v: AppView) -> Option<(usize, usize)> {
    match v.visual_anchor {
        Some(anchor) => if anchor <= v.selected {
            Some((anchor, v.selected))
        } else {
            Some((v.selected, anchor))
        },
        None => None,
    }
}

/// The shown rows with those from `lo` up to, and without, `upto` tagged.
pub open spec fn spec_tag_range(rows: Seq<ProcessRow>, lo: int, upto: int) -> Seq<ProcessRow> {
    Seq::new(
        rows.len(),
        |i: int|
            if lo <= i < upto {
                rows[i].with_tag(true)
            } else {
                rows[i]
            },
    )
}

/// All rows after the processes of the shown rows from `lo` up to, and
/// without, `upto` were tagged: for each, its first row.
pub open spec fn spec_tag_all_of(all: Seq<ProcessRow>, shown: Seq<ProcessRow>, lo: int, upto: int) -> Seq<
    ProcessRow,
>
    decreases upto - lo,
{
    if upto <= lo {
        all
    } else {
        spec_tag_first(spec_tag_all_of(all, shown, lo, upto - 1), shown[upto - 1].pid, true)
    }
}

/// The state after every process of the visual selection was tagged, in the
/// shown rows and in all rows; as it was where nothing is selected.
pub open spec fn spec_after_tag_visual(v: AppView) -> AppView {
    match spec_visual_range(v) {
        Some((lo, hi)) => {
            let upto = if hi < v.filtered.len() {
                hi + 1
            } else {
                v.filtered.len() as int
            };
            AppView {
                filtered: spec_tag_range(v.filtered, lo as int, upto),
                all: spec_tag_all_of(v.all, v.filtered, lo as int, upto),
                ..v
            }
        },
        None => v,
    }
}

/// The state with the user filter switched: off where one was chosen, else to
/// the user of the process under the cursor.
pub open spec fn spec_user_cycled(v: AppView) -> AppView {
    AppView {
        user_filter: if v.user_filter is Some {
            None
        } else if v.selected < v.filtered.len() {
            Some(v.filtered[v.selected as int].user)
        } else {
            None
        },
        ..v
    }
}

/// The processes that a signal goes to: the tagged ones among the first `n`
/// shown rows, in their order.
pub open spec fn spec_tagged_shown(rows: Seq<ProcessRow>, n: int) -> Seq<u32>
    decreases n,
{
    if n <= 0 {
        Seq::empty()
    } else if rows[n - 1].tagged {
        spec_tagged_shown(rows, n - 1).push(rows[n - 1].pid)
    } else {
        spec_tagged_shown(rows, n - 1)
    }
}

/// The processes that a signal goes to: the tagged ones that are shown, or
/// the one under the cursor where none is tagged.
pub open spec fn spec_signal_targets(v: AppView) -> Seq<u32> {
    let tagged = spec_tagged_shown(v.filtered, v.filtered.len() as int);
    if tagged.len() > 0 {
        tagged
    } else if v.selected < v.filtered.len() {
        seq![v.filtered[v.selected as int].pid]
    } else {
        Seq::empty()
    }
}

/// The text of the flash message while it is shown: for two seconds from
/// when it was set.
pub open spec fn spec_active_flash(v: AppView, now_ms: u64) -> Option<Seq<char>> {
    match v.flash {
        Some(m) => if now_ms >= m.1 && now_ms - m.1 >= FLASH_MILLIS {
            None
        } else {
            Some(m.0)
        },
        None => None,
    }
}

fn first_index_of(list: &Vec<ProcessInfo>, pid: u32) -> (r: Option<usize>)
    ensures
        match r {
            Some(i) => spec_first_index_of(spec_rows(list@), pid, list@.len() as int) == Some(
                i as int,
            ) && i < list@.len() && list@[i as int].pid == pid,
            None => spec_first_index_of(spec_rows(list@), pid, list@.len() as int) is None,
        },
{
    let ghost rows = spec_rows(list@);
    let mut i: usize = 0;
    while i < list.len()
        invariant
            i <= list.len(),
            rows == spec_rows(list@),
            spec_first_index_of(rows, pid, i as int) is None,
        decreases list.len() - i,
    {
        assert(rows[i as int] == list@[i as int]@);
        if list[i].pid == pid {
            proof {
                lemma_first_index_stays(rows, pid, i + 1, list@.len() as int);
            }
            return Some(i);
        }
        i += 1;
    }
    None
}

/// Once a first position is found, looking further does not change it.
pub proof fn lemma_first_index_stays(rows: Seq<ProcessRow>, pid: u32, n: int, m: int)
    requires
        0 <= n <= m,
        spec_first_index_of(rows, pid, n) is Some,
    ensures
        spec_first_index_of(rows, pid, m) == spec_first_index_of(rows, pid, n),
    decreases m - n,
{
    if n < m {
        lemma_first_index_stays(rows, pid, n, m - 1);
    }
}

fn tag_first(list: &mut Vec<ProcessInfo>, pid: u32, tagged: bool)
    ensures
        spec_rows(final(list)@) == spec_tag_first(spec_rows(old(list)@), pid, tagged),
{
    match first_index_of(list, pid) {
        Some(i) => {
            list[i].tagged = tagged;
            assert(spec_rows(list@) =~= spec_tag_first(spec_rows(old(list)@), pid, tagged));
        },
        None => {},
    }
}

fn untag(list: &mut Vec<ProcessInfo>)
    ensures
        spec_rows(final(list)@) == spec_untagged(spec_rows(old(list)@)),
{
    let ghost before = spec_rows(list@);
    let n = list.len();
    let mut i: usize = 0;
    while i < n
        invariant
            i <= n,
            n == list@.len(),
            before.len() == n,
            forall|k: int| 0 <= k < i ==> (#[trigger] list@[k])@ == before[k].with_tag(false),
            forall|k: int| i <= k < n ==> (#[trigger] list@[k])@ == before[k],
        decreases n - i,
    {
        list[i].tagged = false;
        i += 1;
    }
    assert(spec_rows(list@) =~= spec_untagged(before));
}

fn tag_range(list: &mut Vec<ProcessInfo>, lo: usize, upto: usize)
    requires
        upto <= old(list)@.len(),
    ensures
        spec_rows(final(list)@) == spec_tag_range(spec_rows(old(list)@), lo as int, upto as int),
{
    let ghost before = spec_rows(list@);
    let n = list.len();
    let mut i: usize = lo;
    while i < upto
        invariant
            lo <= i,
            i <= upto || i == lo,
            upto <= n,
            n == list@.len(),
            before.len() == n,
            forall|k: int| 0 <= k < n && lo <= k < i ==> (#[trigger] list@[k])@ == before[k].with_tag(true),
            forall|k: int| 0 <= k < n && !(lo <= k < i) ==> (#[trigger] list@[k])@ == before[k],
        decreases upto - i,
    {
        list[i].tagged = true;
        i += 1;
    }
    assert(spec_rows(list@) =~= spec_tag_range(before, lo as int, upto as int));
}

fn tag_all_of(all: &mut Vec<ProcessInfo>, shown: &Vec<ProcessInfo>, lo: usize, upto: usize)
    requires
        upto <= shown@.len(),
    ensures
        spec_rows(final(all)@) == spec_tag_all_of(
            spec_rows(old(all)@),
            spec_rows(shown@),
            lo as int,
            upto as int,
        ),
{
    let ghost before = spec_rows(all@);
    let ghost rows = spec_rows(shown@);
    let mut i: usize = lo;
    while i < upto
        invariant
            lo <= i,
            i <= upto || i == lo,
            upto <= shown@.len(),
            rows == spec_rows(shown@),
            spec_rows(all@) == spec_tag_all_of(before, rows, lo as int, i as int),
        decreases upto - i,
    {
        assert(rows[i as int] == shown@[i as int]@);
        tag_first(all, shown[i].pid, true);
        i += 1;
    }
    proof {
        if lo >= upto {
            assert(spec_tag_all_of(before, rows, lo as int, upto as int) == before);
        }
    }
}

impl App {
    /// Moves the scroll position so that the cursor is on screen.
    pub fn adjust_scroll(&mut self)
        ensures
            final(self)@ == spec_selected(old(self)@, old(self)@.selected),
    {
        if self.visible_rows == 0 {
            return ;
        }
        if self.selected < self.scroll_offset {
            self.scroll_offset = self.selected;
        } else if self.selected - self.scroll_offset >= self.visible_rows {
            self.scroll_offset = self.selected - self.visible_rows + 1;
        }
    }

    /// Moves the cursor by `delta` rows, as far as the table goes.
    pub fn move_selection(&mut self, delta: i32)
        ensures
            final(self)@ == spec_after_move(old(self)@, delta),
    {
        let len = self.filtered_processes.len();
        if len == 0 {
            return ;
        }
        let target: i128 = self.selected as i128 + delta as i128;
        self.selected = if target < 0 {
            0
        } else if target >= len as i128 {
            len - 1
        } else {
            target as usize
        };
        self.adjust_scroll();
    }

    /// Moves the cursor to the first row.
    pub fn select_first(&mut self)
        ensures
            final(self)@ == spec_selected(old(self)@, 0),
    {
        self.selected = 0;
        self.adjust_scroll();
    }

    /// Moves the cursor to the last row.
    pub fn select_last(&mut self)
        ensures
            final(self)@ == spec_selected(
                old(self)@,
                if old(self)@.filtered.len() > 0 {
                    (old(self)@.filtered.len() - 1) as usize
                } else {
                    old(self)@.selected
                },
            ),
    {
        if self.filtered_processes.len() > 0 {
            self.selected = self.filtered_processes.len() - 1;
        }
        self.adjust_scroll();
    }

    /// Flips the tag of the process under the cursor and moves the cursor
    /// one row down.
    pub fn toggle_tag(&mut self)
        ensures
            final(self)@ == spec_after_toggle_tag(old(self)@),
    {
        if self.selected < self.filtered_processes.len() {
            let ghost before = self@.filtered;
            let tagged = !self.filtered_processes[self.selected].tagged;
            let pid = self.filtered_processes[self.selected].pid;
            self.filtered_processes[self.selected].tagged = tagged;
            assert(self@.filtered =~= before.update(
                self.selected as int,
                before[self.selected as int].with_tag(tagged),
            ));
            tag_first(&mut self.all_processes, pid, tagged);
        }
        self.move_selection(1);
    }

    /// Takes every tag away.
    pub fn untag_all(&mut self)
        ensures
            final(self)@ == (AppView {
                all: spec_untagged(old(self)@.all),
                filtered: spec_untagged(old(self)@.filtered),
                ..old(self)@
            }),
    {
        untag(&mut self.filtered_processes);
        untag(&mut self.all_processes);
    }

    /// Marks the process under the cursor in the jump list, dropping the
    /// marks that lay ahead.
    pub fn push_jump_mark(&mut self)
        ensures
            final(self)@ == spec_after_mark(old(self)@),
    {
        if self.selected >= self.filtered_processes.len() {
            return ;
        }
        let pid = self.filtered_processes[self.selected].pid;
        assert(self@.filtered[self.selected as int].pid == pid);
        let ghost v = self@;
        self.jump_list.truncate(self.jump_pos);
        assert(self.jump_list@ =~= if v.jump_pos < v.jump_list.len() {
            v.jump_list.subrange(0, v.jump_pos as int)
        } else {
            v.jump_list
        });
        self.jump_list.push(pid);
        let ghost grown = self.jump_list@;
        if self.jump_list.len() > JUMP_LIST_LIMIT {
            let excess = self.jump_list.len() - JUMP_LIST_LIMIT;
            let mut kept: Vec<u32> = Vec::new();
            let mut i: usize = excess;
            while i < self.jump_list.len()
                invariant
                    excess <= i <= self.jump_list.len(),
                    self.jump_list@ == grown,
                    kept@ == grown.subrange(excess as int, i as int),
                decreases self.jump_list.len() - i,
            {
                kept.push(self.jump_list[i]);
                i += 1;
            }
            self.jump_list = kept;
        }
        assert(self.jump_list@ =~= spec_marked(v.jump_list, v.jump_pos, pid));
        self.jump_pos = self.jump_list.len();
    }

    /// Moves the cursor to the process at the current position of the jump
    /// list, where it is shown.
    pub fn navigate_to_jump_pid(&mut self)
        ensures
            final(self)@ == spec_after_navigate(old(self)@),
    {
        if self.jump_pos < self.jump_list.len() {
            let pid = self.jump_list[self.jump_pos];
            match first_index_of(&self.filtered_processes, pid) {
                Some(pos) => {
                    self.selected = pos;
                    self.adjust_scroll();
                },
                None => {},
            }
        }
    }

    /// Jumps back to the place that the cursor last jumped away from.
    pub fn jump_back(&mut self)
        ensures
            final(self)@ == spec_after_jump_back(old(self)@),
    {
        if self.jump_list.len() == 0 {
            return ;
        }
        if self.jump_pos == self.jump_list.len() {
            self.push_jump_mark();
            if self.jump_pos >= 2 {
                self.jump_pos = self.jump_pos - 2;
            } else {
                return ;
            }
        } else if self.jump_pos > 0 {
            self.jump_pos = self.jump_pos - 1;
        } else {
            return ;
        }
        self.navigate_to_jump_pid();
    }

    /// Jumps forward again after a jump back.
    pub fn jump_forward(&mut self)
        ensures
            final(self)@ == spec_after_jump_forward(old(self)@),
    {
        let len = self.jump_list.len();
        if self.jump_pos < len && self.jump_pos + 1 < len {
            self.jump_pos = self.jump_pos + 1;
            self.navigate_to_jump_pid();
        }
    }

    /// The rows of the visual selection: from the lower to the higher of
    /// anchor and cursor, both included.
    pub fn visual_range(&self) -> (r: Option<(usize, usize)>)
        ensures
            r == spec_visual_range(self@),
    {
        match self.visual_anchor {
            Some(anchor) => if anchor <= self.selected {
                Some((anchor, self.selected))
            } else {
                Some((self.selected, anchor))
            },
            None => None,
        }
    }

    /// Tags every process of the visual selection, in the shown rows and in
    /// all rows.
    pub fn tag_visual_range(&mut self)
        ensures
            final(self)@ == spec_after_tag_visual(old(self)@),
    {
        match self.visual_range() {
            Some((lo, hi)) => {
                let len = self.filtered_processes.len();
                let upto: usize = if hi < len {
                    hi + 1
                } else {
                    len
                };
                tag_all_of(&mut self.all_processes, &self.filtered_processes, lo, upto);
                tag_range(&mut self.filtered_processes, lo, upto);
            },
            None => {},
        }
    }

    /// Shows a message in the status bar from the time `now_ms` on.
    pub fn flash(&mut self, msg: String, now_ms: u64)
        ensures
            final(self)@ == (AppView { flash: Some((msg@, now_ms)), ..old(self)@ }),
    {
        self.flash_message = Some((msg, now_ms));
    }

    /// The message in the status bar, while it is shown.
    pub fn active_flash(&self, now_ms: u64) -> (text: Option<&str>)
        ensures
            match text {
                Some(t) => spec_active_flash(self@, now_ms) == Some(t@),
                None => spec_active_flash(self@, now_ms) is None,
            },
    {
        match &self.flash_message {
            Some(m) => {
                if now_ms >= m.1 && now_ms - m.1 >= FLASH_MILLIS {
                    None
                } else {
                    Some(m.0.as_str())
                }
            },
            None => None,
        }
    }

    /// Shows only the processes of the user of the process under the
    /// cursor, or of every user again where one was chosen.
    pub fn cycle_user_filter(&mut self)
        ensures
            spec_reshown(spec_user_cycled(old(self)@), final(self)@),
    {
        if self.user_filter.is_some() {
            self.user_filter = None;
        } else if self.selected < self.filtered_processes.len() {
            self.user_filter = Some(self.filtered_processes[self.selected].user.clone());
        }
        self.update_filtered_processes();
    }

    /// The processes that a signal goes to: the tagged ones that are shown,
    /// or the one under the cursor where none is tagged.
    pub fn signal_targets(&self) -> (pids: Vec<u32>)
        ensures
            pids@ == spec_signal_targets(self@),
    {
        let ghost rows = self@.filtered;
        let mut pids: Vec<u32> = Vec::new();
        let mut i: usize = 0;
        while i < self.filtered_processes.len()
            invariant
                i <= self.filtered_processes.len(),
                rows == spec_rows(self.filtered_processes@),
                pids@ == spec_tagged_shown(rows, i as int),
            decreases self.filtered_processes.len() - i,
        {
            assert(rows[i as int] == self.filtered_processes@[i as int]@);
            if self.filtered_processes[i].tagged {
                pids.push(self.filtered_processes[i].pid);
            }
            i += 1;
        }
        if pids.len() == 0 && self.selected < self.filtered_processes.len() {
            pids.push(self.filtered_processes[self.selected].pid);
        }
        pids
    }
}

} // verus!
