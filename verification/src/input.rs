//! From keys and mouse to what happens to the table.
//!
//! A key is first read as an action, by the mode that the display is in;
//! the action is then carried out. What reaches outside the table, the
//! clipboard and the processes that are signalled, is handed back to the
//! caller.

use vstd::prelude::*;
use crate::actions::{
    spec_after_jump_back, spec_after_jump_forward, spec_after_mark, spec_after_move,
    spec_after_tag_visual, spec_after_toggle_tag, spec_selected, spec_signal_targets,
    spec_untagged, spec_user_cycled,
};
use crate::app::{spec_reshown, App, AppMode, AppView};
use crate::dialogs::{signal_list, spec_signal_numbers, SIGNAL_COUNT};
use crate::folding::{spec_collapses, spec_expands};
use crate::process::{SortColumn, YankField};
use crate::signals::SignalPlan;
use crate::text::{chars_of, string_of};
use crate::yank::{spec_is_yank, Yank};

verus! {

/// A key, as far as the table tells keys apart.
#[derive(Debug, Clone, Copy, PartialEq, Eq, Structural)]
pub enum KeyCode {
    Char(char),
    F(u8),
    Up,
    Down,
    Left,
    Right,
    Home,
    End,
    PageUp,
    PageDown,
    Tab,
    Esc,
    Enter,
    Backspace,
    Other,
}

/// A key press.
#[derive(Debug, Clone, Copy, PartialEq, Eq, Structural)]
pub struct KeyEvent {
    pub code: KeyCode,
    /// Whether the control key was held.
    pub ctrl: bool,
}

/// What the mouse did.
#[derive(Debug, Clone, Copy, PartialEq, Eq, Structural)]
pub enum MouseEventKind {
    ScrollUp,
    ScrollDown,
    /// A button went down.
    Down,
    Other,
}

/// A mouse event.
#[derive(Debug, Clone, Copy, PartialEq, Eq, Structural)]
pub struct MouseEvent {
    pub kind: MouseEventKind,
    /// Row of the screen that the pointer is on.
    pub row: u16,
}

/// What the terminal reports.
#[derive(Debug, Clone, Copy, PartialEq, Eq, Structural)]
pub enum Event {
    Key(KeyEvent),
    Mouse(MouseEvent),
    Resize,
    Other,
}

/// What a key asks for.
#[derive(Debug, Clone, Copy, PartialEq, Eq, Structural)]
pub enum Action {
    Nothing,
    Quit,
    /// Waits for the second key of a two-key command.
    Pending(char),
    /// Moves the cursor by so many rows, after marking the place where asked.
    Move { delta: i32, mark: bool },
    First { mark: bool },
    Last { mark: bool },
    JumpBack,
    JumpForward,
    /// Copies a field, and leaves the visual mode where asked.
    Yank { field: YankField, leave_visual: bool },
    EnterMode(AppMode),
    /// Opens the input bar with an empty search text.
    StartFilter(AppMode),
    ToggleTree,
    ToggleThreads,
    ToggleKernelThreads,
    /// Sorts by a column, high to low.
    SortBy(SortColumn),
    InvertSort,
    OpenKill,
    OpenKillVisual,
    StartVisual,
    LeaveVisual,
    ToggleTag,
    TagVisual,
    CycleUser,
    Expand,
    Collapse,
    FilterCancel,
    FilterAccept,
    FilterBackspace,
    FilterType(char),
    KillCancel,
    KillUp,
    KillDown,
    KillScrollLeft,
    KillScrollRight,
    KillConfirm,
    SortPrev,
    SortNext,
}

/// What the caller has to do after an event.
#[derive(Debug)]
pub enum Reaction {
    Continue,
    Quit,
    /// Write the text to the clipboard, then flash the description, or that
    /// the write failed.
    Copy(Yank),
    /// Send the signal to the processes.
    Signal(SignalPlan),
}

/// Rows that the cursor moves by the screenful.
pub open spec fn spec_page(visible_rows: usize) -> i32 {
    if visible_rows <= i32::MAX {
        visible_rows as i32
    } else {
        i32::MAX
    }
}

/// Rows that the cursor moves by half a screenful.
pub open spec fn spec_half_page(visible_rows: usize) -> i32 {
    spec_page((visible_rows / 2) as usize)
}

/// The field that the second key of a yank names.
pub open spec fn spec_yank_field(c: char) -> Option<YankField> {
    if c == 'y' {
        Some(YankField::Row)
    } else if c == 'p' {
        Some(YankField::Pid)
    } else if c == 'u' {
        Some(YankField::User)
    } else if c == 'c' {
        Some(YankField::Container)
    } else if c == 'n' {
        Some(YankField::Name)
    } else if c == 'l' {
        Some(YankField::Cmdline)
    } else if c == 'g' {
        Some(YankField::GpuPercent)
    } else if c == 'v' {
        Some(YankField::GpuMem)
    } else {
        None
    }
}

/// What a key asks for in the normal mode, after the two-key commands and
/// the keys with the control key were looked at.
pub open spec fn spec_normal_plain(code: KeyCode, visible_rows: usize) -> Action {
    match code {
        KeyCode::F(n) => if n == 10 {
            Action::Quit
        } else if n == 1 {
            Action::EnterMode(AppMode::Help)
        } else if n == 3 {
            Action::StartFilter(AppMode::Search)
        } else if n == 4 {
            Action::StartFilter(AppMode::Filter)
        } else if n == 5 {
            Action::ToggleTree
        } else if n == 6 {
            Action::EnterMode(AppMode::SortSelect)
        } else if n == 9 {
            Action::OpenKill
        } else {
            Action::Nothing
        },
        KeyCode::Char(c) => if c == 'q' {
            Action::Quit
        } else if c == '?' {
            Action::EnterMode(AppMode::Help)
        } else if c == '/' {
            Action::StartFilter(AppMode::Search)
        } else if c == '\\' {
            Action::StartFilter(AppMode::Filter)
        } else if c == 't' {
            Action::ToggleTree
        } else if c == '>' || c == '<' {
            Action::EnterMode(AppMode::SortSelect)
        } else if c == 'x' {
            Action::OpenKill
        } else if c == 'k' {
            Action::Move { delta: -1i32, mark: false }
        } else if c == 'j' {
            Action::Move { delta: 1, mark: false }
        } else if c == 'g' {
            Action::Pending('g')
        } else if c == 'y' {
            Action::Pending('y')
        } else if c == 'G' {
            Action::Last { mark: true }
        } else if c == 'V' {
            Action::StartVisual
        } else if c == ' ' {
            Action::ToggleTag
        } else if c == 'u' {
            Action::CycleUser
        } else if c == 'H' {
            Action::ToggleThreads
        } else if c == 'K' {
            Action::ToggleKernelThreads
        } else if c == 'P' {
            Action::SortBy(SortColumn::CpuPercent)
        } else if c == 'M' {
            Action::SortBy(SortColumn::MemPercent)
        } else if c == 'T' {
            Action::SortBy(SortColumn::Time)
        } else if c == 'I' {
            Action::InvertSort
        } else if c == '+' || c == '=' {
            Action::Expand
        } else if c == '-' {
            Action::Collapse
        } else {
            Action::Nothing
        },
        KeyCode::Up => Action::Move { delta: -1i32, mark: false },
        KeyCode::Down => Action::Move { delta: 1, mark: false },
        KeyCode::Home => Action::First { mark: true },
        KeyCode::End => Action::Last { mark: true },
        KeyCode::PageUp => Action::Move { delta: (-spec_page(visible_rows)) as i32, mark: true },
        KeyCode::PageDown => Action::Move { delta: spec_page(visible_rows), mark: true },
        KeyCode::Tab => Action::JumpForward,
        _ => Action::Nothing,
    }
}

/// What a key asks for in the normal mode. `pending` is the first key of a
/// two-key command, where one was pressed before; a second key that
/// completes no command is read as if it came alone.
pub open spec fn spec_normal_action(pending: Option<char>, key: KeyEvent, visible_rows: usize) -> Action {
    if pending == Some('g') && key.code == KeyCode::Char('g') {
        Action::First { mark: true }
    } else if pending == Some('y') && key.code is Char {
        match spec_yank_field(key.code->Char_0) {
            Some(field) => Action::Yank { field, leave_visual: false },
            None => Action::Nothing,
        }
    } else if key.ctrl && key.code == KeyCode::Char('o') {
        Action::JumpBack
    } else if key.ctrl && key.code == KeyCode::Char('u') {
        Action::Move { delta: (-spec_half_page(visible_rows)) as i32, mark: true }
    } else if key.ctrl && key.code == KeyCode::Char('d') {
        Action::Move { delta: spec_half_page(visible_rows), mark: true }
    } else {
        spec_normal_plain(key.code, visible_rows)
    }
}

/// What a key asks for in the visual mode.
pub open spec fn spec_visual_action(pending: Option<char>, key: KeyEvent, visible_rows: usize) -> Action {
    if pending == Some('g') && key.code == KeyCode::Char('g') {
        Action::First { mark: false }
    } else if pending == Some('y') && key.code is Char {
        match spec_yank_field(key.code->Char_0) {
            Some(field) => Action::Yank { field, leave_visual: true },
            None => Action::Nothing,
        }
    } else {
        match key.code {
            KeyCode::Esc => Action::LeaveVisual,
            KeyCode::Up => Action::Move { delta: -1i32, mark: false },
            KeyCode::Down => Action::Move { delta: 1, mark: false },
            KeyCode::PageUp => Action::Move {
                delta: (-spec_page(visible_rows)) as i32,
                mark: false,
            },
            KeyCode::PageDown => Action::Move { delta: spec_page(visible_rows), mark: false },
            KeyCode::F(n) => if n == 9 {
                Action::OpenKillVisual
            } else {
                Action::Nothing
            },
            KeyCode::Char(c) => if c == 'k' {
                Action::Move { delta: -1i32, mark: false }
            } else if c == 'j' {
                Action::Move { delta: 1, mark: false }
            } else if c == 'g' {
                Action::Pending('g')
            } else if c == 'G' {
                Action::Last { mark: false }
            } else if c == 'y' {
                Action::Pending('y')
            } else if c == ' ' {
                Action::TagVisual
            } else if c == 'x' {
                Action::OpenKillVisual
            } else {
                Action::Nothing
            },
            _ => Action::Nothing,
        }
    }
}

/// What a key asks for while a search text is typed.
pub open spec fn spec_filter_action(key: KeyEvent) -> Action {
    match key.code {
        KeyCode::Esc => Action::FilterCancel,
        KeyCode::Enter => Action::FilterAccept,
        KeyCode::Backspace => Action::FilterBackspace,
        KeyCode::Char(c) => Action::FilterType(c),
        _ => Action::Nothing,
    }
}

/// What a key asks for while the help is shown.
pub open spec fn spec_help_action(key: KeyEvent) -> Action {
    if key.code == KeyCode::Esc || key.code == KeyCode::F(1) || key.code == KeyCode::Char('q')
        || key.code == KeyCode::Char('?') {
        Action::EnterMode(AppMode::Normal)
    } else {
        Action::Nothing
    }
}

/// What a key asks for in the kill dialog.
pub open spec fn spec_kill_action(key: KeyEvent) -> Action {
    match key.code {
        KeyCode::Esc => Action::KillCancel,
        KeyCode::Up => Action::KillUp,
        KeyCode::Down => Action::KillDown,
        KeyCode::Left => Action::KillScrollLeft,
        KeyCode::Right => Action::KillScrollRight,
        KeyCode::Enter => Action::KillConfirm,
        KeyCode::Char(c) => if c == 'k' {
            Action::KillUp
        } else if c == 'j' {
            Action::KillDown
        } else if c == 'h' {
            Action::KillScrollLeft
        } else if c == 'l' {
            Action::KillScrollRight
        } else {
            Action::Nothing
        },
        _ => Action::Nothing,
    }
}

/// What a key asks for while the sort column is chosen.
pub open spec fn spec_sort_action(key: KeyEvent) -> Action {
    match key.code {
        KeyCode::Esc => Action::EnterMode(AppMode::Normal),
        KeyCode::Enter => Action::EnterMode(AppMode::Normal),
        KeyCode::Up => Action::SortPrev,
        KeyCode::Down => Action::SortNext,
        KeyCode::Char(c) => if c == 'k' {
            Action::SortPrev
        } else if c == 'j' {
            Action::SortNext
        } else {
            Action::Nothing
        },
        _ => Action::Nothing,
    }
}

/// What a key asks for in a mode.
pub open spec fn spec_action(mode: AppMode, pending: Option<char>, key: KeyEvent, visible_rows: usize) -> Action {
    match mode {
        AppMode::Normal => spec_normal_action(pending, key, visible_rows),
        AppMode::Visual => spec_visual_action(pending, key, visible_rows),
        AppMode::Search => spec_filter_action(key),
        AppMode::Filter => spec_filter_action(key),
        AppMode::Help => spec_help_action(key),
        AppMode::Kill => spec_kill_action(key),
        AppMode::SortSelect => spec_sort_action(key),
    }
}

fn page(visible_rows: usize) -> (d: i32)
    ensures
        d == spec_page(visible_rows),
        d >= 0,
{
    if visible_rows <= i32::MAX as usize {
        visible_rows as i32
    } else {
        i32::MAX
    }
}

fn yank_field(c: char) -> (f: Option<YankField>)
    ensures
        f == spec_yank_field(c),
{
    match c {
        'y' => Some(YankField::Row),
        'p' => Some(YankField::Pid),
        'u' => Some(YankField::User),
        'c' => Some(YankField::Container),
        'n' => Some(YankField::Name),
        'l' => Some(YankField::Cmdline),
        'g' => Some(YankField::GpuPercent),
        'v' => Some(YankField::GpuMem),
        _ => None,
    }
}

fn normal_plain(code: KeyCode, visible_rows: usize) -> (a: Action)
    ensures
        a == spec_normal_plain(code, visible_rows),
{
    match code {
        KeyCode::F(10) => Action::Quit,
        KeyCode::F(1) => Action::EnterMode(AppMode::Help),
        KeyCode::F(3) => Action::StartFilter(AppMode::Search),
        KeyCode::F(4) => Action::StartFilter(AppMode::Filter),
        KeyCode::F(5) => Action::ToggleTree,
        KeyCode::F(6) => Action::EnterMode(AppMode::SortSelect),
        KeyCode::F(9) => Action::OpenKill,
        KeyCode::Char('q') => Action::Quit,
        KeyCode::Char('?') => Action::EnterMode(AppMode::Help),
        KeyCode::Char('/') => Action::StartFilter(AppMode::Search),
        KeyCode::Char('\\') => Action::StartFilter(AppMode::Filter),
        KeyCode::Char('t') => Action::ToggleTree,
        KeyCode::Char('>') | KeyCode::Char('<') => Action::EnterMode(AppMode::SortSelect),
        KeyCode::Char('x') => Action::OpenKill,
        KeyCode::Up | KeyCode::Char('k') => Action::Move { delta: -1i32, mark: false },
        KeyCode::Down | KeyCode::Char('j') => Action::Move { delta: 1, mark: false },
        KeyCode::Home => Action::First { mark: true },
        KeyCode::End | KeyCode::Char('G') => Action::Last { mark: true },
        KeyCode::PageUp => Action::Move { delta: -page(visible_rows), mark: true },
        KeyCode::PageDown => Action::Move { delta: page(visible_rows), mark: true },
        KeyCode::Char('g') => Action::Pending('g'),
        KeyCode::Char('y') => Action::Pending('y'),
        KeyCode::Tab => Action::JumpForward,
        KeyCode::Char('V') => Action::StartVisual,
        KeyCode::Char(' ') => Action::ToggleTag,
        KeyCode::Char('u') => Action::CycleUser,
        KeyCode::Char('H') => Action::ToggleThreads,
        KeyCode::Char('K') => Action::ToggleKernelThreads,
        KeyCode::Char('P') => Action::SortBy(SortColumn::CpuPercent),
        KeyCode::Char('M') => Action::SortBy(SortColumn::MemPercent),
        KeyCode::Char('T') => Action::SortBy(SortColumn::Time),
        KeyCode::Char('I') => Action::InvertSort,
        KeyCode::Char('+') | KeyCode::Char('=') => Action::Expand,
        KeyCode::Char('-') => Action::Collapse,
        _ => Action::Nothing,
    }
}

/// Reads a key in the normal mode.
pub fn normal_action(pending: Option<char>, key: KeyEvent, visible_rows: usize) -> (a: Action)
    ensures
        a == spec_normal_action(pending, key, visible_rows),
{
    match (pending, key.code) {
        (Some('g'), KeyCode::Char('g')) => {
            return Action::First { mark: true };
        },
        (Some('y'), KeyCode::Char(c)) => {
            return match yank_field(c) {
                Some(field) => Action::Yank { field, leave_visual: false },
                None => Action::Nothing,
            };
        },
        _ => {},
    }
    if key.ctrl {
        match key.code {
            KeyCode::Char('o') => {
                return Action::JumpBack;
            },
            KeyCode::Char('u') => {
                return Action::Move { delta: -page(visible_rows / 2), mark: true };
            },
            KeyCode::Char('d') => {
                return Action::Move { delta: page(visible_rows / 2), mark: true };
            },
            _ => {},
        }
    }
    normal_plain(key.code, visible_rows)
}

/// Reads a key in the visual mode.
pub fn visual_action(pending: Option<char>, key: KeyEvent, visible_rows: usize) -> (a: Action)
    ensures
        a == spec_visual_action(pending, key, visible_rows),
{
    match (pending, key.code) {
        (Some('g'), KeyCode::Char('g')) => {
            return Action::First { mark: false };
        },
        (Some('y'), KeyCode::Char(c)) => {
            return match yank_field(c) {
                Some(field) => Action::Yank { field, leave_visual: true },
                None => Action::Nothing,
            };
        },
        _ => {},
    }
    match key.code {
        KeyCode::Esc => Action::LeaveVisual,
        KeyCode::Up | KeyCode::Char('k') => Action::Move { delta: -1i32, mark: false },
        KeyCode::Down | KeyCode::Char('j') => Action::Move { delta: 1, mark: false },
        KeyCode::Char('g') => Action::Pending('g'),
        KeyCode::Char('G') => Action::Last { mark: false },
        KeyCode::PageUp => Action::Move { delta: -page(visible_rows), mark: false },
        KeyCode::PageDown => Action::Move { delta: page(visible_rows), mark: false },
        KeyCode::Char('y') => Action::Pending('y'),
        KeyCode::Char(' ') => Action::TagVisual,
        KeyCode::F(9) | KeyCode::Char('x') => Action::OpenKillVisual,
        _ => Action::Nothing,
    }
}

/// Reads a key while a search text is typed.
pub fn filter_action(key: KeyEvent) -> (a: Action)
    ensures
        a == spec_filter_action(key),
{
    match key.code {
        KeyCode::Esc => Action::FilterCancel,
        KeyCode::Enter => Action::FilterAccept,
        KeyCode::Backspace => Action::FilterBackspace,
        KeyCode::Char(c) => Action::FilterType(c),
        _ => Action::Nothing,
    }
}

/// Reads a key while the help is shown.
pub fn help_action(key: KeyEvent) -> (a: Action)
    ensures
        a == spec_help_action(key),
{
    match key.code {
        KeyCode::Esc | KeyCode::F(1) | KeyCode::Char('q') | KeyCode::Char('?') => Action::EnterMode(
            AppMode::Normal,
        ),
        _ => Action::Nothing,
    }
}

/// Reads a key in the kill dialog.
pub fn kill_action(key: KeyEvent) -> (a: Action)
    ensures
        a == spec_kill_action(key),
{
    match key.code {
        KeyCode::Esc => Action::KillCancel,
        KeyCode::Up | KeyCode::Char('k') => Action::KillUp,
        KeyCode::Down | KeyCode::Char('j') => Action::KillDown,
        KeyCode::Left | KeyCode::Char('h') => Action::KillScrollLeft,
        KeyCode::Right | KeyCode::Char('l') => Action::KillScrollRight,
        KeyCode::Enter => Action::KillConfirm,
        _ => Action::Nothing,
    }
}

/// Reads a key while the sort column is chosen.
pub fn sort_action(key: KeyEvent) -> (a: Action)
    ensures
        a == spec_sort_action(key),
{
    match key.code {
        KeyCode::Esc | KeyCode::Enter => Action::EnterMode(AppMode::Normal),
        KeyCode::Up | KeyCode::Char('k') => Action::SortPrev,
        KeyCode::Down | KeyCode::Char('j') => Action::SortNext,
        _ => Action::Nothing,
    }
}

/// Reads a key in a mode.
pub fn action_of(mode: AppMode, pending: Option<char>, key: KeyEvent, visible_rows: usize) -> (a:
    Action)
    ensures
        a == spec_action(mode, pending, key, visible_rows),
{
    match mode {
        AppMode::Normal => normal_action(pending, key, visible_rows),
        AppMode::Visual => visual_action(pending, key, visible_rows),
        AppMode::Search | AppMode::Filter => filter_action(key),
        AppMode::Help => help_action(key),
        AppMode::Kill => kill_action(key),
        AppMode::SortSelect => sort_action(key),
    }
}

/// The state with the place under the cursor marked in the jump list, where
/// asked.
pub open spec fn spec_marked_if(v: AppView, mark: bool) -> AppView {
    if mark {
        spec_after_mark(v)
    } else {
        v
    }
}

/// The state with the cursor on the last row.
pub open spec fn spec_after_last(v: AppView) -> AppView {
    spec_selected(
        v,
        if v.filtered.len() > 0 {
            (v.filtered.len() - 1) as usize
        } else {
            v.selected
        },
    )
}

/// A text without its last character.
pub open spec fn spec_without_last(q: Seq<char>) -> Seq<char> {
    if q.len() > 0 {
        q.subrange(0, q.len() - 1)
    } else {
        q
    }
}

/// Position of a column in the order in which the columns are shown.
pub open spec fn spec_column_index(col: SortColumn) -> int {
    match col {
        SortColumn::Pid => 0,
        SortColumn::User => 1,
        SortColumn::Priority => 2,
        SortColumn::Nice => 3,
        SortColumn::Virt => 4,
        SortColumn::Res => 5,
        SortColumn::Shr => 6,
        SortColumn::State => 7,
        SortColumn::CpuPercent => 8,
        SortColumn::MemPercent => 9,
        SortColumn::GpuPercent => 10,
        SortColumn::GpuMem => 11,
        SortColumn::Time => 12,
        SortColumn::Container => 13,
        SortColumn::Command => 14,
    }
}

/// The state with every tag taken away.
pub open spec fn spec_all_untagged(v: AppView) -> AppView {
    AppView { all: spec_untagged(v.all), filtered: spec_untagged(v.filtered), ..v }
}

/// Whether a reaction hands what a yank of `field` copies in the state `v` to
/// the clipboard.
pub open spec fn spec_copies(v: AppView, field: YankField, r: Reaction) -> bool {
    match r {
        Reaction::Copy(y) => spec_is_yank(v, field, Some(y)),
        Reaction::Continue => spec_is_yank(v, field, None),
        _ => false,
    }
}

/// Whether a reaction sends the signal chosen in the kill dialog: to the
/// processes that the state names, or to none where the platform knows no
/// such signal.
pub open spec fn spec_signals(v: AppView, r: Reaction) -> bool {
    if v.kill_signal_idx < SIGNAL_COUNT {
        r matches Reaction::Signal(plan) && plan.signal == spec_signal_numbers()[v.kill_signal_idx as int]
            && (plan.pids@ == spec_signal_targets(v) || plan.pids@ == Seq::<u32>::empty())
    } else {
        r is Continue
    }
}

/// Whether an action, carried out in the state `b`, leads to the state `f`
/// and the reaction `r`.
pub open spec fn spec_acts(b: AppView, a: Action, f: AppView, r: Reaction) -> bool {
    match a {
        Action::Nothing => f == b && r is Continue,
        Action::Quit => f == b && r is Quit,
        Action::Pending(c) => f == (AppView { pending_key: Some(c), ..b }) && r is Continue,
        Action::Move { delta, mark } => f == spec_after_move(spec_marked_if(b, mark), delta)
            && r is Continue,
        Action::First { mark } => f == spec_selected(spec_marked_if(b, mark), 0) && r is Continue,
        Action::Last { mark } => f == spec_after_last(spec_marked_if(b, mark)) && r is Continue,
        Action::JumpBack => f == spec_after_jump_back(b) && r is Continue,
        Action::JumpForward => f == spec_after_jump_forward(b) && r is Continue,
        Action::Yank { field, leave_visual } => spec_copies(b, field, r) && f == if leave_visual {
            AppView { visual_anchor: None, mode: AppMode::Normal, ..b }
        } else {
            b
        },
        Action::EnterMode(mode) => f == (AppView { mode, ..b }) && r is Continue,
        Action::StartFilter(mode) => f == (AppView { mode, filter_query: Seq::empty(), ..b })
            && r is Continue,
        Action::ToggleTree => spec_reshown(AppView { tree_view: !b.tree_view, ..b }, f)
            && r is Continue,
        Action::ToggleThreads => spec_reshown(AppView { show_threads: !b.show_threads, ..b }, f)
            && r is Continue,
        Action::ToggleKernelThreads => spec_reshown(
            AppView { show_kernel_threads: !b.show_kernel_threads, ..b },
            f,
        ) && r is Continue,
        Action::SortBy(col) => spec_reshown(
            AppView { sort_column: col, sort_ascending: false, ..b },
            f,
        ) && r is Continue,
        Action::InvertSort => spec_reshown(AppView { sort_ascending: !b.sort_ascending, ..b }, f)
            && r is Continue,
        Action::OpenKill => r is Continue && f == if b.filtered.len() > 0 {
            AppView {
                kill_signal_idx: 0,
                kill_pid_scroll: 0,
                pre_kill_mode: AppMode::Normal,
                mode: AppMode::Kill,
                ..b
            }
        } else {
            b
        },
        Action::OpenKillVisual => r is Continue && f == (AppView {
            kill_signal_idx: 0,
            pre_kill_mode: AppMode::Visual,
            mode: AppMode::Kill,
            ..spec_after_tag_visual(b)
        }),
        Action::StartVisual => r is Continue && f == (AppView {
            visual_anchor: Some(b.selected),
            mode: AppMode::Visual,
            ..b
        }),
        Action::LeaveVisual => r is Continue && f == (AppView {
            visual_anchor: None,
            mode: AppMode::Normal,
            ..b
        }),
        Action::ToggleTag => r is Continue && f == spec_after_toggle_tag(b),
        Action::TagVisual => r is Continue && f == (AppView {
            visual_anchor: None,
            mode: AppMode::Normal,
            ..spec_after_tag_visual(b)
        }),
        Action::CycleUser => r is Continue && spec_reshown(spec_user_cycled(b), f),
        Action::Expand => r is Continue && if b.tree_view {
            spec_expands(b, f)
        } else {
            f == b
        },
        Action::Collapse => r is Continue && if b.tree_view {
            spec_collapses(b, f)
        } else {
            f == b
        },
        Action::FilterCancel => r is Continue && spec_reshown(
            AppView {
                mode: AppMode::Normal,
                filter_query: Seq::empty(),
                active_filter: Seq::empty(),
                ..b
            },
            f,
        ),
        Action::FilterAccept => r is Continue && spec_reshown(
            AppView {
                mode: AppMode::Normal,
                active_filter: b.filter_query,
                ..spec_after_mark(b)
            },
            f,
        ),
        Action::FilterBackspace => r is Continue && spec_reshown(
            AppView {
                filter_query: spec_without_last(b.filter_query),
                active_filter: spec_without_last(b.filter_query),
                ..b
            },
            f,
        ),
        Action::FilterType(c) => r is Continue && spec_reshown(
            AppView {
                filter_query: b.filter_query.push(c),
                active_filter: b.filter_query.push(c),
                ..b
            },
            f,
        ),
        Action::KillCancel => r is Continue && f == (AppView {
            mode: b.pre_kill_mode,
            ..spec_all_untagged(b)
        }),
        Action::KillUp => r is Continue && f == (AppView {
            kill_signal_idx: if b.kill_signal_idx > 0 {
                (b.kill_signal_idx - 1) as usize
            } else {
                b.kill_signal_idx
            },
            ..b
        }),
        Action::KillDown => r is Continue && f == (AppView {
            kill_signal_idx: if b.kill_signal_idx + 1 < SIGNAL_COUNT {
                (b.kill_signal_idx + 1) as usize
            } else {
                b.kill_signal_idx
            },
            ..b
        }),
        Action::KillScrollLeft => r is Continue && f == (AppView {
            kill_pid_scroll: if b.kill_pid_scroll > 0 {
                (b.kill_pid_scroll - 1) as usize
            } else {
                b.kill_pid_scroll
            },
            ..b
        }),
        Action::KillScrollRight => r is Continue && f == (AppView {
            kill_pid_scroll: if b.kill_pid_scroll < usize::MAX {
                (b.kill_pid_scroll + 1) as usize
            } else {
                b.kill_pid_scroll
            },
            ..b
        }),
        Action::KillConfirm => spec_signals(b, r) && f == (AppView {
            visual_anchor: None,
            mode: AppMode::Normal,
            ..spec_all_untagged(b)
        }),
        Action::SortPrev => r is Continue && if spec_column_index(b.sort_column) > 0 {
            spec_reshown(
                AppView {
                    sort_column: SortColumn::spec_all()[spec_column_index(b.sort_column) - 1],
                    ..b
                },
                f,
            )
        } else {
            f == b
        },
        Action::SortNext => r is Continue && if spec_column_index(b.sort_column) < 14 {
            spec_reshown(
                AppView {
                    sort_column: SortColumn::spec_all()[spec_column_index(b.sort_column) + 1],
                    ..b
                },
                f,
            )
        } else {
            f == b
        },
    }
}

fn column_index(col: SortColumn) -> (i: usize)
    ensures
        i == spec_column_index(col),
        i < 15,
        SortColumn::spec_all()[i as int] == col,
{
    match col {
        SortColumn::Pid => 0,
        SortColumn::User => 1,
        SortColumn::Priority => 2,
        SortColumn::Nice => 3,
        SortColumn::Virt => 4,
        SortColumn::Res => 5,
        SortColumn::Shr => 6,
        SortColumn::State => 7,
        SortColumn::CpuPercent => 8,
        SortColumn::MemPercent => 9,
        SortColumn::GpuPercent => 10,
        SortColumn::GpuMem => 11,
        SortColumn::Time => 12,
        SortColumn::Container => 13,
        SortColumn::Command => 14,
    }
}

fn without_last(q: &String) -> (s: String)
    ensures
        s@ == spec_without_last(q@),
{
    let chars = chars_of(q.as_str());
    if chars.len() > 0 {
        string_of(vstd::slice::slice_subrange(chars.as_slice(), 0, chars.len() - 1))
    } else {
        q.clone()
    }
}

impl App {
    fn mark_if(&mut self, mark: bool)
        ensures
            final(self)@ == spec_marked_if(old(self)@, mark),
    {
        if mark {
            self.push_jump_mark();
        }
    }

    /// Carries out what moves the cursor.
    fn perform_motion(&mut self, action: Action) -> (r: Reaction)
        requires
            action is Nothing || action is Quit || action is Pending || action is Move
                || action is First || action is Last || action is JumpBack
                || action is JumpForward || action is Yank,
        ensures
            spec_acts(old(self)@, action, final(self)@, r),
    {
        match action {
            Action::Quit => Reaction::Quit,
            Action::Pending(c) => {
                self.pending_key = Some(c);
                Reaction::Continue
            },
            Action::Move { delta, mark } => {
                self.mark_if(mark);
                self.move_selection(delta);
                Reaction::Continue
            },
            Action::First { mark } => {
                self.mark_if(mark);
                self.select_first();
                Reaction::Continue
            },
            Action::Last { mark } => {
                self.mark_if(mark);
                self.select_last();
                Reaction::Continue
            },
            Action::JumpBack => {
                self.jump_back();
                Reaction::Continue
            },
            Action::JumpForward => {
                self.jump_forward();
                Reaction::Continue
            },
            Action::Yank { field, leave_visual } => {
                let y = self.yank(field);
                if leave_visual {
                    self.visual_anchor = None;
                    self.mode = AppMode::Normal;
                }
                match y {
                    Some(out) => Reaction::Copy(out),
                    None => Reaction::Continue,
                }
            },
            _ => Reaction::Continue,
        }
    }

    /// Carries out what changes which rows are shown and how.
    fn perform_view(&mut self, action: Action) -> (r: Reaction)
        requires
            action is EnterMode || action is StartFilter || action is ToggleTree
                || action is ToggleThreads || action is ToggleKernelThreads || action is SortBy
                || action is InvertSort || action is CycleUser || action is Expand
                || action is Collapse || action is SortPrev || action is SortNext,
        ensures
            spec_acts(old(self)@, action, final(self)@, r),
    {
        match action {
            Action::EnterMode(mode) => {
                self.mode = mode;
            },
            Action::StartFilter(mode) => {
                self.mode = mode;
                self.filter_query = String::new();
            },
            Action::ToggleTree => {
                self.tree_view = !self.tree_view;
                self.update_filtered_processes();
            },
            Action::ToggleThreads => {
                self.show_threads = !self.show_threads;
                self.update_filtered_processes();
            },
            Action::ToggleKernelThreads => {
                self.show_kernel_threads = !self.show_kernel_threads;
                self.update_filtered_processes();
            },
            Action::SortBy(col) => {
                self.sort_column = col;
                self.sort_ascending = false;
                self.update_filtered_processes();
            },
            Action::InvertSort => {
                self.sort_ascending = !self.sort_ascending;
                self.update_filtered_processes();
            },
            Action::CycleUser => {
                self.cycle_user_filter();
            },
            Action::Expand => {
                if self.tree_view {
                    self.expand_tree_node();
                }
            },
            Action::Collapse => {
                if self.tree_view {
                    self.collapse_tree_node();
                }
            },
            Action::SortPrev => {
                let pos = column_index(self.sort_column);
                if pos > 0 {
                    let cols = SortColumn::all();
                    self.sort_column = cols[pos - 1];
                    self.update_filtered_processes();
                }
            },
            Action::SortNext => {
                let pos = column_index(self.sort_column);
                if pos < 14 {
                    let cols = SortColumn::all();
                    self.sort_column = cols[pos + 1];
                    self.update_filtered_processes();
                }
            },
            _ => {},
        }
        Reaction::Continue
    }

    /// Carries out what the input bar asks for.
    fn perform_filter(&mut self, action: Action) -> (r: Reaction)
        requires
            action is FilterCancel || action is FilterAccept || action is FilterBackspace
                || action is FilterType,
        ensures
            spec_acts(old(self)@, action, final(self)@, r),
    {
        match action {
            Action::FilterCancel => {
                self.mode = AppMode::Normal;
                self.filter_query = String::new();
                self.active_filter = String::new();
            },
            Action::FilterAccept => {
                self.push_jump_mark();
                self.active_filter = self.filter_query.clone();
                self.mode = AppMode::Normal;
            },
            Action::FilterBackspace => {
                let q = without_last(&self.filter_query);
                self.active_filter = q.clone();
                self.filter_query = q;
            },
            Action::FilterType(c) => {
                self.filter_query.push(c);
                self.active_filter = self.filter_query.clone();
            },
            _ => {},
        }
        self.update_filtered_processes();
        Reaction::Continue
    }

    /// Carries out what concerns tags, the visual selection and the kill
    /// dialog.
    fn perform_selection(&mut self, action: Action) -> (r: Reaction)
        requires
            action is OpenKill || action is OpenKillVisual || action is StartVisual
                || action is LeaveVisual || action is ToggleTag || action is TagVisual
                || action is KillCancel || action is KillUp || action is KillDown
                || action is KillScrollLeft || action is KillScrollRight
                || action is KillConfirm,
        ensures
            spec_acts(old(self)@, action, final(self)@, r),
    {
        match action {
            Action::OpenKill => {
                if self.filtered_processes.len() > 0 {
                    self.kill_signal_idx = 0;
                    self.kill_pid_scroll = 0;
                    self.pre_kill_mode = AppMode::Normal;
                    self.mode = AppMode::Kill;
                }
            },
            Action::OpenKillVisual => {
                self.tag_visual_range();
                self.kill_signal_idx = 0;
                self.pre_kill_mode = AppMode::Visual;
                self.mode = AppMode::Kill;
            },
            Action::StartVisual => {
                self.visual_anchor = Some(self.selected);
                self.mode = AppMode::Visual;
            },
            Action::LeaveVisual => {
                self.visual_anchor = None;
                self.mode = AppMode::Normal;
            },
            Action::ToggleTag => {
                self.toggle_tag();
            },
            Action::TagVisual => {
                self.tag_visual_range();
                self.visual_anchor = None;
                self.mode = AppMode::Normal;
            },
            Action::KillCancel => {
                self.untag_all();
                self.mode = self.pre_kill_mode;
            },
            Action::KillUp => {
                if self.kill_signal_idx > 0 {
                    self.kill_signal_idx = self.kill_signal_idx - 1;
                }
            },
            Action::KillDown => {
                if self.kill_signal_idx < SIGNAL_COUNT - 1 {
                    self.kill_signal_idx = self.kill_signal_idx + 1;
                }
            },
            Action::KillScrollLeft => {
                if self.kill_pid_scroll > 0 {
                    self.kill_pid_scroll = self.kill_pid_scroll - 1;
                }
            },
            Action::KillScrollRight => {
                if self.kill_pid_scroll < usize::MAX {
                    self.kill_pid_scroll = self.kill_pid_scroll + 1;
                }
            },
            Action::KillConfirm => {
                let signals = signal_list();
                let r = if self.kill_signal_idx < signals.len() {
                    let number = signals[self.kill_signal_idx].0;
                    Reaction::Signal(self.send_signal(number))
                } else {
                    Reaction::Continue
                };
                self.untag_all();
                self.visual_anchor = None;
                self.mode = AppMode::Normal;
                return r;
            },
            _ => {},
        }
        Reaction::Continue
    }

    /// Carries out an action.
    pub fn perform(&mut self, action: Action) -> (r: Reaction)
        ensures
            spec_acts(old(self)@, action, final(self)@, r),
    {
        match action {
            Action::Nothing | Action::Quit | Action::Pending(_) | Action::Move { .. } | Action::First {
                ..
            } | Action::Last { .. } | Action::JumpBack | Action::JumpForward | Action::Yank {
                ..
            } => self.perform_motion(action),
            Action::EnterMode(_) | Action::StartFilter(_) | Action::ToggleTree
            | Action::ToggleThreads | Action::ToggleKernelThreads | Action::SortBy(_)
            | Action::InvertSort | Action::CycleUser | Action::Expand | Action::Collapse
            | Action::SortPrev | Action::SortNext => self.perform_view(action),
            Action::FilterCancel | Action::FilterAccept | Action::FilterBackspace
            | Action::FilterType(_) => self.perform_filter(action),
            Action::OpenKill | Action::OpenKillVisual | Action::StartVisual | Action::LeaveVisual
            | Action::ToggleTag | Action::TagVisual | Action::KillCancel | Action::KillUp
            | Action::KillDown | Action::KillScrollLeft | Action::KillScrollRight
            | Action::KillConfirm => self.perform_selection(action),
        }
    }
}

/// The state that a key is read in: in the normal and the visual mode the
/// first key of a two-key command is used up by every key.
pub open spec fn spec_key_state(v: AppView) -> AppView {
    if v.mode == AppMode::Normal || v.mode == AppMode::Visual {
        AppView { pending_key: None, ..v }
    } else {
        v
    }
}

/// The row of the table that a click on a row of the screen lands on.
pub open spec fn spec_clicked_row(v: AppView, screen_row: u16) -> Option<usize> {
    let first = v.header_height + 1;
    if screen_row >= first && screen_row - first + v.scroll_offset < v.filtered.len() {
        Some((screen_row - first + v.scroll_offset) as usize)
    } else {
        None
    }
}

/// The state after a mouse event: the wheel moves the cursor by three rows,
/// a click puts it on the row that was clicked.
pub open spec fn spec_after_mouse(v: AppView, mouse: MouseEvent) -> AppView {
    match mouse.kind {
        MouseEventKind::ScrollUp => spec_after_move(v, -3i32),
        MouseEventKind::ScrollDown => spec_after_move(v, 3),
        MouseEventKind::Down => match spec_clicked_row(v, mouse.row) {
            Some(row) => AppView { selected: row, ..v },
            None => v,
        },
        MouseEventKind::Other => v,
    }
}

/// Whether an event, handled in the state `b`, leads to the state `f` and
/// the reaction `r`. Control-C quits in every mode.
pub open spec fn spec_handles(b: AppView, event: Event, f: AppView, r: Reaction) -> bool {
    match event {
        Event::Key(key) => if key.ctrl && key.code == KeyCode::Char('c') {
            f == b && r is Quit
        } else {
            spec_acts(
                spec_key_state(b),
                spec_action(b.mode, b.pending_key, key, b.visible_rows),
                f,
                r,
            )
        },
        Event::Mouse(mouse) => f == spec_after_mouse(b, mouse) && r is Continue,
        _ => f == b && r is Continue,
    }
}

/// Handles a key press.
pub fn handle_key(app: &mut App, key: KeyEvent) -> (r: Reaction)
    ensures
        spec_handles(old(app)@, Event::Key(key), final(app)@, r),
{
    if key.ctrl {
        match key.code {
            KeyCode::Char('c') => {
                return Reaction::Quit;
            },
            _ => {},
        }
    }
    let action = action_of(app.mode, app.pending_key, key, app.visible_rows);
    match app.mode {
        AppMode::Normal | AppMode::Visual => {
            app.pending_key = None;
        },
        _ => {},
    }
    app.perform(action)
}

/// Handles a mouse event.
pub fn handle_mouse(app: &mut App, mouse: MouseEvent)
    ensures
        final(app)@ == spec_after_mouse(old(app)@, mouse),
{
    match mouse.kind {
        MouseEventKind::ScrollUp => app.move_selection(-3),
        MouseEventKind::ScrollDown => app.move_selection(3),
        MouseEventKind::Down => {
            let first: u32 = app.header_height as u32 + 1;
            let screen_row: u32 = mouse.row as u32;
            if screen_row >= first {
                let offset: usize = (screen_row - first) as usize;
                if offset < app.filtered_processes.len() && app.scroll_offset
                    < app.filtered_processes.len() - offset {
                    app.selected = offset + app.scroll_offset;
                }
            }
        },
        MouseEventKind::Other => {},
    }
}

/// Handles what the terminal reports, and says what the caller has to do.
pub fn handle_event(app: &mut App, event: Event) -> (r: Reaction)
    ensures
        spec_handles(old(app)@, event, final(app)@, r),
{
    match event {
        Event::Key(key) => handle_key(app, key),
        Event::Mouse(mouse) => {
            handle_mouse(app, mouse);
            Reaction::Continue
        },
        _ => Reaction::Continue,
    }
}

} // verus!
