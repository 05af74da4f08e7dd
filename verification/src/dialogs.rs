//! What the dialogs offer.

use vstd::prelude::*;

verus! {

/// Which prompt the input bar shows.
#[derive(Debug, Clone, Copy, PartialEq, Eq, Structural)]
pub enum FilterMode {
    /// Moves the selection to the matching process.
    Search,
    /// Hides the processes that do not match.
    Filter,
}

/// Signal numbers offered by the kill dialog, in menu order.
pub open spec fn spec_signal_numbers() -> Seq<i32> {
    seq![15, 9, 1, 2, 3, 6, 10, 12, 18, 19]
}

/// Name shown for an offered signal number.
pub open spec fn spec_signal_name(num: i32) -> Seq<char> {
    if num == 15 {
        "SIGTERM"@
    } else if num == 9 {
        "SIGKILL"@
    } else if num == 1 {
        "SIGHUP"@
    } else if num == 2 {
        "SIGINT"@
    } else if num == 3 {
        "SIGQUIT"@
    } else if num == 6 {
        "SIGABRT"@
    } else if num == 10 {
        "SIGUSR1"@
    } else if num == 12 {
        "SIGUSR2"@
    } else if num == 18 {
        "SIGCONT"@
    } else {
        "SIGSTOP"@
    }
}

/// Number of entries in the kill dialog.
pub const SIGNAL_COUNT: usize = 10;

/// The signals offered by the kill dialog, each with its name.
pub fn signal_list() -> (list: Vec<(i32, &'static str)>)
    ensures
        list@.len() == SIGNAL_COUNT,
        forall|i: int|
            0 <= i < list@.len() ==> (#[trigger] list@[i]).0 == spec_signal_numbers()[i]
                && list@[i].1@ == spec_signal_name(list@[i].0),
{
    let mut list: Vec<(i32, &'static str)> = Vec::new();
    list.push((15, "SIGTERM"));
    list.push((9, "SIGKILL"));
    list.push((1, "SIGHUP"));
    list.push((2, "SIGINT"));
    list.push((3, "SIGQUIT"));
    list.push((6, "SIGABRT"));
    list.push((10, "SIGUSR1"));
    list.push((12, "SIGUSR2"));
    list.push((18, "SIGCONT"));
    list.push((19, "SIGSTOP"));
    list
}

/// The part of a list that a dialog shows.
#[derive(Debug, Clone, Copy, PartialEq, Eq, Structural)]
pub struct ListWindow {
    /// Position of the first entry shown.
    pub first: usize,
    /// Number of entries shown.
    pub count: usize,
    /// Whether a line says which part is shown, because not all is.
    pub indicator: bool,
}

/// The part of a list of `len` entries that is shown in `height` lines,
/// scrolled by `scroll`: all of it where it fits; else one line is kept for
/// the indicator, and the scroll position is held so that the lines stay
/// filled.
pub open spec fn spec_list_window(len: usize, height: usize, scroll: usize) -> ListWindow {
    let visible: int = if len > height {
        if height > 0 {
            height - 1
        } else {
            0
        }
    } else {
        height as int
    };
    let last_start: int = if len > visible {
        len - visible
    } else {
        0
    };
    let first: int = if scroll < last_start {
        scroll as int
    } else {
        last_start
    };
    ListWindow {
        first: first as usize,
        count: (if len - first < visible {
            len - first
        } else {
            visible
        }) as usize,
        indicator: len > visible,
    }
}

/// The part of a list that is shown.
pub fn list_window(len: usize, height: usize, scroll: usize) -> (w: ListWindow)
    ensures
        w == spec_list_window(len, height, scroll),
        w.first + w.count <= len,
{
    let visible: usize = if len > height {
        if height > 0 {
            height - 1
        } else {
            0
        }
    } else {
        height
    };
    let last_start: usize = if len > visible {
        len - visible
    } else {
        0
    };
    let first: usize = if scroll < last_start {
        scroll
    } else {
        last_start
    };
    let count: usize = if len - first < visible {
        len - first
    } else {
        visible
    };
    ListWindow { first, count, indicator: len > visible }
}

} // verus!
