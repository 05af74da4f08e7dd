//! What goes to the clipboard, and what the status bar says about it.

use vstd::prelude::*;
use crate::app::{App, AppView};
use crate::actions::spec_visual_range;
use crate::process::{
    format_bytes, format_time, push_one_decimal, spec_format_bytes, spec_format_time,
    spec_one_decimal, spec_rows, ProcessInfo, ProcessRow, YankField,
};
use crate::text::{
    decimal, push_decimal, round_half_even, spec_decimal, spec_round_half_even,
};

verus! {

/// A share in thousandths of a percent, as shown: in percent with one
/// decimal place, rounded to nearest.
pub open spec fn spec_share_text(millis: u64) -> Seq<char> {
    spec_one_decimal(spec_round_half_even(millis as nat, 100))
}

/// A share as shown.
pub fn share_text(millis: u64) -> (s: String)
    ensures
        s@ == spec_share_text(millis),
{
    let tenths = round_half_even(millis as u128, 100);
    assert(tenths <= millis) by (nonlinear_arith)
        requires
            tenths == spec_round_half_even(millis as nat, 100),
    {
    }
    let mut s = String::new();
    push_one_decimal(&mut s, tenths as u64);
    assert(s@ =~= spec_share_text(millis));
    s
}

/// What is copied of a row for a field.
pub open spec fn spec_yank_text(row: ProcessRow, field: YankField) -> Seq<char> {
    match field {
        YankField::Row => spec_decimal(row.pid as nat) + seq!['\t'] + row.user + seq!['\t']
            + spec_share_text(row.cpu_percent) + seq!['\t'] + spec_share_text(row.mem_percent)
            + seq!['\t'] + spec_share_text(row.gpu_percent) + seq!['\t'] + spec_format_bytes(
            row.gpu_mem_bytes,
        ) + seq!['\t'] + spec_format_time(row.cpu_time_centis) + seq!['\t'] + row.cmdline,
        YankField::Pid => spec_decimal(row.pid as nat),
        YankField::User => row.user,
        YankField::Container => match row.container {
            Some(c) => c,
            None => seq!['-'],
        },
        YankField::Name => row.comm,
        YankField::Cmdline => row.cmdline,
        YankField::GpuPercent => spec_share_text(row.gpu_percent),
        YankField::GpuMem => spec_format_bytes(row.gpu_mem_bytes),
    }
}

impl ProcessInfo {
    /// The text that is copied of this row for a field.
    pub fn yank_text(&self, field: YankField) -> (s: String)
        ensures
            s@ == spec_yank_text(self@, field),
    {
        match field {
            YankField::Row => {
                let mut s = String::new();
                push_decimal(&mut s, self.pid as u64);
                s.push('\t');
                s.append(self.user.as_str());
                s.push('\t');
                s.append(share_text(self.cpu_percent).as_str());
                s.push('\t');
                s.append(share_text(self.mem_percent).as_str());
                s.push('\t');
                s.append(share_text(self.gpu_percent).as_str());
                s.push('\t');
                s.append(format_bytes(self.gpu_mem_bytes).as_str());
                s.push('\t');
                s.append(format_time(self.cpu_time_centis).as_str());
                s.push('\t');
                s.append(self.cmdline.as_str());
                assert(s@ =~= spec_yank_text(self@, field));
                s
            },
            YankField::Pid => decimal(self.pid as u64),
            YankField::User => self.user.clone(),
            YankField::Container => match &self.container {
                Some(c) => c.clone(),
                None => {
                    let mut s = String::new();
                    s.push('-');
                    assert(s@ =~= seq!['-']);
                    s
                },
            },
            YankField::Name => self.comm.clone(),
            YankField::Cmdline => self.cmdline.clone(),
            YankField::GpuPercent => share_text(self.gpu_percent),
            YankField::GpuMem => format_bytes(self.gpu_mem_bytes),
        }
    }
}

/// The texts of the shown rows from `lo` up to, and without, `upto`.
pub open spec fn spec_yank_texts(rows: Seq<ProcessRow>, field: YankField, lo: int, upto: int) -> Seq<
    Seq<char>,
>
    decreases upto - lo,
{
    if upto <= lo {
        Seq::empty()
    } else {
        spec_yank_texts(rows, field, lo, upto - 1).push(spec_yank_text(rows[upto - 1], field))
    }
}

/// The first `n` texts, one to a line.
pub open spec fn spec_lines(texts: Seq<Seq<char>>, n: int) -> Seq<char>
    decreases n,
{
    if n <= 0 {
        Seq::empty()
    } else if n == 1 {
        texts[0]
    } else {
        spec_lines(texts, n - 1) + seq!['\n'] + texts[n - 1]
    }
}

/// The rows that are copied: those of the visual selection that exist, or
/// the one under the cursor. Given as the first and one past the last.
pub open spec fn spec_yank_span(v: AppView) -> (int, int) {
    let (lo, hi): (int, int) = match spec_visual_range(v) {
        Some(r) => (r.0 as int, r.1 as int),
        None => (v.selected as int, v.selected as int),
    };
    let upto = if hi < v.filtered.len() {
        hi + 1
    } else {
        v.filtered.len() as int
    };
    (lo, upto)
}

/// The word for the copied field, for one and for several rows, and whether
/// the text of a single row is named.
pub open spec fn spec_yank_words(field: YankField) -> (Seq<char>, Seq<char>, bool) {
    match field {
        YankField::Row => ("row"@, "rows"@, false),
        YankField::Pid => ("PID"@, "PIDs"@, true),
        YankField::User => ("user"@, "users"@, true),
        YankField::Container => ("container"@, "containers"@, true),
        YankField::Name => ("name"@, "names"@, true),
        YankField::Cmdline => ("cmdline"@, "cmdlines"@, false),
        YankField::GpuPercent => ("GPU%"@, "GPU%"@, true),
        YankField::GpuMem => ("GMEM"@, "GMEM"@, true),
    }
}

/// What the status bar says after `count` rows were copied, the first of
/// them with the text `first`.
pub open spec fn spec_yank_description(field: YankField, count: nat, first: Seq<char>) -> Seq<char> {
    let (one, many, named) = spec_yank_words(field);
    if count == 1 {
        if named {
            "Yanked "@ + one + seq![' '] + first
        } else {
            "Yanked "@ + one
        }
    } else {
        "Yanked "@ + spec_decimal(count) + seq![' '] + many
    }
}

/// What the status bar says after rows were copied.
pub fn yank_description(field: YankField, count: usize, first: &str) -> (s: String)
    ensures
        s@ == spec_yank_description(field, count as nat, first@),
{
    let (one, many, named): (&str, &str, bool) = match field {
        YankField::Row => ("row", "rows", false),
        YankField::Pid => ("PID", "PIDs", true),
        YankField::User => ("user", "users", true),
        YankField::Container => ("container", "containers", true),
        YankField::Name => ("name", "names", true),
        YankField::Cmdline => ("cmdline", "cmdlines", false),
        YankField::GpuPercent => ("GPU%", "GPU%", true),
        YankField::GpuMem => ("GMEM", "GMEM", true),
    };
    let mut s = String::new();
    s.append("Yanked ");
    if count == 1 {
        s.append(one);
        if named {
            s.push(' ');
            s.append(first);
        }
    } else {
        push_decimal(&mut s, count as u64);
        s.push(' ');
        s.append(many);
    }
    assert(s@ =~= spec_yank_description(field, count as nat, first@));
    s
}

/// What a yank hands to the clipboard and to the status bar.
#[derive(Debug)]
pub struct Yank {
    /// The copied texts, one to a line.
    pub text: String,
    /// What the status bar says once the clipboard has the text.
    pub description: String,
}

/// Whether `y` is what a yank of a field copies in the state `v`: the texts
/// of the rows that are copied, one to a line, and what the status bar says
/// of them; nothing where no row is copied.
pub open spec fn spec_is_yank(v: AppView, field: YankField, y: Option<Yank>) -> bool {
    let (lo, upto) = spec_yank_span(v);
    let texts = spec_yank_texts(v.filtered, field, lo, upto);
    match y {
        Some(out) => texts.len() > 0 && out.text@ == spec_lines(texts, texts.len() as int)
            && out.description@ == spec_yank_description(field, texts.len(), texts[0]),
        None => texts.len() == 0,
    }
}

impl App {
    /// Copies a field of the rows of the visual selection, or of the row
    /// under the cursor. Nothing is copied where no such row exists.
    pub fn yank(&self, field: YankField) -> (y: Option<Yank>)
        ensures
            spec_is_yank(self@, field, y),
    {
        let (lo, hi): (usize, usize) = match self.visual_range() {
            Some(r) => r,
            None => (self.selected, self.selected),
        };
        let len = self.filtered_processes.len();
        let upto: usize = if hi < len {
            hi + 1
        } else {
            len
        };
        let ghost rows = self@.filtered;
        let ghost all_texts = spec_yank_texts(rows, field, lo as int, upto as int);
        if lo >= upto {
            return None;
        }
        let mut text = String::new();
        let mut first = String::new();
        let mut i: usize = lo;
        while i < upto
            invariant
                lo <= i <= upto <= len,
                lo < upto,
                len == self.filtered_processes@.len(),
                rows == spec_rows(self.filtered_processes@),
                spec_yank_texts(rows, field, lo as int, i as int).len() == i - lo,
                text@ == spec_lines(
                    spec_yank_texts(rows, field, lo as int, i as int),
                    i - lo,
                ),
                i > lo ==> first@ == spec_yank_texts(rows, field, lo as int, i as int)[0],
            decreases upto - i,
        {
            let ghost before = spec_yank_texts(rows, field, lo as int, i as int);
            let ghost after = spec_yank_texts(rows, field, lo as int, i + 1);
            assert(rows[i as int] == self.filtered_processes@[i as int]@);
            let t = self.filtered_processes[i].yank_text(field);
            assert(after == before.push(t@));
            proof {
                lemma_lines_grow(before, t@);
            }
            if i > lo {
                text.push('\n');
            } else {
                first = t.clone();
            }
            text.append(t.as_str());
            assert(text@ =~= spec_lines(after, i + 1 - lo));
            i += 1;
        }
        let count = upto - lo;
        let description = yank_description(field, count, first.as_str());
        Some(Yank { text, description })
    }
}

/// One more text adds one more line.
pub proof fn lemma_lines_grow(texts: Seq<Seq<char>>, t: Seq<char>)
    ensures
        spec_lines(texts.push(t), texts.len() as int + 1) == if texts.len() == 0 {
            t
        } else {
            spec_lines(texts, texts.len() as int) + seq!['\n'] + t
        },
{
    let grown = texts.push(t);
    lemma_lines_prefix(grown, texts, texts.len() as int);
}

/// The lines of the first texts do not depend on the texts that follow.
pub proof fn lemma_lines_prefix(a: Seq<Seq<char>>, b: Seq<Seq<char>>, n: int)
    requires
        0 <= n <= a.len(),
        n <= b.len(),
        forall|i: int| 0 <= i < n ==> a[i] == b[i],
    ensures
        spec_lines(a, n) == spec_lines(b, n),
    decreases n,
{
    if n > 1 {
        lemma_lines_prefix(a, b, n - 1);
    }
}

} // verus!
