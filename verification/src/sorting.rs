//! The order of the process table.

use vstd::prelude::*;
use vstd::utf8::encode_utf8;
use vstd::string::StringSliceAdditionalSpecFns;
use std::cmp::Ordering;
use crate::process::{spec_rows, ProcessInfo, ProcessRow, SortColumn};

verus! {

/// Order of two numbers: -1, 0 or 1.
pub open spec fn spec_num_order(a: int, b: int) -> int {
    if a < b {
        -1
    } else if a > b {
        1
    } else {
        0
    }
}

/// Order of two byte strings from position `i` on, byte by byte, a prefix
/// before what it is a prefix of: -1, 0 or 1.
pub open spec fn spec_lex_from(a: Seq<u8>, b: Seq<u8>, i: int) -> int
    decreases a.len() - i,
{
    if i < 0 || (i >= a.len() && i >= b.len()) {
        0
    } else if i >= a.len() {
        -1
    } else if i >= b.len() {
        1
    } else if a[i] < b[i] {
        -1
    } else if a[i] > b[i] {
        1
    } else {
        spec_lex_from(a, b, i + 1)
    }
}

/// Order of two texts: that of their UTF-8 forms, byte by byte.
pub open spec fn spec_text_order(a: Seq<char>, b: Seq<char>) -> int {
    spec_lex_from(encode_utf8(a), encode_utf8(b), 0)
}

/// Order of two optional texts: none comes first.
pub open spec fn spec_opt_text_order(a: Option<Seq<char>>, b: Option<Seq<char>>) -> int {
    match (a, b) {
        (None, None) => 0,
        (None, Some(_)) => -1,
        (Some(_), None) => 1,
        (Some(x), Some(y)) => spec_text_order(x, y),
    }
}

/// The first order where it decides, else the second.
pub open spec fn spec_then(first: int, second: int) -> int {
    if first != 0 {
        first
    } else {
        second
    }
}

/// A share in thousandths of a percent, cut to the one decimal place that is
/// shown: shares that show alike compare alike.
pub open spec fn spec_quantize_share(v: u64) -> int {
    v as int / 100
}

/// CPU time in hundredths of a second, cut to tenths.
pub open spec fn spec_quantize_time(centis: u64) -> int {
    centis as int / 10
}

/// Order of two rows by the key of a column, low to high.
pub open spec fn spec_key_order(a: ProcessRow, b: ProcessRow, col: SortColumn) -> int {
    match col {
        SortColumn::Pid => 0,
        SortColumn::User => spec_text_order(a.user, b.user),
        SortColumn::Priority => spec_num_order(a.priority as int, b.priority as int),
        SortColumn::Nice => spec_num_order(a.nice as int, b.nice as int),
        SortColumn::Virt => spec_num_order(a.virt_bytes as int, b.virt_bytes as int),
        SortColumn::Res => spec_num_order(a.res_bytes as int, b.res_bytes as int),
        SortColumn::Shr => spec_num_order(a.shr_bytes as int, b.shr_bytes as int),
        SortColumn::State => spec_num_order(
            a.state.spec_as_char() as u32 as int,
            b.state.spec_as_char() as u32 as int,
        ),
        SortColumn::CpuPercent => spec_num_order(
            spec_quantize_share(a.cpu_percent),
            spec_quantize_share(b.cpu_percent),
        ),
        SortColumn::MemPercent => spec_num_order(
            spec_quantize_share(a.mem_percent),
            spec_quantize_share(b.mem_percent),
        ),
        SortColumn::GpuPercent => spec_num_order(
            spec_quantize_share(a.gpu_percent),
            spec_quantize_share(b.gpu_percent),
        ),
        SortColumn::GpuMem => spec_num_order(a.gpu_mem_bytes as int, b.gpu_mem_bytes as int),
        SortColumn::Time => spec_num_order(
            spec_quantize_time(a.cpu_time_centis),
            spec_quantize_time(b.cpu_time_centis),
        ),
        SortColumn::Container => spec_opt_text_order(a.container, b.container),
        SortColumn::Command => spec_text_order(a.cmdline, b.cmdline),
    }
}

/// Order of two rows in a table sorted by `col`: by the key of the column,
/// rows with equal keys by process id, so that the display does not shuffle;
/// the whole reversed where the table is sorted high to low.
pub open spec fn spec_row_order(a: ProcessRow, b: ProcessRow, col: SortColumn, ascending: bool) -> int {
    let low_to_high = spec_then(spec_key_order(a, b, col), spec_num_order(a.pid as int, b.pid as int));
    if ascending {
        low_to_high
    } else {
        -low_to_high
    }
}

/// Whether the rows stand in the order of a table sorted by `col`.
pub open spec fn spec_in_order(rows: Seq<ProcessRow>, col: SortColumn, ascending: bool) -> bool {
    forall|i: int, j: int|
        0 <= i < j < rows.len() ==> spec_row_order(#[trigger] rows[i], #[trigger] rows[j], col, ascending)
            <= 0
}

fn lex(a: &[u8], b: &[u8]) -> (o: i8)
    ensures
        o == spec_lex_from(a@, b@, 0),
        -1 <= o <= 1,
{
    let mut i: usize = 0;
    loop
        invariant
            i <= a.len(),
            i <= b.len(),
            spec_lex_from(a@, b@, 0) == spec_lex_from(a@, b@, i as int),
        decreases a.len() - i,
    {
        if i >= a.len() && i >= b.len() {
            return 0;
        } else if i >= a.len() {
            return -1;
        } else if i >= b.len() {
            return 1;
        } else if a[i] < b[i] {
            return -1;
        } else if a[i] > b[i] {
            return 1;
        }
        i += 1;
    }
}

fn text_order(a: &String, b: &String) -> (o: i8)
    ensures
        o == spec_text_order(a@, b@),
        -1 <= o <= 1,
{
    lex(a.as_str().as_bytes(), b.as_str().as_bytes())
}

fn opt_text_order(a: &Option<String>, b: &Option<String>) -> (o: i8)
    ensures
        o == spec_opt_text_order(crate::process::spec_opt_text(*a), crate::process::spec_opt_text(*b)),
        -1 <= o <= 1,
{
    match (a, b) {
        (None, None) => 0,
        (None, Some(_)) => -1,
        (Some(_), None) => 1,
        (Some(x), Some(y)) => text_order(x, y),
    }
}

fn u64_order(a: u64, b: u64) -> (o: i8)
    ensures
        o == spec_num_order(a as int, b as int),
        -1 <= o <= 1,
{
    if a < b {
        -1
    } else if a > b {
        1
    } else {
        0
    }
}

fn i32_order(a: i32, b: i32) -> (o: i8)
    ensures
        o == spec_num_order(a as int, b as int),
        -1 <= o <= 1,
{
    if a < b {
        -1
    } else if a > b {
        1
    } else {
        0
    }
}

/// Order of two rows in a table sorted by `col`: -1, 0 or 1.
pub fn row_order(a: &ProcessInfo, b: &ProcessInfo, col: SortColumn, ascending: bool) -> (o: i8)
    ensures
        o == spec_row_order(a@, b@, col, ascending),
        -1 <= o <= 1,
{
    let key: i8 = match col {
        SortColumn::Pid => 0,
        SortColumn::User => text_order(&a.user, &b.user),
        SortColumn::Priority => i32_order(a.priority, b.priority),
        SortColumn::Nice => i32_order(a.nice, b.nice),
        SortColumn::Virt => u64_order(a.virt_bytes, b.virt_bytes),
        SortColumn::Res => u64_order(a.res_bytes, b.res_bytes),
        SortColumn::Shr => u64_order(a.shr_bytes, b.shr_bytes),
        SortColumn::State => u64_order(a.state.as_char() as u32 as u64, b.state.as_char() as u32 as u64),
        SortColumn::CpuPercent => u64_order(a.cpu_percent / 100, b.cpu_percent / 100),
        SortColumn::MemPercent => u64_order(a.mem_percent / 100, b.mem_percent / 100),
        SortColumn::GpuPercent => u64_order(a.gpu_percent / 100, b.gpu_percent / 100),
        SortColumn::GpuMem => u64_order(a.gpu_mem_bytes, b.gpu_mem_bytes),
        SortColumn::Time => u64_order(a.cpu_time_centis / 10, b.cpu_time_centis / 10),
        SortColumn::Container => opt_text_order(&a.container, &b.container),
        SortColumn::Command => text_order(&a.cmdline, &b.cmdline),
    };
    let low_to_high: i8 = if key != 0 {
        key
    } else {
        u64_order(a.pid as u64, b.pid as u64)
    };
    if ascending {
        low_to_high
    } else {
        -low_to_high
    }
}

/// The number that stands for an order: -1 for less, 0 for equal, 1 for
/// greater.
pub open spec fn sign_of(o: Ordering) -> int {
    match o {
        Ordering::Less => -1,
        Ordering::Equal => 0,
        Ordering::Greater => 1,
    }
}

/// Compares two rows for a table sorted by `col`.
pub fn compare_processes(a: &ProcessInfo, b: &ProcessInfo, col: SortColumn, ascending: bool) -> (o:
    Ordering)
    ensures
        sign_of(o) == spec_row_order(a@, b@, col, ascending),
{
    let s = row_order(a, b, col, ascending);
    if s < 0 {
        Ordering::Less
    } else if s > 0 {
        Ordering::Greater
    } else {
        Ordering::Equal
    }
}

/// `slice::sort_by` with [`compare_processes`] as the order: afterwards the
/// list holds the rows it held, in the order of a table sorted by `col`.
#[verifier::external_body]
pub(crate) fn sort_processes(list: &mut Vec<ProcessInfo>, col: SortColumn, ascending: bool)
    ensures
        spec_rows(final(list)@).to_multiset() == spec_rows(old(list)@).to_multiset(),
        spec_in_order(spec_rows(final(list)@), col, ascending),
{
    list.sort_by(|a, b| compare_processes(a, b, col, ascending));
}

/// Two rows compare the other way round when they are swapped.
pub proof fn lemma_row_order_antisymmetric(a: ProcessRow, b: ProcessRow, col: SortColumn, ascending: bool)
    ensures
        spec_row_order(a, b, col, ascending) == -spec_row_order(b, a, col, ascending),
{
    lemma_lex_antisymmetric(encode_utf8(a.user), encode_utf8(b.user), 0);
    lemma_lex_antisymmetric(encode_utf8(a.cmdline), encode_utf8(b.cmdline), 0);
    match (a.container, b.container) {
        (Some(x), Some(y)) => {
            lemma_lex_antisymmetric(encode_utf8(x), encode_utf8(y), 0);
        },
        _ => {},
    }
}

/// Two byte strings compare the other way round when they are swapped.
pub proof fn lemma_lex_antisymmetric(a: Seq<u8>, b: Seq<u8>, i: int)
    requires
        0 <= i,
    ensures
        spec_lex_from(a, b, i) == -spec_lex_from(b, a, i),
    decreases a.len() - i,
{
    if i < a.len() && i < b.len() && a[i] == b[i] {
        lemma_lex_antisymmetric(a, b, i + 1);
    }
}

/// Rows of different processes never compare equal: the order of a table is
/// total on rows with distinct process ids.
pub proof fn lemma_distinct_pids_never_tie(a: ProcessRow, b: ProcessRow, col: SortColumn, ascending: bool)
    requires
        a.pid != b.pid,
    ensures
        spec_row_order(a, b, col, ascending) != 0,
{
}

/// The order of byte strings is transitive, and two strings that tie have
/// tied with every string between them.
pub proof fn lemma_lex_transitive(a: Seq<u8>, b: Seq<u8>, c: Seq<u8>, i: int)
    requires
        0 <= i,
        spec_lex_from(a, b, i) <= 0,
        spec_lex_from(b, c, i) <= 0,
    ensures
        spec_lex_from(a, c, i) <= 0,
        spec_lex_from(a, c, i) == 0 ==> spec_lex_from(a, b, i) == 0 && spec_lex_from(b, c, i) == 0,
    decreases a.len() - i,
{
    if i < a.len() && i < b.len() && i < c.len() && a[i] == b[i] && b[i] == c[i] {
        lemma_lex_transitive(a, b, c, i + 1);
    }
}

/// The order of a column is transitive, and two rows whose keys tie have
/// keys that tie with every row between them.
pub proof fn lemma_key_order_transitive(a: ProcessRow, b: ProcessRow, c: ProcessRow, col: SortColumn)
    requires
        spec_key_order(a, b, col) <= 0,
        spec_key_order(b, c, col) <= 0,
    ensures
        spec_key_order(a, c, col) <= 0,
        spec_key_order(a, c, col) == 0 ==> spec_key_order(a, b, col) == 0 && spec_key_order(
            b,
            c,
            col,
        ) == 0,
{
    match col {
        SortColumn::User => {
            lemma_lex_transitive(encode_utf8(a.user), encode_utf8(b.user), encode_utf8(c.user), 0);
        },
        SortColumn::Command => {
            lemma_lex_transitive(
                encode_utf8(a.cmdline),
                encode_utf8(b.cmdline),
                encode_utf8(c.cmdline),
                0,
            );
        },
        SortColumn::Container => {
            match (a.container, b.container, c.container) {
                (Some(x), Some(y), Some(z)) => {
                    lemma_lex_transitive(encode_utf8(x), encode_utf8(y), encode_utf8(z), 0);
                },
                _ => {},
            }
        },
        _ => {},
    }
}

/// The order of a table is transitive: with antisymmetry, that makes it an
/// order that a sort can rely on.
pub proof fn lemma_row_order_transitive(
    a: ProcessRow,
    b: ProcessRow,
    c: ProcessRow,
    col: SortColumn,
    ascending: bool,
)
    requires
        spec_row_order(a, b, col, ascending) <= 0,
        spec_row_order(b, c, col, ascending) <= 0,
    ensures
        spec_row_order(a, c, col, ascending) <= 0,
{
    if ascending {
        lemma_key_order_transitive(a, b, c, col);
    } else {
        lemma_key_order_antisymmetric(a, b, col);
        lemma_key_order_antisymmetric(b, c, col);
        lemma_key_order_antisymmetric(a, c, col);
        lemma_key_order_transitive(c, b, a, col);
    }
}

/// The keys of two rows compare the other way round when the rows are
/// swapped.
pub proof fn lemma_key_order_antisymmetric(a: ProcessRow, b: ProcessRow, col: SortColumn)
    ensures
        spec_key_order(a, b, col) == -spec_key_order(b, a, col),
{
    lemma_lex_antisymmetric(encode_utf8(a.user), encode_utf8(b.user), 0);
    lemma_lex_antisymmetric(encode_utf8(a.cmdline), encode_utf8(b.cmdline), 0);
    match (a.container, b.container) {
        (Some(x), Some(y)) => {
            lemma_lex_antisymmetric(encode_utf8(x), encode_utf8(y), 0);
        },
        _ => {},
    }
}

} // verus!
