//! Sizes of the screen regions that depend on the data shown.

use vstd::prelude::*;
use crate::process::SortColumn;

verus! {

/// Narrowest column, in characters, that one CPU meter is given.
pub const MIN_CPU_COLUMN_WIDTH: u16 = 20;

/// Number of meter columns: as many as fit, at most one per CPU, at least one.
pub open spec fn spec_grid_cols(num_cpus: usize, terminal_width: u16) -> int {
    let fit = terminal_width as int / MIN_CPU_COLUMN_WIDTH as int;
    let max_cols = if fit >= 1 {
        fit
    } else {
        1
    };
    let cols = if max_cols <= num_cpus {
        max_cols
    } else {
        num_cpus as int
    };
    if cols >= 1 {
        cols
    } else {
        1
    }
}

/// Number of meter rows: the CPUs divided over the columns, rounded up.
pub open spec fn spec_grid_rows(num_cpus: usize, terminal_width: u16) -> int {
    let cols = spec_grid_cols(num_cpus, terminal_width);
    if num_cpus as int % cols == 0 {
        num_cpus as int / cols
    } else {
        num_cpus as int / cols + 1
    }
}

/// Columns and rows of the CPU meter grid.
pub fn cpu_grid_dims(num_cpus: usize, terminal_width: u16) -> (dims: (usize, usize))
    ensures
        dims.0 == spec_grid_cols(num_cpus, terminal_width),
        dims.1 == spec_grid_rows(num_cpus, terminal_width),
        dims.0 >= 1,
        dims.0 * dims.1 >= num_cpus,
{
    let fit: usize = (terminal_width / MIN_CPU_COLUMN_WIDTH) as usize;
    let max_cols: usize = if fit >= 1 {
        fit
    } else {
        1
    };
    let capped: usize = if max_cols <= num_cpus {
        max_cols
    } else {
        num_cpus
    };
    let cols: usize = if capped >= 1 {
        capped
    } else {
        1
    };
    let whole: usize = num_cpus / cols;
    let rows: usize = if num_cpus % cols == 0 {
        whole
    } else {
        assert(whole < num_cpus) by (nonlinear_arith)
            requires
                whole == num_cpus / cols,
                cols >= 1,
                num_cpus % cols != 0,
        {
        }
        whole + 1
    };
    assert(cols * rows >= num_cpus) by (nonlinear_arith)
        requires
            cols >= 1,
            num_cpus % cols == 0 ==> rows == num_cpus / cols,
            num_cpus % cols != 0 ==> rows == num_cpus / cols + 1,
    {
    }
    (cols, rows)
}

/// Rows taken by the header: the CPU grid, two rows for each GPU, then
/// memory, swap and the summary line. Saturates at the largest height.
pub open spec fn spec_header_height(cpu_rows: usize, num_gpus: usize) -> int {
    let h = cpu_rows as int + 2 * num_gpus as int + 3;
    if h <= u16::MAX as int {
        h
    } else {
        u16::MAX as int
    }
}

/// Height of the header for a terminal `terminal_width` wide.
pub fn header_height(num_cpus: usize, num_gpus: usize, terminal_width: u16) -> (h: u16)
    ensures
        h == spec_header_height(spec_grid_rows(num_cpus, terminal_width) as usize, num_gpus),
{
    let (_, cpu_rows) = cpu_grid_dims(num_cpus, terminal_width);
    let limit: usize = 65535;
    if cpu_rows > limit - 3 || num_gpus > (limit - 3 - cpu_rows) / 2 {
        u16::MAX
    } else {
        (cpu_rows + 2 * num_gpus + 3) as u16
    }
}

/// Rows of the process table that hold processes: all but the header row.
pub fn visible_rows(table_height: u16) -> (rows: usize)
    ensures
        rows == if table_height >= 1 {
            table_height - 1
        } else {
            0
        },
{
    if table_height >= 1 {
        (table_height - 1) as usize
    } else {
        0
    }
}

/// Whether a column is shown: the container column only where some process
/// runs in a container, the GPU columns only where there is a GPU.
pub open spec fn spec_column_shown(col: SortColumn, show_container: bool, show_gpu: bool) -> bool {
    match col {
        SortColumn::Container => show_container,
        SortColumn::GpuPercent => show_gpu,
        SortColumn::GpuMem => show_gpu,
        _ => true,
    }
}

/// The columns among the first `n` that are shown, each with its width; the
/// command column with `command_width`.
pub open spec fn spec_columns(show_container: bool, show_gpu: bool, command_width: u16, n: int) -> Seq<
    (SortColumn, u16),
>
    decreases n,
{
    if n <= 0 {
        Seq::empty()
    } else {
        let col = SortColumn::spec_all()[n - 1];
        let rest = spec_columns(show_container, show_gpu, command_width, n - 1);
        if !spec_column_shown(col, show_container, show_gpu) {
            rest
        } else if col == SortColumn::Command {
            rest.push((col, command_width))
        } else {
            rest.push((col, col.spec_width()))
        }
    }
}

/// Characters that the columns among the first `n` take that are shown and
/// have a width of their own, each with the blank after it.
pub open spec fn spec_fixed_width(show_container: bool, show_gpu: bool, n: int) -> int
    decreases n,
{
    if n <= 0 {
        0
    } else {
        let col = SortColumn::spec_all()[n - 1];
        let rest = spec_fixed_width(show_container, show_gpu, n - 1);
        if spec_column_shown(col, show_container, show_gpu) && col != SortColumn::Command {
            rest + col.spec_width() + 1
        } else {
            rest
        }
    }
}

/// Characters left for the command column in a table `total_width` wide.
pub open spec fn spec_command_width(show_container: bool, show_gpu: bool, total_width: u16) -> u16 {
    let fixed = spec_fixed_width(show_container, show_gpu, 15);
    if total_width >= fixed {
        (total_width - fixed) as u16
    } else {
        0
    }
}

/// The columns of the table and their widths: every column that is shown
/// with its own width, and the command column with what is left.
pub fn column_layout(show_container: bool, show_gpu: bool, total_width: u16) -> (cols: Vec<
    (SortColumn, u16),
>)
    ensures
        cols@ == spec_columns(
            show_container,
            show_gpu,
            spec_command_width(show_container, show_gpu, total_width),
            15,
        ),
{
    let all = SortColumn::all();
    let mut fixed: u32 = 0;
    let mut i: usize = 0;
    while i < all.len()
        invariant
            i <= all.len(),
            all@ == SortColumn::spec_all(),
            fixed == spec_fixed_width(show_container, show_gpu, i as int),
            fixed <= 13 * i,
        decreases all.len() - i,
    {
        let col = all[i];
        let shown = match col {
            SortColumn::Container => show_container,
            SortColumn::GpuPercent | SortColumn::GpuMem => show_gpu,
            _ => true,
        };
        if shown && col != SortColumn::Command {
            fixed = fixed + col.width() as u32 + 1;
        }
        i += 1;
    }
    let command_width: u16 = if total_width as u32 >= fixed {
        (total_width as u32 - fixed) as u16
    } else {
        0
    };
    let mut cols: Vec<(SortColumn, u16)> = Vec::new();
    let mut i: usize = 0;
    while i < all.len()
        invariant
            i <= all.len(),
            all@ == SortColumn::spec_all(),
            cols@ == spec_columns(show_container, show_gpu, command_width, i as int),
        decreases all.len() - i,
    {
        let col = all[i];
        let shown = match col {
            SortColumn::Container => show_container,
            SortColumn::GpuPercent | SortColumn::GpuMem => show_gpu,
            _ => true,
        };
        if shown {
            if col == SortColumn::Command {
                cols.push((col, command_width));
            } else {
                cols.push((col, col.width()));
            }
        }
        i += 1;
    }
    cols
}

} // verus!
