//! How far the bars of the header are filled.

use vstd::prelude::*;
use crate::system::{CpuStats, FULL_SHARE};

verus! {

/// Cells of a bar `width` cells wide that a share, in thousandths of a
/// percent, fills: rounded down, and the whole bar for a share above the
/// whole.
pub open spec fn spec_cells(share: u64, width: usize) -> int {
    if share >= FULL_SHARE {
        width as int
    } else {
        (share * width) / FULL_SHARE as int
    }
}

/// Cells that a share fills.
pub fn cells(share: u64, width: usize) -> (n: usize)
    ensures
        n == spec_cells(share, width),
        n <= width,
{
    if share >= FULL_SHARE {
        width
    } else {
        assert(share as u128 * width as u128 <= u128::MAX) by (nonlinear_arith)
            requires
                share <= u64::MAX,
                width <= u64::MAX,
        {
        }
        let filled: u128 = (share as u128 * width as u128) / FULL_SHARE as u128;
        assert(filled <= width) by (nonlinear_arith)
            requires
                filled == (share * width) / FULL_SHARE as int,
                share < FULL_SHARE,
                FULL_SHARE == 100000,
        {
        }
        filled as usize
    }
}

/// Cells of a bar that `used` out of `total` fills: rounded down, none of an
/// empty total, the whole bar where more is used than there is.
pub open spec fn spec_used_cells(used: u64, total: u64, width: usize) -> int {
    if total == 0 {
        0
    } else if used >= total {
        width as int
    } else {
        (used * width) / total as int
    }
}

/// Cells that `used` out of `total` fills.
pub fn used_cells(used: u64, total: u64, width: usize) -> (n: usize)
    ensures
        n == spec_used_cells(used, total, width),
        n <= width,
{
    if total == 0 {
        0
    } else if used >= total {
        width
    } else {
        assert(used as u128 * width as u128 <= u128::MAX) by (nonlinear_arith)
            requires
                used <= u64::MAX,
                width <= u64::MAX,
        {
        }
        let filled: u128 = (used as u128 * width as u128) / total as u128;
        assert(filled <= width) by (nonlinear_arith)
            requires
                filled == (used * width) / total as int,
                used < total,
        {
        }
        filled as usize
    }
}

/// The cells of a CPU bar, by colour.
#[derive(Debug, Clone, Copy, PartialEq, Eq, Structural)]
pub struct CpuBar {
    pub user: usize,
    /// System time, with what interrupts and other guests took.
    pub system: usize,
    pub nice: usize,
    pub empty: usize,
}

/// The share that is neither user, nice, system, I/O wait nor idle time:
/// what interrupts and other guests took.
pub open spec fn spec_other_share(cpu: CpuStats) -> u64 {
    let counted = cpu.user_pct + cpu.nice_pct + cpu.system_pct + cpu.iowait_pct + cpu.idle_pct;
    if counted >= FULL_SHARE {
        0
    } else {
        (FULL_SHARE - counted) as u64
    }
}

/// The system share as the bar shows it: with the share of interrupts and
/// other guests, held at the largest value of the field.
pub open spec fn spec_system_share(cpu: CpuStats) -> u64 {
    if cpu.system_pct + spec_other_share(cpu) > u64::MAX {
        u64::MAX
    } else {
        (cpu.system_pct + spec_other_share(cpu)) as u64
    }
}

/// The cells of a CPU bar `width` cells wide.
pub open spec fn spec_cpu_bar(cpu: CpuStats, width: usize) -> CpuBar {
    let user = spec_cells(cpu.user_pct, width);
    let system = spec_cells(spec_system_share(cpu), width);
    let nice = spec_cells(cpu.nice_pct, width);
    CpuBar {
        user: user as usize,
        system: system as usize,
        nice: nice as usize,
        empty: if user + system + nice >= width {
            0
        } else {
            (width - user - system - nice) as usize
        },
    }
}

/// The cells of a CPU bar.
pub fn cpu_bar(cpu: &CpuStats, width: usize) -> (bar: CpuBar)
    ensures
        bar == spec_cpu_bar(*cpu, width),
{
    let counted: u128 = cpu.user_pct as u128 + cpu.nice_pct as u128 + cpu.system_pct as u128
        + cpu.iowait_pct as u128 + cpu.idle_pct as u128;
    let other: u64 = if counted >= FULL_SHARE as u128 {
        0
    } else {
        (FULL_SHARE as u128 - counted) as u64
    };
    let user = cells(cpu.user_pct, width);
    let system = cells(cpu.system_pct.saturating_add(other), width);
    let nice = cells(cpu.nice_pct, width);
    let filled: u128 = user as u128 + system as u128 + nice as u128;
    let empty: usize = if filled >= width as u128 {
        0
    } else {
        (width as u128 - filled) as usize
    };
    CpuBar { user, system, nice, empty }
}

} // verus!
