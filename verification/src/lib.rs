//! Process-monitor core: the telemetry record layout shared by the kernel-side
//! producer and the userspace consumer, the decisions taken by the task
//! iterator and the probes, the per-cycle collector and the reconciliation of
//! each new snapshot into the long-lived process table.
//!
//! Shares are held in thousandths of a percent and times in hundredths of a
//! second, so that every value in the library is an exact integer.

// helpers on text
pub mod text;

// the records and the kernel side
pub mod records;
pub mod offsets;
pub mod iterator;
pub mod table;
pub mod probes;

// the userspace side of the kernel tables
pub mod loader;
pub mod diagnose;

// one refresh cycle
pub mod system;
pub mod container;
pub mod gpu;
pub mod process;
pub mod collector;

// the process table and what the user does to it
pub mod sorting;
pub mod tree;
pub mod app;
pub mod actions;
pub mod folding;
pub mod yank;
pub mod signals;
pub mod input;

// around the table
pub mod cgroup_control;
pub mod clipboard;
pub mod config;
pub mod dialogs;
pub mod layout;
pub mod meters;
