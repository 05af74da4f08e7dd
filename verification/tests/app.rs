use std::collections::HashSet;

use bpftop::app::{App, AppMode};
use bpftop::process::{ProcessInfo, ProcessState, SortColumn, YankField};
use bpftop::sorting::{compare_processes, row_order};
use bpftop::system::{CpuStats, MemoryInfo, SwapInfo, SystemInfo};
use bpftop::tree::{build_tree, tree_ordered_processes};

fn make_proc(pid: u32, cpu_percent: f64) -> ProcessInfo {
    ProcessInfo {
        pid,
        ppid: 1,
        uid: 1000,
        user: String::from("test"),
        state: ProcessState::Sleeping,
        priority: 20,
        nice: 0,
        virt_bytes: 0,
        res_bytes: 0,
        shr_bytes: 0,
        cpu_percent: (cpu_percent * 1000.0).round() as u64,
        mem_percent: 0,
        gpu_percent: 0,
        gpu_mem_bytes: 0,
        cpu_time_centis: 0,
        start_time_ns: 0,
        comm: String::from("test"),
        cmdline: String::from("test"),
        container: None,
        cgroup_path: String::new(),
        children: Vec::new(),
        prev_cpu_ns: 0,
        is_kernel_thread: false,
        is_thread: false,
        tid: pid,
        tagged: false,
        tree_prefix: String::new(),
    }
}

fn proc_of(pid: u32, ppid: u32, name: &str) -> ProcessInfo {
    let mut p = make_proc(pid, 0.0);
    p.ppid = ppid;
    p.comm = name.to_string();
    p.cmdline = format!("/bin/{name}");
    p
}

fn sys() -> SystemInfo {
    SystemInfo {
        cpu_total: CpuStats::zero(),
        cpus: Vec::new(),
        memory: MemoryInfo::zero(),
        swap: SwapInfo::zero(),
        load_avg: [0; 3],
        uptime_centis: 0,
        total_tasks: 0,
        user_threads: 0,
        kernel_threads: 0,
        running_tasks: 0,
        sleeping_tasks: 0,
        gpus: Vec::new(),
    }
}

fn app_with(procs: Vec<ProcessInfo>) -> App {
    let mut app = App::new(false, false, false, None);
    app.merge_data(sys(), procs);
    app
}

fn pids(list: &[ProcessInfo]) -> Vec<u32> {
    list.iter().map(|p| p.pid).collect()
}

#[test]
fn quantized_sort_stability() {
    // Processes with CPU% that all display as "0.0" should sort by PID
    let mut procs = vec![make_proc(300, 0.04), make_proc(100, 0.02), make_proc(200, 0.01)];

    // Sort descending by CPU% (default)
    procs.sort_by(|a, b| compare_processes(a, b, SortColumn::CpuPercent, false));
    let pids: Vec<u32> = procs.iter().map(|p| p.pid).collect();
    // All quantize to 0, so PID tiebreaker (reversed) gives 300, 200, 100
    assert_eq!(pids, vec![300, 200, 100]);

    // Re-sort with slightly jittered values — order must not change
    procs[0].cpu_percent = 30;
    procs[1].cpu_percent = 50;
    procs[2].cpu_percent = 10;
    procs.sort_by(|a, b| compare_processes(a, b, SortColumn::CpuPercent, false));
    let pids2: Vec<u32> = procs.iter().map(|p| p.pid).collect();
    assert_eq!(pids2, vec![300, 200, 100]);
}

#[test]
fn quantized_sort_distinguishes_different_values() {
    // Processes with clearly different CPU% should still sort correctly
    let mut procs = vec![make_proc(1, 0.5), make_proc(2, 5.0), make_proc(3, 1.2)];

    procs.sort_by(|a, b| compare_processes(a, b, SortColumn::CpuPercent, false));
    let pids: Vec<u32> = procs.iter().map(|p| p.pid).collect();
    assert_eq!(pids, vec![2, 3, 1]);
}

#[test]
fn row_order_by_every_column() {
    let mut a = make_proc(1, 1.0);
    let mut b = make_proc(2, 1.0);
    for col in SortColumn::all() {
        assert_eq!(row_order(&a, &b, col, true), -1);
        assert_eq!(row_order(&b, &a, col, true), 1);
        assert_eq!(row_order(&a, &b, col, false), 1);
        assert_eq!(row_order(&a, &a, col, true), 0);
    }
    a.user = "zed".into();
    b.user = "amy".into();
    assert_eq!(row_order(&a, &b, SortColumn::User, true), 1);
    b.user = "zedd".into();
    assert_eq!(row_order(&a, &b, SortColumn::User, true), -1);
    a.priority = -5;
    b.priority = -6;
    assert_eq!(row_order(&a, &b, SortColumn::Priority, true), 1);
    a.nice = 3;
    assert_eq!(row_order(&a, &b, SortColumn::Nice, true), 1);
    a.virt_bytes = 9;
    a.res_bytes = 9;
    a.shr_bytes = 9;
    a.gpu_mem_bytes = 9;
    for col in [SortColumn::Virt, SortColumn::Res, SortColumn::Shr, SortColumn::GpuMem] {
        assert_eq!(row_order(&a, &b, col, true), 1);
    }
    a.state = ProcessState::Zombie;
    b.state = ProcessState::Running;
    assert_eq!(row_order(&a, &b, SortColumn::State, true), 1);
    a.mem_percent = 199;
    b.mem_percent = 100;
    assert_eq!(row_order(&a, &b, SortColumn::MemPercent, true), -1);
    a.mem_percent = 200;
    assert_eq!(row_order(&a, &b, SortColumn::MemPercent, true), 1);
    a.gpu_percent = 1000;
    assert_eq!(row_order(&a, &b, SortColumn::GpuPercent, true), 1);
    a.cpu_time_centis = 19;
    b.cpu_time_centis = 10;
    assert_eq!(row_order(&a, &b, SortColumn::Time, true), -1);
    a.cpu_time_centis = 20;
    assert_eq!(row_order(&a, &b, SortColumn::Time, true), 1);
    a.container = None;
    b.container = Some("x".into());
    assert_eq!(row_order(&a, &b, SortColumn::Container, true), -1);
    a.container = Some("y".into());
    assert_eq!(row_order(&a, &b, SortColumn::Container, true), 1);
    a.cmdline = "é".into();
    b.cmdline = "z".into();
    assert_eq!(row_order(&a, &b, SortColumn::Command, true), 1);
    assert_eq!(compare_processes(&a, &b, SortColumn::Command, true), a.cmdline.cmp(&b.cmdline));
}

#[test]
fn first_snapshot_fills_the_table_sorted_by_pid() {
    let app = app_with(vec![proc_of(30, 1, "c"), proc_of(10, 1, "a"), proc_of(20, 1, "b")]);
    assert_eq!(pids(&app.all_processes), vec![30, 10, 20]);
    assert_eq!(pids(&app.filtered_processes), vec![10, 20, 30]);
    assert!(app.dirty);
    assert_eq!(app.mode, AppMode::Normal);
}

#[test]
fn same_processes_are_refreshed_where_they_stand() {
    let mut app = app_with(vec![proc_of(100, 1, "a"), proc_of(200, 1, "b"), proc_of(300, 1, "c")]);
    app.sort_column = SortColumn::CpuPercent;
    app.sort_ascending = false;
    app.update_filtered_processes();
    assert_eq!(pids(&app.filtered_processes), vec![300, 200, 100]);
    app.selected = 1;
    app.toggle_tag();
    app.collapsed_pids.insert(200);
    app.filtered_processes[0].tree_prefix = "x".into();
    let selected = app.selected;
    let collapsed: HashSet<u32> = app.collapsed_pids.clone();

    let mut fresh = vec![proc_of(200, 1, "b2"), proc_of(100, 1, "a2"), proc_of(300, 1, "c2")];
    fresh[1].cpu_percent = 99_000;
    fresh[1].state = ProcessState::Running;
    fresh[1].children = vec![5];
    fresh[1].user = "other".into();
    app.dirty = false;
    app.merge_data(sys(), fresh);

    assert_eq!(pids(&app.all_processes), vec![100, 200, 300]);
    // not sorted again, although pid 100 now leads by CPU share
    assert_eq!(pids(&app.filtered_processes), vec![300, 200, 100]);
    assert_eq!(app.filtered_processes[2].cpu_percent, 99_000);
    assert_eq!(app.filtered_processes[2].comm, "a2");
    assert_eq!(app.filtered_processes[2].cmdline, "/bin/a2");
    assert_eq!(app.filtered_processes[2].state, ProcessState::Running);
    assert_eq!(app.filtered_processes[2].children, vec![5]);
    assert_eq!(app.filtered_processes[2].user, "test");
    assert_eq!(app.all_processes[0].cpu_percent, 99_000);
    assert_eq!(
        app.filtered_processes.iter().map(|p| p.tagged).collect::<Vec<_>>(),
        vec![false, true, false]
    );
    assert_eq!(
        app.all_processes.iter().map(|p| p.tagged).collect::<Vec<_>>(),
        vec![false, true, false]
    );
    assert_eq!(app.filtered_processes[0].tree_prefix, "x");
    assert_eq!(app.selected, selected);
    assert_eq!(app.collapsed_pids, collapsed);
    assert!(app.dirty);
}

#[test]
fn rebuild_drops_the_gone_and_keeps_the_tags_of_the_rest() {
    let mut app = app_with(vec![proc_of(100, 1, "a"), proc_of(200, 1, "b"), proc_of(300, 1, "c")]);
    app.selected = 0;
    app.toggle_tag();
    app.toggle_tag();
    assert_eq!(app.signal_targets(), vec![100, 200]);
    app.selected = 2;
    app.scroll_offset = 2;

    app.merge_data(sys(), vec![proc_of(300, 1, "c"), proc_of(200, 1, "b")]);

    assert_eq!(pids(&app.all_processes), vec![300, 200]);
    assert_eq!(pids(&app.filtered_processes), vec![200, 300]);
    assert!(app.filtered_processes[0].tagged);
    assert!(!app.filtered_processes[1].tagged);
    assert!(app.all_processes[1].tagged);
    assert_eq!(app.signal_targets(), vec![200]);
    assert_eq!(app.selected, 1);
    assert_eq!(app.scroll_offset, 1);
}

#[test]
fn rebuild_takes_in_new_processes() {
    let mut app = app_with(vec![proc_of(100, 1, "a")]);
    app.merge_data(sys(), vec![proc_of(100, 1, "a"), proc_of(50, 1, "n")]);
    assert_eq!(pids(&app.filtered_processes), vec![50, 100]);
    app.merge_data(sys(), Vec::new());
    assert!(app.all_processes.is_empty());
    assert!(app.filtered_processes.is_empty());
    assert_eq!(app.selected, 0);
    assert_eq!(app.scroll_offset, 0);
}

#[test]
fn a_process_listed_twice_keeps_its_last_row() {
    let mut first = proc_of(7, 1, "old");
    first.cpu_percent = 1;
    let mut last = proc_of(7, 1, "new");
    last.cpu_percent = 2;
    let app = app_with(vec![first, proc_of(8, 1, "x"), last]);
    assert_eq!(pids(&app.all_processes), vec![8, 7]);
    assert_eq!(app.all_processes[1].comm, "new");
}

#[test]
fn filters_hide_rows() {
    let mut thread = proc_of(11, 1, "thread");
    thread.is_thread = true;
    let mut kernel = proc_of(12, 2, "kworker");
    kernel.is_kernel_thread = true;
    let mut other = proc_of(13, 1, "Firefox");
    other.user = "alice".into();
    let mut app = app_with(vec![proc_of(10, 1, "bash"), thread, kernel, other]);
    assert_eq!(pids(&app.filtered_processes), vec![10, 13]);
    app.show_threads = true;
    app.update_filtered_processes();
    assert_eq!(pids(&app.filtered_processes), vec![10, 11, 13]);
    app.show_kernel_threads = true;
    app.update_filtered_processes();
    assert_eq!(pids(&app.filtered_processes), vec![10, 11, 12, 13]);
    app.user_filter = Some("alice".into());
    app.update_filtered_processes();
    assert_eq!(pids(&app.filtered_processes), vec![13]);
    app.user_filter = None;
    app.active_filter = "FIRE".into();
    app.update_filtered_processes();
    assert_eq!(pids(&app.filtered_processes), vec![13]);
    app.active_filter = "12".into();
    app.update_filtered_processes();
    assert_eq!(pids(&app.filtered_processes), vec![12]);
    app.active_filter = "test".into();
    app.update_filtered_processes();
    assert_eq!(pids(&app.filtered_processes), vec![10, 11, 12]);
    app.active_filter = "nothing-matches".into();
    app.selected = 3;
    app.update_filtered_processes();
    assert!(app.filtered_processes.is_empty());
    assert_eq!(app.selected, 0);
}

#[test]
fn scroll_is_clamped_to_keep_the_screen_filled() {
    let mut app = app_with((1..=10).map(|i| proc_of(i, 0, "p")).collect());
    app.visible_rows = 4;
    app.scroll_offset = 9;
    app.selected = 50;
    app.update_filtered_processes();
    assert_eq!(app.scroll_offset, 6);
    assert_eq!(app.selected, 9);
    app.visible_rows = 0;
    app.scroll_offset = 50;
    app.update_filtered_processes();
    assert_eq!(app.scroll_offset, 9);
    app.visible_rows = 20;
    app.update_filtered_processes();
    assert_eq!(app.scroll_offset, 0);
}

fn family() -> Vec<ProcessInfo> {
    vec![
        proc_of(40, 20, "grandchild"),
        proc_of(1, 0, "init"),
        proc_of(30, 1, "second"),
        proc_of(20, 1, "first"),
        proc_of(50, 999, "orphan"),
        proc_of(45, 20, "grandchild2"),
        proc_of(60, 60, "loner"),
    ]
}

#[test]
fn tree_is_walked_depth_first_in_pid_order() {
    let procs = family();
    let tree = build_tree(&procs, &HashSet::new());
    let lines: Vec<(u32, u16, &str, bool)> =
        tree.iter().map(|e| (e.pid, e.depth, e.prefix.as_str(), e.is_last)).collect();
    assert_eq!(
        lines,
        vec![
            (1, 0, "", false),
            (20, 1, "\u{251c}\u{2500}", false),
            (40, 2, "\u{2502} \u{251c}\u{2500}", false),
            (45, 2, "\u{2502} \u{2514}\u{2500}", true),
            (30, 1, "\u{2514}\u{2500}", true),
            (50, 0, "", true),
        ]
    );
    let ordered = tree_ordered_processes(&procs, &tree);
    assert_eq!(pids(&ordered), vec![1, 20, 40, 45, 30, 50]);
    assert_eq!(ordered[3].tree_prefix, "\u{2502} \u{2514}\u{2500}");
    assert_eq!(ordered[3].comm, "grandchild2");
}

#[test]
fn deeper_levels_are_indented() {
    let procs = vec![
        proc_of(1, 0, "a"),
        proc_of(2, 1, "b"),
        proc_of(3, 2, "c"),
        proc_of(4, 3, "d"),
        proc_of(5, 1, "e"),
        proc_of(6, 5, "f"),
        proc_of(7, 6, "g"),
    ];
    let tree = build_tree(&procs, &HashSet::new());
    let prefixes: Vec<&str> = tree.iter().map(|e| e.prefix.as_str()).collect();
    assert_eq!(
        prefixes,
        vec![
            "",
            "\u{251c}\u{2500}",
            "\u{2502} \u{2514}\u{2500}",
            "\u{2502}   \u{2514}\u{2500}",
            "\u{2514}\u{2500}",
            "  \u{2514}\u{2500}",
            "    \u{2514}\u{2500}",
        ]
    );
    let procs = vec![
        proc_of(1, 0, "a"),
        proc_of(2, 1, "b"),
        proc_of(3, 2, "c"),
        proc_of(4, 3, "d"),
        proc_of(5, 2, "e"),
        proc_of(9, 1, "z"),
    ];
    let tree = build_tree(&procs, &HashSet::new());
    let lines: Vec<(u32, &str)> = tree.iter().map(|e| (e.pid, e.prefix.as_str())).collect();
    assert_eq!(
        lines,
        vec![
            (1, ""),
            (2, "\u{251c}\u{2500}"),
            (3, "\u{2502} \u{251c}\u{2500}"),
            (4, "\u{2502} \u{2502} \u{2514}\u{2500}"),
            (5, "\u{2502} \u{2514}\u{2500}"),
            (9, "\u{2514}\u{2500}"),
        ]
    );
}

#[test]
fn collapsed_processes_hide_their_children() {
    let procs = family();
    let collapsed: HashSet<u32> = [20].into_iter().collect();
    let tree = build_tree(&procs, &collapsed);
    assert_eq!(tree.iter().map(|e| e.pid).collect::<Vec<_>>(), vec![1, 20, 30, 50]);
    let collapsed: HashSet<u32> = [1, 20].into_iter().collect();
    let tree = build_tree(&procs, &collapsed);
    assert_eq!(tree.iter().map(|e| e.pid).collect::<Vec<_>>(), vec![1, 50]);
    assert!(build_tree(&Vec::new(), &collapsed).is_empty());
}

#[test]
fn a_cycle_of_parents_does_not_hang_the_tree() {
    let procs = vec![proc_of(1, 2, "a"), proc_of(2, 1, "b"), proc_of(3, 0, "c")];
    let tree = build_tree(&procs, &HashSet::new());
    assert_eq!(tree.iter().map(|e| e.pid).collect::<Vec<_>>(), vec![3]);
    // a process id listed twice, once as a root and once inside a cycle
    let procs = vec![proc_of(1, 0, "root"), proc_of(1, 2, "a"), proc_of(2, 1, "b")];
    let tree = build_tree(&procs, &HashSet::new());
    assert!(tree.len() >= 2);
    assert_eq!(tree[0].pid, 1);
}

#[test]
fn tree_view_orders_the_shown_rows() {
    let mut app = App::new(true, false, false, None);
    app.merge_data(sys(), family());
    assert_eq!(pids(&app.filtered_processes), vec![1, 20, 40, 45, 30, 50]);
    assert_eq!(app.filtered_processes[2].tree_prefix, "\u{2502} \u{251c}\u{2500}");
    app.collapsed_pids.insert(20);
    app.update_filtered_processes();
    assert_eq!(pids(&app.filtered_processes), vec![1, 20, 30, 50]);
    // the fold survives a snapshot that changes the processes
    let mut next = family();
    next.push(proc_of(41, 20, "new"));
    app.merge_data(sys(), next);
    assert_eq!(pids(&app.filtered_processes), vec![1, 20, 30, 50]);
    assert!(app.collapsed_pids.contains(&20));
    app.expand_all_tree();
    assert_eq!(pids(&app.filtered_processes), vec![1, 20, 40, 41, 45, 30, 50]);
}

#[test]
fn yank_field_of_a_row() {
    let mut p = proc_of(42, 1, "vim");
    p.user = "bob".into();
    p.cpu_percent = 12_340;
    p.mem_percent = 50;
    p.gpu_percent = 99_950;
    p.gpu_mem_bytes = 3 << 30;
    p.cpu_time_centis = 366_101;
    assert_eq!(p.yank_text(YankField::Pid), "42");
    assert_eq!(p.yank_text(YankField::User), "bob");
    assert_eq!(p.yank_text(YankField::Name), "vim");
    assert_eq!(p.yank_text(YankField::Cmdline), "/bin/vim");
    assert_eq!(p.yank_text(YankField::Container), "-");
    assert_eq!(p.yank_text(YankField::GpuPercent), "100.0");
    assert_eq!(p.yank_text(YankField::GpuMem), "3.0G");
    assert_eq!(p.yank_text(YankField::Row), "42\tbob\t12.3\t0.0\t100.0\t3.0G\t1:01:01.01\t/bin/vim");
    p.container = Some("abc".into());
    assert_eq!(p.yank_text(YankField::Container), "abc");
}
