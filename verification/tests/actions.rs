use bpftop::app::{App, AppMode};
use bpftop::clipboard::{payload, yank};
use bpftop::process::{ProcessInfo, ProcessState, YankField};
use bpftop::system::{CpuStats, MemoryInfo, SwapInfo, SystemInfo};
use bpftop::yank::yank_description;

fn proc_of(pid: u32, ppid: u32, name: &str) -> ProcessInfo {
    ProcessInfo {
        pid,
        ppid,
        uid: 1000,
        user: String::from("test"),
        state: ProcessState::Sleeping,
        priority: 20,
        nice: 0,
        virt_bytes: 0,
        res_bytes: 0,
        shr_bytes: 0,
        cpu_percent: 0,
        mem_percent: 0,
        gpu_percent: 0,
        gpu_mem_bytes: 0,
        cpu_time_centis: 0,
        start_time_ns: 0,
        comm: name.to_string(),
        cmdline: name.to_string(),
        container: None,
        cgroup_path: String::new(),
        children: Vec::new(),
        prev_cpu_ns: 0,
        is_kernel_thread: false,
        is_thread: false,
        tid: pid,
        tagged: false,
        tree_prefix: String::new(),
    }
}

fn sys() -> SystemInfo {
    SystemInfo {
        cpu_total: CpuStats::zero(),
        cpus: Vec::new(),
        memory: MemoryInfo::zero(),
        swap: SwapInfo::zero(),
        load_avg: [0; 3],
        uptime_centis: 0,
        total_tasks: 0,
        user_threads: 0,
        kernel_threads: 0,
        running_tasks: 0,
        sleeping_tasks: 0,
        gpus: Vec::new(),
    }
}

fn ten() -> App {
    let mut app = App::new(false, false, false, None);
    app.merge_data(sys(), (1..=10).map(|i| proc_of(i * 10, 0, "p")).collect());
    app.visible_rows = 4;
    app
}

fn family() -> App {
    let mut app = App::new(true, false, false, None);
    let mut procs = vec![
        proc_of(1, 0, "init"),
        proc_of(20, 1, "first"),
        proc_of(30, 1, "second"),
        proc_of(40, 20, "grandchild"),
        proc_of(41, 40, "great"),
        proc_of(50, 999, "orphan"),
    ];
    procs[0].children = vec![20, 30];
    procs[1].children = vec![40];
    procs[3].children = vec![41];
    app.merge_data(sys(), procs);
    app
}

fn shown(app: &App) -> Vec<u32> {
    app.filtered_processes.iter().map(|p| p.pid).collect()
}

fn folded(app: &App) -> Vec<u32> {
    let mut v: Vec<u32> = app.collapsed_pids.iter().copied().collect();
    v.sort();
    v
}

#[test]
fn cursor_moves_inside_the_table() {
    let mut app = ten();
    app.move_selection(3);
    assert_eq!((app.selected, app.scroll_offset), (3, 0));
    app.move_selection(1);
    assert_eq!((app.selected, app.scroll_offset), (4, 1));
    app.move_selection(100);
    assert_eq!((app.selected, app.scroll_offset), (9, 6));
    app.move_selection(-2);
    assert_eq!((app.selected, app.scroll_offset), (7, 6));
    app.move_selection(-2);
    assert_eq!((app.selected, app.scroll_offset), (5, 5));
    app.move_selection(i32::MIN);
    assert_eq!((app.selected, app.scroll_offset), (0, 0));
    app.move_selection(i32::MAX);
    assert_eq!(app.selected, 9);
    app.select_first();
    assert_eq!((app.selected, app.scroll_offset), (0, 0));
    app.select_last();
    assert_eq!((app.selected, app.scroll_offset), (9, 6));
    app.visible_rows = 0;
    app.select_first();
    assert_eq!((app.selected, app.scroll_offset), (0, 6));
}

#[test]
fn cursor_stays_in_an_empty_table() {
    let mut app = App::new(false, false, false, None);
    app.selected = 3;
    app.move_selection(1);
    assert_eq!(app.selected, 3);
    app.select_last();
    assert_eq!(app.selected, 3);
    app.toggle_tag();
    app.push_jump_mark();
    assert!(app.jump_list.is_empty());
    assert_eq!(app.signal_targets(), Vec::<u32>::new());
    assert!(app.yank(YankField::Pid).is_none());
}

#[test]
fn tags_are_kept_in_both_lists() {
    let mut app = ten();
    app.selected = 2;
    app.toggle_tag();
    assert_eq!(app.selected, 3);
    assert!(app.filtered_processes[2].tagged);
    assert!(app.all_processes[2].tagged);
    app.selected = 2;
    app.toggle_tag();
    assert!(!app.filtered_processes[2].tagged);
    assert!(!app.all_processes[2].tagged);
    app.selected = 9;
    app.toggle_tag();
    assert_eq!(app.selected, 9);
    app.visual_anchor = Some(1);
    app.selected = 3;
    assert_eq!(app.visual_range(), Some((1, 3)));
    app.tag_visual_range();
    assert_eq!(app.signal_targets(), vec![20, 30, 40, 100]);
    assert_eq!(app.all_processes.iter().filter(|p| p.tagged).count(), 4);
    app.untag_all();
    assert_eq!(app.signal_targets(), vec![40]);
    assert!(app.all_processes.iter().all(|p| !p.tagged));
}

#[test]
fn visual_range_is_ordered_and_clipped() {
    let mut app = ten();
    assert_eq!(app.visual_range(), None);
    app.tag_visual_range();
    assert!(app.filtered_processes.iter().all(|p| !p.tagged));
    app.visual_anchor = Some(8);
    app.selected = 5;
    assert_eq!(app.visual_range(), Some((5, 8)));
    app.visual_anchor = Some(50);
    app.selected = 8;
    app.tag_visual_range();
    assert_eq!(app.signal_targets(), vec![90, 100]);
    app.untag_all();
    app.visual_anchor = Some(60);
    app.selected = 50;
    app.tag_visual_range();
    assert!(app.filtered_processes.iter().all(|p| !p.tagged));
}

#[test]
fn jump_list_goes_back_and_forth() {
    let mut app = ten();
    app.jump_back();
    assert_eq!(app.selected, 0);
    app.selected = 2;
    app.push_jump_mark();
    app.selected = 7;
    app.push_jump_mark();
    app.selected = 9;
    assert_eq!(app.jump_list, vec![30, 80]);
    assert_eq!(app.jump_pos, 2);
    app.jump_back();
    assert_eq!(app.jump_list, vec![30, 80, 100]);
    assert_eq!(app.jump_pos, 1);
    assert_eq!(app.selected, 7);
    app.jump_back();
    assert_eq!((app.jump_pos, app.selected), (0, 2));
    app.jump_back();
    assert_eq!((app.jump_pos, app.selected), (0, 2));
    app.jump_forward();
    assert_eq!((app.jump_pos, app.selected), (1, 7));
    app.jump_forward();
    assert_eq!((app.jump_pos, app.selected), (2, 9));
    app.jump_forward();
    assert_eq!((app.jump_pos, app.selected), (2, 9));
    // a new mark drops what lay ahead
    app.jump_pos = 1;
    app.selected = 0;
    app.push_jump_mark();
    assert_eq!(app.jump_list, vec![30, 10]);
    assert_eq!(app.jump_pos, 2);
}

#[test]
fn jump_list_keeps_the_last_hundred_marks() {
    let mut app = ten();
    for i in 0..250usize {
        app.selected = i % 10;
        app.push_jump_mark();
    }
    assert_eq!(app.jump_list.len(), 100);
    assert_eq!(app.jump_pos, 100);
    assert_eq!(app.jump_list[99], 100);
    assert_eq!(app.jump_list[0], 10);
    app.jump_list = (0..300).collect();
    app.jump_pos = 1000;
    app.selected = 4;
    app.push_jump_mark();
    assert_eq!(app.jump_list.len(), 100);
    assert_eq!(app.jump_list[98], 299);
    assert_eq!(app.jump_list[99], 50);
}

#[test]
fn a_jump_to_a_process_that_left_stays_put() {
    let mut app = ten();
    app.jump_list = vec![12345, 30];
    app.jump_pos = 1;
    app.selected = 5;
    app.jump_back();
    assert_eq!((app.jump_pos, app.selected), (0, 5));
    app.jump_forward();
    assert_eq!((app.jump_pos, app.selected), (1, 2));
    app.jump_pos = 7;
    app.navigate_to_jump_pid();
    assert_eq!(app.selected, 2);
}

#[test]
fn flash_is_shown_for_two_seconds() {
    let mut app = ten();
    assert_eq!(app.active_flash(0), None);
    app.flash("Yanked row".to_string(), 10_000);
    assert_eq!(app.active_flash(10_000), Some("Yanked row"));
    assert_eq!(app.active_flash(11_999), Some("Yanked row"));
    assert_eq!(app.active_flash(12_000), None);
    assert_eq!(app.active_flash(9_000), Some("Yanked row"));
}

#[test]
fn user_filter_cycles() {
    let mut app = ten();
    app.all_processes[3].user = "alice".into();
    app.update_filtered_processes();
    app.selected = 3;
    app.cycle_user_filter();
    assert_eq!(app.user_filter, Some("alice".to_string()));
    assert_eq!(shown(&app), vec![40]);
    assert_eq!(app.selected, 0);
    app.cycle_user_filter();
    assert_eq!(app.user_filter, None);
    assert_eq!(shown(&app).len(), 10);
    app.selected = 99;
    app.cycle_user_filter();
    assert_eq!(app.user_filter, None);
    assert_eq!(app.selected, 9);
}

#[test]
fn signals_go_to_the_tagged_or_the_selected() {
    let mut app = ten();
    app.selected = 4;
    let plan = app.send_signal(15);
    assert_eq!((plan.signal, plan.pids), (15, vec![50]));
    app.toggle_tag();
    app.toggle_tag();
    let plan = app.send_signal(9);
    assert_eq!(plan.pids, vec![50, 60]);
    assert_eq!(app.send_signal(0).pids, Vec::<u32>::new());
    assert_eq!(app.send_signal(-1).pids, Vec::<u32>::new());
    assert_eq!(app.send_signal(9999).pids, Vec::<u32>::new());
    assert_eq!(app.signal_plan(9999, true).pids, vec![50, 60]);
    assert_eq!(app.signal_plan(15, false).pids, Vec::<u32>::new());
}

#[test]
fn folding_one_branch() {
    let mut app = family();
    assert_eq!(shown(&app), vec![1, 20, 40, 41, 30, 50]);
    app.selected = 1;
    app.collapse_tree_node();
    assert_eq!(shown(&app), vec![1, 20, 30, 50]);
    assert_eq!(folded(&app), vec![20]);
    app.selected = 2;
    app.collapse_tree_node();
    assert_eq!(folded(&app), vec![20]);
    app.selected = 1;
    app.expand_tree_node();
    assert_eq!(shown(&app), vec![1, 20, 40, 41, 30, 50]);
    app.toggle_tree_node();
    assert_eq!(folded(&app), vec![20]);
    app.toggle_tree_node();
    assert_eq!(folded(&app), Vec::<u32>::new());
    app.selected = 4;
    app.toggle_tree_node();
    assert_eq!(folded(&app), Vec::<u32>::new());
    app.selected = 77;
    app.expand_tree_node();
    app.collapse_tree_node();
    app.toggle_tree_node();
    app.expand_tree_recursive();
    app.collapse_tree_recursive();
    assert_eq!(app.selected, 77);
    assert_eq!(shown(&app), vec![1, 20, 40, 41, 30, 50]);
}

#[test]
fn folding_whole_branches() {
    let mut app = family();
    assert_eq!(app.ancestor_pids(41), vec![40, 20, 1]);
    assert_eq!(app.ancestor_pids(1), Vec::<u32>::new());
    assert_eq!(app.ancestor_pids(50), vec![999]);
    assert_eq!(app.ancestor_pids(12345), Vec::<u32>::new());
    assert_eq!(app.descendant_pids(20), vec![40, 41]);
    assert_eq!(app.descendant_pids(1), vec![20, 30, 40, 41]);
    assert_eq!(app.descendant_pids(41), Vec::<u32>::new());
    app.collapse_all_tree();
    assert_eq!(folded(&app), vec![1, 20, 40]);
    assert_eq!(shown(&app), vec![1, 50]);
    app.selected = 0;
    app.expand_tree_recursive();
    assert_eq!(folded(&app), Vec::<u32>::new());
    assert_eq!(shown(&app), vec![1, 20, 40, 41, 30, 50]);
    app.selected = 2;
    app.collapse_tree_recursive();
    assert_eq!(folded(&app), vec![1, 20, 40]);
    app.expand_all_tree();
    app.selected = 3;
    app.collapse_tree_recursive();
    assert_eq!(folded(&app), vec![1, 20, 40]);
    app.expand_all_tree();
    assert_eq!(folded(&app), Vec::<u32>::new());
}

#[test]
fn ancestors_of_a_cycle_end() {
    let mut app = App::new(false, false, false, None);
    app.merge_data(sys(), vec![proc_of(1, 2, "a"), proc_of(2, 1, "b")]);
    assert_eq!(app.ancestor_pids(1), vec![2, 1]);
    assert_eq!(app.descendant_pids(1), vec![1, 2]);
}

#[test]
fn yank_copies_the_selection() {
    let mut app = ten();
    app.selected = 1;
    let y = app.yank(YankField::Pid).unwrap();
    assert_eq!(y.text, "20");
    assert_eq!(y.description, "Yanked PID 20");
    app.visual_anchor = Some(3);
    let y = app.yank(YankField::Pid).unwrap();
    assert_eq!(y.text, "20\n30\n40");
    assert_eq!(y.description, "Yanked 3 PIDs");
    app.visual_anchor = Some(50);
    app.selected = 9;
    let y = app.yank(YankField::Name).unwrap();
    assert_eq!(y.text, "p");
    assert_eq!(y.description, "Yanked name p");
    app.selected = 10;
    assert!(app.yank(YankField::Name).is_none());
    app.visual_anchor = None;
    assert!(app.yank(YankField::Name).is_none());
}

#[test]
fn yank_descriptions() {
    assert_eq!(yank_description(YankField::Row, 1, "x"), "Yanked row");
    assert_eq!(yank_description(YankField::Row, 12, "x"), "Yanked 12 rows");
    assert_eq!(yank_description(YankField::Pid, 1, "42"), "Yanked PID 42");
    assert_eq!(yank_description(YankField::User, 1, "bob"), "Yanked user bob");
    assert_eq!(yank_description(YankField::User, 2, "bob"), "Yanked 2 users");
    assert_eq!(yank_description(YankField::Container, 1, "-"), "Yanked container -");
    assert_eq!(yank_description(YankField::Container, 3, "-"), "Yanked 3 containers");
    assert_eq!(yank_description(YankField::Name, 2, "a"), "Yanked 2 names");
    assert_eq!(yank_description(YankField::Cmdline, 1, "a"), "Yanked cmdline");
    assert_eq!(yank_description(YankField::Cmdline, 2, "a"), "Yanked 2 cmdlines");
    assert_eq!(yank_description(YankField::GpuPercent, 1, "1.0"), "Yanked GPU% 1.0");
    assert_eq!(yank_description(YankField::GpuPercent, 2, "1.0"), "Yanked 2 GPU%");
    assert_eq!(yank_description(YankField::GpuMem, 1, "1K"), "Yanked GMEM 1K");
    assert_eq!(yank_description(YankField::GpuMem, 2, "1K"), "Yanked 2 GMEM");
}

#[test]
fn clipboard_sequence() {
    assert_eq!(yank("hello", false), "\x1b]52;c;aGVsbG8=\x07");
    assert_eq!(yank("", false), "\x1b]52;c;\x07");
    assert_eq!(yank("a\tb\n", false), "\x1b]52;c;YQliCg==\x07");
    assert_eq!(yank("hello", true), "\x1bPtmux;\x1b\x1b]52;c;aGVsbG8=\x07\x1b\\");
    assert_eq!(payload("A\x1bB", true), "\x1bPtmux;\x1b\x1b]52;c;A\x1b\x1bB\x07\x1b\\");
    assert_eq!(payload("A\x1bB", false), "\x1b]52;c;A\x1bB\x07");
}

#[test]
fn startup_state() {
    let app = App::new(true, true, false, Some("no permission".to_string()));
    assert_eq!(app.mode, AppMode::Normal);
    assert!(app.tree_view && app.show_threads && !app.show_kernel_threads);
    assert!(!app.ebpf_loaded);
    assert_eq!(app.ebpf_error.as_deref(), Some("no permission"));
    assert_eq!(app.header_height, 4);
    assert!(app.dirty);
    assert!(App::new(false, false, false, None).ebpf_loaded);
}
