use bpftop::app::{App, AppMode};
use bpftop::input::{
    action_of, handle_event, handle_key, handle_mouse, Action, Event, KeyCode, KeyEvent,
    MouseEvent, MouseEventKind, Reaction,
};
use bpftop::process::{ProcessInfo, ProcessState, SortColumn, YankField};
use bpftop::system::{CpuStats, MemoryInfo, SwapInfo, SystemInfo};

fn proc_of(pid: u32, ppid: u32, name: &str) -> ProcessInfo {
    ProcessInfo {
        pid,
        ppid,
        uid: 1000,
        user: String::from("test"),
        state: ProcessState::Sleeping,
        priority: 20,
        nice: 0,
        virt_bytes: 0,
        res_bytes: 0,
        shr_bytes: 0,
        cpu_percent: (pid % 7) as u64 * 1000,
        mem_percent: 0,
        gpu_percent: 0,
        gpu_mem_bytes: 0,
        cpu_time_centis: 0,
        start_time_ns: 0,
        comm: name.to_string(),
        cmdline: name.to_string(),
        container: None,
        cgroup_path: String::new(),
        children: Vec::new(),
        prev_cpu_ns: 0,
        is_kernel_thread: false,
        is_thread: false,
        tid: pid,
        tagged: false,
        tree_prefix: String::new(),
    }
}

fn sys() -> SystemInfo {
    SystemInfo {
        cpu_total: CpuStats::zero(),
        cpus: Vec::new(),
        memory: MemoryInfo::zero(),
        swap: SwapInfo::zero(),
        load_avg: [0; 3],
        uptime_centis: 0,
        total_tasks: 0,
        user_threads: 0,
        kernel_threads: 0,
        running_tasks: 0,
        sleeping_tasks: 0,
        gpus: Vec::new(),
    }
}

fn ten() -> App {
    let mut app = App::new(false, false, false, None);
    let mut procs: Vec<ProcessInfo> =
        (1..=10).map(|i| proc_of(i * 10, 0, &format!("proc{i}"))).collect();
    procs[0].children = vec![20];
    procs[1].ppid = 10;
    app.merge_data(sys(), procs);
    app.visible_rows = 4;
    app
}

fn key(code: KeyCode) -> KeyEvent {
    KeyEvent { code, ctrl: false }
}

fn ch(c: char) -> KeyEvent {
    key(KeyCode::Char(c))
}

fn ctrl(c: char) -> KeyEvent {
    KeyEvent { code: KeyCode::Char(c), ctrl: true }
}

fn press(app: &mut App, k: KeyEvent) -> Reaction {
    handle_event(app, Event::Key(k))
}

fn typed(app: &mut App, keys: &str) {
    for c in keys.chars() {
        assert!(matches!(press(app, ch(c)), Reaction::Continue));
    }
}

fn shown(app: &App) -> Vec<u32> {
    app.filtered_processes.iter().map(|p| p.pid).collect()
}

#[test]
fn keys_that_quit() {
    let mut app = ten();
    assert!(matches!(press(&mut app, ch('q')), Reaction::Quit));
    assert!(matches!(press(&mut app, key(KeyCode::F(10))), Reaction::Quit));
    for mode in [
        AppMode::Normal,
        AppMode::Search,
        AppMode::Filter,
        AppMode::Help,
        AppMode::Kill,
        AppMode::SortSelect,
        AppMode::Visual,
    ] {
        app.mode = mode;
        assert!(matches!(press(&mut app, ctrl('c')), Reaction::Quit));
        assert_eq!(app.mode, mode);
    }
    app.mode = AppMode::Filter;
    assert!(matches!(press(&mut app, ch('q')), Reaction::Continue));
    assert_eq!(app.filter_query, "q");
}

#[test]
fn keys_move_the_cursor() {
    let mut app = ten();
    typed(&mut app, "jjj");
    assert_eq!(app.selected, 3);
    typed(&mut app, "k");
    assert_eq!(app.selected, 2);
    press(&mut app, key(KeyCode::Down));
    press(&mut app, key(KeyCode::Up));
    assert_eq!(app.selected, 2);
    assert!(app.jump_list.is_empty());
    press(&mut app, key(KeyCode::PageDown));
    assert_eq!(app.selected, 6);
    assert_eq!(app.jump_list, vec![30]);
    press(&mut app, key(KeyCode::PageUp));
    assert_eq!(app.selected, 2);
    press(&mut app, ctrl('d'));
    assert_eq!(app.selected, 4);
    press(&mut app, ctrl('u'));
    assert_eq!(app.selected, 2);
    press(&mut app, key(KeyCode::End));
    assert_eq!(app.selected, 9);
    press(&mut app, key(KeyCode::Home));
    assert_eq!(app.selected, 0);
    typed(&mut app, "G");
    assert_eq!(app.selected, 9);
    typed(&mut app, "gg");
    assert_eq!(app.selected, 0);
    assert_eq!(app.pending_key, None);
    press(&mut app, ctrl('o'));
    assert_eq!(app.selected, 9);
    press(&mut app, key(KeyCode::Tab));
    assert_eq!(app.selected, 0);
}

#[test]
fn a_pending_key_is_used_up_by_the_next() {
    let mut app = ten();
    typed(&mut app, "g");
    assert_eq!(app.pending_key, Some('g'));
    typed(&mut app, "j");
    assert_eq!(app.pending_key, None);
    assert_eq!(app.selected, 1);
    typed(&mut app, "y");
    assert_eq!(app.pending_key, Some('y'));
    typed(&mut app, "z");
    assert_eq!(app.pending_key, None);
    typed(&mut app, "y");
    assert!(matches!(press(&mut app, ch('g')), Reaction::Copy(_)));
    assert_eq!(app.pending_key, None);
    app.mode = AppMode::Help;
    app.pending_key = Some('g');
    typed(&mut app, "x");
    assert_eq!(app.pending_key, Some('g'));
}

#[test]
fn yank_keys_hand_the_text_back() {
    let mut app = ten();
    typed(&mut app, "jy");
    match press(&mut app, ch('p')) {
        Reaction::Copy(y) => {
            assert_eq!(y.text, "20");
            assert_eq!(y.description, "Yanked PID 20");
        }
        _ => panic!("nothing was copied"),
    }
    typed(&mut app, "Vjjy");
    assert_eq!(app.mode, AppMode::Visual);
    match press(&mut app, ch('n')) {
        Reaction::Copy(y) => {
            assert_eq!(y.text, "proc2\nproc3\nproc4");
            assert_eq!(y.description, "Yanked 3 names");
        }
        _ => panic!("nothing was copied"),
    }
    assert_eq!(app.mode, AppMode::Normal);
    assert_eq!(app.visual_anchor, None);
    typed(&mut app, "Vyq");
    assert_eq!(app.mode, AppMode::Visual);
    let fields: Vec<Action> = "ypucnlgv"
        .chars()
        .map(|c| action_of(AppMode::Normal, Some('y'), ch(c), 0))
        .collect();
    assert_eq!(
        fields,
        [
            YankField::Row,
            YankField::Pid,
            YankField::User,
            YankField::Container,
            YankField::Name,
            YankField::Cmdline,
            YankField::GpuPercent,
            YankField::GpuMem
        ]
        .map(|field| Action::Yank { field, leave_visual: false })
        .to_vec()
    );
}

#[test]
fn search_text_is_typed_and_applied() {
    let mut app = ten();
    typed(&mut app, "/");
    assert_eq!(app.mode, AppMode::Search);
    typed(&mut app, "proc1");
    assert_eq!(app.filter_query, "proc1");
    assert_eq!(app.active_filter, "proc1");
    assert_eq!(shown(&app), vec![10, 100]);
    press(&mut app, key(KeyCode::Backspace));
    assert_eq!(app.filter_query, "proc");
    assert_eq!(shown(&app).len(), 10);
    typed(&mut app, "9");
    press(&mut app, key(KeyCode::Enter));
    assert_eq!(app.mode, AppMode::Normal);
    assert_eq!(app.active_filter, "proc9");
    assert_eq!(shown(&app), vec![90]);
    assert_eq!(app.jump_list.len(), 1);
    typed(&mut app, "\\");
    assert_eq!(app.mode, AppMode::Filter);
    assert_eq!(app.filter_query, "");
    assert_eq!(app.active_filter, "proc9");
    press(&mut app, key(KeyCode::Backspace));
    assert_eq!(app.active_filter, "");
    typed(&mut app, "x");
    press(&mut app, key(KeyCode::Esc));
    assert_eq!(app.mode, AppMode::Normal);
    assert_eq!((app.filter_query.as_str(), app.active_filter.as_str()), ("", ""));
    assert_eq!(shown(&app).len(), 10);
    press(&mut app, key(KeyCode::F(3)));
    assert_eq!(app.mode, AppMode::Search);
    press(&mut app, key(KeyCode::Tab));
    assert_eq!(app.mode, AppMode::Search);
}

#[test]
fn view_toggles() {
    let mut app = ten();
    typed(&mut app, "t");
    assert!(app.tree_view);
    assert_eq!(shown(&app)[..3], [10, 20, 30]);
    assert_eq!(app.filtered_processes[1].tree_prefix, "\u{2514}\u{2500}");
    typed(&mut app, "-");
    assert_eq!(shown(&app).len(), 9);
    assert!(app.collapsed_pids.contains(&10));
    typed(&mut app, "+");
    assert_eq!(shown(&app).len(), 10);
    typed(&mut app, "-=");
    assert!(app.collapsed_pids.is_empty());
    press(&mut app, key(KeyCode::F(5)));
    assert!(!app.tree_view);
    typed(&mut app, "-");
    assert!(app.collapsed_pids.is_empty());
    typed(&mut app, "H");
    assert!(app.show_threads);
    typed(&mut app, "K");
    assert!(app.show_kernel_threads);
    typed(&mut app, "P");
    assert_eq!((app.sort_column, app.sort_ascending), (SortColumn::CpuPercent, false));
    assert_eq!(shown(&app), vec![90, 20, 40, 60, 80, 10, 100, 30, 50, 70]);
    typed(&mut app, "I");
    assert!(app.sort_ascending);
    assert_eq!(shown(&app), vec![70, 50, 30, 100, 10, 80, 60, 40, 20, 90]);
    typed(&mut app, "M");
    assert_eq!((app.sort_column, app.sort_ascending), (SortColumn::MemPercent, false));
    typed(&mut app, "T");
    assert_eq!(app.sort_column, SortColumn::Time);
    typed(&mut app, "u");
    assert_eq!(app.user_filter.as_deref(), Some("test"));
    typed(&mut app, "?");
    assert_eq!(app.mode, AppMode::Help);
    typed(&mut app, "j");
    assert_eq!(app.mode, AppMode::Help);
    typed(&mut app, "?");
    assert_eq!(app.mode, AppMode::Normal);
    press(&mut app, key(KeyCode::F(1)));
    press(&mut app, key(KeyCode::Esc));
    assert_eq!(app.mode, AppMode::Normal);
}

#[test]
fn sort_column_is_chosen_from_the_list() {
    let mut app = ten();
    typed(&mut app, ">");
    assert_eq!(app.mode, AppMode::SortSelect);
    typed(&mut app, "k");
    assert_eq!(app.sort_column, SortColumn::Pid);
    typed(&mut app, "jj");
    assert_eq!(app.sort_column, SortColumn::Priority);
    press(&mut app, key(KeyCode::Up));
    assert_eq!(app.sort_column, SortColumn::User);
    for _ in 0..20 {
        press(&mut app, key(KeyCode::Down));
    }
    assert_eq!(app.sort_column, SortColumn::Command);
    press(&mut app, key(KeyCode::Enter));
    assert_eq!(app.mode, AppMode::Normal);
    typed(&mut app, "<");
    press(&mut app, key(KeyCode::Esc));
    assert_eq!(app.mode, AppMode::Normal);
    press(&mut app, key(KeyCode::F(6)));
    assert_eq!(app.mode, AppMode::SortSelect);
}

#[test]
fn kill_dialog_signals_the_tagged() {
    let mut app = ten();
    typed(&mut app, " j ");
    assert_eq!(app.mode, AppMode::Normal);
    typed(&mut app, "x");
    assert_eq!(app.mode, AppMode::Kill);
    assert_eq!(app.pre_kill_mode, AppMode::Normal);
    typed(&mut app, "k");
    assert_eq!(app.kill_signal_idx, 0);
    typed(&mut app, "j");
    assert_eq!(app.kill_signal_idx, 1);
    typed(&mut app, "llh");
    assert_eq!(app.kill_pid_scroll, 1);
    typed(&mut app, "hh");
    assert_eq!(app.kill_pid_scroll, 0);
    match press(&mut app, key(KeyCode::Enter)) {
        Reaction::Signal(plan) => {
            assert_eq!(plan.signal, 9);
            assert_eq!(plan.pids, vec![10, 30]);
        }
        _ => panic!("no signal was sent"),
    }
    assert_eq!(app.mode, AppMode::Normal);
    assert!(app.filtered_processes.iter().all(|p| !p.tagged));
    assert!(app.all_processes.iter().all(|p| !p.tagged));
    press(&mut app, key(KeyCode::F(9)));
    for _ in 0..20 {
        press(&mut app, key(KeyCode::Down));
    }
    assert_eq!(app.kill_signal_idx, 9);
    match press(&mut app, key(KeyCode::Enter)) {
        Reaction::Signal(plan) => assert_eq!((plan.signal, plan.pids), (19, vec![40])),
        _ => panic!("no signal was sent"),
    }
    typed(&mut app, "x");
    app.kill_signal_idx = 10;
    assert!(matches!(press(&mut app, key(KeyCode::Enter)), Reaction::Continue));
    assert_eq!(app.mode, AppMode::Normal);
}

#[test]
fn kill_dialog_is_not_opened_on_an_empty_table() {
    let mut app = App::new(false, false, false, None);
    typed(&mut app, "x");
    assert_eq!(app.mode, AppMode::Normal);
}

#[test]
fn visual_mode_tags_and_kills() {
    let mut app = ten();
    typed(&mut app, "jVjj");
    assert_eq!(app.mode, AppMode::Visual);
    assert_eq!(app.visual_anchor, Some(1));
    assert_eq!(app.visual_range(), Some((1, 3)));
    typed(&mut app, " ");
    assert_eq!(app.mode, AppMode::Normal);
    assert_eq!(app.signal_targets(), vec![20, 30, 40]);
    typed(&mut app, "VGx");
    assert_eq!(app.mode, AppMode::Kill);
    assert_eq!(app.pre_kill_mode, AppMode::Visual);
    assert_eq!(app.signal_targets().len(), 10 - 1);
    press(&mut app, key(KeyCode::Esc));
    assert_eq!(app.mode, AppMode::Visual);
    assert!(app.filtered_processes.iter().all(|p| !p.tagged));
    typed(&mut app, "gg");
    assert_eq!(app.selected, 0);
    assert!(app.jump_list.is_empty());
    press(&mut app, key(KeyCode::PageDown));
    assert_eq!(app.selected, 4);
    press(&mut app, key(KeyCode::PageUp));
    press(&mut app, key(KeyCode::Down));
    press(&mut app, key(KeyCode::Up));
    typed(&mut app, "jk");
    assert_eq!(app.selected, 0);
    press(&mut app, key(KeyCode::Esc));
    assert_eq!(app.mode, AppMode::Normal);
    assert_eq!(app.visual_anchor, None);
}

#[test]
fn mouse_scrolls_and_clicks() {
    let mut app = ten();
    app.header_height = 4;
    let mouse = |kind, row| MouseEvent { kind, row };
    handle_mouse(&mut app, mouse(MouseEventKind::ScrollDown, 0));
    assert_eq!(app.selected, 3);
    handle_mouse(&mut app, mouse(MouseEventKind::ScrollDown, 0));
    assert_eq!((app.selected, app.scroll_offset), (6, 3));
    handle_mouse(&mut app, mouse(MouseEventKind::ScrollUp, 0));
    assert_eq!(app.selected, 3);
    assert!(matches!(
        handle_event(&mut app, Event::Mouse(mouse(MouseEventKind::Down, 5))),
        Reaction::Continue
    ));
    assert_eq!(app.selected, 3);
    handle_mouse(&mut app, mouse(MouseEventKind::Down, 7));
    assert_eq!(app.selected, 5);
    handle_mouse(&mut app, mouse(MouseEventKind::Down, 4));
    assert_eq!(app.selected, 5);
    handle_mouse(&mut app, mouse(MouseEventKind::Down, 12));
    assert_eq!(app.selected, 5);
    handle_mouse(&mut app, mouse(MouseEventKind::Down, 11));
    assert_eq!(app.selected, 9);
    handle_mouse(&mut app, mouse(MouseEventKind::Other, 5));
    app.header_height = u16::MAX;
    handle_mouse(&mut app, mouse(MouseEventKind::Down, u16::MAX));
    assert_eq!(app.selected, 9);
    assert!(matches!(handle_event(&mut app, Event::Resize), Reaction::Continue));
    assert!(matches!(handle_event(&mut app, Event::Other), Reaction::Continue));
    assert!(matches!(handle_key(&mut app, key(KeyCode::Other)), Reaction::Continue));
}
