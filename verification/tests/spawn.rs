use mux::command::CommandDefaults;
use mux::domain::{Domain, DomainState, LocalDomain};
use mux::error::MuxError;
use mux::ids::IdAllocator;
use mux::launch::{Action, Event, Spawned};
use mux::layout::{SplitDirection, TerminalSize};
use mux::pane::{Pane, WorkingDir};
use mux::registry::Mux;
use mux::spawn::{SpawnCommand, SpawnTabDomain, SpawnTask, SpawnWhere, TermWindow};
use mux::tab::PositionedPane;
use portable_pty::CommandBuilder;

fn size(rows: u16, cols: u16) -> TerminalSize {
    TerminalSize { rows, cols, pixel_width: 0, pixel_height: 0 }
}

fn local_mux() -> Mux<LocalDomain<()>> {
    let mut ids = IdAllocator::new();
    let domain = LocalDomain::with_pty_system("local", (), &mut ids).unwrap();
    Mux::new(domain)
}

fn no_defaults() -> CommandDefaults {
    CommandDefaults { default_prog: None, environment: Vec::new() }
}

fn term_window(window: usize) -> TermWindow {
    TermWindow { mux_window_id: window, terminal_size: size(24, 80), initial_size: size(30, 100) }
}

fn request(domain: SpawnTabDomain, args: Option<Vec<&str>>, cwd: Option<&str>) -> SpawnCommand {
    SpawnCommand {
        args: args.map(|a| a.iter().map(|s| s.to_string()).collect()),
        cwd: cwd.map(|c| c.as_bytes().to_vec()),
        set_environment_variables: Vec::new(),
        domain,
    }
}

fn texts(cmd: &CommandBuilder) -> Vec<String> {
    cmd.get_argv().iter().map(|a| a.to_string_lossy().into_owned()).collect()
}

/// Answers every request of the host with success, and returns the command
/// that was handed over with what the task asked last.
fn run(
    mux: &mut Mux<LocalDomain<()>>,
    started: (SpawnTask, Action),
    dir_exists: bool,
) -> (Option<CommandBuilder>, Action) {
    let (mut task, mut action) = started;
    let mut command = None;
    loop {
        let event = match action {
            Action::ProbeDir(_) => Event::DirProbed(dir_exists),
            Action::OpenPty(_) => Event::PtyOpened,
            Action::SpawnChild(cmd) => {
                command = Some(cmd);
                Event::ChildSpawned
            }
            Action::CloneWriter => Event::WriterCloned,
            last => {
                assert!(task.is_finished());
                return (command, last);
            }
        };
        let next = task.step(event, mux);
        task = next.0;
        action = next.1;
    }
}

fn open_tab(mux: &mut Mux<LocalDomain<()>>, window: usize) -> Spawned {
    let spawn = request(SpawnTabDomain::DefaultDomain, None, None);
    let started = term_window(window).spawn_command(&spawn, SpawnWhere::NewTab).begin(mux, &no_defaults());
    match run(mux, started, true).1 {
        Action::Complete(spawned) => spawned,
        _ => panic!("the session should have been recorded"),
    }
}

#[test]
fn new_tab_in_default_domain_end_to_end() {
    let mut mux = local_mux();
    let window = mux.new_empty_window().unwrap();
    let spawn = request(SpawnTabDomain::DefaultDomain, Some(vec!["echo", "hi"]), None);
    let pending = term_window(window).spawn_command(&spawn, SpawnWhere::NewTab);
    assert_eq!(pending.size, size(24, 80));
    let (task, action) = pending.begin(&mut mux, &no_defaults());
    assert!(matches!(action, Action::OpenPty(s) if s == size(24, 80)));
    assert_eq!(mux.tab_count(), 0);
    assert_eq!(mux.pane_count(), 0);
    let (command, last) = run(&mut mux, (task, action), true);
    let command = command.unwrap();
    assert_eq!(texts(&command), vec!["echo".to_string(), "hi".to_string()]);
    assert_eq!(command.get_cwd(), None);
    assert_eq!(command.get_env("WEZTERM_PANE").unwrap().to_str(), Some("0"));
    let spawned = match last {
        Action::Complete(spawned) => spawned,
        _ => panic!("the session should have been recorded"),
    };
    assert_eq!(mux.tab_count(), 1);
    assert_eq!(mux.pane_count(), 1);
    let tab = mux.get_tab(spawned.tab).unwrap();
    assert_eq!(tab.iter_panes(), vec![PositionedPane { pane_id: spawned.pane, size: size(24, 80) }]);
    assert_eq!(tab.get_active_pane(), Some(spawned.pane));
    let pane = mux.get_pane(spawned.pane).unwrap();
    assert_eq!(pane.domain_id, mux.default_domain().domain_id());
    assert!(pane.has_config && pane.has_clipboard && pane.has_download_handler);
    let shown = mux.get_window(window).unwrap();
    assert_eq!(shown.len(), 1);
    assert_eq!(shown.get_active(), Some(spawned.tab));
}

#[test]
fn second_tab_becomes_the_active_tab() {
    let mut mux = local_mux();
    let window = mux.new_empty_window().unwrap();
    let first = open_tab(&mut mux, window);
    assert_eq!(mux.get_window(window).unwrap().get_active(), Some(first.tab));
    let second = open_tab(&mut mux, window);
    assert_ne!(first.tab, second.tab);
    assert_ne!(first.pane, second.pane);
    let shown = mux.get_window(window).unwrap();
    assert_eq!(shown.len(), 2);
    assert_eq!(shown.idx_by_id(second.tab), Some(1));
    assert_eq!(shown.get_active(), Some(second.tab));
}

#[test]
fn unknown_domain_name_is_refused_and_changes_nothing() {
    let mut mux = local_mux();
    let window = mux.new_empty_window().unwrap();
    open_tab(&mut mux, window);
    let spawn = request(SpawnTabDomain::DomainName("ghost".to_string()), None, None);
    let (task, action) =
        term_window(window).spawn_command(&spawn, SpawnWhere::NewTab).begin(&mut mux, &no_defaults());
    assert!(task.is_finished());
    assert!(matches!(action, Action::Abort(MuxError::UnknownDomainName)));
    assert_eq!(mux.tab_count(), 1);
    assert_eq!(mux.pane_count(), 1);
    assert_eq!(mux.window_count(), 1);
    assert_eq!(mux.get_window(window).unwrap().len(), 1);
}

#[test]
fn domain_is_found_by_name_and_by_id() {
    let mut mux = local_mux();
    let window = mux.new_empty_window().unwrap();
    let id = mux.default_domain().domain_id();
    let by_name = request(SpawnTabDomain::DomainName("local".to_string()), None, None);
    let started = term_window(window).spawn_command(&by_name, SpawnWhere::NewTab).begin(&mut mux, &no_defaults());
    assert!(matches!(run(&mut mux, started, true).1, Action::Complete(_)));
    let by_id = request(SpawnTabDomain::DomainId(id), None, None);
    let started = term_window(window).spawn_command(&by_id, SpawnWhere::NewTab).begin(&mut mux, &no_defaults());
    assert!(matches!(run(&mut mux, started, true).1, Action::Complete(_)));
    let missing = request(SpawnTabDomain::DomainId(id + 41), None, None);
    let (task, action) =
        term_window(window).spawn_command(&missing, SpawnWhere::NewTab).begin(&mut mux, &no_defaults());
    assert!(task.is_finished());
    assert!(matches!(action, Action::Abort(MuxError::UnknownDomainId(d)) if d == id + 41));
    assert_eq!(mux.tab_count(), 2);
}

#[test]
fn horizontal_split_of_single_pane_tab() {
    let mut mux = local_mux();
    let window = mux.new_empty_window().unwrap();
    let first = open_tab(&mut mux, window);
    let spawn = request(SpawnTabDomain::DefaultDomain, None, None);
    let started = term_window(window)
        .spawn_command(&spawn, SpawnWhere::SplitPane(SplitDirection::Horizontal))
        .begin(&mut mux, &no_defaults());
    assert!(matches!(started.1, Action::OpenPty(s) if s == size(24, 39)));
    let (command, last) = run(&mut mux, started, true);
    assert_eq!(command.unwrap().get_env("WEZTERM_PANE").unwrap().to_str(), Some("1"));
    let spawned = match last {
        Action::Complete(spawned) => spawned,
        _ => panic!("the session should have been recorded"),
    };
    assert_eq!(spawned.tab, first.tab);
    assert_ne!(spawned.pane, first.pane);
    let tab = mux.get_tab(first.tab).unwrap();
    assert_eq!(
        tab.iter_panes(),
        vec![
            PositionedPane { pane_id: first.pane, size: size(24, 40) },
            PositionedPane { pane_id: spawned.pane, size: size(24, 39) },
        ]
    );
    assert_eq!(tab.get_active_pane(), Some(spawned.pane));
    assert_eq!(
        mux.get_pane(first.pane).unwrap().domain_id,
        mux.get_pane(spawned.pane).unwrap().domain_id
    );
    let added = mux.get_pane(spawned.pane).unwrap();
    assert!(added.has_config && added.has_clipboard && added.has_download_handler);
    assert_eq!(mux.tab_count(), 1);
    assert_eq!(mux.pane_count(), 2);
    let shown = mux.get_window(window).unwrap();
    assert_eq!(shown.len(), 1);
    assert_eq!(shown.get_active(), Some(first.tab));
}

#[test]
fn split_without_room_is_refused_before_anything_is_launched() {
    let mut mux = local_mux();
    let window = mux.new_empty_window().unwrap();
    let narrow = TermWindow { mux_window_id: window, terminal_size: size(24, 2), initial_size: size(24, 2) };
    let spawn = request(SpawnTabDomain::DefaultDomain, None, None);
    let started = narrow.spawn_command(&spawn, SpawnWhere::NewTab).begin(&mut mux, &no_defaults());
    assert!(matches!(run(&mut mux, started, true).1, Action::Complete(_)));
    let (task, action) = narrow
        .spawn_command(&spawn, SpawnWhere::SplitPane(SplitDirection::Horizontal))
        .begin(&mut mux, &no_defaults());
    assert!(task.is_finished());
    assert!(matches!(action, Action::Abort(MuxError::NoSpace)));
    assert_eq!(mux.pane_count(), 1);
}

#[test]
fn split_in_window_without_tabs_is_refused() {
    let mut mux = local_mux();
    let window = mux.new_empty_window().unwrap();
    let spawn = request(SpawnTabDomain::DefaultDomain, None, None);
    let (task, action) = term_window(window)
        .spawn_command(&spawn, SpawnWhere::SplitPane(SplitDirection::Vertical))
        .begin(&mut mux, &no_defaults());
    assert!(task.is_finished());
    assert!(matches!(action, Action::Abort(MuxError::NoActiveTab)));
}

#[test]
fn current_pane_domain_needs_a_current_pane() {
    let mut mux = local_mux();
    let window = mux.new_empty_window().unwrap();
    let spawn = request(SpawnTabDomain::CurrentPaneDomain, None, None);
    let (task, action) =
        term_window(window).spawn_command(&spawn, SpawnWhere::NewTab).begin(&mut mux, &no_defaults());
    assert!(task.is_finished());
    assert!(matches!(action, Action::Abort(MuxError::NoTabs)));
    let (_, action) =
        term_window(window + 7).spawn_command(&spawn, SpawnWhere::NewTab).begin(&mut mux, &no_defaults());
    assert!(matches!(action, Action::Abort(MuxError::NoTabs)));
}

#[test]
fn current_pane_domain_in_new_window_is_the_default_domain() {
    let mut mux = local_mux();
    let window = mux.new_empty_window().unwrap();
    let spawn = request(SpawnTabDomain::CurrentPaneDomain, None, None);
    let pending = term_window(window).spawn_command(&spawn, SpawnWhere::NewWindow);
    assert_eq!(pending.size, size(30, 100));
    let started = pending.begin(&mut mux, &no_defaults());
    assert_eq!(mux.window_count(), 2);
    assert!(matches!(started.1, Action::OpenPty(s) if s == size(30, 100)));
    let spawned = match run(&mut mux, started, true).1 {
        Action::Complete(spawned) => spawned,
        _ => panic!("the session should have been recorded"),
    };
    assert_eq!(mux.get_window(window).unwrap().len(), 0);
    let made = mux.get_window(window + 1).unwrap();
    assert_eq!(made.len(), 1);
    assert_eq!(made.get_active(), Some(spawned.tab));
    let pane = mux.get_pane(spawned.pane).unwrap();
    assert!(pane.has_config);
    assert!(!pane.has_clipboard);
    assert!(!pane.has_download_handler);
}

#[test]
fn current_pane_domain_whose_domain_is_gone_is_refused() {
    let mut mux = local_mux();
    let window = mux.new_empty_window().unwrap();
    let pane = mux.alloc_pane_id().unwrap();
    let tab = mux.add_tab_and_active_pane(&size(24, 80), Pane::new(pane, 77)).unwrap();
    assert_eq!(mux.add_tab_to_window(tab, window), Ok(()));
    let spawn = request(SpawnTabDomain::CurrentPaneDomain, None, None);
    let (task, action) =
        term_window(window).spawn_command(&spawn, SpawnWhere::NewTab).begin(&mut mux, &no_defaults());
    assert!(task.is_finished());
    assert!(matches!(action, Action::Abort(MuxError::UnresolvableCurrentDomain(77))));
}

#[test]
fn working_directory_is_inherited_from_the_active_pane() {
    let mut mux = local_mux();
    let window = mux.new_empty_window().unwrap();
    let first = open_tab(&mut mux, window);
    let reported =
        WorkingDir { scheme: "file".to_string(), path: "/home/u/project".to_string() };
    assert!(mux.set_pane_working_dir(first.pane, Some(reported)));
    let spawn = request(SpawnTabDomain::CurrentPaneDomain, Some(vec!["sh"]), None);
    let started =
        term_window(window).spawn_command(&spawn, SpawnWhere::NewTab).begin(&mut mux, &no_defaults());
    assert!(matches!(&started.1, Action::ProbeDir(dir) if dir == "/home/u/project"));
    let (command, last) = run(&mut mux, started, true);
    assert!(matches!(last, Action::Complete(_)));
    let command = command.unwrap();
    assert_eq!(command.get_cwd().unwrap().to_str(), Some("/home/u/project"));
    assert_eq!(texts(&command), vec!["sh".to_string()]);
}

#[test]
fn named_domain_inherits_no_working_directory() {
    let mut mux = local_mux();
    let window = mux.new_empty_window().unwrap();
    let first = open_tab(&mut mux, window);
    let reported = WorkingDir { scheme: "file".to_string(), path: "/home/u".to_string() };
    assert!(mux.set_pane_working_dir(first.pane, Some(reported)));
    let spawn = request(SpawnTabDomain::DomainName("local".to_string()), None, None);
    let started =
        term_window(window).spawn_command(&spawn, SpawnWhere::NewTab).begin(&mut mux, &no_defaults());
    assert!(matches!(started.1, Action::OpenPty(_)));
}

#[test]
fn explicit_directory_wins_over_the_inherited_one() {
    let mut mux = local_mux();
    let window = mux.new_empty_window().unwrap();
    let first = open_tab(&mut mux, window);
    let reported = WorkingDir { scheme: "file".to_string(), path: "/home/u".to_string() };
    assert!(mux.set_pane_working_dir(first.pane, Some(reported)));
    let spawn = request(SpawnTabDomain::DefaultDomain, Some(vec!["ls"]), Some("/srv/data"));
    let started =
        term_window(window).spawn_command(&spawn, SpawnWhere::NewTab).begin(&mut mux, &no_defaults());
    assert!(matches!(&started.1, Action::ProbeDir(dir) if dir == "/srv/data"));
    let (command, _) = run(&mut mux, started, false);
    assert_eq!(command.unwrap().get_cwd().unwrap().to_str(), Some("/srv/data"));
}

#[test]
fn missing_directory_is_ignored_and_the_spawn_goes_on() {
    let mut mux = local_mux();
    let window = mux.new_empty_window().unwrap();
    let first = open_tab(&mut mux, window);
    let reported = WorkingDir { scheme: "file".to_string(), path: "/no/such/dir".to_string() };
    assert!(mux.set_pane_working_dir(first.pane, Some(reported)));
    let spawn = request(SpawnTabDomain::DefaultDomain, None, None);
    let started =
        term_window(window).spawn_command(&spawn, SpawnWhere::NewTab).begin(&mut mux, &no_defaults());
    assert!(matches!(&started.1, Action::ProbeDir(dir) if dir == "/no/such/dir"));
    let (command, last) = run(&mut mux, started, false);
    assert!(matches!(last, Action::Complete(_)));
    assert_eq!(command.unwrap().get_cwd(), None);
    assert_eq!(mux.tab_count(), 2);
}

#[test]
fn non_text_directory_is_refused() {
    let mut mux = local_mux();
    let window = mux.new_empty_window().unwrap();
    let mut spawn = request(SpawnTabDomain::DefaultDomain, Some(vec!["ls"]), None);
    spawn.cwd = Some(vec![0x2f, 0xff]);
    let (task, action) =
        term_window(window).spawn_command(&spawn, SpawnWhere::NewTab).begin(&mut mux, &no_defaults());
    assert!(task.is_finished());
    assert!(matches!(action, Action::Abort(MuxError::NonTextCwd)));
    assert_eq!(mux.tab_count(), 0);
}

#[test]
fn environment_overrides_are_applied_in_order() {
    let mut mux = local_mux();
    let window = mux.new_empty_window().unwrap();
    let mut spawn = request(SpawnTabDomain::DefaultDomain, Some(vec!["env"]), None);
    spawn.set_environment_variables = vec![
        ("MUX_TEST_A".to_string(), "1".to_string()),
        ("MUX_TEST_B".to_string(), "2".to_string()),
        ("MUX_TEST_A".to_string(), "3".to_string()),
    ];
    let defaults = CommandDefaults {
        default_prog: None,
        environment: vec![("MUX_TEST_B".to_string(), "from-domain".to_string())],
    };
    let started = term_window(window).spawn_command(&spawn, SpawnWhere::NewTab).begin(&mut mux, &defaults);
    let (command, _) = run(&mut mux, started, true);
    let command = command.unwrap();
    assert_eq!(command.get_env("MUX_TEST_A").unwrap().to_str(), Some("3"));
    assert_eq!(command.get_env("MUX_TEST_B").unwrap().to_str(), Some("from-domain"));
}

#[test]
fn default_program_comes_from_the_defaults() {
    let mut mux = local_mux();
    let window = mux.new_empty_window().unwrap();
    let defaults = CommandDefaults {
        default_prog: Some(vec!["fish".to_string(), "-l".to_string()]),
        environment: vec![("TERM".to_string(), "xterm-256color".to_string())],
    };
    let spawn = request(SpawnTabDomain::DefaultDomain, None, None);
    let started = term_window(window).spawn_command(&spawn, SpawnWhere::NewTab).begin(&mut mux, &defaults);
    let (command, _) = run(&mut mux, started, true);
    let command = command.unwrap();
    assert_eq!(texts(&command), vec!["fish".to_string(), "-l".to_string()]);
    assert_eq!(command.get_env("TERM").unwrap().to_str(), Some("xterm-256color"));
    let started =
        term_window(window).spawn_command(&spawn, SpawnWhere::NewTab).begin(&mut mux, &no_defaults());
    let (command, _) = run(&mut mux, started, true);
    assert!(command.unwrap().is_default_prog());
}

#[test]
fn pane_id_in_environment_is_decimal() {
    let mut mux = local_mux();
    let window = mux.new_empty_window().unwrap();
    for _ in 0..12 {
        open_tab(&mut mux, window);
    }
    let spawn = request(SpawnTabDomain::DefaultDomain, None, None);
    let started =
        term_window(window).spawn_command(&spawn, SpawnWhere::NewTab).begin(&mut mux, &no_defaults());
    let (command, _) = run(&mut mux, started, true);
    assert_eq!(command.unwrap().get_env("WEZTERM_PANE").unwrap().to_str(), Some("12"));
}

#[test]
fn spawn_tab_asks_for_a_new_tab_in_the_given_domain() {
    let pending = term_window(4).spawn_tab(&SpawnTabDomain::DomainName("remote".to_string()));
    assert_eq!(pending.spawn_where, SpawnWhere::NewTab);
    assert_eq!(pending.src_window_id, 4);
    assert_eq!(pending.size, size(24, 80));
    assert!(pending.spawn.args.is_none());
    assert!(pending.spawn.cwd.is_none());
    assert!(pending.spawn.set_environment_variables.is_empty());
    assert!(matches!(&pending.spawn.domain, SpawnTabDomain::DomainName(name) if name == "remote"));
}

#[test]
fn default_request_is_for_the_current_pane_domain() {
    let spawn = SpawnCommand::default();
    assert!(matches!(spawn.domain, SpawnTabDomain::CurrentPaneDomain));
    assert!(spawn.args.is_none());
    assert!(spawn.cwd.is_none());
    assert!(spawn.set_environment_variables.is_empty());
}

#[test]
fn local_domain_is_always_attached() {
    let mut mux = local_mux();
    let _ = &mut mux;
    let mut ids = IdAllocator::new();
    let mut domain = LocalDomain::with_pty_system("wsl", 5u8, &mut ids).unwrap();
    assert_eq!(domain.domain_id(), 0);
    assert_eq!(domain.domain_name(), "wsl");
    assert_eq!(domain.domain_label(), "wsl");
    assert_eq!(domain.state(), DomainState::Attached);
    assert!(domain.spawnable());
    assert_eq!(*domain.pty_system(), 5u8);
    assert_eq!(domain.attach(), Ok(()));
    assert_eq!(domain.detach(), Err(MuxError::DetachNotSupported));
    assert_eq!(domain.state(), DomainState::Attached);
    domain.local_window_is_closing(0);
    assert_eq!(domain.domain_id(), 0);
    let second = LocalDomain::with_pty_system("other", 6u8, &mut ids).unwrap();
    assert_eq!(second.domain_id(), 1);
}

#[test]
fn local_domain_needs_an_id() {
    let mut ids = IdAllocator::resume(usize::MAX);
    assert!(matches!(
        LocalDomain::with_pty_system("late", (), &mut ids),
        Err(MuxError::IdsExhausted)
    ));
}
