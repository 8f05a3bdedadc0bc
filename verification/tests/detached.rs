use mux::command::CommandDefaults;
use mux::domain::{Domain, DomainState};
use mux::error::MuxError;
use mux::ids::{DomainId, PaneId, TabId, WindowId};
use mux::launch::{Action, Job, Launch, LaunchTarget};
use mux::layout::{SplitDirection, TerminalSize};
use mux::registry::Mux;
use mux::spawn::{SpawnCommand, SpawnTabDomain, SpawnWhere, TermWindow};
use portable_pty::CommandBuilder;

/// A domain that can be detached, and that refuses to start sessions while
/// it is.
struct Remote {
    id: DomainId,
    name: String,
    state: DomainState,
}

impl Domain for Remote {
    // What the contracts say of the domain; none of it is ever run.
    fn id(&self) -> DomainId {
        unreachable!()
    }

    fn name(&self) -> vstd::seq::Seq<char> {
        unreachable!()
    }

    fn attachment(&self) -> DomainState {
        unreachable!()
    }

    fn spawn_starts(
        &self,
        _: CommandDefaults,
        _: TerminalSize,
        _: Option<CommandBuilder>,
        _: Option<vstd::seq::Seq<char>>,
        _: WindowId,
        _: Result<(Launch, Action), MuxError>,
    ) -> bool {
        unreachable!()
    }

    fn split_starts(
        &self,
        _: Mux<Self>,
        _: CommandDefaults,
        _: Option<CommandBuilder>,
        _: Option<vstd::seq::Seq<char>>,
        _: TabId,
        _: PaneId,
        _: SplitDirection,
        _: Result<(Launch, Action), MuxError>,
    ) -> bool {
        unreachable!()
    }

    fn spawn(
        &self,
        defaults: &CommandDefaults,
        size: TerminalSize,
        command: Option<CommandBuilder>,
        command_dir: Option<String>,
        window: WindowId,
    ) -> Result<(Launch, Action), MuxError> {
        if self.state == DomainState::Detached {
            return Err(MuxError::DetachedDomain);
        }
        let job = Job { domain_id: self.id, size, target: LaunchTarget::NewTab { window } };
        Ok(Launch::begin(job, defaults, command, command_dir))
    }

    fn split_pane(
        &self,
        _mux: &Mux<Self>,
        _defaults: &CommandDefaults,
        _command: Option<CommandBuilder>,
        _command_dir: Option<String>,
        tab: TabId,
        _pane_id: PaneId,
        _direction: SplitDirection,
    ) -> Result<(Launch, Action), MuxError> {
        if self.state == DomainState::Detached {
            return Err(MuxError::DetachedDomain);
        }
        Err(MuxError::InvalidTab(tab))
    }

    fn spawnable(&self) -> bool {
        false
    }

    fn domain_id(&self) -> DomainId {
        self.id
    }

    fn domain_name(&self) -> &str {
        &self.name
    }

    fn domain_label(&self) -> &str {
        &self.name
    }

    fn attach(&mut self) -> Result<(), MuxError> {
        self.state = DomainState::Attached;
        Ok(())
    }

    fn detach(&mut self) -> Result<(), MuxError> {
        self.state = DomainState::Detached;
        Ok(())
    }

    fn state(&self) -> DomainState {
        self.state
    }
}

fn size(rows: u16, cols: u16) -> TerminalSize {
    TerminalSize { rows, cols, pixel_width: 0, pixel_height: 0 }
}

fn request(domain: SpawnTabDomain) -> SpawnCommand {
    SpawnCommand { args: None, cwd: None, set_environment_variables: Vec::new(), domain }
}

#[test]
fn detached_domain_refuses_before_anything_is_launched() {
    let mut remote = Remote { id: 0, name: "remote".to_string(), state: DomainState::Attached };
    assert_eq!(remote.detach(), Ok(()));
    assert_eq!(remote.state(), DomainState::Detached);
    assert!(!remote.spawnable());
    let mut mux = Mux::new(remote);
    let window = mux.new_empty_window().unwrap();
    let defaults = CommandDefaults { default_prog: None, environment: Vec::new() };
    let term = TermWindow { mux_window_id: window, terminal_size: size(24, 80), initial_size: size(24, 80) };
    for spawn_where in
        [SpawnWhere::NewTab, SpawnWhere::NewWindow, SpawnWhere::SplitPane(SplitDirection::Vertical)]
    {
        let pending = term.spawn_command(&request(SpawnTabDomain::DefaultDomain), spawn_where);
        let (task, action) = pending.begin(&mut mux, &defaults);
        assert!(task.is_finished());
        assert!(matches!(action, Action::Abort(MuxError::DetachedDomain)));
        assert_eq!(mux.tab_count(), 0);
        assert_eq!(mux.pane_count(), 0);
    }
    let direct = mux.default_domain().spawn(&defaults, size(24, 80), None, None, window);
    assert!(matches!(direct, Err(MuxError::DetachedDomain)));
}
