//! The creation of one session, step by step. Opening a PTY and starting a
//! process are the host's work; what to ask of the host next, and what to
//! record once it is done, is decided here.

use crate::command::{
    command_argv, command_cwd, command_env, command_set_cwd, command_set_env, env_key, env_texts,
    env_with, CommandDefaults,
};
use crate::domain::Domain;
use crate::error::MuxError;
use crate::ids::{DomainId, PaneId, TabId, WindowId};
use crate::layout::{split_sizes, SplitDirection, TerminalSize};
use crate::pane::Pane;
use crate::registry::{split_outcome, tab_ids, window_ids, Mux};
use crate::tab::{split_pair, PositionedPane};
use crate::text::{decimal_digits, decimal_text};
use portable_pty::CommandBuilder;
use vstd::prelude::*;

verus! {

/// Where a new session goes once it runs.
#[derive(Clone, Copy, Debug, PartialEq, Eq, Structural)]
pub enum LaunchTarget {
    /// Into a tab of its own, appended to a window.
    NewTab { window: WindowId },
    /// Into the second share of a pane that is divided for it.
    Split { tab: TabId, pane: PaneId, direction: SplitDirection },
}

/// What stays the same through a launch.
#[derive(Clone, Copy, Debug, PartialEq, Eq, Structural)]
pub struct Job {
    /// The domain that creates the session.
    pub domain_id: DomainId,
    /// The size of the session's terminal.
    pub size: TerminalSize,
    /// Where the session goes.
    pub target: LaunchTarget,
}

/// A launch in progress: what it waits for, and what it holds until then.
pub enum Launch {
    /// Waiting to hear whether the working directory exists.
    ProbingDir { job: Job, command: CommandBuilder, dir: String },
    /// Waiting for the PTY.
    OpeningPty { job: Job, command: CommandBuilder },
    /// Waiting for the process to start on the PTY.
    SpawningChild { job: Job, pane: PaneId },
    /// Waiting for a writer to the PTY's controlling end.
    CloningWriter { job: Job, pane: PaneId },
    /// Over, well or badly.
    Finished,
}

/// What the host reports.
#[derive(Clone, Copy, Debug, PartialEq, Eq, Structural)]
pub enum Event {
    /// Whether the directory it was asked about exists.
    DirProbed(bool),
    /// The PTY is open.
    PtyOpened,
    /// The process runs.
    ChildSpawned,
    /// The writer is there.
    WriterCloned,
    /// What it was asked to do could not be done.
    Failed,
}

/// The session that a launch has created and recorded.
#[derive(Clone, Copy, Debug, PartialEq, Eq, Structural)]
pub struct Spawned {
    /// The tab that holds the session's pane.
    pub tab: TabId,
    /// The session's pane.
    pub pane: PaneId,
}

/// What the host is asked to do next.
pub enum Action {
    /// Find out whether this directory exists.
    ProbeDir(String),
    /// Open a PTY of this size.
    OpenPty(TerminalSize),
    /// Start this command on the PTY's subordinate end.
    SpawnChild(CommandBuilder),
    /// Get a writer to the PTY's controlling end.
    CloneWriter,
    /// Nothing more: the session runs and is recorded.
    Complete(Spawned),
    /// Nothing more: the launch is abandoned, and what it had opened is to
    /// be released.
    Abort(MuxError),
}

/// The name of the variable that tells a session which pane it runs in.
pub open spec fn pane_variable() -> Seq<char> {
    "WEZTERM_PANE"@
}

/// The text of an optional string.
pub open spec fn text_of(text: Option<String>) -> Option<Seq<char>> {
    match text {
        Some(t) => Some(t@),
        None => None,
    }
}

/// Whether `cmd` is the command that a domain with these defaults runs for
/// `command`: the command that was asked for, decorated, or the default
/// program where none was asked for.
pub open spec fn prepared(
    defaults: CommandDefaults,
    command: Option<CommandBuilder>,
    cmd: CommandBuilder,
) -> bool {
    match command {
        Some(given) => {
            &&& command_argv(cmd) == command_argv(given)
            &&& command_cwd(cmd) == command_cwd(given)
            &&& command_env(cmd) == env_with(command_env(given), env_texts(defaults.environment@))
        },
        None => {
            &&& command_argv(cmd) == defaults.default_argv()
            &&& command_cwd(cmd) is None
            &&& exists|base: Map<Seq<char>, Seq<char>>|
                command_env(cmd) == #[trigger] env_with(base, env_texts(defaults.environment@))
        },
    }
}

/// Whether `started` is the first step of a launch for `job`: with a
/// working directory to try, the launch asks whether it exists; without
/// one, it asks for the PTY.
pub open spec fn begins(
    job: Job,
    defaults: CommandDefaults,
    command: Option<CommandBuilder>,
    command_dir: Option<Seq<char>>,
    started: (Launch, Action),
) -> bool {
    match command_dir {
        Some(wanted) => {
            &&& started.0 matches Launch::ProbingDir { job: j, command: c, dir: d }
            &&& j == job
            &&& prepared(defaults, command, c)
            &&& d@ == wanted
            &&& started.1 matches Action::ProbeDir(asked)
            &&& asked@ == wanted
        },
        None => {
            &&& started.0 matches Launch::OpeningPty { job: j, command: c }
            &&& j == job
            &&& prepared(defaults, command, c)
            &&& started.1 matches Action::OpenPty(size)
            &&& size == job.size
        },
    }
}

/// Whether a registry is left as it was but for its panes, its tabs and the
/// counter of tab ids.
pub open spec fn same_but_sessions<D>(before: Mux<D>, after: Mux<D>) -> bool {
    &&& after.domains() == before.domains()
    &&& after.default_index() == before.default_index()
    &&& after.pane_counter() == before.pane_counter()
    &&& after.window_counter() == before.window_counter()
}

/// Whether `pane` can be recorded: its id has been handed out and no pane is
/// recorded under it.
pub open spec fn recordable<D>(mux: Mux<D>, pane: PaneId) -> bool {
    !mux.has_pane(pane) && pane < mux.pane_counter().issued()
}

/// What the last step of a launch into a tab of its own returns.
pub open spec fn new_tab_outcome<D>(mux: Mux<D>, pane: PaneId, window: WindowId) -> Result<
    Spawned,
    MuxError,
> {
    if !recordable(mux, pane) {
        Err(MuxError::InvalidId)
    } else if mux.tab_counter().exhausted() {
        Err(MuxError::IdsExhausted)
    } else if !mux.has_window(window) {
        Err(MuxError::NoSuchWindow(window))
    } else {
        Ok(Spawned { tab: mux.tab_counter().issued() as usize, pane })
    }
}

/// What the last step of a launch into a divided pane returns.
pub open spec fn split_pane_outcome<D>(
    mux: Mux<D>,
    pane: PaneId,
    tab: TabId,
    target: PaneId,
    direction: SplitDirection,
) -> Result<Spawned, MuxError> {
    match split_outcome(mux, tab, target, direction, pane) {
        Ok(_) => Ok(Spawned { tab, pane }),
        Err(e) => Err(e),
    }
}

/// What the last step of a launch into a tab of its own leaves in the
/// registry. Where the pane cannot be recorded or no tab id is left, nothing
/// changes. Otherwise the pane is recorded, and with it a tab that holds it
/// alone and fills `job.size`; the tab is appended to the window, or, where
/// the window is gone, stays in no window.
pub open spec fn tab_recorded<D>(
    before: Mux<D>,
    after: Mux<D>,
    job: Job,
    pane: PaneId,
    window: WindowId,
) -> bool {
    &&& same_but_sessions(before, after)
    &&& window_ids(after.windows()) == window_ids(before.windows())
    &&& if !recordable(before, pane) || before.tab_counter().exhausted() {
        after.same_as(before)
    } else {
        let tab = before.tab_counter().issued() as usize;
        &&& after.tab_counter() == before.tab_counter().after(1)
        &&& after.tab_counter().issued() == before.tab_counter().issued() + 1
        &&& after.panes() == before.panes().push(Pane::new_spec(pane, job.domain_id))
        &&& after.tabs().len() == before.tabs().len() + 1
        &&& after.tabs().drop_last() == before.tabs()
        &&& after.has_tab(tab)
        &&& after.tab(tab) == after.tabs().last()
        &&& after.tab(tab).id() == tab
        &&& after.tab(tab).size() == job.size
        &&& after.tab(tab).panes() == seq![PositionedPane { pane_id: pane, size: job.size }]
        &&& after.tab(tab).active() == Some(pane)
        &&& after.has_pane(pane)
        &&& after.pane(pane) == Pane::new_spec(pane, job.domain_id)
        &&& forall|other: TabId|
            before.has_tab(other) ==> after.has_tab(other) && after.tab(other) == before.tab(other)
        &&& forall|other: PaneId|
            before.has_pane(other) ==> after.has_pane(other) && after.pane(other) == before.pane(
                other,
            )
        &&& !before.has_window(window) ==> after.windows() == before.windows()
        &&& before.has_window(window) ==> {
            &&& after.window(window).tabs() == before.window(window).tabs().push(tab)
            &&& after.window(window).active_index() == before.window(window).active_index()
            &&& forall|other: WindowId|
                before.has_window(other) && other != window ==> after.window(other)
                    == before.window(other)
        }
    }
}

/// What the last step of a launch into a divided pane leaves in the
/// registry. Where the split is refused nothing changes. Otherwise the new
/// pane is recorded and stands in the tab right after the pane that was
/// divided, the two sharing the space that the one had; the new pane is the
/// tab's active pane.
pub open spec fn split_recorded<D>(
    before: Mux<D>,
    after: Mux<D>,
    job: Job,
    pane: PaneId,
    tab: TabId,
    target: PaneId,
    direction: SplitDirection,
) -> bool {
    &&& same_but_sessions(before, after)
    &&& after.windows() == before.windows()
    &&& after.tab_counter() == before.tab_counter()
    &&& tab_ids(after.tabs()) == tab_ids(before.tabs())
    &&& if split_outcome(before, tab, target, direction, pane) is Err {
        after.same_as(before)
    } else {
        let at = before.tab(tab).position_of(target);
        &&& after.panes() == before.panes().push(Pane::new_spec(pane, job.domain_id))
        &&& after.has_pane(pane)
        &&& after.pane(pane) == Pane::new_spec(pane, job.domain_id)
        &&& after.tab(tab).id() == tab
        &&& after.tab(tab).size() == before.tab(tab).size()
        &&& after.tab(tab).panes() == before.tab(tab).panes().take(at) + split_pair(
            target,
            split_sizes(before.tab(tab).panes()[at].size, direction),
            pane,
        ) + before.tab(tab).panes().skip(at + 1)
        &&& after.tab(tab).active() == Some(pane)
        &&& forall|other: TabId|
            before.has_tab(other) && other != tab ==> after.tab(other) == before.tab(other)
        &&& forall|other: PaneId|
            before.has_pane(other) ==> after.has_pane(other) && after.pane(other) == before.pane(
                other,
            )
    }
}

/// The last thing a launch asks of the host: nothing more, the session
/// being recorded or the launch abandoned.
pub open spec fn closing(outcome: Result<Spawned, MuxError>) -> Action {
    match outcome {
        Ok(spawned) => Action::Complete(spawned),
        Err(e) => Action::Abort(e),
    }
}

/// Whether a registry is left as it was but for one pane id handed out.
pub open spec fn pane_id_taken<D>(before: Mux<D>, after: Mux<D>) -> bool {
    &&& after.domains() == before.domains()
    &&& after.default_index() == before.default_index()
    &&& after.tabs() == before.tabs()
    &&& after.panes() == before.panes()
    &&& after.windows() == before.windows()
    &&& after.tab_counter() == before.tab_counter()
    &&& after.window_counter() == before.window_counter()
    &&& after.pane_counter() == before.pane_counter().after(1)
    &&& after.pane_counter().issued() == before.pane_counter().issued() + 1
}

/// One step of a launch: what the launch becomes and what it asks of the
/// host next, for what it was and what the host reported, and what the step
/// leaves in the registry.
///
/// Told whether the directory exists, the launch makes it the command's
/// working directory if it does and asks for the PTY. Told that the PTY is
/// open, it takes a pane id, puts it in the command's environment and hands
/// the command over to be started. Told that the process runs, it asks for
/// the writer. Told that the writer is there, it records the session. A
/// failure ends the launch, and so does a report that it was not waiting
/// for; neither leaves anything in the registry.
pub open spec fn steps<D>(
    launch: Launch,
    event: Event,
    before: Mux<D>,
    next: (Launch, Action),
    after: Mux<D>,
) -> bool {
    match (launch, event) {
        (Launch::ProbingDir { job, command, dir }, Event::DirProbed(found)) => {
            &&& after.same_as(before)
            &&& next.0 matches Launch::OpeningPty { job: j, command: c }
            &&& j == job
            &&& command_argv(c) == command_argv(command)
            &&& command_env(c) == command_env(command)
            &&& command_cwd(c) == if found {
                Some(dir@)
            } else {
                command_cwd(command)
            }
            &&& next.1 matches Action::OpenPty(size)
            &&& size == job.size
        },
        (Launch::OpeningPty { job, command }, Event::PtyOpened) => {
            if before.pane_counter().exhausted() {
                &&& after.same_as(before)
                &&& next.0 is Finished
                &&& next.1 == Action::Abort(MuxError::IdsExhausted)
            } else {
                let pane = before.pane_counter().issued() as usize;
                &&& pane_id_taken(before, after)
                &&& recordable(after, pane)
                &&& next.0 == (Launch::SpawningChild { job, pane })
                &&& next.1 matches Action::SpawnChild(c)
                &&& command_argv(c) == command_argv(command)
                &&& command_cwd(c) == command_cwd(command)
                &&& command_env(c) == command_env(command).insert(
                    env_key(pane_variable()),
                    decimal_digits(pane as nat),
                )
            }
        },
        (Launch::SpawningChild { job, pane }, Event::ChildSpawned) => {
            &&& after.same_as(before)
            &&& next.0 == (Launch::CloningWriter { job, pane })
            &&& next.1 is CloneWriter
        },
        (Launch::CloningWriter { job, pane }, Event::WriterCloned) => {
            &&& next.0 is Finished
            &&& match job.target {
                LaunchTarget::NewTab { window } => {
                    &&& next.1 == closing(new_tab_outcome(before, pane, window))
                    &&& tab_recorded(before, after, job, pane, window)
                },
                LaunchTarget::Split { tab, pane: target, direction } => {
                    &&& next.1 == closing(split_pane_outcome(before, pane, tab, target, direction))
                    &&& split_recorded(before, after, job, pane, tab, target, direction)
                },
            }
        },
        (Launch::Finished, _) => {
            &&& after.same_as(before)
            &&& next.0 is Finished
            &&& next.1 == Action::Abort(MuxError::UnexpectedEvent)
        },
        (_, Event::Failed) => {
            &&& after.same_as(before)
            &&& next.0 is Finished
            &&& next.1 == Action::Abort(MuxError::LaunchFailed)
        },
        _ => {
            &&& after.same_as(before)
            &&& next.0 is Finished
            &&& next.1 == Action::Abort(MuxError::UnexpectedEvent)
        },
    }
}

impl Launch {
    /// What stays the same through the launch; `None` once it is over.
    pub open spec fn job(self) -> Option<Job> {
        match self {
            Launch::ProbingDir { job, .. } => Some(job),
            Launch::OpeningPty { job, .. } => Some(job),
            Launch::SpawningChild { job, .. } => Some(job),
            Launch::CloningWriter { job, .. } => Some(job),
            Launch::Finished => None,
        }
    }

    /// Whether the launch is over.
    pub fn is_finished(&self) -> (over: bool)
        ensures
            over == (*self is Finished),
    {
        match self {
            Launch::Finished => true,
            _ => false,
        }
    }

    /// What stays the same through the launch; `None` once it is over.
    pub fn get_job(&self) -> (job: Option<Job>)
        ensures
            job == self.job(),
    {
        match self {
            Launch::ProbingDir { job, .. } => Some(*job),
            Launch::OpeningPty { job, .. } => Some(*job),
            Launch::SpawningChild { job, .. } => Some(*job),
            Launch::CloningWriter { job, .. } => Some(*job),
            Launch::Finished => None,
        }
    }

    /// The first step of a launch for `job`. The command is the one asked
    /// for, decorated with the defaults, or the default program. With a
    /// working directory to try, the host is asked whether it exists;
    /// without one, it is asked for the PTY.
    pub fn begin(
        job: Job,
        defaults: &CommandDefaults,
        command: Option<CommandBuilder>,
        command_dir: Option<String>,
    ) -> (started: (Launch, Action))
        ensures
            begins(job, *defaults, command, text_of(command_dir), started),
            started.0.job() == Some(job),
    {
        let cmd = match command {
            Some(given) => {
                let mut cmd = given;
                defaults.apply_cmd_defaults(&mut cmd);
                cmd
            },
            None => defaults.build_prog(),
        };
        match command_dir {
            Some(dir) => {
                let asked = dir.clone();
                (Launch::ProbingDir { job, command: cmd, dir }, Action::ProbeDir(asked))
            },
            None => (Launch::OpeningPty { job, command: cmd }, Action::OpenPty(job.size)),
        }
    }

    /// The last step of a launch into a tab of its own: records the pane and
    /// a tab that holds it alone, and appends the tab to the window. Where
    /// the pane cannot be recorded or no tab id is left, nothing is
    /// recorded. Where the window is gone, the pane and its tab stay
    /// recorded, in no window.
    pub fn record_tab<D: Domain>(mux: &mut Mux<D>, job: Job, pane: PaneId, window: WindowId) -> (
        recorded: Result<Spawned, MuxError>)
        requires
            old(mux).well_formed(),
        ensures
            final(mux).well_formed(),
            recorded == new_tab_outcome(*old(mux), pane, window),
            tab_recorded(*old(mux), *final(mux), job, pane, window),
    {
        let tab = match mux.add_tab_and_active_pane(&job.size, Pane::new(pane, job.domain_id)) {
            Ok(tab) => tab,
            Err(e) => {
                return Err(e);
            },
        };
        proof {
            if old(mux).has_window(window) {
                let held = old(mux).window(window).tabs();
                crate::lookup::first_position_exists(
                    crate::registry::window_ids(old(mux).windows()),
                    window,
                );
                if held.contains(tab) {
                    let k = choose|k: int| 0 <= k < held.len() && held[k] == tab;
                    assert(held[k] < old(mux).tab_counter().issued());
                }
            }
        }
        match mux.add_tab_to_window(tab, window) {
            Ok(()) => Ok(Spawned { tab, pane }),
            Err(e) => Err(e),
        }
    }

    /// The last step of a launch into a divided pane: divides the pane,
    /// puts the new pane in the second share and records it. Where the split
    /// is refused nothing changes.
    pub fn record_split<D: Domain>(
        mux: &mut Mux<D>,
        job: Job,
        pane: PaneId,
        tab: TabId,
        target: PaneId,
        direction: SplitDirection,
    ) -> (recorded: Result<Spawned, MuxError>)
        requires
            old(mux).well_formed(),
        ensures
            final(mux).well_formed(),
            recorded == split_pane_outcome(*old(mux), pane, tab, target, direction),
            split_recorded(*old(mux), *final(mux), job, pane, tab, target, direction),
    {
        match mux.split_and_insert(tab, target, direction, Pane::new(pane, job.domain_id)) {
            Ok(_) => Ok(Spawned { tab, pane }),
            Err(e) => Err(e),
        }
    }

    /// Takes the launch one step on: for what the host reported, what the
    /// launch becomes and what it asks of the host next.
    pub fn step<D: Domain>(self, event: Event, mux: &mut Mux<D>) -> (next: (Launch, Action))
        requires
            old(mux).well_formed(),
        ensures
            final(mux).well_formed(),
            steps(self, event, *old(mux), next, *final(mux)),
    {
        match self {
            Launch::ProbingDir { job, command, dir } => match event {
                Event::DirProbed(found) => {
                    let mut command = command;
                    if found {
                        command_set_cwd(&mut command, dir.as_str());
                    }
                    (Launch::OpeningPty { job, command }, Action::OpenPty(job.size))
                },
                Event::Failed => (Launch::Finished, Action::Abort(MuxError::LaunchFailed)),
                _ => (Launch::Finished, Action::Abort(MuxError::UnexpectedEvent)),
            },
            Launch::OpeningPty { job, command } => match event {
                Event::PtyOpened => {
                    match mux.alloc_pane_id() {
                        Some(pane) => {
                            let mut command = command;
                            command_set_env(
                                &mut command,
                                "WEZTERM_PANE",
                                decimal_text(pane).as_str(),
                            );
                            (Launch::SpawningChild { job, pane }, Action::SpawnChild(command))
                        },
                        None => (Launch::Finished, Action::Abort(MuxError::IdsExhausted)),
                    }
                },
                Event::Failed => (Launch::Finished, Action::Abort(MuxError::LaunchFailed)),
                _ => (Launch::Finished, Action::Abort(MuxError::UnexpectedEvent)),
            },
            Launch::SpawningChild { job, pane } => match event {
                Event::ChildSpawned => (Launch::CloningWriter { job, pane }, Action::CloneWriter),
                Event::Failed => (Launch::Finished, Action::Abort(MuxError::LaunchFailed)),
                _ => (Launch::Finished, Action::Abort(MuxError::UnexpectedEvent)),
            },
            Launch::CloningWriter { job, pane } => match event {
                Event::WriterCloned => {
                    let recorded = match job.target {
                        LaunchTarget::NewTab { window } => Launch::record_tab(
                            mux,
                            job,
                            pane,
                            window,
                        ),
                        LaunchTarget::Split { tab, pane: target, direction } => {
                            Launch::record_split(mux, job, pane, tab, target, direction)
                        },
                    };
                    match recorded {
                        Ok(spawned) => (Launch::Finished, Action::Complete(spawned)),
                        Err(e) => (Launch::Finished, Action::Abort(e)),
                    }
                },
                Event::Failed => (Launch::Finished, Action::Abort(MuxError::LaunchFailed)),
                _ => (Launch::Finished, Action::Abort(MuxError::UnexpectedEvent)),
            },
            Launch::Finished => (Launch::Finished, Action::Abort(MuxError::UnexpectedEvent)),
        }
    }
}

/// A session that has been created in a tab of its own is recorded: its
/// tab can be found under its id and holds exactly one pane, the session's,
/// and that pane belongs to the domain that created it.
pub proof fn spawned_tab_holds_one_pane<D>(
    job: Job,
    pane: PaneId,
    window: WindowId,
    before: Mux<D>,
    next: (Launch, Action),
    after: Mux<D>,
)
    requires
        job.target == (LaunchTarget::NewTab { window }),
        steps(Launch::CloningWriter { job, pane }, Event::WriterCloned, before, next, after),
        next.1 is Complete,
    ensures
        next.1->Complete_0.pane == pane,
        after.has_tab(next.1->Complete_0.tab),
        after.tab(next.1->Complete_0.tab).id() == next.1->Complete_0.tab,
        after.tab(next.1->Complete_0.tab).panes().len() == 1,
        after.tab(next.1->Complete_0.tab).panes()[0].pane_id == pane,
        after.tab(next.1->Complete_0.tab).active() == Some(pane),
        after.has_pane(pane),
        after.pane(pane).domain_id == job.domain_id,
        after.has_window(window),
        after.window(window).tabs().last() == next.1->Complete_0.tab,
{
    assert(window_ids(after.windows()) == window_ids(before.windows()));
}

/// A session that has been created in a split is recorded: its tab has
/// exactly one pane more than before, the pane that was divided is still
/// there, the new pane is another one, and it belongs to the domain that
/// created it.
pub proof fn split_adds_one_pane<D>(
    job: Job,
    pane: PaneId,
    tab: TabId,
    target: PaneId,
    direction: SplitDirection,
    before: Mux<D>,
    next: (Launch, Action),
    after: Mux<D>,
)
    requires
        job.target == (LaunchTarget::Split { tab, pane: target, direction }),
        steps(Launch::CloningWriter { job, pane }, Event::WriterCloned, before, next, after),
        next.1 is Complete,
    ensures
        next.1->Complete_0 == (Spawned { tab, pane }),
        after.tab(tab).panes().len() == before.tab(tab).panes().len() + 1,
        before.tab(tab).holds(target),
        after.tab(tab).holds(target),
        after.tab(tab).holds(pane),
        !before.tab(tab).holds(pane),
        target != pane,
        after.has_pane(pane),
        after.pane(pane).domain_id == job.domain_id,
        forall|other: PaneId| before.tab(tab).holds(other) ==> after.tab(tab).holds(other),
{
    let held = before.tab(tab).panes();
    let ids = crate::tab::held_ids(held);
    let witness = choose|i: int| 0 <= i < held.len() && (#[trigger] held[i]).pane_id == target;
    assert(ids[witness] == target);
    crate::lookup::first_position_exists(ids, target);
    let at = before.tab(tab).position_of(target);
    let sizes = split_sizes(held[at].size, direction);
    let pair = split_pair(target, sizes, pane);
    let now = after.tab(tab).panes();
    assert(now == held.take(at) + pair + held.skip(at + 1));
    assert(now.len() == held.len() + 1);
    assert(now[at] == pair[0]);
    assert(now[at + 1] == pair[1]);
    assert forall|other: PaneId| before.tab(tab).holds(other) implies after.tab(tab).holds(
        other,
    ) by {
        let i = choose|i: int| 0 <= i < held.len() && (#[trigger] held[i]).pane_id == other;
        if i < at {
            assert(now[i] == held[i]);
        } else if i == at {
            assert(now[at].pane_id == other);
        } else {
            assert(now[i + 1] == held[i]);
        }
    }
}

/// A working directory that does not exist does not end a launch: the
/// launch goes on to ask for the PTY, with the command's working directory
/// as it was before.
pub proof fn missing_dir_is_passed_over<D>(
    job: Job,
    command: CommandBuilder,
    dir: String,
    before: Mux<D>,
    next: (Launch, Action),
    after: Mux<D>,
)
    requires
        steps(
            Launch::ProbingDir { job, command, dir },
            Event::DirProbed(false),
            before,
            next,
            after,
        ),
    ensures
        next.0 is OpeningPty,
        next.0->OpeningPty_job == job,
        command_cwd(next.0->OpeningPty_command) == command_cwd(command),
        command_argv(next.0->OpeningPty_command) == command_argv(command),
        next.1 is OpenPty,
        after.same_as(before),
{
}

/// A launch that is abandoned leaves no session behind: nothing is recorded
/// unless the session ran and only its window was gone, in which case its
/// pane and tab are recorded in no window.
pub proof fn abandoned_launch_records_nothing<D>(
    launch: Launch,
    event: Event,
    before: Mux<D>,
    next: (Launch, Action),
    after: Mux<D>,
)
    requires
        steps(launch, event, before, next, after),
        next.1 is Abort,
        !(next.1->Abort_0 is NoSuchWindow),
    ensures
        next.0 is Finished,
        after.tabs() == before.tabs(),
        after.panes() == before.panes(),
        after.windows() == before.windows(),
{
}

} // verus!
