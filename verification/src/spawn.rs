//! Requests to open a session: which domain serves a request, in which
//! directory the session starts, what it runs, and where it is shown.

use crate::command::{
    arg_texts, command_argv, command_cwd, command_env, command_from_argv, command_set_cwd,
    env_texts, env_with, set_env_vars, CommandDefaults,
};
use crate::domain::{Domain, DomainState};
use crate::error::MuxError;
use crate::ids::{DomainId, PaneId, TabId, WindowId};
use crate::launch::{steps, text_of, Action, Event, Job, Launch, Spawned};
use crate::layout::{SplitDirection, TerminalSize};
use crate::pane::{Pane, WorkingDir};
use crate::registry::{pane_ids, window_ids, Mux};
use crate::text::{
    drive_slash_on_ascii_path, percent_decode_text, percent_decoded, plain_path_decodes_to_itself,
    same_text, strip_drive_slash, text_of_bytes, without_drive_slash,
};
use portable_pty::CommandBuilder;
use vstd::prelude::*;
use vstd::utf8::{decode_utf8, encode_utf8, is_ascii_chars, valid_utf8};

verus! {

/// Where a new session is shown.
#[derive(Copy, Debug, Clone, Eq, PartialEq, Structural)]
pub enum SpawnWhere {
    NewWindow,
    NewTab,
    SplitPane(SplitDirection),
}

/// How a request names the domain that is to serve it.
#[derive(Debug)]
pub enum SpawnTabDomain {
    /// The registry's default domain.
    DefaultDomain,
    /// The domain of the pane that the request came from.
    CurrentPaneDomain,
    /// The domain with this name.
    DomainName(String),
    /// The domain with this id.
    DomainId(DomainId),
}

/// What a `SpawnTabDomain` says.
pub enum DomainSelector {
    Default,
    CurrentPane,
    Named(Seq<char>),
    WithId(DomainId),
}

impl View for SpawnTabDomain {
    type V = DomainSelector;

    open spec fn view(&self) -> DomainSelector {
        match self {
            SpawnTabDomain::DefaultDomain => DomainSelector::Default,
            SpawnTabDomain::CurrentPaneDomain => DomainSelector::CurrentPane,
            SpawnTabDomain::DomainName(name) => DomainSelector::Named(name@),
            SpawnTabDomain::DomainId(id) => DomainSelector::WithId(*id),
        }
    }
}

/// A request to open a session.
#[derive(Debug)]
pub struct SpawnCommand {
    /// The program to run, with its arguments; the domain's default program
    /// where there is none.
    pub args: Option<Vec<String>>,
    /// The directory to start in, as the bytes of its path.
    pub cwd: Option<Vec<u8>>,
    /// Variables to set in the session's environment, in order.
    pub set_environment_variables: Vec<(String, String)>,
    /// The domain that is to serve the request.
    pub domain: SpawnTabDomain,
}

/// What a `SpawnCommand` says.
pub struct SpawnRequest {
    pub domain: DomainSelector,
    pub args: Option<Seq<Seq<char>>>,
    pub cwd: Option<Seq<u8>>,
    pub env: Seq<(Seq<char>, Seq<char>)>,
}

impl View for SpawnCommand {
    type V = SpawnRequest;

    open spec fn view(&self) -> SpawnRequest {
        SpawnRequest {
            domain: self.domain@,
            args: match self.args {
                Some(args) => Some(arg_texts(args@)),
                None => None,
            },
            cwd: match self.cwd {
                Some(bytes) => Some(bytes@),
                None => None,
            },
            env: env_texts(self.set_environment_variables@),
        }
    }
}

impl SpawnTabDomain {
    /// A copy of the selector.
    pub fn duplicate(&self) -> (copy: SpawnTabDomain)
        ensures
            copy@ == self@,
    {
        match self {
            SpawnTabDomain::DefaultDomain => SpawnTabDomain::DefaultDomain,
            SpawnTabDomain::CurrentPaneDomain => SpawnTabDomain::CurrentPaneDomain,
            SpawnTabDomain::DomainName(name) => SpawnTabDomain::DomainName(name.clone()),
            SpawnTabDomain::DomainId(id) => SpawnTabDomain::DomainId(*id),
        }
    }
}

/// A copy of a list of strings.
fn copy_strings(strings: &Vec<String>) -> (copy: Vec<String>)
    ensures
        arg_texts(copy@) == arg_texts(strings@),
{
    let mut copy: Vec<String> = Vec::new();
    let mut done: usize = 0;
    while done < strings.len()
        invariant
            done <= strings@.len(),
            copy@.len() == done,
            forall|i: int| 0 <= i < done ==> copy@[i]@ == strings@[i]@,
        decreases strings.len() - done,
    {
        copy.push(strings[done].clone());
        done += 1;
    }
    assert(arg_texts(copy@) =~= arg_texts(strings@));
    copy
}

/// A copy of a list of variables.
fn copy_vars(vars: &Vec<(String, String)>) -> (copy: Vec<(String, String)>)
    ensures
        env_texts(copy@) == env_texts(vars@),
{
    let mut copy: Vec<(String, String)> = Vec::new();
    let mut done: usize = 0;
    while done < vars.len()
        invariant
            done <= vars@.len(),
            copy@.len() == done,
            forall|i: int|
                0 <= i < done ==> copy@[i].0@ == vars@[i].0@ && copy@[i].1@ == vars@[i].1@,
        decreases vars.len() - done,
    {
        copy.push((vars[done].0.clone(), vars[done].1.clone()));
        done += 1;
    }
    assert(env_texts(copy@) =~= env_texts(vars@));
    copy
}

/// A copy of a list of bytes.
fn copy_bytes(bytes: &Vec<u8>) -> (copy: Vec<u8>)
    ensures
        copy@ == bytes@,
{
    let mut copy: Vec<u8> = Vec::new();
    let mut done: usize = 0;
    while done < bytes.len()
        invariant
            done <= bytes@.len(),
            copy@ == bytes@.take(done as int),
        decreases bytes.len() - done,
    {
        copy.push(bytes[done]);
        assert(bytes@.take(done + 1) =~= bytes@.take(done as int).push(bytes@[done as int]));
        done += 1;
    }
    assert(bytes@.take(bytes@.len() as int) =~= bytes@);
    copy
}

impl SpawnCommand {
    /// A copy of the request.
    pub fn duplicate(&self) -> (copy: SpawnCommand)
        ensures
            copy@ == self@,
    {
        SpawnCommand {
            args: match &self.args {
                Some(args) => Some(copy_strings(args)),
                None => None,
            },
            cwd: match &self.cwd {
                Some(bytes) => Some(copy_bytes(bytes)),
                None => None,
            },
            set_environment_variables: copy_vars(&self.set_environment_variables),
            domain: self.domain.duplicate(),
        }
    }
}

impl Default for SpawnCommand {
    /// The request that asks for nothing in particular: the default program
    /// in the domain of the current pane.
    fn default() -> (request: SpawnCommand)
        ensures
            request@.domain == DomainSelector::CurrentPane,
            request@.args is None,
            request@.cwd is None,
            request@.env.len() == 0,
    {
        SpawnCommand {
            args: None,
            cwd: None,
            set_environment_variables: Vec::new(),
            domain: SpawnTabDomain::CurrentPaneDomain,
        }
    }
}

/// The position of the domain that serves a request made from
/// `src_window_id`, or why there is none.
///
/// The default domain serves a request that asks for it, and one that asks
/// for the domain of the current pane while opening a new window. The
/// domain of the active pane of the active tab of `src_window_id` serves
/// any other request for the domain of the current pane. A request for a
/// domain by name or by id is served by that domain.
pub open spec fn resolved_domain<D: Domain>(
    mux: Mux<D>,
    selector: DomainSelector,
    spawn_where: SpawnWhere,
    src_window_id: WindowId,
) -> Result<int, MuxError> {
    match selector {
        DomainSelector::Default => Ok(mux.default_index()),
        DomainSelector::CurrentPane => if spawn_where == SpawnWhere::NewWindow {
            Ok(mux.default_index())
        } else {
            match current_pane(mux, src_window_id) {
                Err(e) => Err(e),
                Ok(pane) => if mux.has_domain(pane.domain_id) {
                    Ok(mux.domain_position(pane.domain_id))
                } else {
                    Err(MuxError::UnresolvableCurrentDomain(pane.domain_id))
                },
            }
        },
        DomainSelector::Named(name) => if mux.has_domain_named(name) {
            Ok(mux.named_domain_position(name))
        } else {
            Err(MuxError::UnknownDomainName)
        },
        DomainSelector::WithId(id) => if mux.has_domain(id) {
            Ok(mux.domain_position(id))
        } else {
            Err(MuxError::UnknownDomainId(id))
        },
    }
}

/// The active pane of the active tab of a window, or what is missing.
pub open spec fn current_pane<D>(mux: Mux<D>, window: WindowId) -> Result<Pane, MuxError> {
    match mux.active_tab(window) {
        None => Err(MuxError::NoTabs),
        Some(tab) => match mux.active_pane(tab) {
            None => Err(MuxError::NoPane),
            Some(pane) => Ok(pane),
        },
    }
}

/// The directory that a reported working directory names: the
/// percent-decoded path of a `file` URI, without the slash before a drive
/// letter. Other schemes name none, nor does a path that does not decode to
/// text.
pub open spec fn reported_dir(report: WorkingDir) -> Option<Seq<char>> {
    let decoded = percent_decoded(encode_utf8(report.path@));
    if report.scheme@ == "file"@ && valid_utf8(decoded) {
        Some(without_drive_slash(decode_utf8(decoded)))
    } else {
        None
    }
}

/// The working directory that a request inherits where it names none: the
/// one that the active pane of `src_window_id` last reported. A request for
/// the default domain, or for a new window, inherits nothing where there is
/// no such pane; a request for the current pane's domain is refused there.
/// A request for a domain by name or by id inherits nothing.
pub open spec fn inherited_report<D>(
    mux: Mux<D>,
    selector: DomainSelector,
    spawn_where: SpawnWhere,
    src_window_id: WindowId,
) -> Result<Option<WorkingDir>, MuxError> {
    let lenient = match current_pane(mux, src_window_id) {
        Ok(pane) => pane.working_dir,
        Err(_) => None,
    };
    match selector {
        DomainSelector::Default => Ok(lenient),
        DomainSelector::CurrentPane => if spawn_where == SpawnWhere::NewWindow {
            Ok(lenient)
        } else {
            match current_pane(mux, src_window_id) {
                Ok(pane) => Ok(pane.working_dir),
                Err(e) => Err(e),
            }
        },
        _ => Ok(None),
    }
}

/// The directory that a request names itself, as text. A request that names
/// a directory whose path is not text is refused.
pub open spec fn explicit_dir(request: SpawnRequest) -> Result<Option<Seq<char>>, MuxError> {
    match request.cwd {
        Some(bytes) => if valid_utf8(bytes) {
            Ok(Some(decode_utf8(bytes)))
        } else {
            Err(MuxError::NonTextCwd)
        },
        None => Ok(None),
    }
}

/// The directory in which the session of a request starts: the one that
/// the request names, else the one it inherits, else none.
pub open spec fn resolved_cwd<D>(
    mux: Mux<D>,
    request: SpawnRequest,
    spawn_where: SpawnWhere,
    src_window_id: WindowId,
) -> Result<Option<Seq<char>>, MuxError> {
    match explicit_dir(request) {
        Err(e) => Err(e),
        Ok(Some(dir)) => Ok(Some(dir)),
        Ok(None) => match inherited_report(mux, request.domain, spawn_where, src_window_id) {
            Err(e) => Err(e),
            Ok(Some(report)) => Ok(reported_dir(report)),
            Ok(None) => Ok(None),
        },
    }
}

/// Whether `command` is the command that a request asks for: none where
/// the request gives no arguments; else a command with those arguments,
/// with the request's variables set in turn over the environment it started
/// with, and with the directory that the request names.
pub open spec fn assembled(
    request: SpawnRequest,
    explicit: Option<Seq<char>>,
    command: Option<CommandBuilder>,
) -> bool {
    match request.args {
        Some(args) => {
            &&& command matches Some(cmd)
            &&& command_argv(cmd) == args
            &&& command_cwd(cmd) == explicit
            &&& exists|base: Map<Seq<char>, Seq<char>>|
                command_env(cmd) == #[trigger] env_with(base, request.env)
        },
        None => command is None,
    }
}

/// The pane that a split request divides: the active pane of the active tab
/// of the window, with its tab. Other requests divide none.
pub open spec fn split_target<D>(mux: Mux<D>, spawn_where: SpawnWhere, window: WindowId) -> Result<
    Option<(TabId, PaneId)>,
    MuxError,
> {
    match spawn_where {
        SpawnWhere::SplitPane(_) => match mux.active_tab(window) {
            None => Err(MuxError::NoActiveTab),
            Some(tab) => match mux.active_pane(tab) {
                None => Err(MuxError::NoPane),
                Some(pane) => Ok(Some((tab.id(), pane.pane_id))),
            },
        },
        _ => Ok(None),
    }
}

/// Why a request is refused before anything is asked of its domain, if it
/// is: no domain serves it, its domain is detached, its directory cannot be
/// resolved, or there is no pane to divide; in this order.
pub open spec fn refusal<D: Domain>(
    mux: Mux<D>,
    request: SpawnRequest,
    spawn_where: SpawnWhere,
    src_window_id: WindowId,
    window: WindowId,
) -> Option<MuxError> {
    match resolved_domain(mux, request.domain, spawn_where, src_window_id) {
        Err(e) => Some(e),
        Ok(at) => if mux.domains()[at].attachment() == DomainState::Detached {
            Some(MuxError::DetachedDomain)
        } else {
            match resolved_cwd(mux, request, spawn_where, src_window_id) {
                Err(e) => Some(e),
                Ok(_) => match split_target(mux, spawn_where, window) {
                    Err(e) => Some(e),
                    Ok(_) => None,
                },
            }
        },
    }
}

/// The active pane of the active tab of a window.
pub fn active_pane_of<D: Domain>(mux: &Mux<D>, window: WindowId) -> (found: Result<&Pane, MuxError>)
    requires
        mux.well_formed(),
    ensures
        match current_pane(*mux, window) {
            Ok(pane) => found matches Ok(p) && *p == pane,
            Err(e) => found == Err::<&Pane, MuxError>(e),
        },
{
    match mux.get_active_tab_for_window(window) {
        Some(tab) => match mux.get_active_pane(tab) {
            Some(pane) => Ok(pane),
            None => Err(MuxError::NoPane),
        },
        None => Err(MuxError::NoTabs),
    }
}

/// Finds the domain that serves a request.
pub fn resolve_domain<D: Domain>(
    mux: &Mux<D>,
    selector: &SpawnTabDomain,
    spawn_where: SpawnWhere,
    src_window_id: WindowId,
) -> (resolved: Result<usize, MuxError>)
    requires
        mux.well_formed(),
    ensures
        match resolved_domain(*mux, selector@, spawn_where, src_window_id) {
            Ok(at) => resolved matches Ok(i) && i == at && i < mux.domains().len(),
            Err(e) => resolved == Err::<usize, MuxError>(e),
        },
{
    match selector {
        SpawnTabDomain::DefaultDomain => Ok(mux.default_domain_index()),
        SpawnTabDomain::CurrentPaneDomain => {
            if spawn_where == SpawnWhere::NewWindow {
                Ok(mux.default_domain_index())
            } else {
                match active_pane_of(mux, src_window_id) {
                    Ok(pane) => match mux.find_domain(pane.domain_id) {
                        Some(at) => Ok(at),
                        None => Err(MuxError::UnresolvableCurrentDomain(pane.domain_id)),
                    },
                    Err(e) => Err(e),
                }
            }
        },
        SpawnTabDomain::DomainName(name) => match mux.find_domain_named(name.as_str()) {
            Some(at) => Ok(at),
            None => Err(MuxError::UnknownDomainName),
        },
        SpawnTabDomain::DomainId(id) => match mux.find_domain(*id) {
            Some(at) => Ok(at),
            None => Err(MuxError::UnknownDomainId(*id)),
        },
    }
}

/// The directory that a reported working directory names.
pub fn inherited_dir(report: &WorkingDir) -> (dir: Option<String>)
    ensures
        text_of(dir) == reported_dir(*report),
{
    if same_text(report.scheme.as_str(), "file") {
        match percent_decode_text(report.path.as_str()) {
            Some(path) => Some(strip_drive_slash(path)),
            None => None,
        }
    } else {
        None
    }
}

/// The directory that a request names itself, as text.
pub fn explicit_cwd(spawn: &SpawnCommand) -> (dir: Result<Option<String>, MuxError>)
    ensures
        match explicit_dir(spawn@) {
            Ok(text) => dir matches Ok(d) && text_of(d) == text,
            Err(e) => dir == Err::<Option<String>, MuxError>(e),
        },
{
    match &spawn.cwd {
        Some(bytes) => match text_of_bytes(bytes) {
            Some(text) => Ok(Some(text)),
            None => Err(MuxError::NonTextCwd),
        },
        None => Ok(None),
    }
}

/// The directory in which the session of a request starts.
pub fn resolve_cwd<D: Domain>(
    mux: &Mux<D>,
    spawn: &SpawnCommand,
    spawn_where: SpawnWhere,
    src_window_id: WindowId,
) -> (cwd: Result<Option<String>, MuxError>)
    requires
        mux.well_formed(),
    ensures
        match resolved_cwd(*mux, spawn@, spawn_where, src_window_id) {
            Ok(text) => cwd matches Ok(d) && text_of(d) == text,
            Err(e) => cwd == Err::<Option<String>, MuxError>(e),
        },
{
    let explicit = match explicit_cwd(spawn) {
        Ok(explicit) => explicit,
        Err(e) => {
            return Err(e);
        },
    };
    match explicit {
        Some(dir) => Ok(Some(dir)),
        None => {
            let strict = match &spawn.domain {
                SpawnTabDomain::DefaultDomain => false,
                SpawnTabDomain::CurrentPaneDomain => spawn_where != SpawnWhere::NewWindow,
                _ => {
                    return Ok(None);
                },
            };
            match active_pane_of(mux, src_window_id) {
                Ok(pane) => match &pane.working_dir {
                    Some(report) => Ok(inherited_dir(report)),
                    None => Ok(None),
                },
                Err(e) => if strict {
                    Err(e)
                } else {
                    Ok(None)
                },
            }
        },
    }
}

/// Builds the command that a request asks for.
pub fn assemble_command(spawn: &SpawnCommand, explicit: &Option<String>) -> (command: Option<
    CommandBuilder,
>)
    ensures
        assembled(spawn@, text_of(*explicit), command),
{
    match &spawn.args {
        Some(args) => {
            let mut cmd = command_from_argv(args);
            let ghost base = command_env(cmd);
            set_env_vars(&mut cmd, &spawn.set_environment_variables);
            match explicit {
                Some(dir) => {
                    command_set_cwd(&mut cmd, dir.as_str());
                },
                None => {},
            }
            assert(command_env(cmd) == env_with(base, spawn@.env));
            Some(cmd)
        },
        None => None,
    }
}

/// What resolving a request hands to its domain.
pub struct Dispatch {
    /// The position of the domain in the registry.
    pub domain: usize,
    /// The window in which the session is shown.
    pub window: WindowId,
    /// The command to run; the domain's default program where there is none.
    pub command: Option<CommandBuilder>,
    /// The directory to start in.
    pub cwd: Option<String>,
    /// The pane to divide and its tab, for a split.
    pub split: Option<(TabId, PaneId)>,
}

/// A request being served. While one is not `Finished` a session is being
/// created, and a host that ends the process when nothing goes on must wait
/// for it.
pub enum SpawnTask {
    /// The domain's launch is under way.
    Launching { launch: Launch, spawn_where: SpawnWhere, window: WindowId },
    /// Over, well or badly.
    Finished,
}

/// A request that waits to be served.
#[derive(Debug)]
pub struct PendingSpawn {
    /// The request.
    pub spawn: SpawnCommand,
    /// Where the session is to be shown.
    pub spawn_where: SpawnWhere,
    /// The size of the session's terminal, unless it goes into a split.
    pub size: TerminalSize,
    /// The window that the request came from.
    pub src_window_id: WindowId,
}

/// The window, as a request sees it, that the sessions of its tabs belong
/// to.
#[derive(Debug)]
pub struct TermWindow {
    /// The window in the registry.
    pub mux_window_id: WindowId,
    /// The size of the terminals in the window.
    pub terminal_size: TerminalSize,
    /// The size of the terminals of a new window.
    pub initial_size: TerminalSize,
}

/// The window in which the session of a request is shown: a new one for a
/// request to open a window, else the one that the request came from. There
/// is none where a new window is asked for and no window id is left.
pub open spec fn target_window<D>(
    before: Mux<D>,
    spawn_where: SpawnWhere,
    src_window_id: WindowId,
) -> Option<WindowId> {
    if spawn_where == SpawnWhere::NewWindow {
        before.window_counter().nth(0)
    } else {
        Some(src_window_id)
    }
}

/// What resolving a request leaves in the registry: a new window without
/// tabs where the request is to open one and a window id is left, else
/// nothing.
pub open spec fn window_made<D>(before: Mux<D>, after: Mux<D>, spawn_where: SpawnWhere) -> bool {
    if spawn_where == SpawnWhere::NewWindow && !before.window_counter().exhausted() {
        let id = before.window_counter().issued() as usize;
        &&& after.domains() == before.domains()
        &&& after.default_index() == before.default_index()
        &&& after.tabs() == before.tabs()
        &&& after.panes() == before.panes()
        &&& after.pane_counter() == before.pane_counter()
        &&& after.tab_counter() == before.tab_counter()
        &&& after.window_counter() == before.window_counter().after(1)
        &&& after.window_counter().issued() == before.window_counter().issued() + 1
        &&& after.windows().len() == before.windows().len() + 1
        &&& after.windows().drop_last() == before.windows()
        &&& after.windows().last().id() == id
        &&& after.windows().last().tabs().len() == 0
        &&& !before.has_window(id)
        &&& after.has_window(id)
        &&& after.window(id) == after.windows().last()
        &&& forall|other: WindowId|
            before.has_window(other) ==> after.has_window(other) && after.window(other)
                == before.window(other)
    } else {
        after.same_as(before)
    }
}

/// Whether `dispatch` is what a request that is not refused hands to its
/// domain.
pub open spec fn dispatches<D: Domain>(
    mux: Mux<D>,
    request: SpawnRequest,
    spawn_where: SpawnWhere,
    src_window_id: WindowId,
    window: WindowId,
    dispatch: Dispatch,
) -> bool {
    &&& resolved_domain(mux, request.domain, spawn_where, src_window_id) == Ok::<int, MuxError>(
        dispatch.domain as int,
    )
    &&& dispatch.domain < mux.domains().len()
    &&& dispatch.window == window
    &&& resolved_cwd(mux, request, spawn_where, src_window_id) == Ok::<
        Option<Seq<char>>,
        MuxError,
    >(text_of(dispatch.cwd))
    &&& explicit_dir(request) is Ok
    &&& assembled(request, explicit_dir(request)->Ok_0, dispatch.command)
    &&& split_target(mux, spawn_where, window) == Ok::<Option<(TabId, PaneId)>, MuxError>(
        dispatch.split,
    )
}

/// Whether `answer` is what the domain of `dispatch` returns when it is
/// asked to start the session: to divide the pane of a split request, else
/// to open a tab.
pub open spec fn asked<D: Domain>(
    mux: Mux<D>,
    defaults: CommandDefaults,
    size: TerminalSize,
    spawn_where: SpawnWhere,
    dispatch: Dispatch,
    answer: Result<(Launch, Action), MuxError>,
) -> bool {
    let domain = mux.domains()[dispatch.domain as int];
    match (spawn_where, dispatch.split) {
        (SpawnWhere::SplitPane(direction), Some((tab, pane))) => domain.split_starts(
            mux,
            defaults,
            dispatch.command,
            text_of(dispatch.cwd),
            tab,
            pane,
            direction,
            answer,
        ),
        _ => domain.spawn_starts(
            defaults,
            size,
            dispatch.command,
            text_of(dispatch.cwd),
            dispatch.window,
            answer,
        ),
    }
}

/// What serving a request becomes once its domain has answered: the
/// domain's launch, with its first step, or the end of it.
pub open spec fn taken_up(
    answer: Result<(Launch, Action), MuxError>,
    spawn_where: SpawnWhere,
    window: WindowId,
) -> (SpawnTask, Action) {
    match answer {
        Ok(first) => (SpawnTask::Launching { launch: first.0, spawn_where, window }, first.1),
        Err(e) => (SpawnTask::Finished, Action::Abort(e)),
    }
}

/// What attaching and activating a session returns.
pub open spec fn wiring_outcome<D>(
    mux: Mux<D>,
    spawned: Spawned,
    spawn_where: SpawnWhere,
    window: WindowId,
) -> Result<(), MuxError> {
    if !mux.has_pane(spawned.pane) {
        Err(MuxError::NoPane)
    } else if spawn_where == SpawnWhere::NewTab && !mux.has_window(window) {
        Err(MuxError::NoSuchWindow(window))
    } else {
        Ok(())
    }
}

/// What attaching and activating a session leaves in the registry. The
/// session's pane has a configuration; unless it opened a window it has a
/// clipboard and a download handler too. The tab of a session that opened a
/// tab is the active tab of its window. A session in a split changes no
/// window.
pub open spec fn wired<D>(
    before: Mux<D>,
    after: Mux<D>,
    spawned: Spawned,
    spawn_where: SpawnWhere,
    window: WindowId,
) -> bool {
    let pane = spawned.pane;
    &&& after.domains() == before.domains()
    &&& after.default_index() == before.default_index()
    &&& after.tabs() == before.tabs()
    &&& after.pane_counter() == before.pane_counter()
    &&& after.tab_counter() == before.tab_counter()
    &&& after.window_counter() == before.window_counter()
    &&& pane_ids(after.panes()) == pane_ids(before.panes())
    &&& window_ids(after.windows()) == window_ids(before.windows())
    &&& if !before.has_pane(pane) {
        after.same_as(before)
    } else {
        &&& after.pane(pane).pane_id == pane
        &&& after.pane(pane).domain_id == before.pane(pane).domain_id
        &&& after.pane(pane).working_dir == before.pane(pane).working_dir
        &&& after.pane(pane).has_config
        &&& after.pane(pane).has_clipboard == (before.pane(pane).has_clipboard || spawn_where
            != SpawnWhere::NewWindow)
        &&& after.pane(pane).has_download_handler == (before.pane(pane).has_download_handler
            || spawn_where != SpawnWhere::NewWindow)
        &&& forall|other: PaneId|
            before.has_pane(other) && other != pane ==> after.pane(other) == before.pane(other)
        &&& if spawn_where == SpawnWhere::NewTab && before.has_window(window) {
            &&& after.window(window).id() == window
            &&& after.window(window).tabs() == before.window(window).tabs()
            &&& before.window(window).tabs().contains(spawned.tab) ==> after.window(
                window,
            ).active_tab() == Some(spawned.tab)
            &&& !before.window(window).tabs().contains(spawned.tab) ==> after.window(window)
                == before.window(window)
            &&& forall|other: WindowId|
                before.has_window(other) && other != window ==> after.window(other)
                    == before.window(other)
        } else {
            after.windows() == before.windows()
        }
    }
}

/// The last thing that serving a request asks of the host.
pub open spec fn closing_wire(outcome: Result<(), MuxError>, spawned: Spawned) -> Action {
    match outcome {
        Ok(_) => Action::Complete(spawned),
        Err(e) => Action::Abort(e),
    }
}

/// One step of serving a request: the step of the domain's launch, and,
/// once the launch has recorded the session, attaching and activating it.
pub open spec fn task_steps<D: Domain>(
    task: SpawnTask,
    event: Event,
    before: Mux<D>,
    next: (SpawnTask, Action),
    after: Mux<D>,
) -> bool {
    match task {
        SpawnTask::Finished => {
            &&& after.same_as(before)
            &&& next.0 is Finished
            &&& next.1 == Action::Abort(MuxError::UnexpectedEvent)
        },
        SpawnTask::Launching { launch, spawn_where, window } => exists|
            inner: (Launch, Action),
            mid: Mux<D>,
        |
            {
                &&& #[trigger] steps(launch, event, before, inner, mid)
                &&& mid.well_formed()
                &&& match inner.1 {
                    Action::Complete(spawned) => {
                        &&& next.0 is Finished
                        &&& next.1 == closing_wire(
                            wiring_outcome(mid, spawned, spawn_where, window),
                            spawned,
                        )
                        &&& wired(mid, after, spawned, spawn_where, window)
                    },
                    Action::Abort(e) => {
                        &&& next.0 is Finished
                        &&& next.1 == Action::Abort(e)
                        &&& after.same_as(mid)
                    },
                    _ => {
                        &&& next.0 == (SpawnTask::Launching {
                            launch: inner.0,
                            spawn_where,
                            window,
                        })
                        &&& next.1 == inner.1
                        &&& after.same_as(mid)
                    },
                }
            },
    }
}

/// How serving a request begins. A window is made where the request is to
/// open one. A request that is refused is over at once and nothing is asked
/// of the host. For any other request its domain is asked to start the
/// session, with the command and the directory that the request resolves
/// to, and serving the request goes on as the domain answers.
pub open spec fn begun<D: Domain>(
    before: Mux<D>,
    after: Mux<D>,
    request: SpawnRequest,
    spawn_where: SpawnWhere,
    size: TerminalSize,
    src_window_id: WindowId,
    defaults: CommandDefaults,
    started: (SpawnTask, Action),
) -> bool {
    &&& window_made(before, after, spawn_where)
    &&& match target_window(before, spawn_where, src_window_id) {
        None => started.0 is Finished && started.1 == Action::Abort(MuxError::IdsExhausted),
        Some(window) => match refusal(after, request, spawn_where, src_window_id, window) {
            Some(refused) => started.0 is Finished && started.1 == Action::Abort(refused),
            None => exists|dispatch: Dispatch, answer: Result<(Launch, Action), MuxError>|
                {
                    &&& dispatches(after, request, spawn_where, src_window_id, window, dispatch)
                    &&& #[trigger] asked(after, defaults, size, spawn_where, dispatch, answer)
                    &&& started == taken_up(answer, spawn_where, window)
                },
        },
    }
}

/// Resolves a request: opens the window if the request is to open one,
/// finds the domain, the directory and the command, and, for a split, the
/// pane to divide.
pub fn resolve<D: Domain>(
    mux: &mut Mux<D>,
    spawn: &SpawnCommand,
    spawn_where: SpawnWhere,
    src_window_id: WindowId,
) -> (resolved: Result<Dispatch, MuxError>)
    requires
        old(mux).well_formed(),
    ensures
        final(mux).well_formed(),
        window_made(*old(mux), *final(mux), spawn_where),
        match target_window(*old(mux), spawn_where, src_window_id) {
            None => resolved matches Err(e) && e == MuxError::IdsExhausted,
            Some(window) => match refusal(
                *final(mux),
                spawn@,
                spawn_where,
                src_window_id,
                window,
            ) {
                Some(refused) => resolved matches Err(e) && e == refused,
                None => resolved matches Ok(dispatch) && dispatches(
                    *final(mux),
                    spawn@,
                    spawn_where,
                    src_window_id,
                    window,
                    dispatch,
                ),
            },
        },
{
    let window = if spawn_where == SpawnWhere::NewWindow {
        match mux.new_empty_window() {
            Some(window) => window,
            None => {
                return Err(MuxError::IdsExhausted);
            },
        }
    } else {
        src_window_id
    };
    let domain = match resolve_domain(mux, &spawn.domain, spawn_where, src_window_id) {
        Ok(domain) => domain,
        Err(e) => {
            return Err(e);
        },
    };
    if mux.domain_at(domain).state() == DomainState::Detached {
        return Err(MuxError::DetachedDomain);
    }
    let explicit = match explicit_cwd(spawn) {
        Ok(explicit) => explicit,
        Err(e) => {
            return Err(e);
        },
    };
    let cwd = match resolve_cwd(mux, spawn, spawn_where, src_window_id) {
        Ok(cwd) => cwd,
        Err(e) => {
            return Err(e);
        },
    };
    let command = assemble_command(spawn, &explicit);
    let split = match spawn_where {
        SpawnWhere::SplitPane(_) => match mux.get_active_tab_for_window(window) {
            Some(tab) => match mux.get_active_pane(tab) {
                Some(pane) => Some((tab.tab_id(), pane.pane_id)),
                None => {
                    return Err(MuxError::NoPane);
                },
            },
            None => {
                return Err(MuxError::NoActiveTab);
            },
        },
        _ => None,
    };
    Ok(Dispatch { domain, window, command, cwd, split })
}

/// Attaches to the pane of a new session what belongs to it, and makes the
/// tab of a session that opened a tab the active tab of its window.
pub fn wire<D: Domain>(
    mux: &mut Mux<D>,
    spawned: Spawned,
    spawn_where: SpawnWhere,
    window: WindowId,
) -> (done: Result<(), MuxError>)
    requires
        old(mux).well_formed(),
    ensures
        final(mux).well_formed(),
        done == wiring_outcome(*old(mux), spawned, spawn_where, window),
        wired(*old(mux), *final(mux), spawned, spawn_where, window),
{
    let with_all = spawn_where != SpawnWhere::NewWindow;
    if !mux.attach_to_pane(spawned.pane, true, with_all, with_all) {
        return Err(MuxError::NoPane);
    }
    if spawn_where == SpawnWhere::NewTab {
        match mux.set_active_tab(window, spawned.tab) {
            Ok(()) => Ok(()),
            Err(e) => Err(e),
        }
    } else {
        Ok(())
    }
}

impl SpawnTask {
    /// Whether serving the request is over.
    pub fn is_finished(&self) -> (over: bool)
        ensures
            over == (*self is Finished),
    {
        match self {
            SpawnTask::Finished => true,
            _ => false,
        }
    }

    /// What stays the same through the launch that serves the request;
    /// `None` once serving it is over.
    pub fn get_job(&self) -> (job: Option<Job>)
        ensures
            job == match *self {
                SpawnTask::Launching { launch, .. } => launch.job(),
                SpawnTask::Finished => None,
            },
    {
        match self {
            SpawnTask::Launching { launch, .. } => launch.get_job(),
            SpawnTask::Finished => None,
        }
    }

    /// What serving a request becomes once its domain has answered.
    pub fn take_up(
        answer: Result<(Launch, Action), MuxError>,
        spawn_where: SpawnWhere,
        window: WindowId,
    ) -> (started: (SpawnTask, Action))
        ensures
            started == taken_up(answer, spawn_where, window),
    {
        match answer {
            Ok((launch, action)) => (SpawnTask::Launching { launch, spawn_where, window }, action),
            Err(e) => (SpawnTask::Finished, Action::Abort(e)),
        }
    }

    /// Takes the serving of a request one step on: for what the host
    /// reported, what the task becomes and what it asks of the host next.
    pub fn step<D: Domain>(self, event: Event, mux: &mut Mux<D>) -> (next: (SpawnTask, Action))
        requires
            old(mux).well_formed(),
        ensures
            final(mux).well_formed(),
            task_steps(self, event, *old(mux), next, *final(mux)),
    {
        match self {
            SpawnTask::Finished => (SpawnTask::Finished, Action::Abort(MuxError::UnexpectedEvent)),
            SpawnTask::Launching { launch, spawn_where, window } => {
                let inner = launch.step(event, mux);
                let ghost mid = *mux;
                let ghost seen = inner;
                let next = match inner.1 {
                    Action::Complete(spawned) => match wire(mux, spawned, spawn_where, window) {
                        Ok(()) => (SpawnTask::Finished, Action::Complete(spawned)),
                        Err(e) => (SpawnTask::Finished, Action::Abort(e)),
                    },
                    Action::Abort(e) => (SpawnTask::Finished, Action::Abort(e)),
                    action => {
                        (SpawnTask::Launching { launch: inner.0, spawn_where, window }, action)
                    },
                };
                assert(steps(launch, event, *old(mux), seen, mid));
                next
            },
        }
    }
}

impl TermWindow {
    /// The request `spawn`, made from this window, as it waits to be
    /// served. A new window gets terminals of the initial size; a new tab
    /// gets terminals of the size of this window's.
    pub fn spawn_command(&self, spawn: &SpawnCommand, spawn_where: SpawnWhere) -> (pending:
        PendingSpawn)
        ensures
            pending.spawn@ == spawn@,
            pending.spawn_where == spawn_where,
            pending.src_window_id == self.mux_window_id,
            pending.size == if spawn_where == SpawnWhere::NewWindow {
                self.initial_size
            } else {
                self.terminal_size
            },
    {
        let size = if spawn_where == SpawnWhere::NewWindow {
            self.initial_size
        } else {
            self.terminal_size
        };
        Self::spawn_command_impl(spawn, spawn_where, size, self.mux_window_id)
    }

    /// The request `spawn` as it waits to be served.
    pub fn spawn_command_impl(
        spawn: &SpawnCommand,
        spawn_where: SpawnWhere,
        size: TerminalSize,
        src_window_id: WindowId,
    ) -> (pending: PendingSpawn)
        ensures
            pending.spawn@ == spawn@,
            pending.spawn_where == spawn_where,
            pending.size == size,
            pending.src_window_id == src_window_id,
    {
        PendingSpawn { spawn: spawn.duplicate(), spawn_where, size, src_window_id }
    }

    /// Serves a request as far as its domain's first step: resolves the
    /// request and asks the domain to start the session. A request that is
    /// refused is over at once, and so is one that its domain refuses.
    pub fn spawn_command_internal<D: Domain>(
        spawn: SpawnCommand,
        spawn_where: SpawnWhere,
        size: TerminalSize,
        src_window_id: WindowId,
        mux: &mut Mux<D>,
        defaults: &CommandDefaults,
    ) -> (started: (SpawnTask, Action))
        requires
            old(mux).well_formed(),
        ensures
            final(mux).well_formed(),
            begun(
                *old(mux),
                *final(mux),
                spawn@,
                spawn_where,
                size,
                src_window_id,
                *defaults,
                started,
            ),
    {
        let dispatch = match resolve(mux, &spawn, spawn_where, src_window_id) {
            Ok(dispatch) => dispatch,
            Err(e) => {
                return (SpawnTask::Finished, Action::Abort(e));
            },
        };
        let ghost handed = dispatch;
        let window = dispatch.window;
        let domain = mux.domain_at(dispatch.domain);
        let answer = match (spawn_where, dispatch.split) {
            (SpawnWhere::SplitPane(direction), Some((tab, pane))) => domain.split_pane(
                mux,
                defaults,
                dispatch.command,
                dispatch.cwd,
                tab,
                pane,
                direction,
            ),
            _ => domain.spawn(defaults, size, dispatch.command, dispatch.cwd, window),
        };
        let ghost given = answer;
        let started = SpawnTask::take_up(answer, spawn_where, window);
        assert(asked(*mux, *defaults, size, spawn_where, handed, given));
        started
    }

    /// The request for the default program in `domain`, in a new tab of
    /// this window, as it waits to be served.
    pub fn spawn_tab(&self, domain: &SpawnTabDomain) -> (pending: PendingSpawn)
        ensures
            pending.spawn@.domain == domain@,
            pending.spawn@.args is None,
            pending.spawn@.cwd is None,
            pending.spawn@.env.len() == 0,
            pending.spawn_where == SpawnWhere::NewTab,
            pending.src_window_id == self.mux_window_id,
            pending.size == self.terminal_size,
    {
        let mut spawn = SpawnCommand::default();
        spawn.domain = domain.duplicate();
        self.spawn_command(&spawn, SpawnWhere::NewTab)
    }
}

impl PendingSpawn {
    /// Starts to serve the request.
    pub fn begin<D: Domain>(self, mux: &mut Mux<D>, defaults: &CommandDefaults) -> (started: (
        SpawnTask,
        Action,
    ))
        requires
            old(mux).well_formed(),
        ensures
            final(mux).well_formed(),
            begun(
                *old(mux),
                *final(mux),
                self.spawn@,
                self.spawn_where,
                self.size,
                self.src_window_id,
                *defaults,
                started,
            ),
    {
        TermWindow::spawn_command_internal(
            self.spawn,
            self.spawn_where,
            self.size,
            self.src_window_id,
            mux,
            defaults,
        )
    }
}

/// A request whose domain is detached is refused, whatever else it asks
/// for.
pub proof fn detached_domain_is_refused<D: Domain>(
    mux: Mux<D>,
    request: SpawnRequest,
    spawn_where: SpawnWhere,
    src_window_id: WindowId,
    window: WindowId,
)
    requires
        resolved_domain(mux, request.domain, spawn_where, src_window_id) is Ok,
        mux.domains()[resolved_domain(
            mux,
            request.domain,
            spawn_where,
            src_window_id,
        )->Ok_0].attachment() == DomainState::Detached,
    ensures
        refusal(mux, request, spawn_where, src_window_id, window) == Some(
            MuxError::DetachedDomain,
        ),
{
}

/// A request that is refused leaves the registry as it was, but for the
/// window that a request to open one has made.
pub proof fn refused_request_changes_nothing<D>(
    before: Mux<D>,
    after: Mux<D>,
    spawn_where: SpawnWhere,
)
    requires
        window_made(before, after, spawn_where),
    ensures
        after.tabs() == before.tabs(),
        after.panes() == before.panes(),
        after.domains() == before.domains(),
        spawn_where != SpawnWhere::NewWindow ==> after.same_as(before),
{
}

/// A `file` URI whose path is plain, that is ASCII and without a `%`, names
/// that path, without the slash before a drive letter if the path has one.
pub proof fn plain_file_uri_names_its_path(report: WorkingDir)
    requires
        report.scheme@ == "file"@,
        is_ascii_chars(report.path@),
        forall|i: int| 0 <= i < report.path@.len() ==> report.path@[i] != '%',
    ensures
        reported_dir(report) == Some(
            if report.path@.len() > 2 && report.path@[0] == '/' && report.path@[2] == ':' {
                report.path@.skip(1)
            } else {
                report.path@
            },
        ),
{
    plain_path_decodes_to_itself(report.path@);
    drive_slash_on_ascii_path(report.path@);
}

} // verus!
