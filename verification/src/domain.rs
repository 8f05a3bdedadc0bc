//! Domains: the places in which terminal sessions can be created.

use crate::command::CommandDefaults;
use crate::error::MuxError;
use crate::ids::{alloc_domain_id, DomainId, IdAllocator, PaneId, TabId, WindowId};
use crate::launch::{begins, text_of, Action, Job, Launch, LaunchTarget};
use crate::layout::{split_sizes, SplitDirection, TerminalSize};
use crate::registry::Mux;
use portable_pty::CommandBuilder;
use vstd::prelude::*;

verus! {

/// Whether a domain is connected to its sessions.
#[derive(Clone, Copy, Debug, PartialEq, Eq, Structural)]
pub enum DomainState {
    Detached,
    Attached,
}

/// A place in which terminal sessions can be created.
pub trait Domain: Sized {
    /// The domain's id, which never changes.
    spec fn id(&self) -> DomainId;

    /// The domain's name: a short identifier.
    spec fn name(&self) -> Seq<char>;

    /// The label that describes the domain; it is the name unless the domain
    /// says otherwise.
    open spec fn label(&self) -> Seq<char> {
        self.name()
    }

    /// Whether the domain is attached to its sessions.
    spec fn attachment(&self) -> DomainState;

    /// Whether sessions can ever be created in the domain. A domain that
    /// only stands for something else says no.
    open spec fn offers_sessions(&self) -> bool {
        true
    }

    /// Whether `started` is how this domain starts the creation of a
    /// session in a tab of its own: the first step of its launch, or why
    /// the domain refuses.
    spec fn spawn_starts(
        &self,
        defaults: CommandDefaults,
        size: TerminalSize,
        command: Option<CommandBuilder>,
        command_dir: Option<Seq<char>>,
        window: WindowId,
        started: Result<(Launch, Action), MuxError>,
    ) -> bool;

    /// Whether `started` is how this domain starts the creation of a
    /// session in a share of a pane of `mux`.
    spec fn split_starts(
        &self,
        mux: Mux<Self>,
        defaults: CommandDefaults,
        command: Option<CommandBuilder>,
        command_dir: Option<Seq<char>>,
        tab: TabId,
        pane_id: PaneId,
        direction: SplitDirection,
        started: Result<(Launch, Action), MuxError>,
    ) -> bool;

    /// Starts the creation of a session of `size` that runs `command`, or
    /// the default program, in `command_dir` and goes into a tab of its own
    /// in `window`. A detached domain refuses.
    fn spawn(
        &self,
        defaults: &CommandDefaults,
        size: TerminalSize,
        command: Option<CommandBuilder>,
        command_dir: Option<String>,
        window: WindowId,
    ) -> (started: Result<(Launch, Action), MuxError>)
        ensures
            self.spawn_starts(*defaults, size, command, text_of(command_dir), window, started),
            self.attachment() == DomainState::Detached ==> started is Err,
            !self.offers_sessions() ==> started is Err,
            started matches Ok(first) ==> first.0.job() == Some(
                Job { domain_id: self.id(), size, target: LaunchTarget::NewTab { window } },
            ),
    ;

    /// Starts the creation of a session that goes into the second share of
    /// the pane `pane_id` of `tab`, divided along `direction`. A detached
    /// domain refuses.
    fn split_pane(
        &self,
        mux: &Mux<Self>,
        defaults: &CommandDefaults,
        command: Option<CommandBuilder>,
        command_dir: Option<String>,
        tab: TabId,
        pane_id: PaneId,
        direction: SplitDirection,
    ) -> (started: Result<(Launch, Action), MuxError>)
        ensures
            self.split_starts(
                *mux,
                *defaults,
                command,
                text_of(command_dir),
                tab,
                pane_id,
                direction,
                started,
            ),
            self.attachment() == DomainState::Detached ==> started is Err,
            !self.offers_sessions() ==> started is Err,
            started matches Ok(first) ==> first.0.job() is Some && first.0.job()->0.domain_id
                == self.id() && first.0.job()->0.target == (LaunchTarget::Split {
                tab,
                pane: pane_id,
                direction,
            }),
    ;

    /// Whether sessions can ever be created in the domain.
    fn spawnable(&self) -> (yes: bool)
        ensures
            yes == self.offers_sessions(),
    ;

    /// The domain's id.
    fn domain_id(&self) -> (id: DomainId)
        ensures
            id == self.id(),
    ;

    /// The domain's name.
    fn domain_name(&self) -> (name: &str)
        ensures
            name@ == self.name(),
    ;

    /// The label that describes the domain.
    fn domain_label(&self) -> (label: &str)
        ensures
            label@ == self.label(),
    ;

    /// Connects again to the sessions that exist in the domain.
    fn attach(&mut self) -> (attached: Result<(), MuxError>)
        ensures
            final(self).id() == old(self).id(),
            final(self).name() == old(self).name(),
            attached is Ok ==> final(self).attachment() == DomainState::Attached,
            attached is Err ==> final(self).attachment() == old(self).attachment(),
    ;

    /// Lets go of the domain's sessions without ending them.
    fn detach(&mut self) -> (detached: Result<(), MuxError>)
        ensures
            final(self).id() == old(self).id(),
            final(self).name() == old(self).name(),
            detached is Ok ==> final(self).attachment() == DomainState::Detached,
            detached is Err ==> final(self).attachment() == old(self).attachment(),
    ;

    /// Whether the domain is attached to its sessions.
    fn state(&self) -> (state: DomainState)
        ensures
            state == self.attachment(),
    ;

    /// Tells the domain that a window is closing, so that it may let go of
    /// its sessions there rather than end them.
    fn local_window_is_closing(&mut self, window: WindowId)
        ensures
            final(self).id() == old(self).id(),
            final(self).name() == old(self).name(),
    {
    }
}

/// The domain of sessions that run as processes of this machine, each on a
/// PTY that `pty_system` allocates.
pub struct LocalDomain<P> {
    pty_system: P,
    id: DomainId,
    name: String,
}

impl<P> LocalDomain<P> {
    /// A local domain called `name` that allocates its PTYs from
    /// `pty_system`. Its id is the next that `ids` hands out; there is no
    /// domain where `ids` has none left.
    pub fn with_pty_system(name: &str, pty_system: P, ids: &mut IdAllocator) -> (domain: Result<
        Self,
        MuxError,
    >)
        ensures
            *final(ids) == old(ids).after(1),
            domain is Ok <==> !old(ids).exhausted(),
            domain is Err ==> domain == Err::<Self, MuxError>(MuxError::IdsExhausted),
            domain matches Ok(d) ==> {
                &&& Some(d.id()) == old(ids).nth(0)
                &&& d.name() == name@
                &&& d.label() == name@
                &&& d.attachment() == DomainState::Attached
                &&& *d.facility() == pty_system
            },
    {
        match alloc_domain_id(ids) {
            Some(id) => Ok(LocalDomain { pty_system, id, name: name.to_owned() }),
            None => Err(MuxError::IdsExhausted),
        }
    }

    /// The facility that allocates the domain's PTYs.
    pub closed spec fn facility(&self) -> &P {
        &self.pty_system
    }

    /// The facility that allocates the domain's PTYs.
    pub fn pty_system(&self) -> (pty_system: &P)
        ensures
            pty_system == self.facility(),
    {
        &self.pty_system
    }
}

impl<P> Domain for LocalDomain<P> {
    closed spec fn id(&self) -> DomainId {
        self.id
    }

    closed spec fn name(&self) -> Seq<char> {
        self.name@
    }

    open spec fn attachment(&self) -> DomainState {
        DomainState::Attached
    }

    open spec fn spawn_starts(
        &self,
        defaults: CommandDefaults,
        size: TerminalSize,
        command: Option<CommandBuilder>,
        command_dir: Option<Seq<char>>,
        window: WindowId,
        started: Result<(Launch, Action), MuxError>,
    ) -> bool {
        &&& started matches Ok(first)
        &&& begins(
            Job { domain_id: self.id(), size, target: LaunchTarget::NewTab { window } },
            defaults,
            command,
            command_dir,
            first,
        )
    }

    open spec fn split_starts(
        &self,
        mux: Mux<Self>,
        defaults: CommandDefaults,
        command: Option<CommandBuilder>,
        command_dir: Option<Seq<char>>,
        tab: TabId,
        pane_id: PaneId,
        direction: SplitDirection,
        started: Result<(Launch, Action), MuxError>,
    ) -> bool {
        if !mux.has_tab(tab) {
            started == Err::<(Launch, Action), MuxError>(MuxError::InvalidTab(tab))
        } else if !mux.tab(tab).holds(pane_id) {
            started == Err::<(Launch, Action), MuxError>(MuxError::InvalidPane(pane_id))
        } else {
            let sizes = split_sizes(
                mux.tab(tab).panes()[mux.tab(tab).position_of(pane_id)].size,
                direction,
            );
            if !sizes.has_room() {
                started == Err::<(Launch, Action), MuxError>(MuxError::NoSpace)
            } else {
                &&& started matches Ok(first)
                &&& begins(
                    Job {
                        domain_id: self.id(),
                        size: sizes.second,
                        target: LaunchTarget::Split { tab, pane: pane_id, direction },
                    },
                    defaults,
                    command,
                    command_dir,
                    first,
                )
            }
        }
    }

    fn spawn(
        &self,
        defaults: &CommandDefaults,
        size: TerminalSize,
        command: Option<CommandBuilder>,
        command_dir: Option<String>,
        window: WindowId,
    ) -> (started: Result<(Launch, Action), MuxError>) {
        let job = Job { domain_id: self.id, size, target: LaunchTarget::NewTab { window } };
        Ok(Launch::begin(job, defaults, command, command_dir))
    }

    fn split_pane(
        &self,
        mux: &Mux<Self>,
        defaults: &CommandDefaults,
        command: Option<CommandBuilder>,
        command_dir: Option<String>,
        tab: TabId,
        pane_id: PaneId,
        direction: SplitDirection,
    ) -> (started: Result<(Launch, Action), MuxError>) {
        let held = match mux.get_tab(tab) {
            Some(held) => held,
            None => {
                return Err(MuxError::InvalidTab(tab));
            },
        };
        let pane_index = match held.pane_index(pane_id) {
            Some(pane_index) => pane_index,
            None => {
                return Err(MuxError::InvalidPane(pane_id));
            },
        };
        let sizes = match held.compute_split_size(pane_index, direction) {
            Some(sizes) => sizes,
            None => {
                return Err(MuxError::InvalidPane(pane_id));
            },
        };
        if !sizes.fits() {
            return Err(MuxError::NoSpace);
        }
        let job = Job {
            domain_id: self.id,
            size: sizes.second,
            target: LaunchTarget::Split { tab, pane: pane_id, direction },
        };
        Ok(Launch::begin(job, defaults, command, command_dir))
    }

    fn spawnable(&self) -> (yes: bool) {
        true
    }

    fn domain_id(&self) -> (id: DomainId) {
        self.id
    }

    fn domain_name(&self) -> (name: &str) {
        self.name.as_str()
    }

    fn domain_label(&self) -> (label: &str) {
        self.domain_name()
    }

    fn attach(&mut self) -> (attached: Result<(), MuxError>)
        ensures
            attached is Ok,
            *final(self) == *old(self),
    {
        Ok(())
    }

    fn detach(&mut self) -> (detached: Result<(), MuxError>)
        ensures
            detached == Err::<(), MuxError>(MuxError::DetachNotSupported),
            *final(self) == *old(self),
    {
        Err(MuxError::DetachNotSupported)
    }

    fn state(&self) -> (state: DomainState) {
        DomainState::Attached
    }
}

} // verus!
