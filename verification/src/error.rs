//! What can go wrong between a request to open a session and its insertion.

use crate::ids::{DomainId, PaneId, TabId, WindowId};
use vstd::prelude::*;

verus! {

/// Why a request was refused or a launch abandoned.
#[derive(Clone, Copy, Debug, PartialEq, Eq, Structural)]
pub enum MuxError {
    /// The window that the request came from has no active tab.
    NoTabs,
    /// The tab has no active pane that the registry knows.
    NoPane,
    /// The domain that owns the active pane is not registered.
    UnresolvableCurrentDomain(DomainId),
    /// No domain has the name that the request gave.
    UnknownDomainName,
    /// No domain has the id that the request gave.
    UnknownDomainId(DomainId),
    /// The domain that the request resolved to is detached.
    DetachedDomain,
    /// The working directory that the request gave is not text.
    NonTextCwd,
    /// The window to split in has no active tab.
    NoActiveTab,
    /// No tab has this id.
    InvalidTab(TabId),
    /// The tab does not hold this pane.
    InvalidPane(PaneId),
    /// The pane is too small to be divided.
    NoSpace,
    /// The host could not do what the launch asked of it.
    LaunchFailed,
    /// No window has this id.
    NoSuchWindow(WindowId),
    /// The domain cannot be detached.
    DetachNotSupported,
    /// Every identifier has been handed out.
    IdsExhausted,
    /// The identifier is in use, or was never handed out.
    InvalidId,
    /// The host reported something that the launch was not waiting for.
    UnexpectedEvent,
}

} // verus!
