//! What the registry records of a pane: one terminal session.

use crate::ids::{DomainId, PaneId};
use vstd::prelude::*;

verus! {

/// A working directory as a session reports it: the scheme and the path of a
/// URI, the path still percent-encoded.
#[derive(Debug)]
pub struct WorkingDir {
    /// The URI's scheme, such as `file`.
    pub scheme: String,
    /// The URI's path, percent-encoded.
    pub path: String,
}

/// One terminal session, as the registry knows it. The process, the PTY and
/// the terminal state that belong to it are kept by the host under its id.
#[derive(Debug)]
pub struct Pane {
    /// The pane's identity.
    pub pane_id: PaneId,
    /// The domain that created the pane; it never changes.
    pub domain_id: DomainId,
    /// The working directory that the session last reported.
    pub working_dir: Option<WorkingDir>,
    /// Whether a terminal configuration has been attached.
    pub has_config: bool,
    /// Whether a clipboard has been attached.
    pub has_clipboard: bool,
    /// Whether a download handler has been attached.
    pub has_download_handler: bool,
}

impl Pane {
    /// The record of a pane that `domain_id` has just created.
    pub open spec fn new_spec(pane_id: PaneId, domain_id: DomainId) -> Pane {
        Pane {
            pane_id,
            domain_id,
            working_dir: None,
            has_config: false,
            has_clipboard: false,
            has_download_handler: false,
        }
    }

    /// The record of a pane that `domain_id` has just created: nothing is
    /// attached to it and it has reported no working directory.
    pub fn new(pane_id: PaneId, domain_id: DomainId) -> (pane: Pane)
        ensures
            pane == Pane::new_spec(pane_id, domain_id),
    {
        Pane {
            pane_id,
            domain_id,
            working_dir: None,
            has_config: false,
            has_clipboard: false,
            has_download_handler: false,
        }
    }

    /// The pane's identity.
    pub fn pane_id(&self) -> (id: PaneId)
        ensures
            id == self.pane_id,
    {
        self.pane_id
    }

    /// The domain that created the pane.
    pub fn domain_id(&self) -> (id: DomainId)
        ensures
            id == self.domain_id,
    {
        self.domain_id
    }
}

} // verus!
