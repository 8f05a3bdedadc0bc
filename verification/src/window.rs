//! A window: tabs in order, one of them active.

use crate::ids::{TabId, WindowId};
use vstd::prelude::*;

verus! {

/// An ordered collection of tabs, known by their ids.
#[derive(Debug)]
pub struct Window {
    id: WindowId,
    tabs: Vec<TabId>,
    active: usize,
    last_active: Option<TabId>,
}

impl Window {
    /// The window's identity.
    pub closed spec fn id(&self) -> WindowId {
        self.id
    }

    /// The window's tabs in order.
    pub closed spec fn tabs(&self) -> Seq<TabId> {
        self.tabs@
    }

    /// The position of the active tab; zero while the window is empty.
    pub closed spec fn active_index(&self) -> int {
        self.active as int
    }

    /// The tab that was active before the last change of the active tab.
    pub closed spec fn last_active(&self) -> Option<TabId> {
        self.last_active
    }

    /// The active tab; `None` while the window is empty.
    pub open spec fn active_tab(&self) -> Option<TabId> {
        if self.tabs().len() > 0 {
            Some(self.tabs()[self.active_index()])
        } else {
            None
        }
    }

    /// The window's invariant: no tab occurs twice, and the active position
    /// is that of a tab unless the window is empty.
    pub open spec fn well_formed(&self) -> bool {
        &&& self.tabs().no_duplicates()
        &&& 0 <= self.active_index()
        &&& self.tabs().len() > 0 ==> self.active_index() < self.tabs().len()
        &&& self.tabs().len() == 0 ==> self.active_index() == 0
    }

    /// A window without tabs.
    pub fn new(id: WindowId) -> (window: Window)
        ensures
            window.id() == id,
            window.tabs().len() == 0,
            window.active_index() == 0,
            window.last_active() is None,
            window.well_formed(),
    {
        Window { id, tabs: Vec::new(), active: 0, last_active: None }
    }

    /// The window's identity.
    pub fn window_id(&self) -> (id: WindowId)
        ensures
            id == self.id(),
    {
        self.id
    }

    /// The number of tabs in the window.
    pub fn len(&self) -> (count: usize)
        ensures
            count == self.tabs().len(),
    {
        self.tabs.len()
    }

    /// The position of `tab` in the window.
    pub fn idx_by_id(&self, tab: TabId) -> (index: Option<usize>)
        ensures
            index is Some <==> self.tabs().contains(tab),
            index matches Some(at) ==> at < self.tabs().len() && self.tabs()[at as int] == tab,
    {
        let mut at: usize = 0;
        while at < self.tabs.len()
            invariant
                at <= self.tabs@.len(),
                forall|j: int| 0 <= j < at ==> self.tabs@[j] != tab,
            decreases self.tabs.len() - at,
        {
            if self.tabs[at] == tab {
                return Some(at);
            }
            at += 1;
        }
        None
    }

    /// Appends `tab` to the window unless the window holds it already.
    /// Returns whether it was appended. The active tab stays.
    pub fn push(&mut self, tab: TabId) -> (pushed: bool)
        requires
            old(self).well_formed(),
        ensures
            final(self).well_formed(),
            final(self).id() == old(self).id(),
            final(self).active_index() == old(self).active_index(),
            final(self).last_active() == old(self).last_active(),
            pushed == !old(self).tabs().contains(tab),
            pushed ==> final(self).tabs() == old(self).tabs().push(tab),
            !pushed ==> final(self).tabs() == old(self).tabs(),
    {
        if self.idx_by_id(tab).is_some() {
            false
        } else {
            self.tabs.push(tab);
            true
        }
    }

    /// The position of the active tab; zero while the window is empty.
    pub fn get_active_idx(&self) -> (index: usize)
        ensures
            index == self.active_index(),
    {
        self.active
    }

    /// The active tab; `None` while the window is empty.
    pub fn get_active(&self) -> (tab: Option<TabId>)
        requires
            self.well_formed(),
        ensures
            tab == self.active_tab(),
    {
        if self.tabs.len() > 0 {
            Some(self.tabs[self.active])
        } else {
            None
        }
    }

    /// Makes the tab at `index` the active one and remembers the tab that was
    /// active until now. Nothing changes where that tab is active already.
    pub fn save_and_then_set_active(&mut self, index: usize)
        requires
            old(self).well_formed(),
            index < old(self).tabs().len(),
        ensures
            final(self).well_formed(),
            final(self).id() == old(self).id(),
            final(self).tabs() == old(self).tabs(),
            final(self).active_index() == index,
            final(self).active_tab() == Some(old(self).tabs()[index as int]),
            final(self).last_active() == if index == old(self).active_index() {
                old(self).last_active()
            } else {
                old(self).active_tab()
            },
    {
        if index != self.active {
            self.last_active = Some(self.tabs[self.active]);
            self.active = index;
        }
    }
}

} // verus!
