//! The registry that owns every domain, tab, pane and window, each under its
//! id. Everything else holds ids and looks them up here; an id whose record
//! is gone is simply not found.

use crate::domain::Domain;
use crate::error::MuxError;
use crate::ids::{DomainId, IdAllocator, PaneId, TabId, WindowId};
use crate::layout::{split_sizes, SplitDirection};
use crate::lookup::{
    first_position, first_position_exists, first_position_is, is_first_at, push_keeps_records,
    push_new_key,
};
use crate::pane::{Pane, WorkingDir};
use crate::tab::{split_pair, Tab};
use crate::text::same_text;
use crate::window::Window;
use vstd::prelude::*;

verus! {

/// The registry of domains, tabs, panes and windows.
pub struct Mux<D> {
    domains: Vec<D>,
    default_domain: usize,
    tabs: Vec<Tab>,
    panes: Vec<Pane>,
    windows: Vec<Window>,
    pane_ids: IdAllocator,
    tab_ids: IdAllocator,
    window_ids: IdAllocator,
}

/// The ids of a sequence of domains.
pub open spec fn domain_ids<D: Domain>(domains: Seq<D>) -> Seq<DomainId> {
    domains.map_values(|d: D| d.id())
}

/// The names of a sequence of domains.
pub open spec fn domain_names<D: Domain>(domains: Seq<D>) -> Seq<Seq<char>> {
    domains.map_values(|d: D| d.name())
}

/// The ids of a sequence of tabs.
pub open spec fn tab_ids(tabs: Seq<Tab>) -> Seq<TabId> {
    tabs.map_values(|t: Tab| t.id())
}

/// The ids of a sequence of panes.
pub open spec fn pane_ids(panes: Seq<Pane>) -> Seq<PaneId> {
    panes.map_values(|p: Pane| p.pane_id)
}

/// The ids of a sequence of windows.
pub open spec fn window_ids(windows: Seq<Window>) -> Seq<WindowId> {
    windows.map_values(|w: Window| w.id())
}

impl<D> Mux<D> {
    /// The registered domains, in the order in which they were added.
    pub closed spec fn domains(&self) -> Seq<D> {
        self.domains@
    }

    /// The position of the default domain among the domains.
    pub closed spec fn default_index(&self) -> int {
        self.default_domain as int
    }

    /// The registered tabs, in the order in which they were added.
    pub closed spec fn tabs(&self) -> Seq<Tab> {
        self.tabs@
    }

    /// The registered panes, in the order in which they were added.
    pub closed spec fn panes(&self) -> Seq<Pane> {
        self.panes@
    }

    /// The windows, in the order in which they were created.
    pub closed spec fn windows(&self) -> Seq<Window> {
        self.windows@
    }

    /// The counter that hands out pane ids.
    pub closed spec fn pane_counter(&self) -> IdAllocator {
        self.pane_ids
    }

    /// The counter that hands out tab ids.
    pub closed spec fn tab_counter(&self) -> IdAllocator {
        self.tab_ids
    }

    /// The counter that hands out window ids.
    pub closed spec fn window_counter(&self) -> IdAllocator {
        self.window_ids
    }

    /// Whether `other` holds the same records and counters as this registry.
    pub open spec fn same_as(&self, other: Mux<D>) -> bool {
        &&& self.domains() == other.domains()
        &&& self.default_index() == other.default_index()
        &&& self.tabs() == other.tabs()
        &&& self.panes() == other.panes()
        &&& self.windows() == other.windows()
        &&& self.pane_counter() == other.pane_counter()
        &&& self.tab_counter() == other.tab_counter()
        &&& self.window_counter() == other.window_counter()
    }

    /// Whether a tab with this id is registered.
    pub open spec fn has_tab(&self, id: TabId) -> bool {
        tab_ids(self.tabs()).contains(id)
    }

    /// The tab with this id.
    pub open spec fn tab(&self, id: TabId) -> Tab {
        self.tabs()[first_position(tab_ids(self.tabs()), id)]
    }

    /// Whether a pane with this id is registered.
    pub open spec fn has_pane(&self, id: PaneId) -> bool {
        pane_ids(self.panes()).contains(id)
    }

    /// The pane with this id.
    pub open spec fn pane(&self, id: PaneId) -> Pane {
        self.panes()[first_position(pane_ids(self.panes()), id)]
    }

    /// Whether a window with this id exists.
    pub open spec fn has_window(&self, id: WindowId) -> bool {
        window_ids(self.windows()).contains(id)
    }

    /// The window with this id.
    pub open spec fn window(&self, id: WindowId) -> Window {
        self.windows()[first_position(window_ids(self.windows()), id)]
    }

    /// The active tab of a window, if the window exists, has tabs, and its
    /// active tab is registered.
    pub open spec fn active_tab(&self, window: WindowId) -> Option<Tab> {
        if self.has_window(window) && self.window(window).active_tab() is Some && self.has_tab(
            self.window(window).active_tab()->0,
        ) {
            Some(self.tab(self.window(window).active_tab()->0))
        } else {
            None
        }
    }

    /// The active pane of a tab, if the tab has one and it is registered.
    pub open spec fn active_pane(&self, tab: Tab) -> Option<Pane> {
        if tab.active() is Some && self.has_pane(tab.active()->0) {
            Some(self.pane(tab.active()->0))
        } else {
            None
        }
    }

    /// The position of the tab with this id.
    fn find_tab(&self, id: TabId) -> (found: Option<usize>)
        ensures
            found is Some <==> self.has_tab(id),
            found matches Some(at) ==> at < self.tabs().len() && self.tabs()[at as int]
                == self.tab(id) && self.tab(id).id() == id && is_first_at(
                tab_ids(self.tabs()),
                id,
                at as int,
            ),
    {
        let ghost keys = tab_ids(self.tabs());
        let mut at: usize = 0;
        while at < self.tabs.len()
            invariant
                at <= self.tabs@.len(),
                keys == tab_ids(self.tabs()),
                forall|j: int| 0 <= j < at ==> keys[j] != id,
            decreases self.tabs.len() - at,
        {
            if self.tabs[at].tab_id() == id {
                proof {
                    first_position_is(keys, id, at as int);
                }
                return Some(at);
            }
            at += 1;
        }
        None
    }

    /// The position of the pane with this id.
    fn find_pane(&self, id: PaneId) -> (found: Option<usize>)
        ensures
            found is Some <==> self.has_pane(id),
            found matches Some(at) ==> at < self.panes().len() && self.panes()[at as int]
                == self.pane(id) && self.pane(id).pane_id == id && is_first_at(
                pane_ids(self.panes()),
                id,
                at as int,
            ),
    {
        let ghost keys = pane_ids(self.panes());
        let mut at: usize = 0;
        while at < self.panes.len()
            invariant
                at <= self.panes@.len(),
                keys == pane_ids(self.panes()),
                forall|j: int| 0 <= j < at ==> keys[j] != id,
            decreases self.panes.len() - at,
        {
            if self.panes[at].pane_id == id {
                proof {
                    first_position_is(keys, id, at as int);
                }
                return Some(at);
            }
            at += 1;
        }
        None
    }

    /// The position of the window with this id.
    fn find_window(&self, id: WindowId) -> (found: Option<usize>)
        ensures
            found is Some <==> self.has_window(id),
            found matches Some(at) ==> at < self.windows().len() && self.windows()[at as int]
                == self.window(id) && self.window(id).id() == id && is_first_at(
                window_ids(self.windows()),
                id,
                at as int,
            ),
    {
        let ghost keys = window_ids(self.windows());
        let mut at: usize = 0;
        while at < self.windows.len()
            invariant
                at <= self.windows@.len(),
                keys == window_ids(self.windows()),
                forall|j: int| 0 <= j < at ==> keys[j] != id,
            decreases self.windows.len() - at,
        {
            if self.windows[at].window_id() == id {
                proof {
                    first_position_is(keys, id, at as int);
                }
                return Some(at);
            }
            at += 1;
        }
        None
    }

    /// The number of registered tabs.
    pub fn tab_count(&self) -> (count: usize)
        ensures
            count == self.tabs().len(),
    {
        self.tabs.len()
    }

    /// The number of registered panes.
    pub fn pane_count(&self) -> (count: usize)
        ensures
            count == self.panes().len(),
    {
        self.panes.len()
    }

    /// The number of windows.
    pub fn window_count(&self) -> (count: usize)
        ensures
            count == self.windows().len(),
    {
        self.windows.len()
    }

    /// The tab with this id.
    pub fn get_tab(&self, id: TabId) -> (tab: Option<&Tab>)
        ensures
            tab is Some <==> self.has_tab(id),
            tab matches Some(t) ==> *t == self.tab(id) && t.id() == id,
    {
        match self.find_tab(id) {
            Some(at) => Some(&self.tabs[at]),
            None => None,
        }
    }

    /// The pane with this id.
    pub fn get_pane(&self, id: PaneId) -> (pane: Option<&Pane>)
        ensures
            pane is Some <==> self.has_pane(id),
            pane matches Some(p) ==> *p == self.pane(id) && p.pane_id == id,
    {
        match self.find_pane(id) {
            Some(at) => Some(&self.panes[at]),
            None => None,
        }
    }

    /// The window with this id.
    pub fn get_window(&self, id: WindowId) -> (window: Option<&Window>)
        ensures
            window is Some <==> self.has_window(id),
            window matches Some(w) ==> *w == self.window(id) && w.id() == id,
    {
        match self.find_window(id) {
            Some(at) => Some(&self.windows[at]),
            None => None,
        }
    }

    /// The active pane of a tab.
    pub fn get_active_pane(&self, tab: &Tab) -> (pane: Option<&Pane>)
        ensures
            pane is Some <==> self.active_pane(*tab) is Some,
            pane matches Some(p) ==> Some(*p) == self.active_pane(*tab) && Some(p.pane_id)
                == tab.active(),
    {
        match tab.get_active_pane() {
            Some(id) => self.get_pane(id),
            None => None,
        }
    }
}

impl<D: Domain> Mux<D> {
    /// The default domain.
    pub open spec fn default_of(&self) -> D {
        self.domains()[self.default_index()]
    }

    /// Whether a domain with this id is registered.
    pub open spec fn has_domain(&self, id: DomainId) -> bool {
        domain_ids(self.domains()).contains(id)
    }

    /// The position of the domain with this id.
    pub open spec fn domain_position(&self, id: DomainId) -> int {
        first_position(domain_ids(self.domains()), id)
    }

    /// Whether a domain with this name is registered.
    pub open spec fn has_domain_named(&self, name: Seq<char>) -> bool {
        domain_names(self.domains()).contains(name)
    }

    /// The position of the first domain with this name.
    pub open spec fn named_domain_position(&self, name: Seq<char>) -> int {
        first_position(domain_names(self.domains()), name)
    }

    /// The registry's invariant: there is a default domain; no two records
    /// of a kind have the same id; every tab and window is well formed; no
    /// tab is empty; every pane that a tab holds is registered; and every id
    /// in use, that of a tab in a window too, has been handed out by the
    /// registry's counters.
    pub open spec fn well_formed(&self) -> bool {
        &&& 0 <= self.default_index() < self.domains().len()
        &&& domain_ids(self.domains()).no_duplicates()
        &&& tab_ids(self.tabs()).no_duplicates()
        &&& pane_ids(self.panes()).no_duplicates()
        &&& window_ids(self.windows()).no_duplicates()
        &&& forall|i: int|
            0 <= i < self.tabs().len() ==> (#[trigger] self.tabs()[i]).well_formed()
                && self.tabs()[i].id() < self.tab_counter().issued() && self.tabs()[i].panes().len()
                > 0
        &&& forall|i: int|
            0 <= i < self.panes().len() ==> (#[trigger] self.panes()[i]).pane_id
                < self.pane_counter().issued()
        &&& forall|i: int|
            0 <= i < self.windows().len() ==> (#[trigger] self.windows()[i]).well_formed()
                && self.windows()[i].id() < self.window_counter().issued()
        &&& forall|i: int, k: int|
            0 <= i < self.windows().len() && 0 <= k < self.windows()[i].tabs().len() ==> (
            #[trigger] self.windows()[i].tabs()[k]) < self.tab_counter().issued()
        &&& forall|i: int, k: int|
            0 <= i < self.tabs().len() && 0 <= k < self.tabs()[i].panes().len() ==> self.has_pane(
                (#[trigger] self.tabs()[i].panes()[k]).pane_id,
            )
    }

    /// A registry that holds `default_domain` and nothing else.
    pub fn new(default_domain: D) -> (mux: Mux<D>)
        ensures
            mux.well_formed(),
            mux.domains() == seq![default_domain],
            mux.default_index() == 0,
            mux.tabs().len() == 0,
            mux.panes().len() == 0,
            mux.windows().len() == 0,
            mux.pane_counter().issued() == 0,
            mux.tab_counter().issued() == 0,
            mux.window_counter().issued() == 0,
    {
        let mut domains: Vec<D> = Vec::new();
        domains.push(default_domain);
        Mux {
            domains,
            default_domain: 0,
            tabs: Vec::new(),
            panes: Vec::new(),
            windows: Vec::new(),
            pane_ids: IdAllocator::new(),
            tab_ids: IdAllocator::new(),
            window_ids: IdAllocator::new(),
        }
    }

    /// The position of the default domain among the domains.
    pub fn default_domain_index(&self) -> (at: usize)
        requires
            self.well_formed(),
        ensures
            at == self.default_index(),
            at < self.domains().len(),
    {
        self.default_domain
    }

    /// The domain at position `at`.
    pub fn domain_at(&self, at: usize) -> (domain: &D)
        requires
            at < self.domains().len(),
        ensures
            *domain == self.domains()[at as int],
    {
        &self.domains[at]
    }

    /// The position of the domain with this id.
    pub fn find_domain(&self, id: DomainId) -> (found: Option<usize>)
        ensures
            found is Some <==> self.has_domain(id),
            found matches Some(at) ==> at == self.domain_position(id) && at < self.domains().len()
                && self.domains()[at as int].id() == id,
    {
        let ghost keys = domain_ids(self.domains());
        let mut at: usize = 0;
        while at < self.domains.len()
            invariant
                at <= self.domains@.len(),
                keys == domain_ids(self.domains()),
                forall|j: int| 0 <= j < at ==> keys[j] != id,
            decreases self.domains.len() - at,
        {
            if self.domains[at].domain_id() == id {
                proof {
                    first_position_is(keys, id, at as int);
                }
                return Some(at);
            }
            at += 1;
        }
        None
    }

    /// The position of the first domain with this name.
    pub fn find_domain_named(&self, name: &str) -> (found: Option<usize>)
        ensures
            found is Some <==> self.has_domain_named(name@),
            found matches Some(at) ==> at == self.named_domain_position(name@) && at
                < self.domains().len() && self.domains()[at as int].name() == name@,
    {
        let ghost keys = domain_names(self.domains());
        let mut at: usize = 0;
        while at < self.domains.len()
            invariant
                at <= self.domains@.len(),
                keys == domain_names(self.domains()),
                forall|j: int| 0 <= j < at ==> keys[j] != name@,
            decreases self.domains.len() - at,
        {
            if same_text(self.domains[at].domain_name(), name) {
                proof {
                    first_position_is(keys, name@, at as int);
                }
                return Some(at);
            }
            at += 1;
        }
        None
    }

    /// Registers `domain`, unless a domain with its id is registered
    /// already. Returns whether it was registered.
    pub fn add_domain(&mut self, domain: D) -> (added: bool)
        requires
            old(self).well_formed(),
        ensures
            final(self).well_formed(),
            added == !old(self).has_domain(domain.id()),
            added ==> final(self).domains() == old(self).domains().push(domain),
            !added ==> final(self).domains() == old(self).domains(),
            final(self).default_index() == old(self).default_index(),
            final(self).tabs() == old(self).tabs(),
            final(self).panes() == old(self).panes(),
            final(self).windows() == old(self).windows(),
            final(self).pane_counter() == old(self).pane_counter(),
            final(self).tab_counter() == old(self).tab_counter(),
            final(self).window_counter() == old(self).window_counter(),
    {
        if self.find_domain(domain.domain_id()).is_some() {
            false
        } else {
            proof {
                push_new_key(domain_ids(self.domains()), domain.id());
                assert(domain_ids(self.domains().push(domain)) =~= domain_ids(
                    self.domains(),
                ).push(domain.id()));
            }
            self.domains.push(domain);
            true
        }
    }

    /// The default domain.
    pub fn default_domain(&self) -> (domain: &D)
        requires
            self.well_formed(),
        ensures
            *domain == self.default_of(),
    {
        &self.domains[self.default_domain]
    }

    /// The domain with this id.
    pub fn get_domain(&self, id: DomainId) -> (domain: Option<&D>)
        ensures
            domain is Some <==> self.has_domain(id),
            domain matches Some(d) ==> *d == self.domains()[self.domain_position(id)] && d.id()
                == id,
    {
        match self.find_domain(id) {
            Some(at) => Some(&self.domains[at]),
            None => None,
        }
    }

    /// The first domain with this name.
    pub fn get_domain_by_name(&self, name: &str) -> (domain: Option<&D>)
        ensures
            domain is Some <==> self.has_domain_named(name@),
            domain matches Some(d) ==> *d == self.domains()[self.named_domain_position(name@)]
                && d.name() == name@,
    {
        match self.find_domain_named(name) {
            Some(at) => Some(&self.domains[at]),
            None => None,
        }
    }

    /// The active tab of a window.
    pub fn get_active_tab_for_window(&self, window: WindowId) -> (tab: Option<&Tab>)
        requires
            self.well_formed(),
        ensures
            tab is Some <==> self.active_tab(window) is Some,
            tab matches Some(t) ==> Some(*t) == self.active_tab(window) && t.well_formed()
                && self.has_tab(t.id()),
    {
        proof {
            if self.has_window(window) {
                first_position_exists(window_ids(self.windows()), window);
            }
        }
        match self.get_window(window) {
            Some(w) => match w.get_active() {
                Some(id) => {
                    proof {
                        if self.has_tab(id) {
                            first_position_exists(tab_ids(self.tabs()), id);
                        }
                    }
                    self.get_tab(id)
                },
                None => None,
            },
            None => None,
        }
    }

    /// Creates a window without tabs and returns its id, or `None` where no
    /// window id is left.
    pub fn new_empty_window(&mut self) -> (window: Option<WindowId>)
        requires
            old(self).well_formed(),
        ensures
            final(self).well_formed(),
            final(self).domains() == old(self).domains(),
            final(self).default_index() == old(self).default_index(),
            final(self).tabs() == old(self).tabs(),
            final(self).panes() == old(self).panes(),
            final(self).pane_counter() == old(self).pane_counter(),
            final(self).tab_counter() == old(self).tab_counter(),
            final(self).window_counter() == old(self).window_counter().after(1),
            window == old(self).window_counter().nth(0),
            window is None ==> final(self).windows() == old(self).windows()
                && final(self).window_counter() == old(self).window_counter(),
            window matches Some(id) ==> {
                &&& final(self).window_counter().issued() == old(self).window_counter().issued()
                    + 1
                &&& !old(self).has_window(id)
                &&& final(self).windows().len() == old(self).windows().len() + 1
                &&& final(self).windows().drop_last() == old(self).windows()
                &&& final(self).windows().last().id() == id
                &&& final(self).windows().last().tabs().len() == 0
                &&& final(self).has_window(id)
                &&& final(self).window(id) == final(self).windows().last()
                &&& forall|other: WindowId|
                    old(self).has_window(other) ==> final(self).has_window(other)
                        && final(self).window(other) == old(self).window(other)
            },
    {
        proof {
            self.window_ids.after_composes(1, 0);
        }
        match self.window_ids.allocate() {
            Some(id) => {
                let window = Window::new(id);
                proof {
                    let keys = window_ids(self.windows());
                    assert(!keys.contains(id)) by {
                        if keys.contains(id) {
                            let at = choose|at: int| 0 <= at < keys.len() && keys[at] == id;
                            assert(self.windows()[at].id() == id);
                        }
                    }
                    push_keeps_records(self.windows(), keys, window, id);
                    assert(window_ids(self.windows().push(window)) =~= keys.push(id));
                    assert(self.windows().push(window).drop_last() =~= self.windows());
                }
                self.windows.push(window);
                Some(id)
            },
            None => None,
        }
    }

    /// Hands out the id for a pane that is about to be created, or `None`
    /// where no pane id is left.
    pub fn alloc_pane_id(&mut self) -> (pane: Option<PaneId>)
        requires
            old(self).well_formed(),
        ensures
            final(self).well_formed(),
            final(self).domains() == old(self).domains(),
            final(self).default_index() == old(self).default_index(),
            final(self).tabs() == old(self).tabs(),
            final(self).panes() == old(self).panes(),
            final(self).windows() == old(self).windows(),
            final(self).tab_counter() == old(self).tab_counter(),
            final(self).window_counter() == old(self).window_counter(),
            final(self).pane_counter() == old(self).pane_counter().after(1),
            pane == old(self).pane_counter().nth(0),
            pane is None ==> final(self).pane_counter() == old(self).pane_counter(),
            pane is Some ==> final(self).pane_counter().issued()
                == old(self).pane_counter().issued() + 1,
            pane matches Some(id) ==> !old(self).has_pane(id)
                && id < final(self).pane_counter().issued(),
    {
        proof {
            self.pane_ids.after_composes(1, 0);
        }
        let pane = self.pane_ids.allocate();
        proof {
            if let Some(id) = pane {
                let keys = pane_ids(self.panes());
                if keys.contains(id) {
                    let at = choose|at: int| 0 <= at < keys.len() && keys[at] == id;
                    assert(self.panes()[at].pane_id == id);
                }
            }
        }
        pane
    }

    /// Registers `pane`. Its id must have come from `alloc_pane_id` and must
    /// not be registered yet.
    pub fn add_pane(&mut self, pane: Pane) -> (added: Result<(), MuxError>)
        requires
            old(self).well_formed(),
        ensures
            final(self).well_formed(),
            final(self).domains() == old(self).domains(),
            final(self).default_index() == old(self).default_index(),
            final(self).tabs() == old(self).tabs(),
            final(self).windows() == old(self).windows(),
            final(self).pane_counter() == old(self).pane_counter(),
            final(self).tab_counter() == old(self).tab_counter(),
            final(self).window_counter() == old(self).window_counter(),
            added is Ok <==> !old(self).has_pane(pane.pane_id)
                && pane.pane_id < old(self).pane_counter().issued(),
            added is Err ==> added == Err::<(), MuxError>(MuxError::InvalidId)
                && final(self).panes() == old(self).panes(),
            added is Ok ==> final(self).panes() == old(self).panes().push(pane)
                && final(self).has_pane(pane.pane_id) && final(self).pane(pane.pane_id) == pane,
    {
        if self.find_pane(pane.pane_id).is_some() || !self.pane_ids.has_issued(pane.pane_id) {
            return Err(MuxError::InvalidId);
        }
        proof {
            let keys = pane_ids(self.panes());
            push_keeps_records(self.panes(), keys, pane, pane.pane_id);
            assert(pane_ids(self.panes().push(pane)) =~= keys.push(pane.pane_id));
        }
        self.panes.push(pane);
        Ok(())
    }

    /// Registers `tab` and `pane`, the only pane of `tab`. The tab's id is
    /// the next that the registry hands out; the pane's id must have come
    /// from `alloc_pane_id` and must not be registered yet. Where anything
    /// is refused nothing is registered.
    pub fn add_tab_and_active_pane(&mut self, size: &crate::layout::TerminalSize, pane: Pane) -> (
        added: Result<TabId, MuxError>)
        requires
            old(self).well_formed(),
        ensures
            final(self).well_formed(),
            final(self).domains() == old(self).domains(),
            final(self).default_index() == old(self).default_index(),
            final(self).windows() == old(self).windows(),
            final(self).pane_counter() == old(self).pane_counter(),
            final(self).window_counter() == old(self).window_counter(),
            added == tab_outcome(*old(self), pane.pane_id),
            added is Err ==> final(self).tabs() == old(self).tabs()
                && final(self).panes() == old(self).panes()
                && final(self).tab_counter() == old(self).tab_counter(),
            added matches Ok(tab) ==> {
                &&& Some(tab) == old(self).tab_counter().nth(0)
                &&& final(self).tab_counter() == old(self).tab_counter().after(1)
                &&& final(self).tab_counter().issued() == old(self).tab_counter().issued() + 1
                &&& !old(self).has_tab(tab)
                &&& final(self).panes() == old(self).panes().push(pane)
                &&& final(self).tabs().len() == old(self).tabs().len() + 1
                &&& final(self).tabs().drop_last() == old(self).tabs()
                &&& final(self).tabs().last() == final(self).tab(tab)
                &&& final(self).has_tab(tab)
                &&& final(self).tab(tab).id() == tab
                &&& final(self).tab(tab).size() == *size
                &&& final(self).tab(tab).panes() == seq![
                    crate::tab::PositionedPane { pane_id: pane.pane_id, size: *size },
                ]
                &&& final(self).tab(tab).active() == Some(pane.pane_id)
                &&& final(self).has_pane(pane.pane_id)
                &&& final(self).pane(pane.pane_id) == pane
                &&& forall|other: TabId|
                    old(self).has_tab(other) ==> final(self).has_tab(other) && final(self).tab(
                        other,
                    ) == old(self).tab(other)
                &&& forall|other: PaneId|
                    old(self).has_pane(other) ==> final(self).has_pane(other) && final(self).pane(
                        other,
                    ) == old(self).pane(other)
            },
    {
        if self.find_pane(pane.pane_id).is_some() || !self.pane_ids.has_issued(pane.pane_id) {
            return Err(MuxError::InvalidId);
        }
        proof {
            self.tab_ids.after_composes(1, 0);
        }
        let id = match self.tab_ids.allocate() {
            Some(id) => id,
            None => {
                return Err(MuxError::IdsExhausted);
            },
        };
        let mut tab = Tab::new(id, size);
        tab.assign_pane(pane.pane_id);
        proof {
            let keys = tab_ids(self.tabs());
            assert(!keys.contains(id)) by {
                if keys.contains(id) {
                    let at = choose|at: int| 0 <= at < keys.len() && keys[at] == id;
                    assert(self.tabs()[at].id() == id);
                }
            }
            push_keeps_records(self.tabs(), keys, tab, id);
            assert(tab_ids(self.tabs().push(tab)) =~= keys.push(id));
            assert(self.tabs().push(tab).drop_last() =~= self.tabs());
            let pane_keys = pane_ids(self.panes());
            push_keeps_records(self.panes(), pane_keys, pane, pane.pane_id);
            assert(pane_ids(self.panes().push(pane)) =~= pane_keys.push(pane.pane_id));
        }
        self.tabs.push(tab);
        self.panes.push(pane);
        Ok(id)
    }

    /// Appends a tab to a window, unless the window holds it already. The
    /// tab's id must be one that the registry has handed out.
    pub fn add_tab_to_window(&mut self, tab: TabId, window: WindowId) -> (added: Result<
        (),
        MuxError,
    >)
        requires
            old(self).well_formed(),
        ensures
            final(self).well_formed(),
            final(self).domains() == old(self).domains(),
            final(self).default_index() == old(self).default_index(),
            final(self).tabs() == old(self).tabs(),
            final(self).panes() == old(self).panes(),
            final(self).pane_counter() == old(self).pane_counter(),
            final(self).tab_counter() == old(self).tab_counter(),
            final(self).window_counter() == old(self).window_counter(),
            window_ids(final(self).windows()) == window_ids(old(self).windows()),
            added == append_outcome(*old(self), tab, window),
            added is Err ==> final(self).windows() == old(self).windows(),
            added is Ok ==> {
                &&& final(self).window(window).id() == window
                &&& final(self).window(window).tabs() == if old(self).window(
                    window,
                ).tabs().contains(tab) {
                    old(self).window(window).tabs()
                } else {
                    old(self).window(window).tabs().push(tab)
                }
                &&& final(self).window(window).active_index() == old(self).window(
                    window,
                ).active_index()
                &&& final(self).window(window).last_active() == old(self).window(
                    window,
                ).last_active()
                &&& forall|other: WindowId|
                    old(self).has_window(other) && other != window ==> final(self).window(other)
                        == old(self).window(other)
            },
    {
        let at = match self.find_window(window) {
            Some(at) => at,
            None => {
                return Err(MuxError::NoSuchWindow(window));
            },
        };
        if !self.tab_ids.has_issued(tab) {
            return Err(MuxError::InvalidId);
        }
        let ghost before = self.windows();
        let mut changed = self.windows.remove(at);
        changed.push(tab);
        proof {
            let keys = window_ids(before);
            let after = before.update(at as int, changed);
            assert(window_ids(after) =~= keys);
            assert(before.remove(at as int).insert(at as int, changed) =~= after);
            assert forall|other: WindowId|
                keys.contains(other) && other != window implies after[first_position(keys, other)]
                == before[first_position(keys, other)] by {
                first_position_exists(keys, other);
            }
            assert forall|i: int, k: int|
                0 <= i < after.len() && 0 <= k < after[i].tabs().len() implies (
            #[trigger] after[i].tabs()[k]) < self.tab_counter().issued() by {
                if i == at {
                    if k < before[i].tabs().len() {
                        assert(after[i].tabs()[k] == before[i].tabs()[k]);
                    }
                } else {
                    assert(after[i].tabs()[k] == before[i].tabs()[k]);
                }
            }
        }
        self.windows.insert(at, changed);
        Ok(())
    }

    /// Makes a tab the active tab of a window, where the window holds it,
    /// and remembers the tab that was active until then.
    pub fn set_active_tab(&mut self, window: WindowId, tab: TabId) -> (set: Result<(), MuxError>)
        requires
            old(self).well_formed(),
        ensures
            final(self).well_formed(),
            final(self).domains() == old(self).domains(),
            final(self).default_index() == old(self).default_index(),
            final(self).tabs() == old(self).tabs(),
            final(self).panes() == old(self).panes(),
            final(self).pane_counter() == old(self).pane_counter(),
            final(self).tab_counter() == old(self).tab_counter(),
            final(self).window_counter() == old(self).window_counter(),
            window_ids(final(self).windows()) == window_ids(old(self).windows()),
            set is Ok <==> old(self).has_window(window),
            set is Err ==> set == Err::<(), MuxError>(MuxError::NoSuchWindow(window))
                && final(self).windows() == old(self).windows(),
            set is Ok ==> {
                &&& final(self).window(window).id() == window
                &&& final(self).window(window).tabs() == old(self).window(window).tabs()
                &&& old(self).window(window).tabs().contains(tab) ==> final(self).window(
                    window,
                ).active_tab() == Some(tab)
                &&& !old(self).window(window).tabs().contains(tab) ==> final(self).window(window)
                    == old(self).window(window)
                &&& forall|other: WindowId|
                    old(self).has_window(other) && other != window
                        ==> final(self).window(other) == old(self).window(
                        other,
                    )
            },
    {
        let at = match self.find_window(window) {
            Some(at) => at,
            None => {
                return Err(MuxError::NoSuchWindow(window));
            },
        };
        let ghost before = self.windows();
        let mut changed = self.windows.remove(at);
        match changed.idx_by_id(tab) {
            Some(index) => {
                changed.save_and_then_set_active(index);
            },
            None => {},
        }
        proof {
            let keys = window_ids(before);
            assert(window_ids(before.update(at as int, changed)) =~= keys);
            assert(before.remove(at as int).insert(at as int, changed) =~= before.update(
                at as int,
                changed,
            ));
            assert forall|other: WindowId| keys.contains(other)
                && other != window implies before.update(
                at as int,
                changed,
            )[first_position(keys, other)] == before[first_position(keys, other)] by {
                first_position_exists(keys, other);
            }
        }
        self.windows.insert(at, changed);
        Ok(())
    }

    /// Divides the pane `target` of the tab `tab` along `direction`, puts
    /// `pane` in the second share and registers it. Where anything is
    /// refused nothing changes. Returns the position of the new pane in the
    /// tab.
    pub fn split_and_insert(
        &mut self,
        tab: TabId,
        target: PaneId,
        direction: SplitDirection,
        pane: Pane,
    ) -> (inserted: Result<usize, MuxError>)
        requires
            old(self).well_formed(),
        ensures
            final(self).well_formed(),
            final(self).domains() == old(self).domains(),
            final(self).default_index() == old(self).default_index(),
            final(self).windows() == old(self).windows(),
            final(self).pane_counter() == old(self).pane_counter(),
            final(self).tab_counter() == old(self).tab_counter(),
            final(self).window_counter() == old(self).window_counter(),
            tab_ids(final(self).tabs()) == tab_ids(old(self).tabs()),
            inserted == split_outcome(*old(self), tab, target, direction, pane.pane_id),
            inserted is Err ==> final(self).tabs() == old(self).tabs() && final(self).panes()
                == old(self).panes(),
            inserted matches Ok(at) ==> {
                &&& final(self).panes() == old(self).panes().push(pane)
                &&& final(self).has_pane(pane.pane_id)
                &&& final(self).pane(pane.pane_id) == pane
                &&& final(self).tab(tab).id() == tab
                &&& final(self).tab(tab).size() == old(self).tab(tab).size()
                &&& at == old(self).tab(tab).position_of(target) + 1
                &&& final(self).tab(tab).panes() == old(self).tab(tab).panes().take(
                    old(self).tab(tab).position_of(target),
                ) + split_pair(
                    target,
                    split_sizes(
                        old(self).tab(tab).panes()[old(self).tab(tab).position_of(target)].size,
                        direction,
                    ),
                    pane.pane_id,
                ) + old(self).tab(tab).panes().skip(old(self).tab(tab).position_of(target) + 1)
                &&& final(self).tab(tab).active() == Some(pane.pane_id)
                &&& forall|other: TabId|
                    old(self).has_tab(other) && other != tab
                        ==> final(self).tab(other) == old(self).tab(
                        other,
                    )
                &&& forall|other: PaneId|
                    old(self).has_pane(other) ==> final(self).has_pane(other) && final(self).pane(
                        other,
                    ) == old(self).pane(other)
            },
    {
        let at = match self.find_tab(tab) {
            Some(at) => at,
            None => {
                return Err(MuxError::InvalidTab(tab));
            },
        };
        let index = match self.tabs[at].pane_index(target) {
            Some(index) => index,
            None => {
                return Err(MuxError::InvalidPane(target));
            },
        };
        match self.tabs[at].compute_split_size(index, direction) {
            Some(sizes) => {
                if !sizes.fits() {
                    return Err(MuxError::NoSpace);
                }
            },
            None => {},
        }
        if self.find_pane(pane.pane_id).is_some() || !self.pane_ids.has_issued(pane.pane_id)
            || self.tabs[at].pane_index(pane.pane_id).is_some() {
            return Err(MuxError::InvalidId);
        }
        let ghost before = self.tabs();
        let mut changed = self.tabs.remove(at);
        let inserted = changed.split_and_insert(index, direction, pane.pane_id);
        proof {
            let keys = tab_ids(before);
            assert(tab_ids(before.update(at as int, changed)) =~= keys);
            assert(before.remove(at as int).insert(at as int, changed) =~= before.update(
                at as int,
                changed,
            ));
            assert forall|other: TabId| keys.contains(other) && other != tab implies before.update(
                at as int,
                changed,
            )[first_position(keys, other)] == before[first_position(keys, other)] by {
                first_position_exists(keys, other);
            }
            let pane_keys = pane_ids(self.panes());
            push_keeps_records(self.panes(), pane_keys, pane, pane.pane_id);
            assert(pane_ids(self.panes().push(pane)) =~= pane_keys.push(pane.pane_id));
        }
        self.tabs.insert(at, changed);
        match inserted {
            Ok(position) => {
                self.panes.push(pane);
                Ok(position)
            },
            Err(_) => Err(MuxError::InvalidId),
        }
    }

    /// Records what has been attached to a pane. Returns whether the pane is
    /// registered.
    pub fn attach_to_pane(
        &mut self,
        pane: PaneId,
        config: bool,
        clipboard: bool,
        download_handler: bool,
    ) -> (found: bool)
        requires
            old(self).well_formed(),
        ensures
            final(self).well_formed(),
            final(self).domains() == old(self).domains(),
            final(self).default_index() == old(self).default_index(),
            final(self).tabs() == old(self).tabs(),
            final(self).windows() == old(self).windows(),
            final(self).pane_counter() == old(self).pane_counter(),
            final(self).tab_counter() == old(self).tab_counter(),
            final(self).window_counter() == old(self).window_counter(),
            pane_ids(final(self).panes()) == pane_ids(old(self).panes()),
            found == old(self).has_pane(pane),
            !found ==> final(self).panes() == old(self).panes(),
            found ==> {
                &&& final(self).pane(pane).pane_id == pane
                &&& final(self).pane(pane).domain_id == old(self).pane(pane).domain_id
                &&& final(self).pane(pane).working_dir == old(self).pane(pane).working_dir
                &&& final(self).pane(pane).has_config == (old(self).pane(pane).has_config
                    || config)
                &&& final(self).pane(pane).has_clipboard == (old(self).pane(pane).has_clipboard
                    || clipboard)
                &&& final(self).pane(pane).has_download_handler == (old(self).pane(
                    pane,
                ).has_download_handler || download_handler)
                &&& forall|other: PaneId|
                    old(self).has_pane(other) && other != pane
                        ==> final(self).pane(other) == old(self).pane(
                        other,
                    )
            },
    {
        let at = match self.find_pane(pane) {
            Some(at) => at,
            None => {
                return false;
            },
        };
        let ghost before = self.panes();
        let mut changed = self.panes.remove(at);
        changed.has_config = changed.has_config || config;
        changed.has_clipboard = changed.has_clipboard || clipboard;
        changed.has_download_handler = changed.has_download_handler || download_handler;
        proof {
            let keys = pane_ids(before);
            assert(pane_ids(before.update(at as int, changed)) =~= keys);
            assert(before.remove(at as int).insert(at as int, changed) =~= before.update(
                at as int,
                changed,
            ));
            assert forall|other: PaneId| keys.contains(other)
                && other != pane implies before.update(
                at as int,
                changed,
            )[first_position(keys, other)] == before[first_position(keys, other)] by {
                first_position_exists(keys, other);
            }
        }
        self.panes.insert(at, changed);
        true
    }

    /// Records the working directory that a pane's session has reported.
    /// Returns whether the pane is registered.
    pub fn set_pane_working_dir(&mut self, pane: PaneId, dir: Option<WorkingDir>) -> (found: bool)
        requires
            old(self).well_formed(),
        ensures
            final(self).well_formed(),
            final(self).domains() == old(self).domains(),
            final(self).default_index() == old(self).default_index(),
            final(self).tabs() == old(self).tabs(),
            final(self).windows() == old(self).windows(),
            final(self).pane_counter() == old(self).pane_counter(),
            final(self).tab_counter() == old(self).tab_counter(),
            final(self).window_counter() == old(self).window_counter(),
            pane_ids(final(self).panes()) == pane_ids(old(self).panes()),
            found == old(self).has_pane(pane),
            !found ==> final(self).panes() == old(self).panes(),
            found ==> {
                &&& final(self).pane(pane).pane_id == pane
                &&& final(self).pane(pane).domain_id == old(self).pane(pane).domain_id
                &&& final(self).pane(pane).working_dir == dir
                &&& final(self).pane(pane).has_config == old(self).pane(pane).has_config
                &&& final(self).pane(pane).has_clipboard == old(self).pane(pane).has_clipboard
                &&& final(self).pane(pane).has_download_handler == old(self).pane(
                    pane,
                ).has_download_handler
                &&& forall|other: PaneId|
                    old(self).has_pane(other) && other != pane
                        ==> final(self).pane(other) == old(self).pane(
                        other,
                    )
            },
    {
        let at = match self.find_pane(pane) {
            Some(at) => at,
            None => {
                return false;
            },
        };
        let ghost before = self.panes();
        let mut changed = self.panes.remove(at);
        changed.working_dir = dir;
        proof {
            let keys = pane_ids(before);
            assert(pane_ids(before.update(at as int, changed)) =~= keys);
            assert(before.remove(at as int).insert(at as int, changed) =~= before.update(
                at as int,
                changed,
            ));
            assert forall|other: PaneId| keys.contains(other)
                && other != pane implies before.update(
                at as int,
                changed,
            )[first_position(keys, other)] == before[first_position(keys, other)] by {
                first_position_exists(keys, other);
            }
        }
        self.panes.insert(at, changed);
        true
    }
}

/// What recording a pane in a tab of its own returns: the id of the tab, or
/// why nothing was recorded. The pane's id must have been handed out and
/// must not be in use, and there must be a tab id left.
pub open spec fn tab_outcome<D>(mux: Mux<D>, pane: PaneId) -> Result<TabId, MuxError> {
    if mux.has_pane(pane) || pane >= mux.pane_counter().issued() {
        Err(MuxError::InvalidId)
    } else if mux.tab_counter().exhausted() {
        Err(MuxError::IdsExhausted)
    } else {
        Ok(mux.tab_counter().issued() as usize)
    }
}

/// What appending a tab to a window returns. The window must exist and the
/// tab's id must have been handed out.
pub open spec fn append_outcome<D>(mux: Mux<D>, tab: TabId, window: WindowId) -> Result<
    (),
    MuxError,
> {
    if !mux.has_window(window) {
        Err(MuxError::NoSuchWindow(window))
    } else if tab >= mux.tab_counter().issued() {
        Err(MuxError::InvalidId)
    } else {
        Ok(())
    }
}

/// What a split returns: the position of the new pane in the tab, or why
/// the split is refused. A split is refused where the tab is not registered,
/// where it does not hold the pane to divide, where that pane is too small,
/// and where the id of the pane to insert is in use or was never handed out.
pub open spec fn split_outcome<D>(
    mux: Mux<D>,
    tab: TabId,
    target: PaneId,
    direction: SplitDirection,
    added: PaneId,
) -> Result<usize, MuxError> {
    if !mux.has_tab(tab) {
        Err(MuxError::InvalidTab(tab))
    } else if !mux.tab(tab).holds(target) {
        Err(MuxError::InvalidPane(target))
    } else {
        let at = mux.tab(tab).position_of(target);
        if !split_sizes(mux.tab(tab).panes()[at].size, direction).has_room() {
            Err(MuxError::NoSpace)
        } else if mux.has_pane(added) || added >= mux.pane_counter().issued() || mux.tab(
            tab,
        ).holds(added) {
            Err(MuxError::InvalidId)
        } else {
            Ok((at + 1) as usize)
        }
    }
}

/// A registered tab has an active pane, and that pane is registered.
pub proof fn registered_tab_has_active_pane<D: Domain>(mux: Mux<D>, tab: TabId)
    requires
        mux.well_formed(),
        mux.has_tab(tab),
    ensures
        mux.active_pane(mux.tab(tab)) is Some,
        mux.tab(tab).holds(mux.active_pane(mux.tab(tab))->0.pane_id),
        mux.tab(tab).id() == tab,
{
    let keys = tab_ids(mux.tabs());
    first_position_exists(keys, tab);
    let at = first_position(keys, tab);
    let held = mux.tabs()[at].panes();
    let active = mux.tab(tab).active()->0;
    let k = choose|k: int| 0 <= k < held.len() && (#[trigger] held[k]).pane_id == active;
    assert(mux.has_pane(mux.tabs()[at].panes()[k].pane_id));
    first_position_exists(pane_ids(mux.panes()), active);
}

} // verus!
