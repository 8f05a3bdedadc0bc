//! A tab: panes arranged by successive splits, one of them active.

use crate::ids::{PaneId, TabId};
use crate::layout::{split_conserves_space, split_sizes, SplitDirection, SplitSizes, TerminalSize};
use crate::lookup::{first_position, first_position_is};
use vstd::prelude::*;

verus! {

/// A pane with the space it occupies in its tab.
#[derive(Clone, Copy, Debug, PartialEq, Eq, Structural)]
pub struct PositionedPane {
    /// The pane.
    pub pane_id: PaneId,
    /// The space the pane occupies.
    pub size: TerminalSize,
}

/// The arrangement of a tab's panes: a pane, or two arrangements on either
/// side of a divider.
#[derive(Debug)]
pub enum Layout {
    Leaf(PositionedPane),
    Split { direction: SplitDirection, first: Box<Layout>, second: Box<Layout> },
}

/// Why a tab refused a split.
#[derive(Clone, Copy, Debug, PartialEq, Eq, Structural)]
pub enum SplitError {
    /// The tab has no pane at the given position.
    InvalidPaneIndex,
    /// The pane is too small to be divided.
    NoSpace,
    /// The pane to insert is already in the tab.
    DuplicatePane,
}

/// The panes that a split leaves in place of `pane`: `pane` itself in the
/// first share and `added` in the second.
pub open spec fn split_pair(pane: PaneId, sizes: SplitSizes, added: PaneId) -> Seq<PositionedPane> {
    seq![
        PositionedPane { pane_id: pane, size: sizes.first },
        PositionedPane { pane_id: added, size: sizes.second },
    ]
}

/// Whether no two of `panes` are the same pane.
pub open spec fn distinct_panes(panes: Seq<PositionedPane>) -> bool {
    forall|i: int, j: int|
        0 <= i < panes.len() && 0 <= j < panes.len() && i != j ==> (#[trigger] panes[i]).pane_id
            != (#[trigger] panes[j]).pane_id
}

/// The ids of `panes`, in order.
pub open spec fn held_ids(panes: Seq<PositionedPane>) -> Seq<PaneId> {
    panes.map_values(|p: PositionedPane| p.pane_id)
}

/// Whether `pane` is one of `panes`.
pub open spec fn holds_pane(panes: Seq<PositionedPane>, pane: PaneId) -> bool {
    exists|i: int| 0 <= i < panes.len() && (#[trigger] panes[i]).pane_id == pane
}

impl Layout {
    /// The panes of the arrangement, first side before second.
    pub open spec fn leaves(self) -> Seq<PositionedPane>
        decreases self,
    {
        match self {
            Layout::Leaf(pane) => seq![pane],
            Layout::Split { first, second, .. } => first.leaves() + second.leaves(),
        }
    }

    /// The columns that the arrangement spans, dividers included.
    pub open spec fn cols(self) -> int
        decreases self,
    {
        match self {
            Layout::Leaf(pane) => pane.size.cols as int,
            Layout::Split { direction: SplitDirection::Horizontal, first, second } => first.cols()
                + 1 + second.cols(),
            Layout::Split { direction: SplitDirection::Vertical, first, .. } => first.cols(),
        }
    }

    /// The rows that the arrangement spans, dividers included.
    pub open spec fn rows(self) -> int
        decreases self,
    {
        match self {
            Layout::Leaf(pane) => pane.size.rows as int,
            Layout::Split { direction: SplitDirection::Horizontal, first, .. } => first.rows(),
            Layout::Split { direction: SplitDirection::Vertical, first, second } => first.rows()
                + 1 + second.rows(),
        }
    }

    /// Whether the two sides of every split line up: as tall as each other
    /// when side by side, as wide as each other when stacked.
    pub open spec fn tiled(self) -> bool
        decreases self,
    {
        match self {
            Layout::Leaf(_) => true,
            Layout::Split { direction: SplitDirection::Horizontal, first, second } => {
                first.tiled() && second.tiled() && first.rows() == second.rows()
            },
            Layout::Split { direction: SplitDirection::Vertical, first, second } => {
                first.tiled() && second.tiled() && first.cols() == second.cols()
            },
        }
    }

    /// The arrangement with every leaf that holds `pane` replaced by a split
    /// between `pane` and `added`.
    pub open spec fn with_split(self, pane: PaneId, sizes: SplitSizes, added: PaneId) -> Layout
        decreases self,
    {
        match self {
            Layout::Leaf(leaf) => if leaf.pane_id == pane {
                Layout::Split {
                    direction: sizes.direction,
                    first: Box::new(
                        Layout::Leaf(PositionedPane { pane_id: pane, size: sizes.first }),
                    ),
                    second: Box::new(
                        Layout::Leaf(PositionedPane { pane_id: added, size: sizes.second }),
                    ),
                }
            } else {
                self
            },
            Layout::Split { direction, first, second } => Layout::Split {
                direction,
                first: Box::new(first.with_split(pane, sizes, added)),
                second: Box::new(second.with_split(pane, sizes, added)),
            },
        }
    }

    /// An arrangement that does not hold `pane` is left as it is.
    pub proof fn split_of_absent_pane(self, pane: PaneId, sizes: SplitSizes, added: PaneId)
        requires
            !holds_pane(self.leaves(), pane),
        ensures
            self.with_split(pane, sizes, added) == self,
        decreases self,
    {
        match self {
            Layout::Leaf(leaf) => {
                assert(self.leaves()[0] == leaf);
            },
            Layout::Split { direction, first, second } => {
                let all = self.leaves();
                assert forall|i: int| 0 <= i < first.leaves().len() implies (
                #[trigger] first.leaves()[i]).pane_id != pane by {
                    assert(all[i] == first.leaves()[i]);
                }
                assert forall|i: int| 0 <= i < second.leaves().len() implies (
                #[trigger] second.leaves()[i]).pane_id != pane by {
                    assert(all[first.leaves().len() + i] == second.leaves()[i]);
                }
                first.split_of_absent_pane(pane, sizes, added);
                second.split_of_absent_pane(pane, sizes, added);
            },
        }
    }

    /// Splitting the pane at position `at` puts the pair in its place and
    /// leaves every other pane where it was.
    pub proof fn split_replaces_one_leaf(
        self,
        at: int,
        sizes: SplitSizes,
        added: PaneId,
    )
        requires
            distinct_panes(self.leaves()),
            0 <= at < self.leaves().len(),
        ensures
            self.with_split(self.leaves()[at].pane_id, sizes, added).leaves()
                == self.leaves().take(at) + split_pair(self.leaves()[at].pane_id, sizes, added)
                + self.leaves().skip(at + 1),
        decreases self,
    {
        let all = self.leaves();
        let pane = all[at].pane_id;
        let after = self.with_split(pane, sizes, added).leaves();
        let expected = all.take(at) + split_pair(pane, sizes, added) + all.skip(at + 1);
        match self {
            Layout::Leaf(leaf) => {
                reveal_with_fuel(Layout::leaves, 3);
                assert(all =~= seq![leaf]);
                assert(after =~= split_pair(pane, sizes, added));
                assert(after =~= expected);
            },
            Layout::Split { direction, first, second } => {
                let left = first.leaves();
                let right = second.leaves();
                assert forall|i: int, j: int|
                    0 <= i < left.len() && 0 <= j < left.len() && i != j implies (
                #[trigger] left[i]).pane_id != (#[trigger] left[j]).pane_id by {
                    assert(all[i] == left[i] && all[j] == left[j]);
                }
                assert forall|i: int, j: int|
                    0 <= i < right.len() && 0 <= j < right.len() && i != j implies (
                #[trigger] right[i]).pane_id != (#[trigger] right[j]).pane_id by {
                    assert(all[left.len() + i] == right[i] && all[left.len() + j] == right[j]);
                }
                if at < left.len() {
                    assert(all[at] == left[at]);
                    assert forall|j: int| 0 <= j < right.len() implies (#[trigger] right[j]).pane_id
                        != pane by {
                        assert(all[left.len() + j] == right[j]);
                    }
                    first.split_replaces_one_leaf(at, sizes, added);
                    second.split_of_absent_pane(pane, sizes, added);
                    assert(after =~= expected);
                } else {
                    let k = at - left.len();
                    assert(all[at] == right[k]);
                    assert forall|j: int| 0 <= j < left.len() implies (#[trigger] left[j]).pane_id
                        != pane by {
                        assert(all[j] == left[j]);
                    }
                    first.split_of_absent_pane(pane, sizes, added);
                    second.split_replaces_one_leaf(k, sizes, added);
                    assert(after =~= expected);
                }
            },
        }
    }

    /// A split that divides each pane it touches by its own size, with room
    /// for both halves, keeps the arrangement lined up and of the same extent.
    pub proof fn split_keeps_extent(self, pane: PaneId, sizes: SplitSizes, added: PaneId)
        requires
            self.tiled(),
            sizes.has_room(),
            forall|i: int|
                0 <= i < self.leaves().len() && (#[trigger] self.leaves()[i]).pane_id == pane
                    ==> sizes == split_sizes(self.leaves()[i].size, sizes.direction),
        ensures
            self.with_split(pane, sizes, added).tiled(),
            self.with_split(pane, sizes, added).cols() == self.cols(),
            self.with_split(pane, sizes, added).rows() == self.rows(),
        decreases self,
    {
        match self {
            Layout::Leaf(leaf) => {
                if leaf.pane_id == pane {
                    reveal_with_fuel(Layout::tiled, 3);
                    reveal_with_fuel(Layout::cols, 3);
                    reveal_with_fuel(Layout::rows, 3);
                    assert(self.leaves()[0] == leaf);
                    split_conserves_space(leaf.size, sizes.direction);
                }
            },
            Layout::Split { direction, first, second } => {
                let all = self.leaves();
                assert forall|i: int|
                    0 <= i < first.leaves().len() && (#[trigger] first.leaves()[i]).pane_id
                        == pane implies sizes == split_sizes(
                    first.leaves()[i].size,
                    sizes.direction,
                ) by {
                    assert(all[i] == first.leaves()[i]);
                }
                assert forall|i: int|
                    0 <= i < second.leaves().len() && (#[trigger] second.leaves()[i]).pane_id
                        == pane implies sizes == split_sizes(
                    second.leaves()[i].size,
                    sizes.direction,
                ) by {
                    assert(all[first.leaves().len() + i] == second.leaves()[i]);
                }
                first.split_keeps_extent(pane, sizes, added);
                second.split_keeps_extent(pane, sizes, added);
            },
        }
    }

    /// Appends the panes of the arrangement to `out`.
    fn collect(&self, out: &mut Vec<PositionedPane>)
        ensures
            final(out)@ == old(out)@ + self.leaves(),
        decreases self,
    {
        match self {
            Layout::Leaf(pane) => {
                out.push(*pane);
            },
            Layout::Split { first, second, .. } => {
                first.collect(out);
                second.collect(out);
            },
        }
    }

    /// Replaces every leaf that holds `pane` by a split between `pane` and
    /// `added`.
    fn split_leaf(self, pane: PaneId, sizes: SplitSizes, added: PaneId) -> (split: Layout)
        ensures
            split == self.with_split(pane, sizes, added),
        decreases self,
    {
        match self {
            Layout::Leaf(leaf) => {
                if leaf.pane_id == pane {
                    Layout::Split {
                        direction: sizes.direction,
                        first: Box::new(
                            Layout::Leaf(PositionedPane { pane_id: pane, size: sizes.first }),
                        ),
                        second: Box::new(
                            Layout::Leaf(PositionedPane { pane_id: added, size: sizes.second }),
                        ),
                    }
                } else {
                    Layout::Leaf(leaf)
                }
            },
            Layout::Split { direction, first, second } => {
                let first = (*first).split_leaf(pane, sizes, added);
                let second = (*second).split_leaf(pane, sizes, added);
                Layout::Split { direction, first: Box::new(first), second: Box::new(second) }
            },
        }
    }
}

/// Panes arranged by successive splits within one screen area.
#[derive(Debug)]
pub struct Tab {
    id: TabId,
    size: TerminalSize,
    root: Option<Layout>,
    active: Option<PaneId>,
}

impl Tab {
    /// The tab's identity.
    pub closed spec fn id(&self) -> TabId {
        self.id
    }

    /// The screen area that the tab fills.
    pub closed spec fn size(&self) -> TerminalSize {
        self.size
    }

    /// The arrangement of the tab's panes; `None` while the tab is empty.
    pub closed spec fn layout(&self) -> Option<Layout> {
        self.root
    }

    /// The active pane; `None` while the tab is empty.
    pub closed spec fn active(&self) -> Option<PaneId> {
        self.active
    }

    /// The tab's panes in order, each with the space it occupies.
    pub open spec fn panes(&self) -> Seq<PositionedPane> {
        match self.layout() {
            Some(layout) => layout.leaves(),
            None => Seq::empty(),
        }
    }

    /// Whether `pane` is one of the tab's panes.
    pub open spec fn holds(&self, pane: PaneId) -> bool {
        holds_pane(self.panes(), pane)
    }

    /// The position of `pane` among the tab's panes, where the tab holds it.
    pub open spec fn position_of(&self, pane: PaneId) -> int {
        first_position(held_ids(self.panes()), pane)
    }

    /// The tab's invariant: no pane occurs twice; a tab with panes has one
    /// of them active and an empty tab has none; and the panes with their
    /// dividers fill the tab's area exactly.
    pub open spec fn well_formed(&self) -> bool {
        &&& distinct_panes(self.panes())
        &&& match self.layout() {
            Some(layout) => {
                &&& self.active() is Some
                &&& self.holds(self.active()->0)
                &&& layout.tiled()
                &&& layout.cols() == self.size().cols
                &&& layout.rows() == self.size().rows
            },
            None => self.active() is None,
        }
    }

    /// An empty tab that fills `size`.
    pub fn new(id: TabId, size: &TerminalSize) -> (tab: Tab)
        ensures
            tab.id() == id,
            tab.size() == *size,
            tab.layout() is None,
            tab.active() is None,
            tab.panes().len() == 0,
            tab.well_formed(),
    {
        Tab { id, size: *size, root: None, active: None }
    }

    /// The tab's identity.
    pub fn tab_id(&self) -> (id: TabId)
        ensures
            id == self.id(),
    {
        self.id
    }

    /// The screen area that the tab fills.
    pub fn get_size(&self) -> (size: TerminalSize)
        ensures
            size == self.size(),
    {
        self.size
    }

    /// Makes `pane` the tab's only pane: it fills the tab and is active.
    pub fn assign_pane(&mut self, pane: PaneId)
        ensures
            final(self).id() == old(self).id(),
            final(self).size() == old(self).size(),
            final(self).panes() == seq![PositionedPane { pane_id: pane, size: old(self).size() }],
            final(self).active() == Some(pane),
            final(self).well_formed(),
    {
        self.root = Some(Layout::Leaf(PositionedPane { pane_id: pane, size: self.size }));
        self.active = Some(pane);
        assert(self.panes()[0].pane_id == pane);
    }

    /// The tab's panes in order, each with the space it occupies.
    pub fn iter_panes(&self) -> (panes: Vec<PositionedPane>)
        ensures
            panes@ == self.panes(),
    {
        let mut panes: Vec<PositionedPane> = Vec::new();
        match &self.root {
            Some(layout) => {
                layout.collect(&mut panes);
            },
            None => {},
        }
        panes
    }

    /// The number of panes in the tab.
    pub fn count_panes(&self) -> (count: usize)
        ensures
            count == self.panes().len(),
    {
        self.iter_panes().len()
    }

    /// The active pane; `None` while the tab is empty.
    pub fn get_active_pane(&self) -> (pane: Option<PaneId>)
        ensures
            pane == self.active(),
    {
        self.active
    }

    /// The position of `pane` among the tab's panes.
    pub fn pane_index(&self, pane: PaneId) -> (index: Option<usize>)
        ensures
            index is Some <==> self.holds(pane),
            index matches Some(at) ==> at < self.panes().len() && self.panes()[at as int].pane_id
                == pane && at == self.position_of(pane),
    {
        let panes = self.iter_panes();
        let ghost ids = held_ids(self.panes());
        let mut at: usize = 0;
        while at < panes.len()
            invariant
                at <= panes.len(),
                panes@ == self.panes(),
                ids == held_ids(self.panes()),
                forall|j: int| 0 <= j < at ==> ids[j] != pane,
            decreases panes.len() - at,
        {
            if panes[at].pane_id == pane {
                proof {
                    first_position_is(ids, pane, at as int);
                }
                return Some(at);
            }
            at += 1;
        }
        proof {
            if self.holds(pane) {
                let i = choose|i: int|
                    0 <= i < self.panes().len() && (#[trigger] self.panes()[i]).pane_id == pane;
                assert(ids[i] == pane);
            }
        }
        None
    }

    /// The sizes that dividing the pane at `pane_index` along `direction`
    /// would give; `None` where the tab has no pane at that position.
    pub fn compute_split_size(&self, pane_index: usize, direction: SplitDirection) -> (sizes:
        Option<SplitSizes>)
        ensures
            pane_index < self.panes().len() ==> sizes == Some(
                split_sizes(self.panes()[pane_index as int].size, direction),
            ),
            pane_index >= self.panes().len() ==> sizes is None,
    {
        let panes = self.iter_panes();
        if pane_index < panes.len() {
            Some(panes[pane_index].size.split(direction))
        } else {
            None
        }
    }

    /// Divides the pane at `pane_index` along `direction` and puts `pane` in
    /// the second share, right after the pane that was divided. The new pane
    /// becomes the active one. Returns the position of the new pane.
    pub fn split_and_insert(
        &mut self,
        pane_index: usize,
        direction: SplitDirection,
        pane: PaneId,
    ) -> (inserted: Result<usize, SplitError>)
        requires
            old(self).well_formed(),
        ensures
            final(self).well_formed(),
            final(self).id() == old(self).id(),
            final(self).size() == old(self).size(),
            inserted is Err ==> *final(self) == *old(self),
            inserted is Ok <==> pane_index < old(self).panes().len() && split_sizes(
                old(self).panes()[pane_index as int].size,
                direction,
            ).has_room() && !old(self).holds(pane),
            inserted == Err::<usize, SplitError>(SplitError::InvalidPaneIndex) <==> pane_index
                >= old(self).panes().len(),
            inserted == Err::<usize, SplitError>(SplitError::NoSpace)
                <==> pane_index < old(self).panes().len() && !split_sizes(
                old(self).panes()[pane_index as int].size,
                direction,
            ).has_room(),
            inserted == Err::<usize, SplitError>(SplitError::DuplicatePane)
                <==> pane_index < old(self).panes().len() && split_sizes(
                old(self).panes()[pane_index as int].size,
                direction,
            ).has_room() && old(self).holds(pane),
            inserted matches Ok(at) ==> {
                &&& at == pane_index + 1
                &&& final(self).panes() == old(self).panes().take(pane_index as int) + split_pair(
                    old(self).panes()[pane_index as int].pane_id,
                    split_sizes(old(self).panes()[pane_index as int].size, direction),
                    pane,
                ) + old(self).panes().skip(pane_index + 1)
                &&& final(self).active() == Some(pane)
            },
    {
        let panes = self.iter_panes();
        if pane_index >= panes.len() {
            return Err(SplitError::InvalidPaneIndex);
        }
        let target = panes[pane_index];
        let sizes = target.size.split(direction);
        if !sizes.fits() {
            return Err(SplitError::NoSpace);
        }
        if self.pane_index(pane).is_some() {
            return Err(SplitError::DuplicatePane);
        }
        let ghost before = self.panes();
        let root = self.root.take();
        match root {
            Some(layout) => {
                proof {
                    layout.split_replaces_one_leaf(pane_index as int, sizes, pane);
                    assert forall|i: int|
                        0 <= i < before.len() && (#[trigger] before[i]).pane_id
                            == target.pane_id implies sizes == split_sizes(
                        before[i].size,
                        sizes.direction,
                    ) by {
                        if i != pane_index {
                            assert(before[i].pane_id != before[pane_index as int].pane_id);
                        }
                    }
                    layout.split_keeps_extent(target.pane_id, sizes, pane);
                }
                self.root = Some(layout.split_leaf(target.pane_id, sizes, pane));
                self.active = Some(pane);
                proof {
                    let after = self.panes();
                    let pair = split_pair(target.pane_id, sizes, pane);
                    assert(after == before.take(pane_index as int) + pair + before.skip(
                        pane_index + 1,
                    ));
                    assert(after.len() == before.len() + 1);
                    assert(after[pane_index + 1] == pair[1]);
                    assert forall|i: int, j: int|
                        0 <= i < after.len() && 0 <= j < after.len() && i != j implies (
                    #[trigger] after[i]).pane_id != (#[trigger] after[j]).pane_id by {
                        let a = if i <= pane_index { i } else { i - 1 };
                        let b = if j <= pane_index { j } else { j - 1 };
                        if i != pane_index + 1 {
                            assert(after[i].pane_id == before[a].pane_id);
                        }
                        if j != pane_index + 1 {
                            assert(after[j].pane_id == before[b].pane_id);
                        }
                    }
                }
                Ok(pane_index + 1)
            },
            None => Err(SplitError::InvalidPaneIndex),
        }
    }
}

} // verus!
