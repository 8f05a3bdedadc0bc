//! Identifiers of domains, panes, tabs and windows, and the counters that
//! hand them out.

use vstd::prelude::*;

verus! {

/// Opaque handle to a domain.
pub type DomainId = usize;

/// Opaque handle to a pane.
pub type PaneId = usize;

/// Opaque handle to a tab.
pub type TabId = usize;

/// Opaque handle to a window.
pub type WindowId = usize;

/// A counter that hands out identifiers in increasing order, starting from
/// zero. It never hands out a value twice: once every value below
/// `usize::MAX` has been given it gives none.
#[derive(Debug)]
pub struct IdAllocator {
    next: usize,
}

impl IdAllocator {
    /// The number of identifiers handed out so far, which is also the
    /// identifier that the next allocation returns while there is one.
    pub closed spec fn issued(&self) -> nat {
        self.next as nat
    }

    /// Whether every identifier has been handed out.
    pub open spec fn exhausted(&self) -> bool {
        self.issued() >= usize::MAX
    }

    /// What the allocation that follows `n` earlier ones returns.
    pub open spec fn nth(&self, n: nat) -> Option<usize> {
        if self.issued() + n < usize::MAX {
            Some((self.issued() + n) as usize)
        } else {
            None
        }
    }

    /// The counter as it stands after `n` allocations.
    pub closed spec fn after(&self, n: nat) -> IdAllocator {
        if self.next + n < usize::MAX {
            IdAllocator { next: (self.next + n) as usize }
        } else {
            IdAllocator { next: usize::MAX }
        }
    }

    /// A counter that has handed out nothing yet.
    pub fn new() -> (ids: IdAllocator)
        ensures
            ids.issued() == 0,
    {
        IdAllocator { next: 0 }
    }

    /// A counter that has handed out `issued` identifiers already.
    pub fn resume(issued: usize) -> (ids: IdAllocator)
        ensures
            ids.issued() == issued,
    {
        IdAllocator { next: issued }
    }

    /// Hands out the next identifier, or `None` once the counter is exhausted.
    pub fn allocate(&mut self) -> (id: Option<usize>)
        ensures
            id == old(self).nth(0),
            *final(self) == old(self).after(1),
            old(self).exhausted() ==> id is None && *final(self) == *old(self),
            !old(self).exhausted() ==> id == Some(old(self).issued() as usize)
                && final(self).issued() == old(self).issued() + 1,
    {
        if self.next == usize::MAX {
            None
        } else {
            let id: usize = self.next;
            self.next = id + 1;
            Some(id)
        }
    }

    /// Whether `id` is one of the identifiers handed out so far.
    pub fn has_issued(&self, id: usize) -> (yes: bool)
        ensures
            yes == (id < self.issued()),
    {
        id < self.next
    }

    /// Allocating `m` times and then `n` times is allocating `m + n` times.
    pub proof fn after_composes(&self, m: nat, n: nat)
        ensures
            self.after(m).after(n) == self.after(m + n),
            self.after(m).nth(n) == self.nth(m + n),
            self.after(0) == *self,
            self.after(m).issued() == if self.issued() + m < usize::MAX {
                self.issued() + m
            } else {
                usize::MAX as nat
            },
    {
    }

    /// No identifier is handed out twice: any two allocations from one
    /// counter that both return an identifier return different ones.
    pub proof fn ids_never_repeat(&self, i: nat, j: nat)
        requires
            i != j,
            self.nth(i) is Some,
            self.nth(j) is Some,
        ensures
            self.nth(i) != self.nth(j),
    {
    }

    /// Identifiers come out in increasing order.
    pub proof fn ids_increase(&self, i: nat, j: nat)
        requires
            i < j,
            self.nth(j) is Some,
        ensures
            self.nth(i) is Some,
            self.nth(i)->0 < self.nth(j)->0,
    {
    }
}

/// Hands out a domain identifier that `ids` has not handed out before, or
/// `None` once `ids` is exhausted.
pub fn alloc_domain_id(ids: &mut IdAllocator) -> (id: Option<DomainId>)
    ensures
        id == old(ids).nth(0),
        *final(ids) == old(ids).after(1),
{
    ids.allocate()
}

} // verus!
