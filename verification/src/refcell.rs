//! Guard-backed projection: shared-borrow and exclusive-borrow guards over a
//! dynamically checked cell.
//!
//! A guard keeps the cell's borrow alive; projecting a field through a
//! shared guard duplicates the borrow exactly once, so the field guard keeps
//! the lock held on its own even after the original guard goes away.  An
//! exclusive guard is never duplicated: projecting through it consumes the
//! original, transferring the single exclusive borrow to the field guard.
//! Mutual exclusion itself is enforced by the cell — the engine only ever
//! narrows an address, it never manufactures a borrow the cell refused.

use vstd::prelude::*;

use crate::engine::{spec_project_field, ProjectError};
use crate::kind::{Handle, WrapperKind};
use crate::layout::StructLayout;

verus! {

/// The dynamically checked borrow state of one cell: either any number of
/// live shared borrows, or one exclusive borrow, never both.
#[derive(Clone, Copy, Debug, PartialEq, Eq, Structural)]
pub struct BorrowCell {
    /// How many shared borrows are live.
    pub readers: usize,
    /// An exclusive borrow is live.
    pub writer: bool,
}

/// A live shared borrow of the value at `addr`, backed by one unit of the
/// cell's reader count.
#[derive(Clone, Copy, Debug, PartialEq, Eq, Structural)]
pub struct RefGuard {
    /// The address the borrow grants shared access to.
    pub addr: usize,
}

/// The live exclusive borrow of the value at `addr`.  Deliberately not
/// duplicable by the engine: projection consumes it.
#[derive(Debug, PartialEq, Eq, Structural)]
pub struct RefMutGuard {
    /// The address the borrow grants exclusive access to.
    pub addr: usize,
}

impl BorrowCell {
    /// Exclusivity: an exclusive borrow never coexists with shared ones.
    pub open spec fn wf(self) -> bool {
        self.writer ==> self.readers == 0
    }

    /// A shared borrow can be granted.
    pub open spec fn spec_can_borrow(self) -> bool {
        !self.writer
    }

    /// An exclusive borrow can be granted.
    pub open spec fn spec_can_borrow_mut(self) -> bool {
        !self.writer && self.readers == 0
    }

    /// A fresh cell with no live borrows.
    pub fn new() -> (r: BorrowCell)
        ensures
            r == (BorrowCell { readers: 0, writer: false }),
    {
        BorrowCell { readers: 0, writer: false }
    }

    /// Request a shared borrow of the value at `addr`: granted exactly when
    /// no exclusive borrow is live.
    pub fn try_borrow(&mut self, addr: usize) -> (r: Option<RefGuard>)
        requires
            old(self).wf(),
            old(self).readers < usize::MAX,
        ensures
            final(self).wf(),
            old(self).spec_can_borrow() ==> r == Some(RefGuard { addr }) && *final(self)
                == (BorrowCell { readers: (old(self).readers + 1) as usize, ..*old(self) }),
            !old(self).spec_can_borrow() ==> r is None && *final(self) == *old(self),
    {
        if self.writer {
            None
        } else {
            self.readers = self.readers + 1;
            Some(RefGuard { addr })
        }
    }

    /// Request the exclusive borrow of the value at `addr`: granted exactly
    /// when no borrow of any sort is live.  This is the exclusivity the
    /// engine must never silently bypass.
    pub fn try_borrow_mut(&mut self, addr: usize) -> (r: Option<RefMutGuard>)
        requires
            old(self).wf(),
        ensures
            final(self).wf(),
            old(self).spec_can_borrow_mut() ==> r == Some(RefMutGuard { addr }) && *final(self)
                == (BorrowCell { writer: true, ..*old(self) }),
            !old(self).spec_can_borrow_mut() ==> r is None && *final(self) == *old(self),
    {
        if self.writer || self.readers > 0 {
            None
        } else {
            self.writer = true;
            Some(RefMutGuard { addr })
        }
    }

    /// Duplicate a live shared borrow: one more unit of the reader count,
    /// backing a second guard at the same address.
    pub fn clone_guard(&mut self, guard: &RefGuard) -> (r: RefGuard)
        requires
            old(self).wf(),
            old(self).readers >= 1,
            old(self).readers < usize::MAX,
        ensures
            final(self).wf(),
            r == *guard,
            *final(self) == (BorrowCell { readers: (old(self).readers + 1) as usize, ..*old(self) }),
    {
        self.readers = self.readers + 1;
        RefGuard { addr: guard.addr }
    }

    /// Release one shared borrow.
    pub fn release(&mut self, guard: RefGuard)
        requires
            old(self).wf(),
            old(self).readers >= 1,
        ensures
            final(self).wf(),
            *final(self) == (BorrowCell { readers: (old(self).readers - 1) as usize, ..*old(self) }),
    {
        self.readers = self.readers - 1;
    }

    /// Release the exclusive borrow.
    pub fn release_mut(&mut self, guard: RefMutGuard)
        requires
            old(self).wf(),
            old(self).writer,
        ensures
            final(self).wf(),
            *final(self) == (BorrowCell { writer: false, ..*old(self) }),
    {
        self.writer = false;
    }
}

/// The capability marker of a guard-backed projection: whether the borrow it
/// keeps alive is exclusive.
#[derive(Clone, Copy, Debug, PartialEq, Eq, Structural)]
pub struct RefCellMarker {
    /// The projection rides an exclusive borrow.
    pub unique: bool,
}

impl RefCellMarker {
    /// Dispatch hook: marker types expose an inherent `check` so a front end
    /// can confirm that kind resolution was unambiguous.
    pub fn check(&self) {
    }
}

/// Project a field through a shared guard.  On success the cell's reader
/// count rises by exactly one — the duplicated borrow that keeps the lock
/// held for the field guard — and the new guard addresses the field.  On
/// rejection the cell is untouched.
pub fn project_ref(
    cell: &mut BorrowCell,
    guard: &RefGuard,
    layout: &StructLayout,
    sel: usize,
) -> (r: Result<RefGuard, ProjectError>)
    requires
        old(cell).wf(),
        old(cell).readers >= 1,
        !old(cell).writer,
        old(cell).readers < usize::MAX,
    ensures
        final(cell).wf(),
        !final(cell).writer,
        ({
            let base = Handle { kind: WrapperKind::GuardShared, addr: guard.addr };
            match spec_project_field(base, *layout, sel as int) {
                Ok(p) => r == Ok::<RefGuard, ProjectError>(RefGuard { addr: p.addr })
                    && *final(cell) == (BorrowCell {
                    readers: (old(cell).readers + 1) as usize,
                    ..*old(cell)
                }),
                Err(e) => r == Err::<RefGuard, ProjectError>(e) && *final(cell) == *old(cell),
            }
        }),
{
    let base = Handle { kind: WrapperKind::GuardShared, addr: guard.addr };
    match crate::engine::project_field(&base, layout, sel) {
        Ok(p) => {
            let field_guard = dup_guard_at(cell, guard, p.addr);
            Ok(field_guard)
        },
        Err(e) => Err(e),
    }
}

/// Duplicate the borrow behind `guard`, re-scoped to the field address.
fn dup_guard_at(cell: &mut BorrowCell, guard: &RefGuard, addr: usize) -> (r: RefGuard)
    requires
        old(cell).wf(),
        old(cell).readers >= 1,
        old(cell).readers < usize::MAX,
    ensures
        final(cell).wf(),
        r.addr == addr,
        *final(cell) == (BorrowCell { readers: (old(cell).readers + 1) as usize, ..*old(cell) }),
{
    let dup = cell.clone_guard(guard);
    RefGuard { addr }
}

/// Project a field through the exclusive guard.  The original guard is
/// consumed: the single exclusive borrow transfers to the field guard, so
/// two live exclusive guards can never come out of one.  The cell itself is
/// untouched — nothing is released and nothing new is granted.
pub fn project_ref_mut(
    guard: RefMutGuard,
    layout: &StructLayout,
    sel: usize,
) -> (r: Result<RefMutGuard, ProjectError>)
    ensures
        ({
            let base = Handle { kind: WrapperKind::GuardUnique, addr: guard.addr };
            match spec_project_field(base, *layout, sel as int) {
                Ok(p) => r == Ok::<RefMutGuard, ProjectError>(RefMutGuard { addr: p.addr }),
                Err(e) => r == Err::<RefMutGuard, ProjectError>(e),
            }
        }),
{
    let base = Handle { kind: WrapperKind::GuardUnique, addr: guard.addr };
    match crate::engine::project_field(&base, layout, sel) {
        Ok(p) => Ok(RefMutGuard { addr: p.addr }),
        Err(e) => Err(e),
    }
}

/// LAW: shared-guard projections of different fields coexist — after a
/// shared projection the cell still admits further shared borrows, and still
/// refuses the exclusive borrow, so any number of projected field guards may
/// be read concurrently.
pub proof fn lemma_shared_projections_coexist(s: BorrowCell, t: BorrowCell)
    requires
        s.wf(),
        s.readers >= 1,
        !s.writer,
        s.readers < usize::MAX,
        t == (BorrowCell { readers: (s.readers + 1) as usize, ..s }),
    ensures
        t.wf(),
        t.spec_can_borrow(),
        !t.spec_can_borrow_mut(),
{
}

/// LAW: the cell's exclusivity is what refuses a second exclusive
/// projection — while any borrow is live, the exclusive borrow cannot be
/// granted, so two independent exclusive-guard projections of one aggregate
/// are impossible; the engine never bypasses this, since it grants no
/// borrow of its own.
pub proof fn lemma_exclusive_not_splittable(s: BorrowCell)
    requires
        s.wf(),
        s.writer || s.readers >= 1,
    ensures
        !s.spec_can_borrow_mut(),
{
}

} // verus!
