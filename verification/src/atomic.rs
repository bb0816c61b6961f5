//! Projection through atomic cells.
//!
//! An atomic cell is reached through a shared borrow, yet grants writes —
//! with the memory-ordering discipline the caller requests at each access.
//! Projection must only narrow the address: the atomic-cell kind survives
//! rewrapping untouched, so the ordering guarantees the caller later asks
//! for on the projected field are neither relaxed nor strengthened.  A field
//! that opts out of atomic access altogether finalizes to a plain shared
//! borrow instead.

use vstd::prelude::*;

use crate::canon::Projectable;
use crate::kind::{Marker, WrapperKind};
use crate::layout::FieldLayout;

verus! {

/// The canonical wrapper of a shared atomic-cell borrow: a transparent
/// carrier that takes the borrow into the engine.
#[derive(Clone, Copy, Debug, PartialEq, Eq, Structural)]
pub struct Whatever {
    /// Where the atomic aggregate lives.
    pub addr: usize,
}

impl Projectable for Whatever {
    type Marker = Marker;

    open spec fn spec_get_raw(&self) -> (usize, Marker) {
        (self.addr, Marker { kind: WrapperKind::AtomicCell })
    }

    fn get_raw(&self) -> (r: (usize, Marker)) {
        (self.addr, Marker::new(WrapperKind::AtomicCell))
    }
}

/// Marks a field of an atomic aggregate that is not itself accessed
/// atomically: projecting onto it finalizes to a plain shared borrow.
#[derive(Clone, Copy, Debug, PartialEq, Eq, Structural)]
pub struct NonAtomicWindow {
    /// The wrapped field layout.
    pub field: FieldLayout,
}

impl NonAtomicWindow {
    /// Wrap a field layout.
    pub fn new(field: FieldLayout) -> (r: NonAtomicWindow)
        ensures
            r.field == field,
    {
        NonAtomicWindow { field }
    }

    /// The field as the engine sees it: atomic projections onto it finalize
    /// to plain shared borrows.
    pub fn window_field(&self) -> (r: FieldLayout)
        ensures
            r == (FieldLayout { non_atomic: true, ..self.field }),
    {
        FieldLayout {
            offset: self.field.offset,
            size: self.field.size,
            unpin: self.field.unpin,
            non_atomic: true,
        }
    }
}

/// LAW: projection through an atomic cell only narrows the address — the
/// kind, and with it the ordering discipline of later accesses, survives
/// the rewrap rule unchanged.
pub proof fn lemma_atomic_projection_preserves_kind(field_unpin: bool)
    ensures
        WrapperKind::AtomicCell.rewrap(field_unpin) == WrapperKind::AtomicCell,
{
}

} // verus!
