//! Pin projection: the soundness state machine and the pin adapters.
//!
//! Projecting a field out of a pinned aggregate is sound only when the
//! aggregate cannot observe a moved-out state through its destructor: either
//! it has no manual destructor, or its destructor routes through the
//! designated pinned teardown (the delegation protocol).  The engine
//! classifies every pinned projection into a three-state machine and
//! proceeds only from the safe state; the unsafe state is a deterministic
//! rejection, never a run-time trap.

use vstd::prelude::*;

use crate::engine::{spec_pin_blocked, spec_project_field, ProjectError};
use crate::kind::{Handle, Marker, ProjectableMarker, WrapperKind};
use crate::layout::{FieldLayout, StructLayout};

verus! {

/// The pin-soundness states of a projection.
#[derive(Clone, Copy, Debug, PartialEq, Eq, Structural)]
pub enum PinState {
    /// The wrapper kind is not pinned; pin soundness does not arise.
    NotPinned,
    /// The aggregate is pinned and its destructor situation is sound: no
    /// manual destructor, or one that delegates.  The only pinned state from
    /// which field extraction proceeds.
    PinnedSafe,
    /// The aggregate is pinned, has a manual destructor, and has not opted
    /// into delegation: every field extraction is rejected.
    PinnedUnsafe,
}

/// The state a projection of kind `kind` through an aggregate with layout
/// facts `layout` is in.
pub open spec fn spec_pin_state(kind: WrapperKind, layout: StructLayout) -> PinState {
    if !kind.is_pinned() {
        PinState::NotPinned
    } else if layout.has_manual_drop && !layout.pin_delegates {
        PinState::PinnedUnsafe
    } else {
        PinState::PinnedSafe
    }
}

/// Witness of the pin-soundness classification of one projection.
#[derive(Clone, Copy, Debug, PartialEq, Eq, Structural)]
pub struct PinnedMarker {
    /// The classified state.
    pub state: PinState,
}

impl PinnedMarker {
    /// Classify a projection of `kind` through an aggregate with `layout`.
    pub fn classify(kind: WrapperKind, layout: &StructLayout) -> (r: PinnedMarker)
        ensures
            r.state == spec_pin_state(kind, *layout),
    {
        if !kind.pinned_now() {
            PinnedMarker { state: PinState::NotPinned }
        } else if layout.has_manual_drop && !layout.pin_delegates {
            PinnedMarker { state: PinState::PinnedUnsafe }
        } else {
            PinnedMarker { state: PinState::PinnedSafe }
        }
    }
}

/// The pin adapter over the simple marker: rewrapping through it yields the
/// pinned form of the handle the inner marker would yield.
#[derive(Clone, Copy, Debug, PartialEq, Eq, Structural)]
pub struct PinMarker {
    /// The marker of the projection the pin composes around.
    pub inner: Marker,
}

impl ProjectableMarker for PinMarker {
    type Output = Handle;

    open spec fn spec_from_raw(&self, raw: usize) -> Handle {
        Handle { kind: self.inner.kind.pinned(), addr: raw }
    }

    fn from_raw(&self, raw: usize) -> (r: Handle) {
        let kind = match self.inner.kind {
            WrapperKind::SharedRef => WrapperKind::PinnedShared,
            WrapperKind::UniqueRef => WrapperKind::PinnedUnique,
            _ => self.inner.kind,
        };
        Handle { kind, addr: raw }
    }
}

/// Marks a field that should not be pin projected: the pin is stripped from
/// a projection onto the wrapped field, whatever the field type.
#[derive(Clone, Copy, Debug, PartialEq, Eq, Structural)]
pub struct Unpinned {
    /// The wrapped field layout.
    pub field: FieldLayout,
}

impl Unpinned {
    /// Wrap a field layout.
    pub fn new(field: FieldLayout) -> (r: Unpinned)
        ensures
            r.field == field,
    {
        Unpinned { field }
    }

    /// The field as the engine sees it: pinned projections onto it collapse
    /// to plain borrows.
    pub fn unpinned_field(&self) -> (r: FieldLayout)
        ensures
            r == (FieldLayout { unpin: true, ..self.field }),
    {
        FieldLayout { offset: self.field.offset, size: self.field.size, unpin: true, non_atomic: self.field.non_atomic }
    }
}

/// An aggregate that may soundly be projected through a pin: any manual
/// destructor it has routes through the delegation protocol.
pub trait PinProjectable: Sized {
    /// Whether pinned projection through this aggregate is sound.
    spec fn spec_pin_safe(&self) -> bool;

    /// Decide pin safety.
    fn pin_safe(&self) -> (r: bool)
        ensures
            r == self.spec_pin_safe(),
    ;
}

impl PinProjectable for StructLayout {
    open spec fn spec_pin_safe(&self) -> bool {
        !self.has_manual_drop || self.pin_delegates
    }

    fn pin_safe(&self) -> (r: bool) {
        !self.has_manual_drop || self.pin_delegates
    }
}

/// Makes a teardown routine safe to declare but deliberate to invoke: the
/// wrapped value can only be recovered by explicitly unwrapping the guard.
pub struct CallGuard<T> {
    inner: T,
}

impl<T> CallGuard<T> {
    /// The guarded value.
    pub closed spec fn spec_inner(&self) -> T {
        self.inner
    }

    /// Guard a value.  The caller takes on the obligation the guarded
    /// routine documents — for a pinned teardown, that it is invoked only
    /// from the aggregate's own destructor.
    pub fn new(from: T) -> (r: CallGuard<T>)
        ensures
            r.spec_inner() == from,
    {
        CallGuard { inner: from }
    }

    /// Unwrap the guard, consuming it.
    pub fn into_inner(self) -> (r: T)
        ensures
            r == self.spec_inner(),
    {
        self.inner
    }
}

/// The pinned teardown protocol: an aggregate with a manual destructor opts
/// into pinned projection by routing all destruction through this single
/// method, which its ordinary destructor must delegate to unconditionally.
pub trait PinDrop: Sized {
    /// Tear down a pinned value.  Invoked exactly once, from the ordinary
    /// destructor, through the guard.
    fn teardown(guarded: CallGuard<Self>);
}

/// LAW: field extraction proceeds only from the safe pinned state — a
/// pinned projection through an aggregate with a manual destructor that has
/// not opted into delegation is rejected, deterministically, whatever the
/// field.
pub proof fn lemma_pin_gate_rejects(h: Handle, layout: StructLayout, sel: int)
    requires
        0 <= sel < layout.fields@.len(),
        spec_pin_state(h.kind, layout) == PinState::PinnedUnsafe,
    ensures
        spec_project_field(h, layout, sel) == Err::<Handle, ProjectError>(
            ProjectError::PinnedDropNotDelegated,
        ),
{
}

/// LAW: the pin gate blocks exactly the unsafe state: from the not-pinned
/// and pinned-safe states the pin check never rejects.
pub proof fn lemma_pin_gate_exact(kind: WrapperKind, layout: StructLayout)
    ensures
        spec_pin_blocked(kind, layout) <==> spec_pin_state(kind, layout) == PinState::PinnedUnsafe,
{
}

} // verus!
