//! The closed catalog of wrapper kinds, the capability marker for the simple
//! kinds, and the typed field handle that a projection produces.
//!
//! Every kind maps to exactly one rewrap rule (`WrapperKind::rewrap`), so
//! dispatch is total and unambiguous by construction: two kinds can never
//! resolve for the same canonical input, because the catalog is an enum and
//! a value is exactly one variant.

use vstd::prelude::*;

verus! {

/// An addressing mode through which an aggregate is reached.
///
/// The optional skin is not a kind of its own: it composes around any of
/// these (see the option module), and user-defined wrappers enter the engine
/// by canonicalizing to one of these modes.
#[derive(Clone, Copy, Debug, PartialEq, Eq, Structural)]
pub enum WrapperKind {
    /// The aggregate is owned by the holder; fields can be taken by value.
    Owned,
    /// A shared borrow of the aggregate.
    SharedRef,
    /// A unique (mutable) borrow of the aggregate.
    UniqueRef,
    /// A pinned shared borrow.
    PinnedShared,
    /// A pinned unique borrow.
    PinnedUnique,
    /// A shared reference to a cell with interior mutability.
    Cell,
    /// A shared reference to an atomic cell; projection must preserve the
    /// caller's ordering demands untouched, so the kind survives rewrapping.
    AtomicCell,
    /// A unique borrow of not-yet-initialized storage.
    Uninit,
    /// A raw const pointer; never dereferenced by the engine.
    RawConst,
    /// A raw mutable pointer; never dereferenced by the engine.
    RawMut,
    /// A raw pointer known to be non-null; never dereferenced by the engine.
    NonNullRaw,
    /// A shared borrow kept alive by a cloneable borrow guard.
    GuardShared,
    /// A unique borrow kept alive by an exclusive borrow guard.
    GuardUnique,
}

impl WrapperKind {
    /// The kind addresses its target through a pin.
    pub open spec fn is_pinned(self) -> bool {
        self is PinnedShared || self is PinnedUnique
    }

    /// The kind grants exclusive access to its target: the engine must never
    /// duplicate a handle of such a kind.
    pub open spec fn is_exclusive(self) -> bool {
        self is Owned || self is UniqueRef || self is PinnedUnique
            || self is Uninit || self is GuardUnique
    }

    /// Projecting a field of a packed aggregate through this kind is legal:
    /// the projected handle either reads without alignment (owned values are
    /// read byte-wise) or is a raw pointer that is never dereferenced.
    pub open spec fn supports_packed(self) -> bool {
        self is Owned || self is RawConst || self is RawMut || self is NonNullRaw
    }

    /// A handle of this kind is a safe reference that demands the natural
    /// alignment of its target.
    pub open spec fn requires_alignment(self) -> bool {
        !self.supports_packed()
    }

    /// Reading bytes through a handle of this kind is allowed.  Raw pointers
    /// are excluded: the engine only offsets them, it never dereferences
    /// them.  Uninitialized storage has no bytes to read.
    pub open spec fn may_read(self) -> bool {
        self is Owned || self is SharedRef || self is UniqueRef
            || self is PinnedShared || self is PinnedUnique
            || self is Cell || self is AtomicCell
            || self is GuardShared || self is GuardUnique
    }

    /// Writing bytes through a handle of this kind is allowed.  A cell allows
    /// writes through a shared handle: that is its purpose.
    pub open spec fn may_write(self) -> bool {
        self is Owned || self is UniqueRef || self is PinnedUnique
            || self is Cell || self is AtomicCell || self is Uninit
            || self is GuardUnique
    }

    /// The rewrap rule: the kind of the field handle produced when an
    /// aggregate of kind `self` is projected onto a field whose type is
    /// `Unpin` iff `field_unpin`.  Total over the catalog; only the pinned
    /// kinds consult the field fact.
    pub open spec fn rewrap(self, field_unpin: bool) -> WrapperKind {
        match self {
            WrapperKind::PinnedShared => if field_unpin { WrapperKind::SharedRef } else { WrapperKind::PinnedShared },
            WrapperKind::PinnedUnique => if field_unpin { WrapperKind::UniqueRef } else { WrapperKind::PinnedUnique },
            _ => self,
        }
    }

    /// The pinned form of the kind, for a handle that is wrapped into a pin.
    pub open spec fn pinned(self) -> WrapperKind {
        match self {
            WrapperKind::SharedRef => WrapperKind::PinnedShared,
            WrapperKind::UniqueRef => WrapperKind::PinnedUnique,
            _ => self,
        }
    }

    /// The unpinned form of the kind, for collapsing a pin whose target is
    /// known to be `Unpin`.
    pub open spec fn unpinned(self) -> WrapperKind {
        match self {
            WrapperKind::PinnedShared => WrapperKind::SharedRef,
            WrapperKind::PinnedUnique => WrapperKind::UniqueRef,
            _ => self,
        }
    }

    /// Executable form of the rewrap rule.
    pub fn rewrap_kind(self, field_unpin: bool) -> (r: WrapperKind)
        ensures
            r == self.rewrap(field_unpin),
    {
        match self {
            WrapperKind::PinnedShared => if field_unpin { WrapperKind::SharedRef } else { WrapperKind::PinnedShared },
            WrapperKind::PinnedUnique => if field_unpin { WrapperKind::UniqueRef } else { WrapperKind::PinnedUnique },
            _ => self,
        }
    }

    /// Executable pin query.
    pub fn pinned_now(self) -> (r: bool)
        ensures
            r == self.is_pinned(),
    {
        match self {
            WrapperKind::PinnedShared => true,
            WrapperKind::PinnedUnique => true,
            _ => false,
        }
    }

    /// Executable form of the packed-support query.
    pub fn packed_ok(self) -> (r: bool)
        ensures
            r == self.supports_packed(),
    {
        match self {
            WrapperKind::Owned => true,
            WrapperKind::RawConst => true,
            WrapperKind::RawMut => true,
            WrapperKind::NonNullRaw => true,
            _ => false,
        }
    }
}

/// The projection result for the simple wrapper kinds: an address viewed
/// through a kind.  The engine hands these out and never widens the
/// discipline the kind grants.
#[derive(Clone, Copy, Debug, PartialEq, Eq, Structural)]
pub struct Handle {
    /// The addressing mode of this handle.
    pub kind: WrapperKind,
    /// The address of the value the handle grants access to.
    pub addr: usize,
}

/// The capability marker for the simple wrapper kinds: it records which kind
/// produced an address, and carries no further state.  Guard-backed and
/// owning projections carry their payload in markers of their own.
#[derive(Clone, Copy, Debug, PartialEq, Eq, Structural)]
pub struct Marker {
    /// The wrapper kind this marker reconstructs.
    pub kind: WrapperKind,
}

impl Marker {
    /// Make the marker for a wrapper kind.
    pub fn new(kind: WrapperKind) -> (r: Marker)
        ensures
            r.kind == kind,
    {
        Marker { kind }
    }

    /// Dispatch hook: a marker type must expose an inherent `check` so a
    /// front end can confirm that kind resolution landed on exactly one
    /// marker.  With a closed catalog the check never has anything to do.
    pub fn check(&self) {
    }
}

/// Wraps a raw field address with the typed handle that corresponds to the
/// projection being done.  The rewrapper of the engine: every marker type
/// implements it, and its specification pins the output exactly.
pub trait ProjectableMarker: Sized {
    /// The typed handle this marker reconstructs.
    type Output;

    /// What `from_raw` returns.
    spec fn spec_from_raw(&self, raw: usize) -> Self::Output;

    /// Rewrap the raw address `raw` as a typed handle.
    fn from_raw(&self, raw: usize) -> (r: Self::Output)
        ensures
            r == self.spec_from_raw(raw),
    ;
}

impl ProjectableMarker for Marker {
    type Output = Handle;

    open spec fn spec_from_raw(&self, raw: usize) -> Handle {
        Handle { kind: self.kind, addr: raw }
    }

    fn from_raw(&self, raw: usize) -> (r: Handle)
    {
        Handle { kind: self.kind, addr: raw }
    }
}

/// A marker implements this to state whether its projection may be applied
/// to an aggregate with packed layout, where fields sit at unaligned offsets.
pub trait SupportsPacked: Sized {
    /// Whether the projection tolerates unaligned field offsets.
    spec fn spec_supports_packed(&self) -> bool;

    /// Executable packed-support query for this marker.
    fn select(&self) -> (r: bool)
        ensures
            r == self.spec_supports_packed(),
    ;
}

impl SupportsPacked for Marker {
    open spec fn spec_supports_packed(&self) -> bool {
        self.kind.supports_packed()
    }

    fn select(&self) -> (r: bool)
    {
        self.kind.packed_ok()
    }
}

} // verus!
