//! The canonicalizer and the address extractor.
//!
//! Any accepted input expression is first normalized to one canonical
//! representation — an owning wrapper or a borrowed wrapper with its kind —
//! so the later stages need not special-case input shapes.  Canonicalization
//! is a total function on the closed catalog of accepted shapes and is
//! injective, which is the model's form of "no input resolves to two kinds".
//!
//! The address extractor then turns a canonical wrapper into the pair of a
//! raw address and a capability marker; it is a pure read of the wrapper's
//! data with no effect on storage.

use vstd::prelude::*;

use crate::kind::{Marker, WrapperKind};

verus! {

/// The canonical owning representation: the aggregate sits in storage at
/// `addr` and the holder owns it, so fields may be taken by value.
#[derive(Clone, Copy, Debug, PartialEq, Eq, Structural)]
pub struct Owned {
    /// Where the owned aggregate lives.
    pub addr: usize,
}

/// The canonical borrowed representation: a wrapper that reaches the
/// aggregate at `addr` through the non-owning addressing mode `kind`.
#[derive(Clone, Copy, Debug, PartialEq, Eq, Structural)]
pub struct Helper {
    /// The addressing mode of the borrow.
    pub kind: WrapperKind,
    /// Where the borrowed aggregate lives.
    pub addr: usize,
}

/// A canonical wrapper: exactly one representation per wrapper kind.
#[derive(Clone, Copy, Debug, PartialEq, Eq, Structural)]
pub enum Canon {
    /// An owning wrapper.
    CanonOwned(Owned),
    /// A borrowed wrapper of some non-owning kind.
    CanonRef(Helper),
}

/// An input expression shape the engine accepts.  The catalog is closed: a
/// shape carries the address of the aggregate it reaches, and nothing else.
#[derive(Clone, Copy, Debug, PartialEq, Eq, Structural)]
pub enum SourceExpr {
    /// A plain owned value.
    ValueExpr { addr: usize },
    /// A shared borrow.
    RefExpr { addr: usize },
    /// A unique borrow.
    RefMutExpr { addr: usize },
    /// A pinned shared borrow.
    PinRefExpr { addr: usize },
    /// A pinned unique borrow.
    PinRefMutExpr { addr: usize },
    /// A shared borrow of a cell.
    CellRefExpr { addr: usize },
    /// A shared borrow of an atomic cell.
    AtomicRefExpr { addr: usize },
    /// A unique borrow of uninitialized storage.
    UninitRefExpr { addr: usize },
    /// A raw const pointer.
    ConstPtrExpr { addr: usize },
    /// A raw mutable pointer.
    MutPtrExpr { addr: usize },
    /// A non-null raw pointer.
    NonNullExpr { addr: usize },
}

/// Normalizes an input expression to its canonical representation.
/// Implementations must be pure: no copy of owned data, no drop, only a
/// re-description of the same address under the canonical type.
pub trait Preprocess: Sized {
    /// The canonical representation this shape normalizes to.
    type Output;

    /// What `preprocess` returns.
    spec fn spec_preprocess(&self) -> Self::Output;

    /// Normalize to the canonical representation.
    fn preprocess(&self) -> (r: Self::Output)
        ensures
            r == self.spec_preprocess(),
    ;
}

impl Preprocess for SourceExpr {
    type Output = Canon;

    open spec fn spec_preprocess(&self) -> Canon {
        match *self {
            SourceExpr::ValueExpr { addr } => Canon::CanonOwned(Owned { addr }),
            SourceExpr::RefExpr { addr } => Canon::CanonRef(
                Helper { kind: WrapperKind::SharedRef, addr },
            ),
            SourceExpr::RefMutExpr { addr } => Canon::CanonRef(
                Helper { kind: WrapperKind::UniqueRef, addr },
            ),
            SourceExpr::PinRefExpr { addr } => Canon::CanonRef(
                Helper { kind: WrapperKind::PinnedShared, addr },
            ),
            SourceExpr::PinRefMutExpr { addr } => Canon::CanonRef(
                Helper { kind: WrapperKind::PinnedUnique, addr },
            ),
            SourceExpr::CellRefExpr { addr } => Canon::CanonRef(
                Helper { kind: WrapperKind::Cell, addr },
            ),
            SourceExpr::AtomicRefExpr { addr } => Canon::CanonRef(
                Helper { kind: WrapperKind::AtomicCell, addr },
            ),
            SourceExpr::UninitRefExpr { addr } => Canon::CanonRef(
                Helper { kind: WrapperKind::Uninit, addr },
            ),
            SourceExpr::ConstPtrExpr { addr } => Canon::CanonRef(
                Helper { kind: WrapperKind::RawConst, addr },
            ),
            SourceExpr::MutPtrExpr { addr } => Canon::CanonRef(
                Helper { kind: WrapperKind::RawMut, addr },
            ),
            SourceExpr::NonNullExpr { addr } => Canon::CanonRef(
                Helper { kind: WrapperKind::NonNullRaw, addr },
            ),
        }
    }

    fn preprocess(&self) -> (r: Canon) {
        match *self {
            SourceExpr::ValueExpr { addr } => Canon::CanonOwned(Owned { addr }),
            SourceExpr::RefExpr { addr } => Canon::CanonRef(
                Helper { kind: WrapperKind::SharedRef, addr },
            ),
            SourceExpr::RefMutExpr { addr } => Canon::CanonRef(
                Helper { kind: WrapperKind::UniqueRef, addr },
            ),
            SourceExpr::PinRefExpr { addr } => Canon::CanonRef(
                Helper { kind: WrapperKind::PinnedShared, addr },
            ),
            SourceExpr::PinRefMutExpr { addr } => Canon::CanonRef(
                Helper { kind: WrapperKind::PinnedUnique, addr },
            ),
            SourceExpr::CellRefExpr { addr } => Canon::CanonRef(
                Helper { kind: WrapperKind::Cell, addr },
            ),
            SourceExpr::AtomicRefExpr { addr } => Canon::CanonRef(
                Helper { kind: WrapperKind::AtomicCell, addr },
            ),
            SourceExpr::UninitRefExpr { addr } => Canon::CanonRef(
                Helper { kind: WrapperKind::Uninit, addr },
            ),
            SourceExpr::ConstPtrExpr { addr } => Canon::CanonRef(
                Helper { kind: WrapperKind::RawConst, addr },
            ),
            SourceExpr::MutPtrExpr { addr } => Canon::CanonRef(
                Helper { kind: WrapperKind::RawMut, addr },
            ),
            SourceExpr::NonNullExpr { addr } => Canon::CanonRef(
                Helper { kind: WrapperKind::NonNullRaw, addr },
            ),
        }
    }
}

/// LAW of the canonicalizer: normalization loses nothing and conflates
/// nothing — two accepted input shapes that canonicalize to the same
/// representation are the same shape, so no canonical input is ever
/// ambiguous between two wrapper kinds.
pub proof fn lemma_canonicalize_unambiguous(a: SourceExpr, b: SourceExpr)
    requires
        a.spec_preprocess() == b.spec_preprocess(),
    ensures
        a == b,
{
}

/// Extracts the raw address of the aggregate together with the capability
/// marker describing the addressing mode.  Pure: storage is never touched,
/// the pair is computed from the wrapper's own data.
pub trait Projectable: Sized {
    /// The marker type this wrapper's projection carries.
    type Marker;

    /// What `get_raw` returns.
    spec fn spec_get_raw(&self) -> (usize, Self::Marker);

    /// Extract the aggregate's address and the capability marker.
    fn get_raw(&self) -> (r: (usize, Self::Marker))
        ensures
            r == self.spec_get_raw(),
    ;
}

impl Projectable for Owned {
    type Marker = Marker;

    open spec fn spec_get_raw(&self) -> (usize, Marker) {
        (self.addr, Marker { kind: WrapperKind::Owned })
    }

    fn get_raw(&self) -> (r: (usize, Marker)) {
        (self.addr, Marker::new(WrapperKind::Owned))
    }
}

impl Projectable for Helper {
    type Marker = Marker;

    open spec fn spec_get_raw(&self) -> (usize, Marker) {
        (self.addr, Marker { kind: self.kind })
    }

    fn get_raw(&self) -> (r: (usize, Marker)) {
        (self.addr, Marker::new(self.kind))
    }
}

impl Projectable for Canon {
    type Marker = Marker;

    open spec fn spec_get_raw(&self) -> (usize, Marker) {
        match *self {
            Canon::CanonOwned(o) => o.spec_get_raw(),
            Canon::CanonRef(h) => h.spec_get_raw(),
        }
    }

    fn get_raw(&self) -> (r: (usize, Marker)) {
        match self {
            Canon::CanonOwned(o) => o.get_raw(),
            Canon::CanonRef(h) => h.get_raw(),
        }
    }
}

/// A wrapper whose projection can meaningfully pass through a dereference:
/// extraction yields the address of the dereference target rather than of
/// the wrapper itself.
pub trait DerefProjectable: Sized {
    /// The marker type the deref projection carries.
    type Marker;

    /// What `deref_raw` returns.
    spec fn spec_deref_raw(&self) -> (usize, Self::Marker);

    /// Extract the dereference target's address and the capability marker.
    fn deref_raw(&self) -> (r: (usize, Self::Marker))
        ensures
            r == self.spec_deref_raw(),
    ;
}

/// Adapter that lets one entry point serve wrappers with and without a
/// dereference step: wrapping a plain projectable wrapper makes its ordinary
/// extraction available under the deref interface.
pub struct MaybeDerefProjectable<T> {
    /// The wrapped projectable value.
    pub inner: T,
}

impl<T> MaybeDerefProjectable<T> {
    /// Wrap a value for deref-projection dispatch.
    pub fn new(from: T) -> (r: MaybeDerefProjectable<T>)
        ensures
            r.inner == from,
    {
        MaybeDerefProjectable { inner: from }
    }
}

impl<T: Projectable> DerefProjectable for MaybeDerefProjectable<T> {
    type Marker = T::Marker;

    open spec fn spec_deref_raw(&self) -> (usize, T::Marker) {
        self.inner.spec_get_raw()
    }

    fn deref_raw(&self) -> (r: (usize, T::Marker)) {
        self.inner.get_raw()
    }
}

/// A borrowed place holding an indirection: the model of a borrow of a
/// pointer-like value.  The borrow itself is held with `kind`; following the
/// indirection reaches `target`; `target_pinned` records that the pointee is
/// kept behind a pin, in which case the projection stays pinned.
#[derive(Clone, Copy, Debug, PartialEq, Eq, Structural)]
pub struct DerefSource {
    /// How the pointer-like value itself is borrowed.
    pub kind: WrapperKind,
    /// Where the pointer-like value lives.
    pub addr: usize,
    /// Where its dereference target lives.
    pub target: usize,
    /// The target is behind a pin.
    pub target_pinned: bool,
}

impl DerefProjectable for DerefSource {
    type Marker = Marker;

    open spec fn spec_deref_raw(&self) -> (usize, Marker) {
        (
            self.target,
            Marker {
                kind: if self.target_pinned {
                    self.kind.pinned()
                } else {
                    self.kind
                },
            },
        )
    }

    fn deref_raw(&self) -> (r: (usize, Marker)) {
        let kind = if self.target_pinned {
            match self.kind {
                WrapperKind::SharedRef => WrapperKind::PinnedShared,
                WrapperKind::UniqueRef => WrapperKind::PinnedUnique,
                _ => self.kind,
            }
        } else {
            self.kind
        };
        (self.target, Marker::new(kind))
    }
}

} // verus!
