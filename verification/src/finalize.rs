//! The finalizer: post-processing of a rewrapped projection result.
//!
//! Finalization collapses representational artifacts left behind by the
//! composition of skins: an optional skin stacked on an optional result
//! flattens to a single one, a pinned handle whose target is known to be
//! `Unpin` drops the pin, and a handle into an atomic cell whose field has
//! opted out of atomic access becomes a plain shared borrow.  Finalization
//! is idempotent: applying it twice is the same as applying it once.

use vstd::prelude::*;

use crate::kind::{Handle, WrapperKind};

verus! {

/// A projection result with its composition skins still visible: either a
/// direct handle, or an optional skin around a further result.
#[derive(Debug)]
pub enum Projected {
    /// A direct handle.
    Direct(Handle),
    /// An optional skin: absent, or wrapping a further result.
    Optional(Option<Box<Projected>>),
}

/// What finalizing a direct handle leaves: the pin collapses when the target
/// is `Unpin`, and an atomic-cell handle becomes a plain shared borrow when
/// the field has opted out of atomic access.
pub open spec fn spec_finalize_handle(h: Handle, unpin: bool, non_atomic: bool) -> Handle {
    let pin_done = if unpin {
        h.kind.unpinned()
    } else {
        h.kind
    };
    let kind = if non_atomic && pin_done is AtomicCell {
        WrapperKind::SharedRef
    } else {
        pin_done
    };
    Handle { kind, addr: h.addr }
}

/// What finalizing a full result leaves: direct handles are refined, an
/// absent optional stays absent, an optional around a direct result keeps
/// one skin, and an optional around an optional result flattens.
pub open spec fn spec_finalize(p: Projected, unpin: bool, non_atomic: bool) -> Projected
    decreases p,
{
    match p {
        Projected::Direct(h) => Projected::Direct(spec_finalize_handle(h, unpin, non_atomic)),
        Projected::Optional(None) => Projected::Optional(None),
        Projected::Optional(Some(q)) => match spec_finalize(*q, unpin, non_atomic) {
            Projected::Direct(h) => Projected::Optional(Some(Box::new(Projected::Direct(h)))),
            Projected::Optional(inner) => Projected::Optional(inner),
        },
    }
}

/// Finalize a direct handle.
pub fn finalize_handle(h: &Handle, unpin: bool, non_atomic: bool) -> (r: Handle)
    ensures
        r == spec_finalize_handle(*h, unpin, non_atomic),
{
    let pin_done = if unpin {
        match h.kind {
            WrapperKind::PinnedShared => WrapperKind::SharedRef,
            WrapperKind::PinnedUnique => WrapperKind::UniqueRef,
            _ => h.kind,
        }
    } else {
        h.kind
    };
    let kind = match pin_done {
        WrapperKind::AtomicCell => if non_atomic {
            WrapperKind::SharedRef
        } else {
            pin_done
        },
        _ => pin_done,
    };
    Handle { kind, addr: h.addr }
}

/// Finalize a projection result, collapsing optional and pin skins.
pub fn finalize(p: &Projected, unpin: bool, non_atomic: bool) -> (r: Projected)
    ensures
        r == spec_finalize(*p, unpin, non_atomic),
    decreases *p,
{
    match p {
        Projected::Direct(h) => Projected::Direct(finalize_handle(h, unpin, non_atomic)),
        Projected::Optional(None) => Projected::Optional(None),
        Projected::Optional(Some(q)) => {
            let fq = finalize(q, unpin, non_atomic);
            match fq {
                Projected::Direct(h) => Projected::Optional(
                    Some(Box::new(Projected::Direct(h))),
                ),
                Projected::Optional(inner) => Projected::Optional(inner),
            }
        },
    }
}

/// Post-processing hook for projection results: a result type implements
/// this when it needs refinement after rewrapping, such as unwrapping a skin.
pub trait FinalizeProjection: Sized {
    /// The refined result type.
    type Output;

    /// What `finalize` returns, given the static facts about the projected
    /// field: whether its type is `Unpin`, and whether it opted out of
    /// atomic access.
    spec fn spec_finalize_projection(&self, unpin: bool, non_atomic: bool) -> Self::Output;

    /// Refine the result.
    fn finalize_projection(&self, unpin: bool, non_atomic: bool) -> (r: Self::Output)
        ensures
            r == self.spec_finalize_projection(unpin, non_atomic),
    ;
}

impl FinalizeProjection for Handle {
    type Output = Handle;

    open spec fn spec_finalize_projection(&self, unpin: bool, non_atomic: bool) -> Handle {
        spec_finalize_handle(*self, unpin, non_atomic)
    }

    fn finalize_projection(&self, unpin: bool, non_atomic: bool) -> (r: Handle) {
        finalize_handle(self, unpin, non_atomic)
    }
}

impl FinalizeProjection for Projected {
    type Output = Projected;

    open spec fn spec_finalize_projection(&self, unpin: bool, non_atomic: bool) -> Projected {
        spec_finalize(*self, unpin, non_atomic)
    }

    fn finalize_projection(&self, unpin: bool, non_atomic: bool) -> (r: Projected) {
        finalize(self, unpin, non_atomic)
    }
}

/// LAW: finalization never widens the access discipline — whatever the
/// refined handle can read or write, the unrefined handle already could.
pub proof fn lemma_finalize_never_widens(h: Handle, unpin: bool, non_atomic: bool)
    ensures
        spec_finalize_handle(h, unpin, non_atomic).kind.may_read() ==> h.kind.may_read(),
        spec_finalize_handle(h, unpin, non_atomic).kind.may_write() ==> h.kind.may_write(),
{
}

/// LAW: finalizing a direct handle twice is the same as finalizing it once.
pub proof fn lemma_finalize_handle_idempotent(h: Handle, unpin: bool, non_atomic: bool)
    ensures
        spec_finalize_handle(spec_finalize_handle(h, unpin, non_atomic), unpin, non_atomic)
            == spec_finalize_handle(h, unpin, non_atomic),
{
}

/// LAW: finalization is idempotent over every composed result — in
/// particular over an optional skin around an optional result, and over a
/// pinned handle whose target is `Unpin`.
pub proof fn lemma_finalize_idempotent(p: Projected, unpin: bool, non_atomic: bool)
    ensures
        spec_finalize(spec_finalize(p, unpin, non_atomic), unpin, non_atomic) == spec_finalize(
            p,
            unpin,
            non_atomic,
        ),
    decreases p,
{
    match p {
        Projected::Direct(h) => {
            lemma_finalize_handle_idempotent(h, unpin, non_atomic);
        },
        Projected::Optional(None) => {
        },
        Projected::Optional(Some(q)) => {
            lemma_finalize_idempotent(*q, unpin, non_atomic);
            match spec_finalize(*q, unpin, non_atomic) {
                Projected::Direct(h) => {
                    lemma_finalize_handle_idempotent(h, unpin, non_atomic);
                },
                Projected::Optional(inner) => {
                },
            }
        },
    }
}

} // verus!
