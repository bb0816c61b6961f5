//! Owning projection and the leftover manager.
//!
//! Taking a field out of an owned aggregate by value leaves the rest of the
//! aggregate behind with an obligation: destroy every remaining field
//! exactly once when the projection's scope ends, and never touch the field
//! that was moved out.  The manager records which field was taken; finishing
//! it consumes the manager, so the obligation cannot run twice.

use vstd::prelude::*;

use crate::canon::Owned;
use crate::engine::{read_field, spec_field_bytes};
use crate::kind::ProjectableMarker;
use crate::layout::StructLayout;
use crate::mem::Mem;

verus! {

/// The field positions the leftover obligation destroys: every position of
/// the aggregate except the moved-out one, in ascending order.
pub open spec fn spec_leftover_indices(nfields: int, moved: Option<usize>) -> Seq<usize> {
    match moved {
        None => Seq::new(nfields as nat, |k: int| k as usize),
        Some(m) => Seq::new(
            (nfields - 1) as nat,
            |k: int| if k < m { k as usize } else { (k + 1) as usize },
        ),
    }
}

/// Keeps track of what is left of an owned aggregate once a field has been
/// moved out of it.  Exclusively owned by the scope that performed the
/// owning projection; finishing consumes it, so the leftover cleanup runs
/// exactly once.
#[derive(Clone, Copy, Debug, PartialEq, Eq, Structural)]
pub struct DropLeftovers {
    /// Where the aggregate lives.
    pub base: usize,
    /// How many fields the aggregate has.
    pub nfields: usize,
    /// The field taken by value, if one has been.
    pub moved: Option<usize>,
}

impl DropLeftovers {
    /// The moved-out position, when present, names a field.
    pub open spec fn wf(self) -> bool {
        match self.moved {
            Some(m) => m < self.nfields,
            None => true,
        }
    }

    /// Register an owned aggregate for leftover management.  Nothing has
    /// been moved out yet.
    pub fn new(val: Owned, layout: &StructLayout) -> (r: DropLeftovers)
        ensures
            r == (DropLeftovers { base: val.addr, nfields: layout.fields@.len() as usize, moved: None }),
            r.wf(),
    {
        DropLeftovers { base: val.addr, nfields: layout.field_count(), moved: None }
    }

    /// Owning access to the whole managed aggregate, for moving its
    /// dereference target out.  The manager is left as it was.
    pub fn deref_as_owning(&mut self) -> (r: OwningRef)
        ensures
            *final(self) == *old(self),
            r == (OwningRef { addr: old(self).base }),
    {
        OwningRef { addr: self.base }
    }

    /// Take field `sel` out of the aggregate by value: the field's bytes are
    /// read out — without forming a reference, so packed aggregates are
    /// served too — and the manager records that the field must not be
    /// touched again.  Only one field can be taken: the exclusive owning
    /// capability is not split.
    pub fn take_field(&mut self, m: &Mem, layout: &StructLayout, sel: usize) -> (r: Vec<u8>)
        requires
            old(self).moved is None,
            layout.wf(),
            sel < layout.fields@.len(),
            layout.fields@.len() == old(self).nfields,
            old(self).base + layout.size <= m@.len(),
        ensures
            *final(self) == (DropLeftovers { moved: Some(sel), ..*old(self) }),
            final(self).wf(),
            r@ == spec_field_bytes(m@, old(self).base, *layout, sel as int),
    {
        let bytes = read_field(m, self.base, layout, sel);
        self.moved = Some(sel);
        bytes
    }

    /// Run the leftover obligation: destroy what remains of the aggregate,
    /// skipping the moved-out field.  Consuming `self` is what makes the
    /// cleanup run exactly once.  Returns the destroyed field positions in
    /// order.
    pub fn finish(self) -> (dropped: Vec<usize>)
        requires
            self.wf(),
        ensures
            dropped@ == spec_leftover_indices(self.nfields as int, self.moved),
    {
        let mut out: Vec<usize> = Vec::new();
        let mut i: usize = 0;
        match self.moved {
            None => {
                while i < self.nfields
                    invariant
                        i <= self.nfields,
                        out@.len() == i,
                        forall|k: int| 0 <= k < i ==> out@[k] == k as usize,
                    decreases self.nfields - i,
                {
                    out.push(i);
                    i += 1;
                }
                proof {
                    assert(out@ =~= spec_leftover_indices(self.nfields as int, self.moved));
                }
            },
            Some(m) => {
                while i < self.nfields
                    invariant
                        m < self.nfields,
                        i <= self.nfields,
                        out@.len() == if i > m { i - 1 } else { i as int },
                        forall|k: int| 0 <= k < out@.len() ==> out@[k] == (if k < m {
                            k
                        } else {
                            k + 1
                        }) as usize,
                    decreases self.nfields - i,
                {
                    if i != m {
                        out.push(i);
                    }
                    i += 1;
                }
                proof {
                    assert(out@ =~= spec_leftover_indices(self.nfields as int, self.moved));
                }
            },
        }
        out
    }
}

/// An owning handle to the value at `addr`: it both grants access and
/// carries the duty to destroy the value when its scope ends.
#[derive(Clone, Copy, Debug, PartialEq, Eq, Structural)]
pub struct OwningRef {
    /// The owned value's address.
    pub addr: usize,
}

/// A pointer-like value whose dereference target can be moved out of it by
/// value, leaving leftovers to destroy separately.
pub trait DerefOwned: Sized {
    /// Where the dereference target lives.
    spec fn spec_target(&self) -> usize;

    /// Move the dereference target out, consuming the wrapper.
    fn deref_owned(self) -> (r: Owned)
        ensures
            r.addr == self.spec_target(),
    ;
}

impl DerefOwned for OwningRef {
    open spec fn spec_target(&self) -> usize {
        self.addr
    }

    fn deref_owned(self) -> (r: Owned) {
        Owned { addr: self.addr }
    }
}

/// The capability marker of an owning projection: rewrapping yields the
/// field by value.
#[derive(Clone, Copy, Debug, PartialEq, Eq, Structural)]
pub struct OwningMarker {
    /// Where the aggregate being projected out of lives.
    pub base: usize,
}

impl ProjectableMarker for OwningMarker {
    type Output = Owned;

    open spec fn spec_from_raw(&self, raw: usize) -> Owned {
        Owned { addr: raw }
    }

    fn from_raw(&self, raw: usize) -> (r: Owned) {
        Owned { addr: raw }
    }
}

/// The capability marker of an owning dereference projection: rewrapping
/// yields the target by value, and the marker keeps the duty to destroy the
/// emptied shell exactly once.
#[derive(Debug, PartialEq, Eq, Structural)]
pub struct OwnedDropMarker {
    /// Where the emptied shell lives.
    pub base: usize,
}

impl OwnedDropMarker {
    /// Discharge the shell-destruction duty, consuming the marker so it can
    /// run only once.  Returns the shell's address.
    pub fn drop_leftovers(self) -> (r: usize)
        ensures
            r == self.base,
    {
        self.base
    }
}

impl ProjectableMarker for OwnedDropMarker {
    type Output = Owned;

    open spec fn spec_from_raw(&self, raw: usize) -> Owned {
        Owned { addr: raw }
    }

    fn from_raw(&self, raw: usize) -> (r: Owned) {
        Owned { addr: raw }
    }
}

/// LAW: leftover destruction is safe — the moved-out field is never
/// destroyed, and every remaining field is destroyed exactly once: it occurs
/// in the obligation, and the obligation never names a position twice.
pub proof fn lemma_leftover_drop_safety(nfields: usize, m: usize)
    requires
        m < nfields,
    ensures
        !spec_leftover_indices(nfields as int, Some(m)).contains(m),
        forall|f: usize|
            f < nfields && f != m ==> spec_leftover_indices(nfields as int, Some(m)).contains(f),
        forall|k1: int, k2: int|
            0 <= k1 < spec_leftover_indices(nfields as int, Some(m)).len() && 0 <= k2
                < spec_leftover_indices(nfields as int, Some(m)).len() && k1 != k2
                ==> spec_leftover_indices(nfields as int, Some(m))[k1]
                != spec_leftover_indices(nfields as int, Some(m))[k2],
{
    let s = spec_leftover_indices(nfields as int, Some(m));
    assert forall|i: int| 0 <= i < s.len() implies s[i] != m by {}
    assert(!s.contains(m));
    assert forall|f: usize| f < nfields && f != m implies s.contains(f) by {
        let i: int = if f < m {
            f as int
        } else {
            f - 1
        };
        assert(s[i] == f);
    }
}

} // verus!
