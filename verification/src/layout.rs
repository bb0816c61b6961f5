//! Aggregate layouts and the field locator.
//!
//! An aggregate's layout carries everything the engine consults statically:
//! where each field lives, how large the aggregate is, whether the layout is
//! packed, and the drop facts the pin gate needs.  The locator computes a
//! field's address purely by offset arithmetic — it never touches memory, and
//! it uses wrapping arithmetic so the computation is defined even when the
//! result would fall outside any allocation.

use vstd::prelude::*;

verus! {

/// Where one field lives inside its aggregate, with the static facts about
/// the field type that the rewrap and finalize rules consult.
#[derive(Clone, Copy, Debug, PartialEq, Eq, Structural)]
pub struct FieldLayout {
    /// Byte offset of the field from the start of the aggregate.
    pub offset: usize,
    /// Size of the field in bytes.
    pub size: usize,
    /// The field type is `Unpin`: a pinned projection onto it collapses to a
    /// plain borrow.
    pub unpin: bool,
    /// The field opts out of atomic access: a projection through an atomic
    /// cell onto it finalizes to a plain shared borrow.
    pub non_atomic: bool,
}

impl FieldLayout {
    /// A plain field: pinned projections stay pinned, atomic projections
    /// stay atomic.
    pub fn new(offset: usize, size: usize) -> (r: FieldLayout)
        ensures
            r == (FieldLayout { offset, size, unpin: false, non_atomic: false }),
    {
        FieldLayout { offset, size, unpin: false, non_atomic: false }
    }

    /// A field whose type is `Unpin`.
    pub fn new_unpin(offset: usize, size: usize) -> (r: FieldLayout)
        ensures
            r == (FieldLayout { offset, size, unpin: true, non_atomic: false }),
    {
        FieldLayout { offset, size, unpin: true, non_atomic: false }
    }
}

/// Two fields occupy disjoint byte ranges.
pub open spec fn fields_disjoint(a: FieldLayout, b: FieldLayout) -> bool {
    a.offset + a.size <= b.offset || b.offset + b.size <= a.offset
}

/// The declared memory layout of a product-type aggregate, together with the
/// static facts the projection gates consult.  Only product types are
/// described: a field selector is a position into `fields`.
#[derive(Debug)]
pub struct StructLayout {
    /// Total size of the aggregate in bytes.
    pub size: usize,
    /// The aggregate is declared with packed representation: fields may sit
    /// at unaligned offsets, so no alignment-requiring handle may be formed.
    pub packed: bool,
    /// The aggregate has a manual destructor.
    pub has_manual_drop: bool,
    /// The aggregate has opted into the pin-drop delegation protocol: its
    /// destructor routes through the designated pinned teardown, so pinned
    /// projection is sound even with a manual destructor.
    pub pin_delegates: bool,
    /// The fields, by position.
    pub fields: Vec<FieldLayout>,
}

impl StructLayout {
    /// Every field lies inside the aggregate and no two fields overlap.
    pub open spec fn wf(self) -> bool {
        &&& forall|i: int| 0 <= i < self.fields@.len()
                ==> (#[trigger] self.fields@[i]).offset + self.fields@[i].size <= self.size
        &&& forall|i: int, j: int|
                0 <= i < self.fields@.len() && 0 <= j < self.fields@.len() && i != j
                ==> #[trigger] fields_disjoint(self.fields@[i], self.fields@[j])
    }

    /// A layout for an ordinary aggregate with no manual destructor.
    pub fn new(size: usize, fields: Vec<FieldLayout>) -> (r: StructLayout)
        ensures
            r == (StructLayout {
                size,
                packed: false,
                has_manual_drop: false,
                pin_delegates: false,
                fields,
            }),
    {
        StructLayout { size, packed: false, has_manual_drop: false, pin_delegates: false, fields }
    }

    /// The number of fields.
    pub fn field_count(&self) -> (r: usize)
        ensures
            r == self.fields@.len(),
    {
        self.fields.len()
    }

    /// Decide well-formedness at run time, for layouts built from data that
    /// carries no proof.
    pub fn well_formed(&self) -> (r: bool)
        ensures
            r == self.wf(),
    {
        let n = self.fields.len();
        let mut i: usize = 0;
        while i < n
            invariant
                n == self.fields@.len(),
                i <= n,
                forall|p: int| 0 <= p < i
                    ==> (#[trigger] self.fields@[p]).offset + self.fields@[p].size <= self.size,
                forall|p: int, q: int| 0 <= p < i && 0 <= q < n && p != q
                    ==> #[trigger] fields_disjoint(self.fields@[p], self.fields@[q]),
            decreases n - i,
        {
            let fi = self.fields[i];
            if fi.size > self.size || fi.offset > self.size - fi.size {
                return false;
            }
            let mut j: usize = 0;
            while j < n
                invariant
                    n == self.fields@.len(),
                    i < n,
                    j <= n,
                    fi == self.fields@[i as int],
                    forall|q: int| 0 <= q < j && q != i
                        ==> #[trigger] fields_disjoint(self.fields@[i as int], self.fields@[q]),
                decreases n - j,
            {
                if j != i {
                    let fj = self.fields[j];
                    let i_before_j = fi.size <= usize::MAX - fi.offset
                        && fi.offset + fi.size <= fj.offset;
                    let j_before_i = fj.size <= usize::MAX - fj.offset
                        && fj.offset + fj.size <= fi.offset;
                    if !i_before_j && !j_before_i {
                        proof {
                            assert(!fields_disjoint(self.fields@[i as int], self.fields@[j as int]));
                        }
                        return false;
                    }
                }
                j += 1;
            }
            i += 1;
        }
        true
    }
}

/// Offset addition that wraps around the address space, so the locator is
/// defined even when the sum leaves the space: the model of a wrapping
/// pointer offset.
pub open spec fn spec_wrap_add(addr: usize, off: usize) -> usize {
    if addr + off > usize::MAX {
        (addr + off - (usize::MAX + 1)) as usize
    } else {
        (addr + off) as usize
    }
}

/// Executable wrapping offset.
pub fn wrap_add(addr: usize, off: usize) -> (r: usize)
    ensures
        r == spec_wrap_add(addr, off),
{
    addr.wrapping_add(off)
}

/// Where field `sel` of an aggregate that starts at `addr` lives.
pub open spec fn spec_locate(addr: usize, layout: StructLayout, sel: int) -> usize {
    spec_wrap_add(addr, layout.fields@[sel].offset)
}

/// The field locator: compute the address of field `sel` of the aggregate at
/// `addr`.  Pure offset arithmetic — memory is never touched, no reference is
/// formed, and a zero-sized field at offset zero yields the input address
/// unchanged.
pub fn locate(addr: usize, layout: &StructLayout, sel: usize) -> (r: usize)
    requires
        sel < layout.fields@.len(),
    ensures
        r == spec_locate(addr, *layout, sel as int),
        addr + layout.fields@[sel as int].offset <= usize::MAX
            ==> r == addr + layout.fields@[sel as int].offset,
{
    wrap_add(addr, field_at(layout, sel).offset)
}

/// Fetch one field layout by position.
pub fn field_at(layout: &StructLayout, sel: usize) -> (r: FieldLayout)
    requires
        sel < layout.fields@.len(),
    ensures
        r == layout.fields@[sel as int],
{
    layout.fields[sel]
}

} // verus!
