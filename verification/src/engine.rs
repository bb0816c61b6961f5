//! The projection engine over simple handles: gates, rewrap, and the memory
//! discipline, with the laws that relate projected access to direct access.
//!
//! `project_field` is the consumer entry point for the simple wrapper kinds:
//! it checks that the field exists, that a pinned projection is allowed to
//! proceed, and that a packed layout is not asked for an alignment-requiring
//! handle; then it locates the field and rewraps its address under the
//! aggregate's kind.  All failures are deterministic rejections — the model
//! of what a richer front end would refuse at compile time.  The only stage
//! that touches storage is the explicit read/write pair below.

use vstd::prelude::*;

use crate::canon::{Preprocess, Projectable, SourceExpr};
use crate::finalize::{finalize_handle, spec_finalize_handle};
use crate::kind::{Handle, ProjectableMarker, WrapperKind};
use crate::layout::{fields_disjoint, field_at, locate, spec_locate, StructLayout};
use crate::mem::{spec_write, Mem};

verus! {

/// Why a projection is refused.  Every refusal models a condition that a
/// compile-time front end would surface as a diagnostic; none of them is a
/// run-time failure of the expected-use path.
#[derive(Clone, Copy, Debug, PartialEq, Eq, Structural)]
pub enum ProjectError {
    /// The selector names no field of the aggregate.
    MissingField,
    /// The aggregate is packed and the wrapper kind would hand out a handle
    /// that requires natural alignment.
    PackedNeedsRaw,
    /// The aggregate has a manual destructor, has not opted into the
    /// pin-drop delegation protocol, and is being projected through a pin.
    PinnedDropNotDelegated,
}

/// The pin gate: a pinned projection is blocked when the aggregate has a
/// manual destructor that is not routed through the delegation protocol.
pub open spec fn spec_pin_blocked(kind: WrapperKind, layout: StructLayout) -> bool {
    kind.is_pinned() && layout.has_manual_drop && !layout.pin_delegates
}

/// The packed gate: a packed layout refuses every kind whose field handle
/// would require natural alignment.
pub open spec fn spec_packed_blocked(kind: WrapperKind, layout: StructLayout) -> bool {
    layout.packed && !kind.supports_packed()
}

/// What projecting field `sel` of an aggregate handle returns: the rejection
/// when a gate blocks it, else the field handle with the rewrapped kind and
/// the located address.
pub open spec fn spec_project_field(h: Handle, layout: StructLayout, sel: int) -> Result<
    Handle,
    ProjectError,
> {
    if !(0 <= sel < layout.fields@.len()) {
        Err(ProjectError::MissingField)
    } else if spec_pin_blocked(h.kind, layout) {
        Err(ProjectError::PinnedDropNotDelegated)
    } else if spec_packed_blocked(h.kind, layout) {
        Err(ProjectError::PackedNeedsRaw)
    } else {
        Ok(Handle {
            kind: h.kind.rewrap(layout.fields@[sel].unpin),
            addr: spec_locate(h.addr, layout, sel),
        })
    }
}

/// Project field `sel` of the aggregate behind `h`.  Total: every input
/// produces either the field handle or the exact rejection; storage is never
/// touched.
pub fn project_field(h: &Handle, layout: &StructLayout, sel: usize) -> (r: Result<
    Handle,
    ProjectError,
>)
    ensures
        r == spec_project_field(*h, *layout, sel as int),
{
    if sel >= layout.field_count() {
        return Err(ProjectError::MissingField);
    }
    if h.kind.pinned_now() && layout.has_manual_drop && !layout.pin_delegates {
        return Err(ProjectError::PinnedDropNotDelegated);
    }
    if layout.packed && !h.kind.packed_ok() {
        return Err(ProjectError::PackedNeedsRaw);
    }
    let field = field_at(layout, sel);
    Ok(Handle { kind: h.kind.rewrap_kind(field.unpin), addr: locate(h.addr, layout, sel) })
}

/// The whole pipeline, run once per field per projection: canonicalize the
/// input expression, extract its address and marker, project the field
/// through the gates and the rewrap rule, and finalize the resulting handle
/// under the field's static facts.
pub open spec fn spec_project(e: SourceExpr, layout: StructLayout, sel: int) -> Result<
    Handle,
    ProjectError,
> {
    let (addr, marker) = e.spec_preprocess().spec_get_raw();
    match spec_project_field(marker.spec_from_raw(addr), layout, sel) {
        Ok(p) => Ok(
            spec_finalize_handle(p, layout.fields@[sel].unpin, layout.fields@[sel].non_atomic),
        ),
        Err(err) => Err(err),
    }
}

/// Project field `sel` of the aggregate reached by the input expression `e`:
/// the consumer entry point, running all five stages in order.  Storage is
/// never touched; the result is the finalized field handle, or the exact
/// rejection of the first stage that refuses.
pub fn project(e: &SourceExpr, layout: &StructLayout, sel: usize) -> (r: Result<
    Handle,
    ProjectError,
>)
    ensures
        r == spec_project(*e, *layout, sel as int),
{
    let canon = e.preprocess();
    let (addr, marker) = canon.get_raw();
    marker.check();
    let base = marker.from_raw(addr);
    match project_field(&base, layout, sel) {
        Ok(p) => {
            let field = field_at(layout, sel);
            Ok(finalize_handle(&p, field.unpin, field.non_atomic))
        },
        Err(err) => Err(err),
    }
}

/// Read `len` bytes through a handle.  Only kinds that grant read access may
/// be read through; raw-pointer handles are never dereferenced.
pub fn read_through(m: &Mem, h: &Handle, len: usize) -> (r: Vec<u8>)
    requires
        h.kind.may_read(),
        h.addr + len <= m@.len(),
    ensures
        r@ == m@.subrange(h.addr as int, h.addr + len),
{
    m.read(h.addr, len)
}

/// Write `data` through a handle.  Only kinds that grant write access may be
/// written through.
pub fn write_through(m: &mut Mem, h: &Handle, data: &Vec<u8>)
    requires
        h.kind.may_write(),
        h.addr + data@.len() <= old(m)@.len(),
    ensures
        final(m)@ == spec_write(old(m)@, h.addr as int, data@),
{
    m.write(h.addr, data)
}

/// The bytes of field `sel` of the aggregate that starts at `base`.
pub open spec fn spec_field_bytes(m: Seq<u8>, base: usize, layout: StructLayout, sel: int) -> Seq<
    u8,
> {
    m.subrange(
        base + layout.fields@[sel].offset,
        base + layout.fields@[sel].offset + layout.fields@[sel].size,
    )
}

/// Direct access: read the bytes of field `sel` of the aggregate at `base`
/// without going through a projection.
pub fn read_field(m: &Mem, base: usize, layout: &StructLayout, sel: usize) -> (r: Vec<u8>)
    requires
        layout.wf(),
        sel < layout.fields@.len(),
        base + layout.size <= m@.len(),
    ensures
        r@ == spec_field_bytes(m@, base, *layout, sel as int),
{
    proof {
        m.lemma_len_bound();
        assert(layout.fields@[sel as int].offset + layout.fields@[sel as int].size
            <= layout.size);
    }
    let field = field_at(layout, sel);
    m.read(base + field.offset, field.size)
}

/// Each byte a write leaves behind: the written range holds `data`, every
/// other position is unchanged.
pub proof fn lemma_spec_write_index(m: Seq<u8>, addr: int, data: Seq<u8>, k: int)
    requires
        0 <= addr,
        addr + data.len() <= m.len(),
        0 <= k < m.len(),
    ensures
        spec_write(m, addr, data).len() == m.len(),
        addr <= k < addr + data.len() ==> spec_write(m, addr, data)[k] == data[k - addr],
        !(addr <= k < addr + data.len()) ==> spec_write(m, addr, data)[k] == m[k],
{
}

/// LAW: projecting a field and then reading through the projected handle
/// observes exactly the bytes that direct access to the field observes, for
/// every wrapper kind the projection accepts.
pub proof fn lemma_project_then_read_is_direct(
    m: Seq<u8>,
    h: Handle,
    layout: StructLayout,
    sel: int,
    p: Handle,
)
    requires
        layout.wf(),
        0 <= sel < layout.fields@.len(),
        spec_project_field(h, layout, sel) == Ok::<Handle, ProjectError>(p),
        h.addr + layout.size <= m.len(),
        m.len() <= usize::MAX,
    ensures
        p.addr == h.addr + layout.fields@[sel].offset,
        m.subrange(p.addr as int, p.addr + layout.fields@[sel].size) == spec_field_bytes(
            m,
            h.addr,
            layout,
            sel,
        ),
{
}

/// LAW: projecting a field and then writing through the projected handle
/// mutates exactly the bytes that direct access to the field would mutate:
/// afterwards the field holds the written data, every other field of the
/// aggregate is unchanged, and so is every byte outside the written range.
pub proof fn lemma_project_then_write_is_direct(
    m: Seq<u8>,
    h: Handle,
    layout: StructLayout,
    sel: int,
    p: Handle,
    data: Seq<u8>,
)
    requires
        layout.wf(),
        0 <= sel < layout.fields@.len(),
        spec_project_field(h, layout, sel) == Ok::<Handle, ProjectError>(p),
        data.len() == layout.fields@[sel].size,
        h.addr + layout.size <= m.len(),
        m.len() <= usize::MAX,
    ensures
        spec_write(m, p.addr as int, data) == spec_write(
            m,
            h.addr + layout.fields@[sel].offset,
            data,
        ),
        spec_field_bytes(spec_write(m, p.addr as int, data), h.addr, layout, sel) == data,
        forall|o: int|
            0 <= o < layout.fields@.len() && o != sel ==> spec_field_bytes(
                spec_write(m, p.addr as int, data),
                h.addr,
                layout,
                o,
            ) == spec_field_bytes(m, h.addr, layout, o),
        forall|k: int|
            0 <= k < m.len() && !(p.addr <= k < p.addr + data.len()) ==> spec_write(
                m,
                p.addr as int,
                data,
            )[k] == m[k],
{
    let w = spec_write(m, p.addr as int, data);
    let off = layout.fields@[sel].offset as int;
    let size = layout.fields@[sel].size as int;
    assert forall|k: int| 0 <= k < m.len() implies w[k] == (if p.addr <= k < p.addr + size {
        data[k - p.addr]
    } else {
        m[k]
    }) by {
        lemma_spec_write_index(m, p.addr as int, data, k);
    }
    assert(spec_field_bytes(w, h.addr, layout, sel) =~= data);
    assert forall|o: int| 0 <= o < layout.fields@.len() && o != sel implies spec_field_bytes(
        w,
        h.addr,
        layout,
        o,
    ) == spec_field_bytes(m, h.addr, layout, o) by {
        assert(fields_disjoint(layout.fields@[sel], layout.fields@[o]));
        assert(spec_field_bytes(w, h.addr, layout, o) =~= spec_field_bytes(m, h.addr, layout, o));
    }
}

/// LAW: the rewrap rule never widens the access discipline of the wrapper
/// it projects through — the field handle reads, writes and excludes exactly
/// as the aggregate handle did, so projection can never manufacture an
/// access the input kind did not grant.
pub proof fn lemma_rewrap_preserves_discipline(kind: WrapperKind, field_unpin: bool)
    ensures
        kind.rewrap(field_unpin).may_read() == kind.may_read(),
        kind.rewrap(field_unpin).may_write() == kind.may_write(),
        kind.rewrap(field_unpin).is_exclusive() == kind.is_exclusive(),
{
}

/// LAW: a projection the packed gate admits never hands out a handle whose
/// kind requires natural alignment when the aggregate is packed — only raw
/// pointers and by-value (unaligned-read) access remain.
pub proof fn lemma_packed_projection_never_aligned(
    h: Handle,
    layout: StructLayout,
    sel: int,
    p: Handle,
)
    requires
        layout.packed,
        spec_project_field(h, layout, sel) == Ok::<Handle, ProjectError>(p),
    ensures
        !p.kind.requires_alignment(),
{
}

} // verus!
