use projecture::canon::{Canon, DerefProjectable, DerefSource, Helper, MaybeDerefProjectable, Owned, Preprocess, Projectable, SourceExpr};
use projecture::engine::{project, project_field, read_field, read_through, write_through, ProjectError};
use projecture::finalize::{finalize, finalize_handle, Projected};
use projecture::kind::{Handle, Marker, ProjectableMarker, SupportsPacked, WrapperKind};
use projecture::layout::{locate, wrap_add, FieldLayout, StructLayout};
use projecture::mem::Mem;
use projecture::option::{project_option_field, OptionMarker};

fn two_field_layout() -> StructLayout {
    // a 16-byte aggregate with two 8-byte fields
    StructLayout::new(16, vec![FieldLayout::new(0, 8), FieldLayout::new(8, 8)])
}

fn packed_layout() -> StructLayout {
    // struct Foo(u8, usize) with packed representation: 9 bytes, no padding
    let mut l = StructLayout::new(9, vec![FieldLayout::new(0, 1), FieldLayout::new(1, 8)]);
    l.packed = true;
    l
}

#[test]
fn test_packed_destructuring() {
    // Foo(1, 2) under the packed layout: field 0 holds 1, field 1 holds 2.
    let layout = packed_layout();
    assert!(layout.well_formed());
    let mut bytes = vec![1u8];
    bytes.extend_from_slice(&[2, 0, 0, 0, 0, 0, 0, 0]);
    let mem = Mem::from_bytes(bytes);

    // an owned aggregate may be destructured even when packed: fields are
    // taken by value, no aligned reference is formed
    let base = Handle { kind: WrapperKind::Owned, addr: 0 };
    let x = project_field(&base, &layout, 0).unwrap();
    let y = project_field(&base, &layout, 1).unwrap();
    assert_eq!(x.kind, WrapperKind::Owned);
    assert_eq!(y.kind, WrapperKind::Owned);
    let x_bytes = read_through(&mem, &x, 1);
    let y_bytes = read_through(&mem, &y, 8);
    assert_eq!(x_bytes, vec![1u8]);
    assert_eq!(y_bytes, vec![2u8, 0, 0, 0, 0, 0, 0, 0]);
    // the values are (1, 2), as direct access would see them
    assert_eq!((x_bytes[0] as u64, u64::from_le_bytes(y_bytes.try_into().unwrap())), (1, 2));
}

#[test]
fn test_tmp() {
    // project field x out of Option<Foo> where Foo { x: Box<usize>, y: usize, p }
    let layout = StructLayout::new(
        24,
        vec![FieldLayout::new(0, 8), FieldLayout::new_unpin(8, 8), FieldLayout::new(16, 8)],
    );
    let some_foo: Option<Handle> = Some(Handle { kind: WrapperKind::Owned, addr: 0 });
    let x = project_option_field(&some_foo, &layout, 0).unwrap();
    assert_eq!(x, Some(Handle { kind: WrapperKind::Owned, addr: 0 }));
    let y = project_option_field(&some_foo, &layout, 1).unwrap();
    assert_eq!(y, Some(Handle { kind: WrapperKind::Owned, addr: 8 }));

    // an absent aggregate short-circuits: no address is ever followed
    let none_foo: Option<Handle> = None;
    assert_eq!(project_option_field(&none_foo, &layout, 0).unwrap(), None);
}

#[test]
fn test_nested() {
    // Foo { a: Bar, b: Box<Cell<Bar>>, c: Pin<Box<Bar>>, d: PhantomPinned }
    // Bar { e: usize, d: PhantomPinned }
    let bar = StructLayout::new(16, vec![FieldLayout::new_unpin(0, 8), FieldLayout::new(8, 8)]);
    let foo = StructLayout::new(
        40,
        vec![
            FieldLayout::new(0, 16),
            FieldLayout::new_unpin(16, 8),
            FieldLayout::new(24, 8),
            FieldLayout::new(32, 8),
        ],
    );

    // project!(let Foo { a: Bar { e: e1 }, .. } = &mut *arg)
    let arg = Handle { kind: WrapperKind::UniqueRef, addr: 100 };
    let a = project_field(&arg, &foo, 0).unwrap();
    assert_eq!(a.kind, WrapperKind::UniqueRef);
    let e1 = project_field(&a, &bar, 0).unwrap();
    assert_eq!(e1, Handle { kind: WrapperKind::UniqueRef, addr: 100 });

    // b: Box<Cell<Bar>>, pattern *Bar { e: e2, .. }: deref the box, then the
    // unique borrow of the cell's contents projects as a unique borrow
    let b = project_field(&arg, &foo, 1).unwrap();
    let b_deref = DerefSource { kind: b.kind, addr: b.addr, target: 500, target_pinned: false };
    let (bar_addr, marker) = b_deref.deref_raw();
    assert_eq!(bar_addr, 500);
    let bar_handle = marker.from_raw(bar_addr);
    let e2 = project_field(&bar_handle, &bar, 0).unwrap();
    assert_eq!(e2, Handle { kind: WrapperKind::UniqueRef, addr: 500 });

    // c: Pin<Box<Bar>>, pattern *Bar { d, .. }: deref stays pinned, and the
    // non-Unpin field keeps the pin
    let c = project_field(&arg, &foo, 2).unwrap();
    let c_deref = DerefSource { kind: c.kind, addr: c.addr, target: 700, target_pinned: true };
    let (bar_addr2, marker2) = c_deref.deref_raw();
    let pinned_bar = marker2.from_raw(bar_addr2);
    assert_eq!(pinned_bar.kind, WrapperKind::PinnedUnique);
    let d = project_field(&pinned_bar, &bar, 1).unwrap();
    assert_eq!(d, Handle { kind: WrapperKind::PinnedUnique, addr: 708 });
    // while the Unpin field collapses to a plain unique borrow
    let e3 = project_field(&pinned_bar, &bar, 0).unwrap();
    assert_eq!(e3, Handle { kind: WrapperKind::UniqueRef, addr: 700 });
}

#[test]
fn projected_read_equals_direct_read() {
    let layout = two_field_layout();
    let mut bytes = vec![0u8; 16];
    for (i, b) in bytes.iter_mut().enumerate() {
        *b = i as u8 + 10;
    }
    let mem = Mem::from_bytes(bytes);
    for kind in [
        WrapperKind::Owned,
        WrapperKind::SharedRef,
        WrapperKind::UniqueRef,
        WrapperKind::Cell,
        WrapperKind::AtomicCell,
        WrapperKind::GuardShared,
        WrapperKind::GuardUnique,
    ] {
        let base = Handle { kind, addr: 0 };
        for sel in 0..2usize {
            let p = project_field(&base, &layout, sel).unwrap();
            let through = read_through(&mem, &p, 8);
            let direct = read_field(&mem, 0, &layout, sel);
            assert_eq!(through, direct);
        }
    }
}

#[test]
fn projected_write_equals_direct_write() {
    let layout = two_field_layout();
    let mut mem = Mem::new(16);
    let base = Handle { kind: WrapperKind::UniqueRef, addr: 0 };
    let p = project_field(&base, &layout, 1).unwrap();
    let data = vec![9u8, 8, 7, 6, 5, 4, 3, 2];
    write_through(&mut mem, &p, &data);
    // the field holds the data, the sibling field is untouched
    assert_eq!(read_field(&mem, 0, &layout, 1), data);
    assert_eq!(read_field(&mem, 0, &layout, 0), vec![0u8; 8]);
}

#[test]
fn missing_field_is_rejected() {
    let layout = two_field_layout();
    let base = Handle { kind: WrapperKind::SharedRef, addr: 0 };
    assert_eq!(project_field(&base, &layout, 2), Err(ProjectError::MissingField));
    let opt: Option<Handle> = None;
    assert_eq!(project_option_field(&opt, &layout, 5), Err(ProjectError::MissingField));
}

#[test]
fn packed_rejects_aligned_kinds() {
    let layout = packed_layout();
    for kind in [
        WrapperKind::SharedRef,
        WrapperKind::UniqueRef,
        WrapperKind::Cell,
        WrapperKind::AtomicCell,
        WrapperKind::Uninit,
        WrapperKind::GuardShared,
        WrapperKind::GuardUnique,
    ] {
        let base = Handle { kind, addr: 0 };
        assert_eq!(project_field(&base, &layout, 0), Err(ProjectError::PackedNeedsRaw));
    }
    // raw pointers and owned access go through
    for kind in [
        WrapperKind::Owned,
        WrapperKind::RawConst,
        WrapperKind::RawMut,
        WrapperKind::NonNullRaw,
    ] {
        let base = Handle { kind, addr: 0 };
        let p = project_field(&base, &layout, 1).unwrap();
        assert_eq!(p.addr, 1);
        assert_eq!(p.kind, kind);
    }
}

#[test]
fn pin_gate_rejects_undelegated_drop() {
    let mut layout = two_field_layout();
    layout.has_manual_drop = true;
    let base = Handle { kind: WrapperKind::PinnedUnique, addr: 0 };
    assert_eq!(project_field(&base, &layout, 0), Err(ProjectError::PinnedDropNotDelegated));
    // opting into the delegation protocol unblocks the projection
    layout.pin_delegates = true;
    assert!(project_field(&base, &layout, 0).is_ok());
    // and a non-pinned kind was never gated
    let shared = Handle { kind: WrapperKind::SharedRef, addr: 0 };
    layout.pin_delegates = false;
    assert!(project_field(&shared, &layout, 0).is_ok());
}

#[test]
fn rewrap_table() {
    assert_eq!(WrapperKind::PinnedUnique.rewrap_kind(true), WrapperKind::UniqueRef);
    assert_eq!(WrapperKind::PinnedUnique.rewrap_kind(false), WrapperKind::PinnedUnique);
    assert_eq!(WrapperKind::PinnedShared.rewrap_kind(true), WrapperKind::SharedRef);
    assert_eq!(WrapperKind::PinnedShared.rewrap_kind(false), WrapperKind::PinnedShared);
    for kind in [
        WrapperKind::Owned,
        WrapperKind::SharedRef,
        WrapperKind::UniqueRef,
        WrapperKind::Cell,
        WrapperKind::AtomicCell,
        WrapperKind::Uninit,
        WrapperKind::RawConst,
        WrapperKind::RawMut,
        WrapperKind::NonNullRaw,
        WrapperKind::GuardShared,
        WrapperKind::GuardUnique,
    ] {
        assert_eq!(kind.rewrap_kind(true), kind);
        assert_eq!(kind.rewrap_kind(false), kind);
    }
}

#[test]
fn zero_sized_field_is_noop_address() {
    let layout = StructLayout::new(0, vec![FieldLayout::new(0, 0)]);
    assert!(layout.well_formed());
    let base = Handle { kind: WrapperKind::SharedRef, addr: 1234 };
    let p = project_field(&base, &layout, 0).unwrap();
    assert_eq!(p.addr, 1234);
}

#[test]
fn locate_wraps_out_of_bounds() {
    assert_eq!(wrap_add(usize::MAX, 1), 0);
    assert_eq!(wrap_add(usize::MAX, 9), 8);
    let layout = StructLayout::new(16, vec![FieldLayout::new(8, 8)]);
    assert_eq!(locate(usize::MAX - 3, &layout, 0), 4);
}

#[test]
fn well_formed_rejects_overlap_and_oob() {
    let overlap = StructLayout::new(16, vec![FieldLayout::new(0, 8), FieldLayout::new(4, 8)]);
    assert!(!overlap.well_formed());
    let oob = StructLayout::new(8, vec![FieldLayout::new(4, 8)]);
    assert!(!oob.well_formed());
    assert!(two_field_layout().well_formed());
}

#[test]
fn canonicalize_maps_each_shape_to_its_kind() {
    let cases = [
        (SourceExpr::RefExpr { addr: 7 }, WrapperKind::SharedRef),
        (SourceExpr::RefMutExpr { addr: 7 }, WrapperKind::UniqueRef),
        (SourceExpr::PinRefExpr { addr: 7 }, WrapperKind::PinnedShared),
        (SourceExpr::PinRefMutExpr { addr: 7 }, WrapperKind::PinnedUnique),
        (SourceExpr::CellRefExpr { addr: 7 }, WrapperKind::Cell),
        (SourceExpr::AtomicRefExpr { addr: 7 }, WrapperKind::AtomicCell),
        (SourceExpr::UninitRefExpr { addr: 7 }, WrapperKind::Uninit),
        (SourceExpr::ConstPtrExpr { addr: 7 }, WrapperKind::RawConst),
        (SourceExpr::MutPtrExpr { addr: 7 }, WrapperKind::RawMut),
        (SourceExpr::NonNullExpr { addr: 7 }, WrapperKind::NonNullRaw),
    ];
    for (expr, kind) in cases {
        match expr.preprocess() {
            Canon::CanonRef(h) => {
                assert_eq!(h.kind, kind);
                assert_eq!(h.addr, 7);
            },
            Canon::CanonOwned(_) => panic!("borrowed shape canonicalized as owning"),
        }
    }
    match (SourceExpr::ValueExpr { addr: 7 }).preprocess() {
        Canon::CanonOwned(o) => assert_eq!(o.addr, 7),
        Canon::CanonRef(_) => panic!("owning shape canonicalized as borrowed"),
    }
    // the optional skin canonicalizes elementwise
    let opt = Some(SourceExpr::RefExpr { addr: 3 });
    assert!(matches!(opt.preprocess(), Some(Canon::CanonRef(_))));
    let absent: Option<SourceExpr> = None;
    assert!(absent.preprocess().is_none());
}

#[test]
fn extraction_yields_address_and_marker() {
    let (addr, marker) = Owned { addr: 42 }.get_raw();
    assert_eq!(addr, 42);
    assert_eq!(marker.kind, WrapperKind::Owned);
    marker.check();

    let (addr, marker) = Helper { kind: WrapperKind::Cell, addr: 9 }.get_raw();
    assert_eq!((addr, marker.kind), (9, WrapperKind::Cell));

    let canon = Canon::CanonRef(Helper { kind: WrapperKind::SharedRef, addr: 5 });
    let (addr, marker) = canon.get_raw();
    assert_eq!((addr, marker.kind), (5, WrapperKind::SharedRef));

    // the adapter exposes plain extraction under the deref interface
    let wrapped = MaybeDerefProjectable::new(Owned { addr: 11 });
    let (addr, marker) = wrapped.deref_raw();
    assert_eq!((addr, marker.kind), (11, WrapperKind::Owned));
}

#[test]
fn option_marker_short_circuits() {
    let absent: OptionMarker<Marker> = OptionMarker { inner: None };
    absent.check();
    assert!(absent.from_raw(0).is_none());
    assert!(absent.select());

    let present = OptionMarker { inner: Some(Marker::new(WrapperKind::UniqueRef)) };
    let out = present.from_raw(64).unwrap();
    assert_eq!(out, Handle { kind: WrapperKind::UniqueRef, addr: 64 });
    assert!(!present.select());

    // an optional wrapper extracts to a sentinel with an empty marker
    let opt: Option<Owned> = None;
    let (addr, marker) = opt.get_raw();
    assert_eq!(addr, 0);
    assert!(marker.inner.is_none());
}

#[test]
fn finalize_flattens_and_unpins() {
    let pinned = Handle { kind: WrapperKind::PinnedUnique, addr: 3 };
    // pin-of-Unpin collapses
    assert_eq!(finalize_handle(&pinned, true, false).kind, WrapperKind::UniqueRef);
    assert_eq!(finalize_handle(&pinned, false, false).kind, WrapperKind::PinnedUnique);
    // a non-atomic window becomes a plain shared borrow
    let atomic = Handle { kind: WrapperKind::AtomicCell, addr: 3 };
    assert_eq!(finalize_handle(&atomic, false, true).kind, WrapperKind::SharedRef);

    // Option<Option<T>> flattens to Option<T>
    let h = Handle { kind: WrapperKind::SharedRef, addr: 1 };
    let nested = Projected::Optional(Some(Box::new(Projected::Optional(Some(Box::new(
        Projected::Direct(h),
    ))))));
    let once = finalize(&nested, false, false);
    match &once {
        Projected::Optional(Some(q)) => match q.as_ref() {
            Projected::Direct(hh) => assert_eq!(*hh, h),
            _ => panic!("inner skin not flattened"),
        },
        _ => panic!("outer skin lost"),
    }
    // finalizing again changes nothing
    let twice = finalize(&once, false, false);
    match (&once, &twice) {
        (Projected::Optional(Some(a)), Projected::Optional(Some(b))) => {
            match (a.as_ref(), b.as_ref()) {
                (Projected::Direct(x), Projected::Direct(y)) => assert_eq!(x, y),
                _ => panic!("idempotence broken"),
            }
        },
        _ => panic!("idempotence broken"),
    }
    // an absent optional stays absent
    let absent = Projected::Optional(Some(Box::new(Projected::Optional(None))));
    assert!(matches!(finalize(&absent, false, false), Projected::Optional(None)));
}

#[test]
fn full_pipeline_runs_all_stages() {
    let layout = StructLayout::new(
        16,
        vec![FieldLayout::new_unpin(0, 8), FieldLayout::new(8, 8)],
    );
    // a pinned unique borrow onto an Unpin field: the pin collapses
    let e = SourceExpr::PinRefMutExpr { addr: 64 };
    assert_eq!(project(&e, &layout, 0), Ok(Handle { kind: WrapperKind::UniqueRef, addr: 64 }));
    // onto a non-Unpin field: the pin stays
    assert_eq!(project(&e, &layout, 1), Ok(Handle { kind: WrapperKind::PinnedUnique, addr: 72 }));
    // a shared borrow projects as a shared borrow of the field
    let s = SourceExpr::RefExpr { addr: 64 };
    assert_eq!(project(&s, &layout, 1), Ok(Handle { kind: WrapperKind::SharedRef, addr: 72 }));
    // a missing field is refused at the locator stage
    assert_eq!(project(&s, &layout, 4), Err(ProjectError::MissingField));
}

#[test]
fn marker_supports_packed_query() {
    assert!(Marker::new(WrapperKind::Owned).select());
    assert!(Marker::new(WrapperKind::RawMut).select());
    assert!(!Marker::new(WrapperKind::SharedRef).select());
    Marker::new(WrapperKind::SharedRef).check();
}
