//! A verified model of a field-projection engine.
//!
//! Given an aggregate value reachable only through some wrapper — an owned
//! value, a shared or unique borrow, a pinned borrow, a cell, an atomic cell,
//! a raw pointer, a borrow guard, or an optional skin around any of these —
//! the engine computes, for a positional field selector, a handle of the same
//! wrapper kind that addresses just that field.
//!
//! The engine works on a small explicit data model: addresses are plain
//! machine words, aggregates carry an explicit layout (field offsets, sizes
//! and the static facts the rewrap rules consult), and each wrapper kind is a
//! variant of a closed catalog.  Dispatch over the catalog is a total
//! function, so the "no two kinds resolve for the same input" requirement
//! holds by construction, and the checks that a macro front end would perform
//! at expansion time (field exists, packed layout forbids aligned borrows,
//! pinned projection needs drop delegation) are deterministic rejections.
//!
//! Projection runs in stages, each a small verified function:
//! canonicalize an input expression, extract an address and a capability
//! marker, locate the field by offset arithmetic, rewrap the field address
//! with the marker, and finalize the result (collapsing optional and pin
//! skins).  Memory is only ever touched by the explicit read/write
//! operations, never by the address computations.

pub mod kind;
pub mod layout;
pub mod mem;
pub mod engine;
pub mod canon;
pub mod option;
pub mod finalize;
pub mod pin;
pub mod refcell;
pub mod leftover;
pub mod generic;
pub mod atomic;
