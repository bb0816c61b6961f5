//! Projection in generic contexts: an address paired with the marker that
//! knows how to turn it back into a concrete handle.
//!
//! A generic pointer postpones rewrapping: it carries the raw address and
//! the capability marker side by side, so code that is generic over the
//! projection kind can pass the pair along and let the final consumer turn
//! it into the concrete handle.

use vstd::prelude::*;

use crate::canon::Projectable;
use crate::kind::ProjectableMarker;

verus! {

/// An address paired with the capability marker that rewraps it.
#[derive(Clone, Copy, Debug)]
pub struct GenericPointer<M> {
    /// The raw address of the projected place.
    pub ptr: usize,
    /// The marker that turns the address back into a concrete handle.
    pub marker: M,
}

impl<M> GenericPointer<M> {
    /// Pair an address with its marker.
    pub fn new(ptr: usize, marker: M) -> (r: GenericPointer<M>)
        ensures
            r.ptr == ptr,
            r.marker == marker,
    {
        GenericPointer { ptr, marker }
    }
}

impl<M: ProjectableMarker> GenericPointer<M> {
    /// Leave the generic context: rewrap the carried address with the
    /// carried marker into the concrete handle.
    pub fn into_concrete(self) -> (r: M::Output)
        ensures
            r == self.marker.spec_from_raw(self.ptr),
    {
        self.marker.from_raw(self.ptr)
    }
}

/// The capability marker of a generic projection: rewrapping yields another
/// generic pointer carrying the inner marker, so nested projections stay in
/// the generic context until the consumer asks for the concrete handle.
#[derive(Clone, Copy, Debug)]
pub struct GenericMarker<M> {
    /// The marker of the concrete projection being carried.
    pub inner: M,
}

impl<M: Copy> ProjectableMarker for GenericMarker<M> {
    type Output = GenericPointer<M>;

    open spec fn spec_from_raw(&self, raw: usize) -> GenericPointer<M> {
        GenericPointer { ptr: raw, marker: self.inner }
    }

    fn from_raw(&self, raw: usize) -> (r: GenericPointer<M>) {
        GenericPointer { ptr: raw, marker: self.inner }
    }
}

impl<M: Copy> Projectable for GenericPointer<M> {
    type Marker = GenericMarker<M>;

    open spec fn spec_get_raw(&self) -> (usize, GenericMarker<M>) {
        (self.ptr, GenericMarker { inner: self.marker })
    }

    fn get_raw(&self) -> (r: (usize, GenericMarker<M>)) {
        (self.ptr, GenericMarker { inner: self.marker })
    }
}

} // verus!
