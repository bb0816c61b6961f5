//! The optional skin: projecting through a possibly-absent aggregate.
//!
//! An optional wrapper composes around any other wrapper: the marker of the
//! composition wraps the inner marker, the output of the composition wraps
//! the inner output.  An absent aggregate extracts to a null sentinel address
//! with an empty marker, and rewrapping short-circuits to an absent result —
//! no stage ever touches storage, so the sentinel is never dereferenced.

use vstd::prelude::*;

use crate::canon::{DerefProjectable, Preprocess, Projectable};
use crate::engine::{spec_project_field, ProjectError};
use crate::kind::{Handle, ProjectableMarker, SupportsPacked};
use crate::layout::StructLayout;

verus! {

/// The capability marker of an optional projection: the inner marker when
/// the aggregate is present, nothing when it is absent.
#[derive(Clone, Copy, Debug)]
pub struct OptionMarker<M> {
    /// The inner marker, present exactly when the aggregate was.
    pub inner: Option<M>,
}

impl<M> OptionMarker<M> {
    /// Dispatch hook: marker types expose an inherent `check` so a front end
    /// can confirm that kind resolution was unambiguous.
    pub fn check(&self) {
    }
}

impl<M: ProjectableMarker> ProjectableMarker for OptionMarker<M> {
    type Output = Option<M::Output>;

    open spec fn spec_from_raw(&self, raw: usize) -> Option<M::Output> {
        match self.inner {
            Some(m) => Some(m.spec_from_raw(raw)),
            None => None,
        }
    }

    fn from_raw(&self, raw: usize) -> (r: Option<M::Output>) {
        match &self.inner {
            Some(m) => Some(m.from_raw(raw)),
            None => None,
        }
    }
}

impl<M: SupportsPacked> SupportsPacked for OptionMarker<M> {
    /// An optional projection tolerates packed layout exactly when its inner
    /// projection does; with no inner projection nothing is ever formed that
    /// could demand alignment.
    open spec fn spec_supports_packed(&self) -> bool {
        match self.inner {
            Some(m) => m.spec_supports_packed(),
            None => true,
        }
    }

    fn select(&self) -> (r: bool) {
        match &self.inner {
            Some(m) => m.select(),
            None => true,
        }
    }
}

impl<T: Preprocess> Preprocess for Option<T> {
    type Output = Option<T::Output>;

    open spec fn spec_preprocess(&self) -> Option<T::Output> {
        match *self {
            Some(x) => Some(x.spec_preprocess()),
            None => None,
        }
    }

    fn preprocess(&self) -> (r: Option<T::Output>) {
        match self {
            Some(x) => Some(x.preprocess()),
            None => None,
        }
    }
}

impl<T: Projectable> Projectable for Option<T> {
    type Marker = OptionMarker<T::Marker>;

    open spec fn spec_get_raw(&self) -> (usize, OptionMarker<T::Marker>) {
        match *self {
            Some(x) => (x.spec_get_raw().0, OptionMarker { inner: Some(x.spec_get_raw().1) }),
            None => (0, OptionMarker { inner: None }),
        }
    }

    fn get_raw(&self) -> (r: (usize, OptionMarker<T::Marker>)) {
        match self {
            Some(x) => {
                let (addr, marker) = x.get_raw();
                (addr, OptionMarker { inner: Some(marker) })
            },
            None => (0, OptionMarker { inner: None }),
        }
    }
}

impl<T: DerefProjectable> DerefProjectable for Option<T> {
    type Marker = OptionMarker<T::Marker>;

    open spec fn spec_deref_raw(&self) -> (usize, OptionMarker<T::Marker>) {
        match *self {
            Some(x) => (x.spec_deref_raw().0, OptionMarker { inner: Some(x.spec_deref_raw().1) }),
            None => (0, OptionMarker { inner: None }),
        }
    }

    fn deref_raw(&self) -> (r: (usize, OptionMarker<T::Marker>)) {
        match self {
            Some(x) => {
                let (addr, marker) = x.deref_raw();
                (addr, OptionMarker { inner: Some(marker) })
            },
            None => (0, OptionMarker { inner: None }),
        }
    }
}

/// What projecting a field through a possibly-absent aggregate handle
/// returns: absent short-circuits to an absent result once the field is
/// known to exist; present projects the inner handle.
pub open spec fn spec_project_option_field(
    opt: Option<Handle>,
    layout: StructLayout,
    sel: int,
) -> Result<Option<Handle>, ProjectError> {
    match opt {
        None => if 0 <= sel < layout.fields@.len() {
            Ok(None)
        } else {
            Err(ProjectError::MissingField)
        },
        Some(h) => match spec_project_field(h, layout, sel) {
            Ok(p) => Ok(Some(p)),
            Err(e) => Err(e),
        },
    }
}

/// Project a field through an optional aggregate handle.  An absent
/// aggregate yields an absent result; no memory is consulted in either case,
/// so the absent path never dereferences a sentinel.
pub fn project_option_field(
    opt: &Option<Handle>,
    layout: &StructLayout,
    sel: usize,
) -> (r: Result<Option<Handle>, ProjectError>)
    ensures
        r == spec_project_option_field(*opt, *layout, sel as int),
{
    match opt {
        None => {
            if sel < layout.field_count() {
                Ok(None)
            } else {
                Err(ProjectError::MissingField)
            }
        },
        Some(h) => {
            match crate::engine::project_field(h, layout, sel) {
                Ok(p) => Ok(Some(p)),
                Err(e) => Err(e),
            }
        },
    }
}

/// LAW: optional composition short-circuits on absence — rewrapping with an
/// empty optional marker yields an absent handle whatever the raw address,
/// and with a present marker yields exactly the inner rewrap.
pub proof fn lemma_option_rewrap_short_circuits<M: ProjectableMarker>(m: OptionMarker<M>, raw: usize)
    ensures
        m.inner is None ==> m.spec_from_raw(raw) is None,
        forall|im: M| m.inner == Some(im) ==> m.spec_from_raw(raw) == Some(im.spec_from_raw(raw)),
{
}

} // verus!
