//! Items used by generated code that are not part of the crate's stable interface.

use core::marker::PhantomData;
use std::rc::Rc;
use vstd::prelude::*;

verus! {

/// Marker that makes the real register accessors neither `Send` nor `Sync`.
#[derive(Clone, Copy)]
pub struct RealPhantom(PhantomData<Rc<()>>);

impl RealPhantom {
    /// The marker value; there is no other.
    pub closed spec fn marker() -> RealPhantom {
        RealPhantom(PhantomData)
    }

    /// Every marker is the marker value.
    pub proof fn lemma_unique(p: RealPhantom)
        ensures
            p == Self::marker(),
    {
    }

    pub fn new() -> (r: Self)
        ensures
            r == Self::marker(),
    {
        RealPhantom(PhantomData)
    }
}

impl Default for RealPhantom {
    fn default() -> (r: Self)
        ensures
            r == Self::marker(),
    {
        RealPhantom::new()
    }
}

} // verus!
