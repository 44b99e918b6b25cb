//! Sliders.

use vstd::prelude::*;
use crate::element::{adopts, Element};
use crate::error::Error;

verus! {

/// A handle that is dragged along a track.
pub struct Slider {
    raw: usize,
}

impl Slider {
    #[verifier::type_invariant]
    spec fn not_null(&self) -> bool {
        self.raw != 0
    }

    /// Creates a slider below `parent` with the given flags.
    pub fn new(parent: &impl Element, flags: u32, create: impl FnOnce(usize, u32) -> usize) -> (r:
        Result<Self, Error>)
        requires
            call_requires(create, (parent.address(), flags)),
        ensures
            exists|raw: usize|
                #[trigger] call_ensures(create, (parent.address(), flags), raw) && adopts(r, raw),
    {
        let raw = create(parent.raw_element(), flags);
        if raw == 0 {
            return Err(Error::CreateFailed);
        }
        Ok(Slider { raw })
    }

    /// Sets the number of steps that the slider snaps to: `store` is handed
    /// the slider and `steps`.
    pub fn set_steps(&mut self, steps: i32, store: impl FnOnce(usize, i32))
        requires
            call_requires(store, (old(self).address(), steps)),
        ensures
            final(self).address() == old(self).address(),
            call_ensures(store, (old(self).address(), steps), ()),
    {
        store(self.raw, steps)
    }
}

impl Element for Slider {
    closed spec fn address(&self) -> usize {
        self.raw
    }

    fn raw_element(&self) -> (raw: usize)
        ensures
            raw != 0,
    {
        proof {
            use_type_invariant(self);
        }
        self.raw
    }
}

} // verus!
