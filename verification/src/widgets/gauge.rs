//! Gauges.

use vstd::prelude::*;
use crate::element::{adopts, Element};
use crate::error::Error;

verus! {

/// A bar that shows how far something has come.
pub struct Gauge {
    raw: usize,
}

impl Gauge {
    #[verifier::type_invariant]
    spec fn not_null(&self) -> bool {
        self.raw != 0
    }

    /// Creates a gauge below `parent` with the given flags.
    pub fn new(parent: &impl Element, flags: u32, create: impl FnOnce(usize, u32) -> usize) -> (r:
        Result<Self, Error>)
        requires
            call_requires(create, (parent.address(), flags)),
        ensures
            exists|raw: usize|
                #[trigger] call_ensures(create, (parent.address(), flags), raw) && adopts(r, raw),
    {
        let raw = create(parent.raw_element(), flags);
        if raw == 0 {
            return Err(Error::CreateFailed);
        }
        Ok(Gauge { raw })
    }
}

impl Element for Gauge {
    closed spec fn address(&self) -> usize {
        self.raw
    }

    fn raw_element(&self) -> (raw: usize)
        ensures
            raw != 0,
    {
        proof {
            use_type_invariant(self);
        }
        self.raw
    }
}

} // verus!
