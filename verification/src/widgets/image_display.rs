//! Image displays.

use vstd::prelude::*;
use crate::element::{adopts, Element};
use crate::error::Error;

verus! {

/// A view of an image that can be panned and zoomed.
pub struct ImageDisplay {
    raw: usize,
}

impl ImageDisplay {
    #[verifier::type_invariant]
    spec fn not_null(&self) -> bool {
        self.raw != 0
    }

    /// Creates an image display below `parent` that shows the `width` by
    /// `height` pixels in `bits`. `create` is handed the parent, the flags,
    /// the pixels, their width and height, and the stride of one row in
    /// bytes, four for each pixel.
    pub fn new(
        parent: &impl Element,
        flags: u32,
        bits: &[u32],
        width: usize,
        height: usize,
        create: impl FnOnce(usize, u32, &[u32], usize, usize, usize) -> usize,
    ) -> (r: Result<Self, Error>)
        requires
            width * 4 <= usize::MAX,
            call_requires(
                create,
                (parent.address(), flags, bits, width, height, (width * 4) as usize),
            ),
        ensures
            exists|raw: usize|
                {
                    &&& #[trigger] call_ensures(
                        create,
                        (parent.address(), flags, bits, width, height, (width * 4) as usize),
                        raw,
                    )
                    &&& adopts(r, raw)
                },
    {
        let raw = create(parent.raw_element(), flags, bits, width, height, width * 4);
        if raw == 0 {
            return Err(Error::CreateFailed);
        }
        Ok(ImageDisplay { raw })
    }

    /// Replaces the image shown. `set` is handed the display, the pixels,
    /// their width and height, and the stride of one row in bytes, four for
    /// each pixel.
    pub fn set_content(
        &mut self,
        bits: &[u32],
        width: usize,
        height: usize,
        set: impl FnOnce(usize, &[u32], usize, usize, usize),
    )
        requires
            width * 4 <= usize::MAX,
            call_requires(set, (old(self).address(), bits, width, height, (width * 4) as usize)),
        ensures
            final(self).address() == old(self).address(),
            call_ensures(
                set,
                (old(self).address(), bits, width, height, (width * 4) as usize),
                (),
            ),
    {
        set(self.raw, bits, width, height, width * 4)
    }
}

impl Element for ImageDisplay {
    closed spec fn address(&self) -> usize {
        self.raw
    }

    fn raw_element(&self) -> (raw: usize)
        ensures
            raw != 0,
    {
        proof {
            use_type_invariant(self);
        }
        self.raw
    }
}

} // verus!
