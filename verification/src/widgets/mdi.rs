//! Windows inside a window.

use vstd::prelude::*;
use vstd::string::StringSliceAdditionalSpecFns;
use crate::element::{adopts, Element};
use crate::error::Error;
use crate::geometry::Rectangle;
use crate::text::{encode, has_nul, nul_terminated};

verus! {

/// The area in which child windows are moved about.
pub struct MDIClient {
    raw: usize,
}

impl MDIClient {
    #[verifier::type_invariant]
    spec fn not_null(&self) -> bool {
        self.raw != 0
    }

    /// Creates an MDI client below `parent` with the given flags.
    pub fn new(parent: &impl Element, flags: u32, create: impl FnOnce(usize, u32) -> usize) -> (r:
        Result<Self, Error>)
        requires
            call_requires(create, (parent.address(), flags)),
        ensures
            exists|raw: usize|
                #[trigger] call_ensures(create, (parent.address(), flags), raw) && adopts(r, raw),
    {
        let raw = create(parent.raw_element(), flags);
        if raw == 0 {
            return Err(Error::CreateFailed);
        }
        Ok(MDIClient { raw })
    }
}

impl Element for MDIClient {
    closed spec fn address(&self) -> usize {
        self.raw
    }

    fn raw_element(&self) -> (raw: usize)
        ensures
            raw != 0,
    {
        proof {
            use_type_invariant(self);
        }
        self.raw
    }
}

/// A titled child window inside an MDI client.
pub struct MDIChild {
    raw: usize,
}

impl MDIChild {
    #[verifier::type_invariant]
    spec fn not_null(&self) -> bool {
        self.raw != 0
    }

    /// Creates a child window below `parent`, an MDI client, with the given
    /// flags, bounds and title. The title is handed to `create`
    /// null-terminated, with -1 for its length. A title that holds a zero
    /// byte is refused, and `create` is not called.
    pub fn new(
        parent: &impl Element,
        flags: u32,
        bounds: Rectangle,
        title: &str,
        create: impl FnOnce(usize, u32, Rectangle, &[u8], isize) -> usize,
    ) -> (r: Result<Self, Error>)
        requires
            !has_nul(title.spec_bytes()) ==> forall|text: &[u8]|
                text@ == nul_terminated(title.spec_bytes()) ==> call_requires(
                    create,
                    (parent.address(), flags, bounds, text, -1isize),
                ),
        ensures
            has_nul(title.spec_bytes()) ==> r == Err::<Self, Error>(Error::InvalidString),
            !has_nul(title.spec_bytes()) ==> exists|text: &[u8], raw: usize|
                {
                    &&& text@ == nul_terminated(title.spec_bytes())
                    &&& #[trigger] call_ensures(
                        create,
                        (parent.address(), flags, bounds, text, -1isize),
                        raw,
                    )
                    &&& adopts(r, raw)
                },
    {
        let title = match encode(title) {
            Ok(title) => title,
            Err(e) => {
                return Err(e);
            },
        };
        let raw = create(parent.raw_element(), flags, bounds, title.as_slice(), -1);
        if raw == 0 {
            return Err(Error::CreateFailed);
        }
        Ok(MDIChild { raw })
    }
}

impl Element for MDIChild {
    closed spec fn address(&self) -> usize {
        self.raw
    }

    fn raw_element(&self) -> (raw: usize)
        ensures
            raw != 0,
    {
        proof {
            use_type_invariant(self);
        }
        self.raw
    }
}

} // verus!
