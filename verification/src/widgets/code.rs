//! Code views.

use vstd::prelude::*;
use vstd::string::StringSliceAdditionalSpecFns;
use crate::element::{adopts, Element};
use crate::error::Error;

verus! {

/// A view of source text, line by line.
pub struct Code {
    raw: usize,
}

impl Code {
    #[verifier::type_invariant]
    spec fn not_null(&self) -> bool {
        self.raw != 0
    }

    /// Creates a code view below `parent` with the given flags.
    pub fn new(parent: &impl Element, flags: u32, create: impl FnOnce(usize, u32) -> usize) -> (r:
        Result<Self, Error>)
        requires
            call_requires(create, (parent.address(), flags)),
        ensures
            exists|raw: usize|
                #[trigger] call_ensures(create, (parent.address(), flags), raw) && adopts(r, raw),
    {
        let raw = create(parent.raw_element(), flags);
        if raw == 0 {
            return Err(Error::CreateFailed);
        }
        Ok(Code { raw })
    }

    /// Inserts `content` into the view, in place of what it shows where
    /// `replace` is set. `insert` is handed the view, the bytes of `content`
    /// as they are, their number, and `replace`.
    pub fn insert_content(
        &mut self,
        content: &str,
        replace: bool,
        insert: impl FnOnce(usize, &[u8], isize, bool),
    )
        requires
            forall|bytes: &[u8]|
                bytes@ == content.spec_bytes() ==> call_requires(
                    insert,
                    (old(self).address(), bytes, bytes@.len() as isize, replace),
                ),
        ensures
            final(self).address() == old(self).address(),
            exists|bytes: &[u8]|
                {
                    &&& bytes@ == content.spec_bytes()
                    &&& #[trigger] call_ensures(
                        insert,
                        (old(self).address(), bytes, bytes@.len() as isize, replace),
                        (),
                    )
                },
    {
        let bytes = content.as_bytes();
        insert(
            self.raw,
            bytes,
            #[verifier::truncate]
            (bytes.len() as isize),
            replace,
        )
    }

    /// Scrolls to `line` and marks it: `focus` is handed the view and `line`.
    pub fn focus_line(&mut self, line: i32, focus: impl FnOnce(usize, i32))
        requires
            call_requires(focus, (old(self).address(), line)),
        ensures
            final(self).address() == old(self).address(),
            call_ensures(focus, (old(self).address(), line), ()),
    {
        focus(self.raw, line)
    }
}

impl Element for Code {
    closed spec fn address(&self) -> usize {
        self.raw
    }

    fn raw_element(&self) -> (raw: usize)
        ensures
            raw != 0,
    {
        proof {
            use_type_invariant(self);
        }
        self.raw
    }
}

} // verus!
