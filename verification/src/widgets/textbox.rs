//! Text boxes.

use vstd::prelude::*;
use crate::element::{adopts, Element};
use crate::error::Error;
use crate::text::{lossy_text, utf8_lossy};

verus! {

/// A box for one line of text that the user edits.
pub struct TextBox {
    raw: usize,
}

impl TextBox {
    #[verifier::type_invariant]
    spec fn not_null(&self) -> bool {
        self.raw != 0
    }

    /// Creates a text box below `parent` with the given flags.
    pub fn new(parent: &impl Element, flags: u32, create: impl FnOnce(usize, u32) -> usize) -> (r:
        Result<Self, Error>)
        requires
            call_requires(create, (parent.address(), flags)),
        ensures
            exists|raw: usize|
                #[trigger] call_ensures(create, (parent.address(), flags), raw) && adopts(r, raw),
    {
        let raw = create(parent.raw_element(), flags);
        if raw == 0 {
            return Err(Error::CreateFailed);
        }
        Ok(TextBox { raw })
    }

    /// The text in the box. `read` copies the bytes that the record holds;
    /// what of them is not UTF-8 comes out as the replacement character.
    pub fn get_text(&self, read: impl FnOnce(usize) -> Vec<u8>) -> (text: String)
        requires
            call_requires(read, (self.address(),)),
        ensures
            exists|contents: Vec<u8>|
                {
                    &&& #[trigger] call_ensures(read, (self.address(),), contents)
                    &&& text@ == utf8_lossy(contents@)
                },
    {
        let contents = read(self.raw);
        lossy_text(contents.as_slice())
    }

    /// Whether the box holds no text: `count` reads the number of bytes that
    /// the record holds.
    pub fn is_empty(&self, count: impl FnOnce(usize) -> isize) -> (empty: bool)
        requires
            call_requires(count, (self.address(),)),
        ensures
            exists|bytes: isize|
                #[trigger] call_ensures(count, (self.address(),), bytes) && empty == (bytes == 0),
    {
        count(self.raw) == 0
    }
}

impl Element for TextBox {
    closed spec fn address(&self) -> usize {
        self.raw
    }

    fn raw_element(&self) -> (raw: usize)
        ensures
            raw != 0,
    {
        proof {
            use_type_invariant(self);
        }
        self.raw
    }
}

} // verus!
