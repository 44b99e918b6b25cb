//! Labels.

use vstd::prelude::*;
use vstd::string::StringSliceAdditionalSpecFns;
use crate::element::{adopts, Element};
use crate::error::Error;
use crate::text::{encode, encode_or_empty, has_nul, nul_terminated, nul_terminated_or_empty};

verus! {

/// A line of text.
pub struct Label {
    raw: usize,
}

impl Label {
    #[verifier::type_invariant]
    spec fn not_null(&self) -> bool {
        self.raw != 0
    }

    /// Creates a label below `parent` with the given flags and text. The
    /// text is handed to `create` null-terminated, with -1 for its length. A
    /// text that holds a zero byte is refused, and `create` is not called.
    pub fn new(
        parent: &impl Element,
        flags: u32,
        text: &str,
        create: impl FnOnce(usize, u32, &[u8], isize) -> usize,
    ) -> (r: Result<Self, Error>)
        requires
            !has_nul(text.spec_bytes()) ==> forall|encoded: &[u8]|
                encoded@ == nul_terminated(text.spec_bytes()) ==> call_requires(
                    create,
                    (parent.address(), flags, encoded, -1isize),
                ),
        ensures
            has_nul(text.spec_bytes()) ==> r == Err::<Self, Error>(Error::InvalidString),
            !has_nul(text.spec_bytes()) ==> exists|encoded: &[u8], raw: usize|
                {
                    &&& encoded@ == nul_terminated(text.spec_bytes())
                    &&& #[trigger] call_ensures(create, (parent.address(), flags, encoded, -1isize), raw)
                    &&& adopts(r, raw)
                },
    {
        let text = match encode(text) {
            Ok(text) => text,
            Err(e) => {
                return Err(e);
            },
        };
        let raw = create(parent.raw_element(), flags, text.as_slice(), -1);
        if raw == 0 {
            return Err(Error::CreateFailed);
        }
        Ok(Label { raw })
    }

    /// Replaces the label's text. `set` is handed the label, the text
    /// null-terminated, and the number of bytes before the terminator. Text
    /// that holds a zero byte is replaced by the empty text.
    pub fn set_content(&self, text: &str, set: impl FnOnce(usize, &[u8], isize))
        requires
            forall|encoded: &[u8]|
                encoded@ == nul_terminated_or_empty(text.spec_bytes()) ==> call_requires(
                    set,
                    (self.address(), encoded, (encoded@.len() - 1) as isize),
                ),
        ensures
            exists|encoded: &[u8]|
                {
                    &&& encoded@ == nul_terminated_or_empty(text.spec_bytes())
                    &&& #[trigger] call_ensures(
                        set,
                        (self.address(), encoded, (encoded@.len() - 1) as isize),
                        (),
                    )
                },
    {
        let text = encode_or_empty(text);
        let bytes = text.len() - 1;
        set(
            self.raw,
            text.as_slice(),
            #[verifier::truncate]
            (bytes as isize),
        )
    }
}

impl Element for Label {
    closed spec fn address(&self) -> usize {
        self.raw
    }

    fn raw_element(&self) -> (raw: usize)
        ensures
            raw != 0,
    {
        proof {
            use_type_invariant(self);
        }
        self.raw
    }
}

} // verus!
