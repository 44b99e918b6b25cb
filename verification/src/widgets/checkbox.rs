//! Checkboxes.

use vstd::prelude::*;
use vstd::string::StringSliceAdditionalSpecFns;
use crate::element::{adopts, Element};
use crate::error::Error;
use crate::text::{encode, has_nul, nul_terminated};

verus! {

/// A labelled box that is checked or not.
pub struct Checkbox {
    raw: usize,
}

impl Checkbox {
    #[verifier::type_invariant]
    spec fn not_null(&self) -> bool {
        self.raw != 0
    }

    /// Creates a checkbox below `parent` with the given flags and label. The
    /// label is handed to `create` null-terminated, with -1 for its length. A
    /// label that holds a zero byte is refused, and `create` is not called.
    pub fn new(
        parent: &impl Element,
        flags: u32,
        label: &str,
        create: impl FnOnce(usize, u32, &[u8], isize) -> usize,
    ) -> (r: Result<Self, Error>)
        requires
            !has_nul(label.spec_bytes()) ==> forall|text: &[u8]|
                text@ == nul_terminated(label.spec_bytes()) ==> call_requires(
                    create,
                    (parent.address(), flags, text, -1isize),
                ),
        ensures
            has_nul(label.spec_bytes()) ==> r == Err::<Self, Error>(Error::InvalidString),
            !has_nul(label.spec_bytes()) ==> exists|text: &[u8], raw: usize|
                {
                    &&& text@ == nul_terminated(label.spec_bytes())
                    &&& #[trigger] call_ensures(create, (parent.address(), flags, text, -1isize), raw)
                    &&& adopts(r, raw)
                },
    {
        let label = match encode(label) {
            Ok(label) => label,
            Err(e) => {
                return Err(e);
            },
        };
        let raw = create(parent.raw_element(), flags, label.as_slice(), -1);
        if raw == 0 {
            return Err(Error::CreateFailed);
        }
        Ok(Checkbox { raw })
    }

    /// The state of the check mark, as `read` finds it in the record.
    pub fn get_check_state(&self, read: impl FnOnce(usize) -> u8) -> (state: u8)
        requires
            call_requires(read, (self.address(),)),
        ensures
            call_ensures(read, (self.address(),), state),
    {
        read(self.raw)
    }
}

impl Element for Checkbox {
    closed spec fn address(&self) -> usize {
        self.raw
    }

    fn raw_element(&self) -> (raw: usize)
        ensures
            raw != 0,
    {
        proof {
            use_type_invariant(self);
        }
        self.raw
    }
}

} // verus!
