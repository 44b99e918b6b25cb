//! Buttons.

use vstd::prelude::*;
use vstd::string::StringSliceAdditionalSpecFns;
use crate::callback::Callbacks;
use crate::element::{adopts, Element};
use crate::error::Error;
use crate::registry::{registered, resolve};
use crate::text::{encode, has_nul, nul_terminated};

verus! {

/// A button that runs a callback when it is clicked.
pub struct Button {
    raw: usize,
}

impl Button {
    #[verifier::type_invariant]
    spec fn not_null(&self) -> bool {
        self.raw != 0
    }

    /// Creates a button below `parent` with the given flags and label. The
    /// label is handed to `create` null-terminated, with -1 for its length. A
    /// label that holds a zero byte is refused, and `create` is not called.
    pub fn new(
        parent: &impl Element,
        flags: u32,
        label: &str,
        create: impl FnOnce(usize, u32, &[u8], isize) -> usize,
    ) -> (r: Result<Self, Error>)
        requires
            !has_nul(label.spec_bytes()) ==> forall|text: &[u8]|
                text@ == nul_terminated(label.spec_bytes()) ==> call_requires(
                    create,
                    (parent.address(), flags, text, -1isize),
                ),
        ensures
            has_nul(label.spec_bytes()) ==> r == Err::<Self, Error>(Error::InvalidString),
            !has_nul(label.spec_bytes()) ==> exists|text: &[u8], raw: usize|
                {
                    &&& text@ == nul_terminated(label.spec_bytes())
                    &&& #[trigger] call_ensures(create, (parent.address(), flags, text, -1isize), raw)
                    &&& adopts(r, raw)
                },
    {
        let label = match encode(label) {
            Ok(label) => label,
            Err(e) => {
                return Err(e);
            },
        };
        let raw = create(parent.raw_element(), flags, label.as_slice(), -1);
        if raw == 0 {
            return Err(Error::CreateFailed);
        }
        Ok(Button { raw })
    }

    /// Sets the closure that a click runs. The closure passes to `callbacks`
    /// for good; the result is the token to store as the button's opaque user
    /// data, beside the trampoline [`Button::invoke_handler`]. A token stored
    /// there before is overwritten, so that a click runs this closure alone.
    pub fn invoke<F: Fn()>(&self, callbacks: &mut Callbacks<F>, callback: F) -> (cp: usize)
        requires
            old(callbacks)@.len() < usize::MAX,
            call_requires(callback, ()),
        ensures
            final(callbacks)@ == old(callbacks)@.push(callback),
            cp == old(callbacks)@.len() + 1,
    {
        callbacks.register(callback)
    }

    /// The trampoline that the toolkit calls on a click, with the button's
    /// opaque user data `cp`: runs the closure that `cp` names, and says
    /// whether it named one.
    pub fn invoke_handler<F: Fn()>(callbacks: &Callbacks<F>, cp: usize) -> (ran: bool)
        ensures
            ran == registered(callbacks@, cp),
            ran ==> call_ensures(resolve(callbacks@, cp), (), ()),
    {
        callbacks.trampoline(cp)
    }
}

impl Element for Button {
    closed spec fn address(&self) -> usize {
        self.raw
    }

    fn raw_element(&self) -> (raw: usize)
        ensures
            raw != 0,
    {
        proof {
            use_type_invariant(self);
        }
        self.raw
    }
}

} // verus!
