//! Menus.

use vstd::prelude::*;
use vstd::string::StringSliceAdditionalSpecFns;
use crate::callback::Callbacks;
use crate::element::{adopts, Element};
use crate::error::Error;
use crate::text::{encode_or_empty, nul_terminated_or_empty};

verus! {

/// A popup menu of items, each with a callback.
pub struct Menu {
    raw: usize,
}

impl Menu {
    #[verifier::type_invariant]
    spec fn not_null(&self) -> bool {
        self.raw != 0
    }

    /// Creates a menu below `parent` with the given flags.
    pub fn new(parent: &impl Element, flags: u32, create: impl FnOnce(usize, u32) -> usize) -> (r:
        Result<Self, Error>)
        requires
            call_requires(create, (parent.address(), flags)),
        ensures
            exists|raw: usize|
                #[trigger] call_ensures(create, (parent.address(), flags), raw) && adopts(r, raw),
    {
        let raw = create(parent.raw_element(), flags);
        if raw == 0 {
            return Err(Error::CreateFailed);
        }
        Ok(Menu { raw })
    }

    /// Adds an item with the given flags and label, which runs `callback`
    /// when it is chosen. The closure passes to `callbacks` for good. `add_native`
    /// is handed the menu, the flags, the label null-terminated with -1 for
    /// its length, and the closure's token as the opaque argument of the
    /// callback trampoline. A label that holds a zero byte is replaced by the
    /// empty label.
    pub fn add_item<F: Fn()>(
        &mut self,
        callbacks: &mut Callbacks<F>,
        flags: u32,
        label: &str,
        callback: F,
        add_native: impl FnOnce(usize, u32, &[u8], isize, usize),
    )
        requires
            old(callbacks)@.len() < usize::MAX,
            call_requires(callback, ()),
            forall|text: &[u8]|
                text@ == nul_terminated_or_empty(label.spec_bytes()) ==> call_requires(
                    add_native,
                    (
                        old(self).address(),
                        flags,
                        text,
                        -1isize,
                        (old(callbacks)@.len() + 1) as usize,
                    ),
                ),
        ensures
            final(self).address() == old(self).address(),
            final(callbacks)@ == old(callbacks)@.push(callback),
            exists|text: &[u8]|
                {
                    &&& text@ == nul_terminated_or_empty(label.spec_bytes())
                    &&& #[trigger] call_ensures(
                        add_native,
                        (
                            old(self).address(),
                            flags,
                            text,
                            -1isize,
                            (old(callbacks)@.len() + 1) as usize,
                        ),
                        (),
                    )
                },
    {
        let label = encode_or_empty(label);
        let cp = callbacks.register(callback);
        add_native(self.raw, flags, label.as_slice(), -1, cp)
    }

    /// Shows the menu: `show` is handed the menu.
    pub fn show(&self, show: impl FnOnce(usize))
        requires
            call_requires(show, (self.address(),)),
        ensures
            call_ensures(show, (self.address(),), ()),
    {
        show(self.raw)
    }
}

impl Element for Menu {
    closed spec fn address(&self) -> usize {
        self.raw
    }

    fn raw_element(&self) -> (raw: usize)
        ensures
            raw != 0,
    {
        proof {
            use_type_invariant(self);
        }
        self.raw
    }
}

} // verus!
