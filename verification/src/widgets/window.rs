//! Top-level windows.

use vstd::prelude::*;
use vstd::string::StringSliceAdditionalSpecFns;
use crate::callback::Callbacks;
use crate::element::{adopts, Element};
use crate::error::Error;
use crate::shortcut::{Shortcut, ShortcutRecord};
use crate::text::{encode, has_nul, nul_terminated};

verus! {

/// A top-level window, the root of a tree of elements.
pub struct Window {
    raw: usize,
}

impl Window {
    #[verifier::type_invariant]
    spec fn not_null(&self) -> bool {
        self.raw != 0
    }

    /// Creates a window with the given title, size in pixels (0 for the
    /// toolkit's default) and flags. A window has no owner: `create` is
    /// handed the null address in its place, and the title null-terminated.
    /// A title that holds a zero byte is refused, and `create` is not called.
    pub fn new(
        title: &str,
        width: i32,
        height: i32,
        flags: u32,
        create: impl FnOnce(usize, u32, &[u8], i32, i32) -> usize,
    ) -> (r: Result<Self, Error>)
        requires
            !has_nul(title.spec_bytes()) ==> forall|text: &[u8]|
                text@ == nul_terminated(title.spec_bytes()) ==> call_requires(
                    create,
                    (0usize, flags, text, width, height),
                ),
        ensures
            has_nul(title.spec_bytes()) ==> r == Err::<Self, Error>(Error::InvalidString),
            !has_nul(title.spec_bytes()) ==> exists|text: &[u8], raw: usize|
                {
                    &&& text@ == nul_terminated(title.spec_bytes())
                    &&& #[trigger] call_ensures(create, (0usize, flags, text, width, height), raw)
                    &&& adopts(r, raw)
                },
    {
        let title = match encode(title) {
            Ok(title) => title,
            Err(e) => {
                return Err(e);
            },
        };
        let raw = create(0, flags, title.as_slice(), width, height);
        if raw == 0 {
            return Err(Error::CreateFailed);
        }
        Ok(Window { raw })
    }

    /// Registers a keyboard shortcut for this window: the shortcut's closure
    /// passes to `callbacks`, and `register`, the toolkit's registration, is
    /// handed the window and the shortcut's record.
    pub fn register_shortcut<F: Fn()>(
        &mut self,
        callbacks: &mut Callbacks<F>,
        shortcut: Shortcut<F>,
        register: impl FnOnce(usize, ShortcutRecord),
    )
        requires
            old(callbacks)@.len() < usize::MAX,
            call_requires(shortcut.callback(), ()),
            call_requires(
                register,
                (
                    old(self).address(),
                    ShortcutRecord {
                        code: shortcut.code(),
                        ctrl: shortcut.ctrl(),
                        shift: shortcut.shift(),
                        alt: shortcut.alt(),
                        cp: (old(callbacks)@.len() + 1) as usize,
                    },
                ),
            ),
        ensures
            final(self).address() == old(self).address(),
            final(callbacks)@ == old(callbacks)@.push(shortcut.callback()),
            call_ensures(
                register,
                (
                    old(self).address(),
                    ShortcutRecord {
                        code: shortcut.code(),
                        ctrl: shortcut.ctrl(),
                        shift: shortcut.shift(),
                        alt: shortcut.alt(),
                        cp: (old(callbacks)@.len() + 1) as usize,
                    },
                ),
                (),
            ),
    {
        let record = shortcut.into_raw(callbacks);
        register(self.raw, record)
    }
}

impl Element for Window {
    closed spec fn address(&self) -> usize {
        self.raw
    }

    fn raw_element(&self) -> (raw: usize)
        ensures
            raw != 0,
    {
        proof {
            use_type_invariant(self);
        }
        self.raw
    }
}

} // verus!
