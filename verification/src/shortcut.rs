//! Keyboard shortcuts.

use vstd::prelude::*;
use crate::callback::Callbacks;

verus! {

/// A keyboard shortcut: a key, the modifiers that must be held with it, and
/// the closure to run when it is pressed.
pub struct Shortcut<F: Fn()> {
    code: isize,
    ctrl: bool,
    shift: bool,
    alt: bool,
    invoke: F,
}

/// A shortcut as the toolkit takes it: the key and its modifiers, and in place
/// of the closure the opaque argument `cp` for the callback trampoline.
#[derive(Debug, Clone, Copy, PartialEq, Eq, Structural)]
pub struct ShortcutRecord {
    pub code: isize,
    pub ctrl: bool,
    pub shift: bool,
    pub alt: bool,
    pub cp: usize,
}

impl<F: Fn()> Shortcut<F> {
    /// The key code.
    pub closed spec fn code(&self) -> isize {
        self.code
    }

    /// Whether Control must be held.
    pub closed spec fn ctrl(&self) -> bool {
        self.ctrl
    }

    /// Whether Shift must be held.
    pub closed spec fn shift(&self) -> bool {
        self.shift
    }

    /// Whether Alt must be held.
    pub closed spec fn alt(&self) -> bool {
        self.alt
    }

    /// The closure that the shortcut runs.
    pub closed spec fn callback(&self) -> F {
        self.invoke
    }

    /// The shortcut for the key `code` with the given modifiers, which runs
    /// `invoke`.
    pub fn new(code: i32, ctrl: bool, shift: bool, alt: bool, invoke: F) -> (r: Self)
        ensures
            r.code() == code,
            r.ctrl() == ctrl,
            r.shift() == shift,
            r.alt() == alt,
            r.callback() == invoke,
    {
        Shortcut { code: code as isize, ctrl, shift, alt, invoke }
    }

    /// Turns the shortcut into the record that the toolkit takes. The closure
    /// passes to `callbacks` for good, and the record names it by its token.
    pub fn into_raw(self, callbacks: &mut Callbacks<F>) -> (record: ShortcutRecord)
        requires
            old(callbacks)@.len() < usize::MAX,
            call_requires(self.callback(), ()),
        ensures
            final(callbacks)@ == old(callbacks)@.push(self.callback()),
            record == (ShortcutRecord {
                code: self.code(),
                ctrl: self.ctrl(),
                shift: self.shift(),
                alt: self.alt(),
                cp: (old(callbacks)@.len() + 1) as usize,
            }),
    {
        let cp = callbacks.register(self.invoke);
        ShortcutRecord { code: self.code, ctrl: self.ctrl, shift: self.shift, alt: self.alt, cp }
    }
}

} // verus!
