//! Closures behind the toolkit's plain callback pointers.
//!
//! The toolkit calls back through a function pointer and one opaque argument.
//! The binding registers one fixed trampoline for every callback of a shape
//! and hands the toolkit, as the opaque argument, the token under which the
//! closure was registered. When the toolkit calls, the trampoline looks the
//! token up and runs the closure that it names.

use vstd::prelude::*;
use crate::registry::{registered, resolve, Registry};

verus! {

/// The closures registered as callbacks: no argument, no result.
pub struct Callbacks<F: Fn()> {
    closures: Registry<F>,
}

impl<F: Fn()> View for Callbacks<F> {
    type V = Seq<F>;

    /// The registered closures, in the order of their registration.
    closed spec fn view(&self) -> Seq<F> {
        self.closures@
    }
}

impl<F: Fn()> Callbacks<F> {
    /// Every registered closure may be called as it stands.
    #[verifier::type_invariant]
    spec fn every_closure_can_run(&self) -> bool {
        forall|i: int| 0 <= i < self.closures@.len() ==> call_requires(#[trigger] self.closures@[i], ())
    }

    /// No callback is registered.
    pub fn new() -> (r: Self)
        ensures
            r@ == Seq::<F>::empty(),
    {
        Callbacks { closures: Registry::new() }
    }

    /// How many callbacks are registered.
    pub fn len(&self) -> (n: usize)
        ensures
            n == self@.len(),
    {
        self.closures.len()
    }

    /// Takes `callback` over for good and returns the token to store as the
    /// opaque argument of a native callback slot.
    pub fn register(&mut self, callback: F) -> (token: usize)
        requires
            old(self)@.len() < usize::MAX,
            call_requires(callback, ()),
        ensures
            final(self)@ == old(self)@.push(callback),
            token == old(self)@.len() + 1,
    {
        proof {
            use_type_invariant(&*self);
        }
        // The closures are taken out and put back as a whole, so that the
        // registry is never seen half changed.
        let mut taken = Callbacks { closures: Registry::new() };
        core::mem::swap(self, &mut taken);
        let Callbacks { closures: mut closures } = taken;
        let token = closures.register(callback);
        *self = Callbacks { closures };
        token
    }

    /// The trampoline: runs the closure that the opaque argument `cp` names.
    /// Says whether `cp` named one; nothing runs where it names none.
    pub fn trampoline(&self, cp: usize) -> (ran: bool)
        ensures
            ran == registered(self@, cp),
            ran ==> call_ensures(resolve(self@, cp), (), ()),
    {
        proof {
            use_type_invariant(self);
        }
        match self.closures.get(cp) {
            Some(callback) => {
                assert(call_requires(self.closures@[cp - 1], ()));
                callback();
                true
            },
            None => false,
        }
    }
}

} // verus!
