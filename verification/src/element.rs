//! Handles and the capability that every widget kind shares.

use vstd::prelude::*;
use crate::error::Error;

verus! {

/// What every widget kind can do: name the native record it stands for, and
/// have that record destroyed or refreshed.
///
/// A handle is a view of a record that the toolkit owns. Nothing here tracks
/// whether the toolkit has freed that record since: a handle may be used only
/// while neither its record nor any record above it has been destroyed.
pub trait Element {
    /// The address of the record's common base fields.
    spec fn address(&self) -> usize;

    /// The address of the record's common base fields.
    fn raw_element(&self) -> (raw: usize)
        ensures
            raw == self.address(),
    ;

    /// Destroys the record, and with it every record below it, by handing its
    /// address to `release`, the toolkit's deallocation. No handle to the
    /// record or to one below it may be used afterwards.
    fn destroy(&mut self, release: impl FnOnce(usize)) where Self: Sized
        requires
            call_requires(release, (old(self).address(),)),
        ensures
            call_ensures(release, (old(self).address(),), ()),
            final(self).address() == old(self).address(),
    {
        release(self.raw_element())
    }

    /// Has the record laid out and drawn again by handing its address to
    /// `relayout`, the toolkit's refresh.
    fn refresh(&mut self, relayout: impl FnOnce(usize)) where Self: Sized
        requires
            call_requires(relayout, (old(self).address(),)),
        ensures
            call_ensures(relayout, (old(self).address(),), ()),
            final(self).address() == old(self).address(),
    {
        relayout(self.raw_element())
    }
}

/// Whether `r` is what a constructor owes for the address `raw` that the
/// toolkit's allocation returned: the null address is a failed creation, any
/// other address is wrapped as it is.
pub open spec fn adopts<W: Element>(r: Result<W, Error>, raw: usize) -> bool {
    if raw == 0 {
        r == Err::<W, Error>(Error::CreateFailed)
    } else {
        r is Ok && r->Ok_0.address() == raw
    }
}

/// A handle to a record of any kind, known by its base fields alone. A message
/// handler is given one for the element that the message was sent to.
pub struct ElementWrapper {
    raw: usize,
}

impl ElementWrapper {
    /// The handle to the record whose base fields lie at `raw`.
    pub fn new(raw: usize) -> (r: Self)
        ensures
            r.address() == raw,
    {
        ElementWrapper { raw }
    }
}

impl Element for ElementWrapper {
    closed spec fn address(&self) -> usize {
        self.raw
    }

    fn raw_element(&self) -> (raw: usize) {
        self.raw
    }
}

/// A failed allocation yields no handle: for the null address a constructor
/// owes the error of a failed creation and nothing else, and for any other
/// address it owes a handle to just that address.
pub proof fn null_is_a_failed_creation<W: Element>(r: Result<W, Error>, raw: usize)
    requires
        adopts(r, raw),
    ensures
        raw == 0 <==> r is Err,
        r is Err ==> r == Err::<W, Error>(Error::CreateFailed),
        r is Ok ==> r->Ok_0.address() == raw && r->Ok_0.address() != 0,
{
}

} // verus!
