//! Tables, whose cells the toolkit asks for one by one.

use vstd::prelude::*;
use vstd::string::StringSliceAdditionalSpecFns;
use crate::element::{adopts, Element, ElementWrapper};
use crate::error::Error;
use crate::message::{buffer_after, bytes_copied, decode_payload, marshal_reply, native_count, EventHandler};
use crate::registry::{registered, Registry};
use crate::text::{encode, has_nul, nul_terminated};

verus! {

/// A table of rows and columns. It holds no text of its own: it asks its
/// message handler for the text of each cell that it draws.
pub struct Table {
    raw: usize,
}

impl Table {
    #[verifier::type_invariant]
    spec fn not_null(&self) -> bool {
        self.raw != 0
    }

    /// Creates a table below `parent` with the given flags and column
    /// headers. The headers are handed to `create` null-terminated. Headers
    /// that hold a zero byte are refused, and `create` is not called.
    pub fn new(
        parent: &impl Element,
        flags: u32,
        columns: &str,
        create: impl FnOnce(usize, u32, &[u8]) -> usize,
    ) -> (r: Result<Self, Error>)
        requires
            !has_nul(columns.spec_bytes()) ==> forall|text: &[u8]|
                text@ == nul_terminated(columns.spec_bytes()) ==> call_requires(
                    create,
                    (parent.address(), flags, text),
                ),
        ensures
            has_nul(columns.spec_bytes()) ==> r == Err::<Self, Error>(Error::InvalidString),
            !has_nul(columns.spec_bytes()) ==> exists|text: &[u8], raw: usize|
                {
                    &&& text@ == nul_terminated(columns.spec_bytes())
                    &&& #[trigger] call_ensures(create, (parent.address(), flags, text), raw)
                    &&& adopts(r, raw)
                },
    {
        let columns = match encode(columns) {
            Ok(columns) => columns,
            Err(e) => {
                return Err(e);
            },
        };
        let raw = create(parent.raw_element(), flags, columns.as_slice());
        if raw == 0 {
            return Err(Error::CreateFailed);
        }
        Ok(Table { raw })
    }

    /// Sets the number of rows: `store` is handed the table and the count as
    /// the record holds it.
    pub fn set_item_count(&self, count: usize, store: impl FnOnce(usize, i32))
        requires
            call_requires(store, (self.address(), native_count(count as int))),
        ensures
            call_ensures(store, (self.address(), native_count(count as int)), ()),
    {
        store(
            self.raw,
            #[verifier::truncate]
            (count as i32),
        )
    }

    /// Sets the handler for the table's messages. The handler passes to
    /// `handlers` for good; the result is the token to store as the table's
    /// opaque user data, beside the bridge [`Table::message_handler`].
    pub fn set_handler<H: EventHandler>(&self, handlers: &mut Registry<H>, handler: H) -> (cp: usize)
        requires
            old(handlers)@.len() < usize::MAX,
        ensures
            final(handlers)@ == old(handlers)@.push(handler),
            cp == old(handlers)@.len() + 1,
    {
        handlers.register(handler)
    }

    /// The bridge that the toolkit calls with a message for the table. The
    /// toolkit has sent `message` with the auxiliary integer `di` to the
    /// element at `element`, whose opaque user data is `cp`; `payload` holds
    /// the bytes before the payload's terminating zero byte, or nothing where
    /// the payload is the null address, and `dest` is the buffer that a query
    /// for an item's text brings along.
    ///
    /// The handler that `cp` names is given the element, the code and the
    /// payload's text, and its reply is marshalled into `dest` as
    /// [`marshal_reply`] says. Where `cp` names no handler nothing is called,
    /// the buffer stays as it is and the result is 0.
    pub fn message_handler<H: EventHandler>(
        handlers: &Registry<H>,
        cp: usize,
        element: usize,
        message: i32,
        di: i32,
        payload: Option<&[u8]>,
        dest: &mut [u8],
    ) -> (copied: i32)
        ensures
            !registered(handlers@, cp) ==> copied == 0 && final(dest)@ == old(dest)@,
            registered(handlers@, cp) ==> exists|reply: Seq<u8>|
                {
                    &&& final(dest)@ == #[trigger] buffer_after(message, reply, old(dest)@)
                    &&& copied == native_count(
                        bytes_copied(message, reply, old(dest)@.len() as int),
                    )
                },
    {
        match handlers.get(cp) {
            Some(handler) => {
                let mut wrapper = ElementWrapper::new(element);
                let data = decode_payload(payload);
                let reply = handler.handle(&mut wrapper, message, data);
                let text = reply.as_str();
                let copied = marshal_reply(message, text, dest);
                assert(dest@ == buffer_after(message, text.spec_bytes(), old(dest)@));
                copied
            },
            None => 0,
        }
    }
}

impl Element for Table {
    closed spec fn address(&self) -> usize {
        self.raw
    }

    fn raw_element(&self) -> (raw: usize)
        ensures
            raw != 0,
    {
        proof {
            use_type_invariant(self);
        }
        self.raw
    }
}

} // verus!
