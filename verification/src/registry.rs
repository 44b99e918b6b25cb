//! Values that the toolkit keeps for the binding as opaque user data.
//!
//! A native record has one pointer-sized field for its user. The binding
//! stores there a token that stands for a value kept in a [`Registry`]. A
//! registered value is never given up again: the toolkit tells nobody when it
//! frees a record, so the value has to outlive every record that may still
//! name it.

use vstd::prelude::*;

verus! {

/// The values registered so far, each under a token of its own.
pub struct Registry<T> {
    entries: Vec<T>,
}

/// Whether `token` names one of `entries`. The null token names none.
pub open spec fn registered<T>(entries: Seq<T>, token: usize) -> bool {
    1 <= token <= entries.len()
}

/// The value that `token` names among `entries`.
pub open spec fn resolve<T>(entries: Seq<T>, token: usize) -> T
    recommends
        registered(entries, token),
{
    entries[token - 1]
}

impl<T> View for Registry<T> {
    type V = Seq<T>;

    /// The registered values, in the order of their registration.
    closed spec fn view(&self) -> Seq<T> {
        self.entries@
    }
}

impl<T> Registry<T> {
    /// A registry that holds nothing.
    pub fn new() -> (r: Self)
        ensures
            r@ == Seq::<T>::empty(),
    {
        Registry { entries: Vec::new() }
    }

    /// How many values are registered.
    pub fn len(&self) -> (n: usize)
        ensures
            n == self@.len(),
    {
        self.entries.len()
    }

    /// Takes `value` over for good and returns the token that names it from
    /// now on. The token is not null and was never given out before; every
    /// earlier token keeps naming what it named.
    pub fn register(&mut self, value: T) -> (token: usize)
        requires
            old(self)@.len() < usize::MAX,
        ensures
            final(self)@ == old(self)@.push(value),
            token == old(self)@.len() + 1,
    {
        self.entries.push(value);
        self.entries.len()
    }

    /// The value that `token` names, if it names one.
    pub fn get(&self, token: usize) -> (r: Option<&T>)
        ensures
            registered(self@, token) ==> r == Some(&resolve(self@, token)),
            !registered(self@, token) ==> r is None,
    {
        if token == 0 || token > self.entries.len() {
            None
        } else {
            Some(&self.entries[token - 1])
        }
    }
}

/// A registered value is found again under its token: right after `value`
/// has been registered, the token returned for it names it.
pub proof fn registered_value_is_found<T>(entries: Seq<T>, value: T)
    requires
        entries.len() < usize::MAX,
    ensures
        registered(entries.push(value), (entries.len() + 1) as usize),
        resolve(entries.push(value), (entries.len() + 1) as usize) == value,
        !registered(entries, (entries.len() + 1) as usize),
{
}

/// A new registration disturbs no earlier one: after `value` has been
/// registered, every token that named a value before still names the same
/// value, and none of them is the token of `value`.
pub proof fn registration_is_kept<T>(entries: Seq<T>, value: T, earlier: usize)
    requires
        registered(entries, earlier),
    ensures
        registered(entries.push(value), earlier),
        resolve(entries.push(value), earlier) == resolve(entries, earlier),
        earlier != entries.len() + 1,
{
}

/// The null token names nothing, whatever is registered.
pub proof fn null_names_nothing<T>(entries: Seq<T>)
    ensures
        !registered(entries, 0),
{
}

} // verus!
