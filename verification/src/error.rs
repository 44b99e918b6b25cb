//! The errors a binding operation can report.

use vstd::prelude::*;

verus! {

/// Why an operation on the toolkit did not yield a widget.
///
/// An error carries nothing beyond its kind.
#[derive(Debug, Clone, Copy, PartialEq, Eq, Structural)]
pub enum Error {
    /// A null address stood where a widget record was expected.
    NullPointer,
    /// A text argument cannot be written as a null-terminated byte string.
    InvalidString,
    /// The toolkit's allocation returned the null address.
    CreateFailed,
}

} // verus!
