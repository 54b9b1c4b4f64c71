//! The outcome of reading one message from the front of a byte buffer.

use vstd::prelude::*;

verus! {

/// What the front of a buffer holds.
#[derive(Debug, PartialEq, Eq)]
pub enum Parsed<T, E> {
    /// The buffer ends before the message does: more bytes are needed.
    Incomplete,
    /// A whole message, and the number of bytes it takes up.
    Complete { value: T, consumed: usize },
    /// Bytes that can never become a message, however many follow.
    Rejected(E),
}

impl<T: View, E> View for Parsed<T, E> {
    type V = Parsed<T::V, E>;

    open spec fn view(&self) -> Parsed<T::V, E> {
        match *self {
            Parsed::Incomplete => Parsed::Incomplete,
            Parsed::Complete { value, consumed } => Parsed::Complete { value: value@, consumed },
            Parsed::Rejected(e) => Parsed::Rejected(e),
        }
    }
}

} // verus!
