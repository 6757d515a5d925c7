//! The fixed set of failures that a read can end in.

use vstd::prelude::*;

verus! {

/// Every failure that reaches the presentation layer is one of these.
#[derive(Clone, Copy, Debug, PartialEq, Eq, Structural)]
pub enum Error {
    /// The key string is malformed.
    InvalidKey,
    /// No paste answers to the key, or the one that did has expired.
    NotFound,
    /// The paste exists but its content could not be rendered.
    HighlightFailure,
    /// The identity token does not decode to a numeric identity.
    CookieDecodeFailure,
}

impl Error {
    /// A malformed key and a missing paste are shown the same way, so that
    /// a reader cannot tell one from the other.
    pub open spec fn is_not_found_class(self) -> bool {
        self == Error::InvalidKey || self == Error::NotFound
    }

    /// Whether the reader is shown the page of a paste that is not there.
    pub fn not_found_class(&self) -> (b: bool)
        ensures
            b == self.is_not_found_class(),
    {
        match self {
            Error::InvalidKey => true,
            Error::NotFound => true,
            Error::HighlightFailure => false,
            Error::CookieDecodeFailure => false,
        }
    }
}

} // verus!
