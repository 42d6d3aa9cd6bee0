//! What can go wrong, and who is told.

use vstd::prelude::*;

verus! {

/// The failure of an operation.
#[derive(Clone, Copy, Debug, PartialEq, Eq, Structural)]
pub enum Error {
    /// The request is malformed: its body has the wrong shape, or names a
    /// layer or an offset that does not exist. Nothing was written.
    Validation,
    /// The request names a trip or a path that does not exist.
    NotFoundReference,
    /// What storage holds cannot be shown: a stored geography holds no
    /// coordinate, or a stored instant has no date.
    Decode,
    /// Storage failed.
    Storage,
}

impl Error {
    /// Whether the caller is at fault, rather than the server.
    pub open spec fn client(self) -> bool {
        self is Validation || self is NotFoundReference
    }

    pub fn is_client(&self) -> (b: bool)
        ensures
            b == self.client(),
    {
        match self {
            Error::Validation => true,
            Error::NotFoundReference => true,
            Error::Decode => false,
            Error::Storage => false,
        }
    }
}

} // verus!
