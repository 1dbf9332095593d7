//! The domain error taxonomy and the single translation point from
//! storage-level failures into it.

use vstd::prelude::*;

verus! {

/// The closed set of failure kinds visible to the domain: a referenced
/// identifier that does not resolve, and everything else. No kind
/// distinguishes validation errors from infrastructure errors; both
/// collapse to `Internal`.
#[derive(Clone, Copy, Debug, PartialEq, Eq, Structural)]
pub enum Error {
    /// The referenced identifier does not resolve to a stored entity.
    NotFound,
    /// Any other failure: malformed identifier, storage fault, constraint
    /// violation.
    Internal,
}

/// What the underlying query engine reported for a failed round-trip, as a
/// storage adapter sees it before translation into the domain taxonomy.
#[derive(Clone, Copy, Debug, PartialEq, Eq, Structural)]
pub enum StoreFailure {
    /// The query resolved no row.
    RowNotFound,
    /// Every other storage-layer failure: connectivity, constraint,
    /// type coercion, timeout.
    Other,
}

impl Error {
    /// The translation rule every storage adapter must reproduce exactly:
    /// "row not found" becomes `NotFound`; every other storage-layer
    /// failure becomes `Internal`.
    pub fn from_store_failure(f: StoreFailure) -> (r: Error)
        ensures
            f == StoreFailure::RowNotFound ==> r == Error::NotFound,
            f == StoreFailure::Other ==> r == Error::Internal,
    {
        match f {
            StoreFailure::RowNotFound => Error::NotFound,
            StoreFailure::Other => Error::Internal,
        }
    }
}

} // verus!
