use vstd::prelude::*;

verus! {

/// Why an operation on the escrow was refused.
#[derive(Clone, Copy, PartialEq, Eq, Debug, Structural)]
pub enum Error {
    /// The caller is not the party the operation is reserved for, or no
    /// administrator has been set yet.
    NotAuthorized,
    /// A package was to be created with an amount that is not positive.
    InvalidAmount,
    /// No package has the given identifier.
    PackageNotFound,
    /// The package has already been claimed.
    PackageAlreadyClaimed,
    /// The package's deadline has passed.
    PackageExpired,
}

} // verus!
