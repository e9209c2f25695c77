//! The failure kinds that the registry's privileged operations surface.

use vstd::prelude::*;

verus! {

/// Every way a privileged registry operation can fail.
///
/// Failures are always surfaced to the caller; nothing is retried or
/// silently swallowed, and a failed operation leaves the registry unchanged.
#[derive(Clone, Copy, Debug, PartialEq, Eq, Structural)]
pub enum MintError {
    /// The metadata sequence handed to minting was malformed (not exactly
    /// the eleven expected positional fields).
    InvalidInput,
    /// The presented token is not of the authority's resource class.
    Unauthorized,
    /// Minting would collide with an identity the registry already holds.
    DuplicateIdentity,
    /// An update addressed an identity the registry does not hold.
    NotFound,
    /// Minting was attempted after the one-way lock.
    MintingLocked,
    /// A fatal, non-retriable allocation or storage failure of the host.
    EnvironmentFailure,
}

} // verus!
