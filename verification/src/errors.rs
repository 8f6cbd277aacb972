//! The ways in which a registry operation is refused.

use vstd::prelude::*;

verus! {

/// Why an operation was refused. Whenever one of these is returned, nothing was
/// changed.
#[derive(Clone, Copy, Debug, PartialEq, Eq, Structural)]
pub enum NftError {
    /// The name is empty or longer than 32 bytes; also reported when the token
    /// could not be minted.
    InvalidName,
    /// The symbol is empty or longer than 10 bytes.
    InvalidSymbol,
    /// Reported when the metadata service refused a request.
    InvalidUri,
    /// The seller fee is above 10000 basis points.
    InvalidSellerFeeBasisPoints,
    /// The creators' shares do not sum to 100.
    InvalidCreatorShares,
    /// More than 5 creators were given.
    TooManyCreators,
    /// The asset is already verified in this collection. Repeating a
    /// verification is not a failure: no operation returns this as an error,
    /// it is only given as a notice.
    AlreadyVerified,
    /// The collection does not exist or is not the one that the asset was
    /// minted under.
    InvalidCollectionMint,
    /// The collection's member count is at its maximum.
    CounterOverflow,
    /// A record for this identifier was created before.
    RecordAlreadyExists,
    /// No record was created for this identifier.
    RecordNotFound,
}

} // verus!
