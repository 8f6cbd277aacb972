//! The rules that a submitted collection or asset has to meet before anything
//! is minted or stored.

use vstd::prelude::*;
use vstd::utf8::encode_utf8;

use crate::address::Address;
use crate::errors::NftError;

verus! {

/// The longest name, in bytes.
pub const MAX_NAME_LENGTH: usize = 32;

/// The longest symbol, in bytes.
pub const MAX_SYMBOL_LENGTH: usize = 10;

/// The highest seller fee: 10000 basis points are the whole price.
pub const MAX_SELLER_FEE_BASIS_POINTS: u16 = 10000;

/// The largest number of creators of one collection or asset.
pub const MAX_CREATORS: usize = 5;

/// What the creators' shares have to sum to.
pub const TOTAL_CREATOR_SHARE: u16 = 100;

/// One of the creators that the royalty of a collection or asset is split among.
#[derive(Clone, Copy, Debug, PartialEq, Eq)]
pub struct CreatorData {
    pub address: Address,
    pub verified: bool,
    /// The creator's part of the royalty, in percent.
    pub share: u8,
}

/// What a submission holds, as far as the rules read it.
pub struct Submission {
    pub name: Seq<char>,
    pub symbol: Seq<char>,
    pub seller_fee_basis_points: u16,
    pub creators: Seq<CreatorData>,
}

/// The length of `text` in bytes, which is what the limits count.
pub open spec fn byte_len(text: Seq<char>) -> nat {
    encode_utf8(text).len()
}

/// A name has between 1 and 32 bytes.
pub open spec fn valid_name(name: Seq<char>) -> bool {
    1 <= byte_len(name) <= MAX_NAME_LENGTH
}

/// A symbol has between 1 and 10 bytes.
pub open spec fn valid_symbol(symbol: Seq<char>) -> bool {
    1 <= byte_len(symbol) <= MAX_SYMBOL_LENGTH
}

/// A seller fee is at most 10000 basis points.
pub open spec fn valid_seller_fee_basis_points(fee: u16) -> bool {
    fee <= MAX_SELLER_FEE_BASIS_POINTS
}

/// The sum of the creators' shares.
pub open spec fn total_share(creators: Seq<CreatorData>) -> int
    decreases creators.len(),
{
    if creators.len() == 0 {
        0
    } else {
        total_share(creators.drop_last()) + creators.last().share
    }
}

/// The verdict on a list of creators: at most 5 of them, and then shares that
/// sum to exactly 100.
pub open spec fn check_creators(creators: Seq<CreatorData>) -> Result<(), NftError> {
    if creators.len() > MAX_CREATORS {
        Err(NftError::TooManyCreators)
    } else if total_share(creators) != TOTAL_CREATOR_SHARE {
        Err(NftError::InvalidCreatorShares)
    } else {
        Ok(())
    }
}

/// The verdict on a whole submission: the name is checked first, then the
/// symbol, the fee and the creators, and the first failure is the verdict.
pub open spec fn check_submission(submission: Submission) -> Result<(), NftError> {
    if !valid_name(submission.name) {
        Err(NftError::InvalidName)
    } else if !valid_symbol(submission.symbol) {
        Err(NftError::InvalidSymbol)
    } else if !valid_seller_fee_basis_points(submission.seller_fee_basis_points) {
        Err(NftError::InvalidSellerFeeBasisPoints)
    } else {
        check_creators(submission.creators)
    }
}


/// A submission with a name of 1 to 32 bytes, a symbol of 1 to 10 bytes, a fee
/// of at most 10000 basis points and at most 5 creators whose shares sum to 100
/// is accepted.
pub proof fn lemma_valid_submission_accepted(submission: Submission)
    requires
        1 <= byte_len(submission.name) <= 32,
        1 <= byte_len(submission.symbol) <= 10,
        submission.seller_fee_basis_points <= 10000,
        submission.creators.len() <= 5,
        total_share(submission.creators) == 100,
    ensures
        check_submission(submission) == Ok::<(), NftError>(()),
{
}

/// A submission is accepted only if it meets every rule.
pub proof fn lemma_accepted_submission_valid(submission: Submission)
    requires
        check_submission(submission) is Ok,
    ensures
        1 <= byte_len(submission.name) <= 32,
        1 <= byte_len(submission.symbol) <= 10,
        submission.seller_fee_basis_points <= 10000,
        submission.creators.len() <= 5,
        total_share(submission.creators) == 100,
{
}

/// A list of at most 5 creators whose shares do not sum to 100 is refused for
/// its shares, whatever else is submitted with it. In a whole submission the
/// earlier checks come first: it is refused either way, and for its shares
/// once name, symbol and fee are in order.
pub proof fn lemma_wrong_share_sum_rejected(submission: Submission)
    requires
        submission.creators.len() <= 5,
        total_share(submission.creators) != 100,
    ensures
        check_creators(submission.creators) == Err::<(), NftError>(NftError::InvalidCreatorShares),
        check_submission(submission) is Err,
        valid_name(submission.name) && valid_symbol(submission.symbol)
            && valid_seller_fee_basis_points(submission.seller_fee_basis_points)
            ==> check_submission(submission) == Err::<(), NftError>(
            NftError::InvalidCreatorShares,
        ),
{
}

/// A list of more than 5 creators is refused for its length, whatever the
/// shares sum to.
pub proof fn lemma_too_many_creators_rejected(creators: Seq<CreatorData>)
    requires
        creators.len() > 5,
    ensures
        check_creators(creators) == Err::<(), NftError>(NftError::TooManyCreators),
{
}

/// Accepts a name of 1 to 32 bytes.
pub fn validate_name(name: &str) -> (result: Result<(), NftError>)
    ensures
        valid_name(name@) ==> result == Ok::<(), NftError>(()),
        !valid_name(name@) ==> result == Err::<(), NftError>(NftError::InvalidName),
{
    let length = name.as_bytes().len();
    if length == 0 || length > MAX_NAME_LENGTH {
        return Err(NftError::InvalidName);
    }
    Ok(())
}

/// Accepts a symbol of 1 to 10 bytes.
pub fn validate_symbol(symbol: &str) -> (result: Result<(), NftError>)
    ensures
        valid_symbol(symbol@) ==> result == Ok::<(), NftError>(()),
        !valid_symbol(symbol@) ==> result == Err::<(), NftError>(NftError::InvalidSymbol),
{
    let length = symbol.as_bytes().len();
    if length == 0 || length > MAX_SYMBOL_LENGTH {
        return Err(NftError::InvalidSymbol);
    }
    Ok(())
}

/// Accepts a seller fee of at most 10000 basis points.
pub fn validate_seller_fee_basis_points(fee: u16) -> (result: Result<(), NftError>)
    ensures
        valid_seller_fee_basis_points(fee) ==> result == Ok::<(), NftError>(()),
        !valid_seller_fee_basis_points(fee) ==> result == Err::<(), NftError>(
            NftError::InvalidSellerFeeBasisPoints,
        ),
{
    if fee > MAX_SELLER_FEE_BASIS_POINTS {
        return Err(NftError::InvalidSellerFeeBasisPoints);
    }
    Ok(())
}

/// Accepts at most 5 creators whose shares sum to exactly 100. More than 5 are
/// refused as too many before any share is looked at.
pub fn validate_creators(creators: &[CreatorData]) -> (result: Result<(), NftError>)
    ensures
        result == check_creators(creators@),
{
    if creators.len() > MAX_CREATORS {
        return Err(NftError::TooManyCreators);
    }
    let mut total_share: u16 = 0;
    let mut i: usize = 0;
    while i < creators.len()
        invariant
            i <= creators@.len() <= 5,
            total_share == self::total_share(creators@.take(i as int)),
            total_share <= 255 * i,
        decreases creators@.len() - i,
    {
        assert(creators@.take(i + 1).drop_last() =~= creators@.take(i as int));
        total_share = total_share + creators[i].share as u16;
        i += 1;
    }
    assert(creators@.take(i as int) =~= creators@);
    if total_share != TOTAL_CREATOR_SHARE {
        return Err(NftError::InvalidCreatorShares);
    }
    Ok(())
}

/// Submitted data that the rules can be applied to.
pub trait ValidatableData {
    /// What the rules read of the data.
    spec fn submission(&self) -> Submission;

    fn name(&self) -> (name: &str)
        ensures
            name@ == self.submission().name,
    ;

    fn symbol(&self) -> (symbol: &str)
        ensures
            symbol@ == self.submission().symbol,
    ;

    fn seller_fee_basis_points(&self) -> (fee: u16)
        ensures
            fee == self.submission().seller_fee_basis_points,
    ;

    fn creators(&self) -> (creators: &[CreatorData])
        ensures
            creators@ == self.submission().creators,
    ;

    /// Applies the rules in their order (name, symbol, fee, creators) and
    /// reports the first that fails.
    fn validate(&self) -> (result: Result<(), NftError>)
        ensures
            result == check_submission(self.submission()),
    {
        validate_name(self.name())?;
        validate_symbol(self.symbol())?;
        validate_seller_fee_basis_points(self.seller_fee_basis_points())?;
        validate_creators(self.creators())?;
        Ok(())
    }
}

} // verus!
