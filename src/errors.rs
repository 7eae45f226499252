//! Why a publishing operation failed.
use crate::marketplace::MarketplaceError;
use crate::minter::MinterError;
use vstd::prelude::*;

verus! {

/// Why a publishing operation failed. No operation changes anything when it
/// fails.
#[derive(Clone, Copy, Debug, PartialEq, Eq, Structural)]
pub enum PublishingPlatformError {
    /// The tipped wallet has no user account that matches it.
    WriterAccountNotFound,
    /// The tipped account does not have the writer role.
    InvalidWriterRole,
    /// A tip of nothing.
    ZeroTipAmount,
    /// The book has as many chapters as its counter can hold.
    ChapterLimitExceeded,
    /// The signer is not the book's author.
    UnauthorizedWriter,
    /// The presenter holds no token of the asset.
    NoNftOwnership,
    /// The asset belongs to another collection than the one required.
    InvalidCollection,
    /// A role code that names no role.
    InvalidRole,
    /// A rating outside one to five.
    InvalidRating,
    /// A record exists already at the address.
    AccountAlreadyExists,
    /// No record exists at the address.
    AccountNotFound,
    /// No address could be derived for the record.
    AddressUnavailable,
    /// A title longer than the limit.
    TitleTooLong,
    /// A genre longer than the limit.
    GenreTooLong,
    /// A content URI longer than the limit.
    ContentUriTooLong,
    /// A review text longer than the limit.
    ReviewTooLong,
    /// A royalty percentage above one hundred.
    InvalidRoyalty,
    /// A counter would overflow.
    ArithmeticOverflow,
    /// The marketplace module refused the call.
    Marketplace(MarketplaceError),
    /// The minter module refused the call.
    Minter(MinterError),
}

} // verus!
