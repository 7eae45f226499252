//! The publishing module's records and their size limits.
use crate::address::Address;
use vstd::prelude::*;
use vstd::utf8::encode_utf8;

verus! {

/// The most bytes in a book or chapter title.
pub const MAX_TITLE_LEN: usize = 50;

/// The most bytes in a genre.
pub const MAX_GENRE_LEN: usize = 20;

/// The most bytes in a content URI.
pub const MAX_URI_LEN: usize = 100;

/// The most bytes in a review's text.
pub const MAX_REVIEW_LEN: usize = 500;

/// The highest royalty percentage.
pub const MAX_ROYALTY_PERCENTAGE: u8 = 100;

/// The lowest and highest rating a review may give.
pub const MIN_RATING: u8 = 1;
pub const MAX_RATING: u8 = 5;

/// What a reader's reputation gains with each review.
pub const REVIEW_REPUTATION: u64 = 50;

/// The number of bytes of a text in UTF-8.
pub open spec fn text_len(s: Seq<char>) -> nat {
    encode_utf8(s).len()
}

/// The number of bytes of `s` in UTF-8.
pub fn byte_len(s: &String) -> (r: usize)
    ensures
        r == text_len(s@),
{
    s.as_str().as_bytes().len()
}

/// The role a user account carries.
#[derive(Clone, Copy, Debug, PartialEq, Eq, Structural)]
pub enum UserRole {
    Reader,
    Writer,
}

impl UserRole {
    /// The role's code as stored in a user account.
    pub open spec fn spec_code(self) -> u8 {
        match self {
            UserRole::Reader => 0,
            UserRole::Writer => 1,
        }
    }

    /// The role's code as stored in a user account: 0 for a reader, 1 for a
    /// writer.
    pub fn code(self) -> (r: u8)
        ensures
            r == self.spec_code(),
    {
        match self {
            UserRole::Reader => 0,
            UserRole::Writer => 1,
        }
    }
}

/// The platform's genesis record.
pub struct PlatformAccount {
    pub counter: u64,
}

/// A role-tagged user record, one per wallet and role.
pub struct UserAccount {
    pub role: u8,
    pub wallet_address: Address,
    pub bump: u8,
}

/// A writer's profile.
pub struct WriterAccount {
    pub wallet_address: Address,
    pub bump: u8,
    pub book_count: u32,
    pub total_royalties: u64,
}

/// A reader's profile.
pub struct ReaderAccount {
    pub wallet_address: Address,
    pub bump: u8,
    pub review_count: u32,
    pub total_upvotes: u32,
    pub reputation_score: u64,
}

/// A book, kept at the address derived from its collection mint.
pub struct Book {
    pub title: String,
    pub author: Address,
    pub chapter_count: u8,
    pub genre: String,
    pub royalty_percentage: u8,
    pub total_sales: u64,
    pub review_score: u8,
    pub collection_mint: Address,
}

/// A chapter, kept at the address derived from its own NFT mint. `rating` is
/// the truncated mean of the ratings of its reviews, whose sum is
/// `rating_total`.
pub struct Chapter {
    pub title: String,
    pub content_uri: String,
    pub author: Address,
    pub book_collection: Address,
    pub chapter_number: u8,
    pub is_exclusive: bool,
    pub review_count: u32,
    pub rating: u8,
    pub rating_total: u32,
    pub chapter_mint: Address,
}

/// Content that is disclosed only to holders of the required collection.
pub struct ExclusiveContent {
    pub author: Address,
    pub required_collection: Address,
    pub content_uri: String,
    pub is_active: bool,
    pub created_at: i64,
}

/// A review, one per wallet and chapter.
pub struct Review {
    pub reviewer: Address,
    pub chapter: Address,
    pub book_collection: Address,
    pub content: String,
    pub rating: u8,
    pub upvotes: u32,
    pub created_at: i64,
}

/// A token holding as the ledger reports it: `amount` tokens of `mint` held
/// by `owner`.
#[derive(Clone, Copy, Debug)]
pub struct TokenHolding {
    pub mint: Address,
    pub owner: Address,
    pub amount: u64,
}

} // verus!
