//! The publishing module: its records, and the operations that create and
//! update them, composing calls into the marketplace and minter modules.
use crate::address::{derive_by, derive_by_pair, derive_seeds, program_address, seed_bytes, seeds_of, Address, Namespace};
use crate::access::{ownership_error, verify_access, verify_ownership};
use crate::errors::PublishingPlatformError;
use crate::marketplace::{init_error, initialized, Initialize, MarketplaceProgram};
use crate::minter::{create_collection, mint_nft, MintOrder, MinterError, MinterProgram};
use crate::state::{
    byte_len, text_len, TokenHolding, UserRole, MAX_RATING, MAX_REVIEW_LEN, MIN_RATING, REVIEW_REPUTATION, MAX_GENRE_LEN, MAX_ROYALTY_PERCENTAGE, MAX_TITLE_LEN, MAX_URI_LEN, Book, Chapter, ExclusiveContent, PlatformAccount, ReaderAccount, Review, UserAccount, WriterAccount,
};
use crate::store::Store;
use vstd::prelude::*;

verus! {

/// The marketplace fee, in basis points, that the platform opens with.
pub const PLATFORM_FEE: u16 = 250;

/// The publishing module's identity and records, with the modules it calls.
pub struct Platform {
    pub program_id: Address,
    pub platform_accounts: Store<PlatformAccount>,
    pub users: Store<UserAccount>,
    pub writers: Store<WriterAccount>,
    pub readers: Store<ReaderAccount>,
    pub books: Store<Book>,
    pub chapters: Store<Chapter>,
    pub exclusive_contents: Store<ExclusiveContent>,
    pub reviews: Store<Review>,
    pub marketplace: MarketplaceProgram,
    pub minter: MinterProgram,
}

/// A chapter's rating is the truncated mean of its review ratings, each
/// between one and five.
pub open spec fn chapter_ok(c: Chapter) -> bool {
    &&& c.rating_total <= 5 * c.review_count
    &&& c.rating == (if c.review_count == 0 { 0 } else { c.rating_total / c.review_count })
}

/// The address and bump of the record in `ns` keyed by `key` under `program`.
pub open spec fn key_of(ns: Namespace, key: Seq<u8>, program: Seq<u8>) -> Option<(Seq<u8>, u8)> {
    program_address(seeds_of(ns, seq![key]), program)
}

/// The address and bump of the user account of `wallet` for role code
/// `role`: its seeds are the tag, the wallet and the one-byte role code.
pub open spec fn user_key(wallet: Seq<u8>, role: u8, program: Seq<u8>) -> Option<(Seq<u8>, u8)> {
    program_address(seeds_of(Namespace::User, seq![wallet, seq![role]]), program)
}

/// Derives the address and bump of the user account of `wallet` for role
/// code `role`.
pub fn derive_user(wallet: &Address, role: u8, program: &Address) -> (r: Option<(Address, u8)>)
    ensures
        match r {
            Some(found) => user_key(wallet@, role, program@) == Some((found.0@, found.1)),
            None => user_key(wallet@, role, program@) is None,
        },
{
    let mut parts: Vec<Vec<u8>> = Vec::new();
    parts.push(wallet.to_seed());
    let mut code: Vec<u8> = Vec::new();
    code.push(role);
    assert(code@ =~= seq![role]);
    parts.push(code);
    assert(seed_bytes(parts@) =~= seq![wallet@, seq![role]]);
    derive_seeds(Namespace::User, parts, program)
}

impl Platform {
    /// The stores are well formed and every chapter's rating is its mean.
    pub open spec fn wf(&self) -> bool {
        &&& self.platform_accounts.wf()
        &&& self.users.wf()
        &&& self.writers.wf()
        &&& self.readers.wf()
        &&& self.books.wf()
        &&& self.chapters.wf()
        &&& self.exclusive_contents.wf()
        &&& self.reviews.wf()
        &&& self.marketplace.wf()
        &&& self.minter.wf()
        &&& forall|k: Seq<u8>| #[trigger] self.chapters.records().contains_key(k) ==> chapter_ok(self.chapters.records()[k])
    }

    /// A platform with the three modules' identities and no records.
    pub fn new(program_id: Address, marketplace_id: Address, minter_id: Address) -> (r: Platform)
        ensures
            r.wf(),
            r.program_id == program_id,
            r.marketplace.program_id == marketplace_id,
            r.minter.program_id == minter_id,
            r.chapters.records() == Map::<Seq<u8>, Chapter>::empty(),
    {
        Platform {
            program_id,
            platform_accounts: Store::new(),
            users: Store::new(),
            writers: Store::new(),
            readers: Store::new(),
            books: Store::new(),
            chapters: Store::new(),
            exclusive_contents: Store::new(),
            reviews: Store::new(),
            marketplace: MarketplaceProgram::new(marketplace_id),
            minter: MinterProgram::new(minter_id),
        }
    }
}

/// The accounts of the platform's genesis: the paying wallet and the address
/// of the new platform record.
pub struct InitializePlatform {
    pub user: Address,
    pub platform_account: Address,
}

impl InitializePlatform {
    /// The error that the genesis meets, if any.
    pub open spec fn error(&self, p: Platform, name: Seq<char>) -> Option<PublishingPlatformError> {
        if p.platform_accounts.records().contains_key(self.platform_account@) {
            Some(PublishingPlatformError::AccountAlreadyExists)
        } else {
            match init_error(p.marketplace, name) {
                Some(e) => Some(PublishingPlatformError::Marketplace(e)),
                None => None,
            }
        }
    }

    /// Creates the platform record, with its counter at zero, and the
    /// platform's marketplace `name` with the platform fee, both or neither.
    pub fn initialize_platform(&self, p: &mut Platform, name: String) -> (r: Result<(), PublishingPlatformError>)
        requires
            old(p).wf(),
        ensures
            final(p).wf(),
            match self.error(*old(p), name@) {
                Some(e) => r == Err::<(), PublishingPlatformError>(e) && *final(p) == *old(p),
                None => {
                    &&& r is Ok
                    &&& *final(p) == (Platform {
                        platform_accounts: final(p).platform_accounts,
                        marketplace: final(p).marketplace,
                        ..*old(p)
                    })
                    &&& final(p).platform_accounts.records().contains_key(self.platform_account@)
                    &&& final(p).platform_accounts.records() == old(p).platform_accounts.records().insert(
                        self.platform_account@,
                        final(p).platform_accounts.records()[self.platform_account@],
                    )
                    &&& final(p).platform_accounts.records()[self.platform_account@].counter == 0
                    &&& final(p).marketplace.program_id == old(p).marketplace.program_id
                    &&& initialized(old(p).marketplace, final(p).marketplace, name@, PLATFORM_FEE)
                },
            },
    {
        if p.platform_accounts.contains(&self.platform_account) {
            return Err(PublishingPlatformError::AccountAlreadyExists);
        }
        let ctx = Initialize { user: self.user };
        match ctx.init(&mut p.marketplace, name, PLATFORM_FEE) {
            Ok(()) => {},
            Err(e) => return Err(PublishingPlatformError::Marketplace(e)),
        }
        p.platform_accounts.create(self.platform_account, PlatformAccount { counter: 0 });
        Ok(())
    }
}

/// The accounts of a user account's creation: the wallet it is for.
pub struct CreateAccount {
    pub user: Address,
}

impl CreateAccount {
    /// The error that creating the account with role code `role` meets, if
    /// any.
    pub open spec fn error(&self, p: Platform, role: u8) -> Option<PublishingPlatformError> {
        let key = user_key(self.user@, role, p.program_id@);
        if role != UserRole::Reader.spec_code() && role != UserRole::Writer.spec_code() {
            Some(PublishingPlatformError::InvalidRole)
        } else if key is None {
            Some(PublishingPlatformError::AddressUnavailable)
        } else if p.users.records().contains_key((key->0).0) {
            Some(PublishingPlatformError::AccountAlreadyExists)
        } else {
            None
        }
    }

    /// Creates the wallet's user account for role code `role`: 0 for a
    /// reader, 1 for a writer. A wallet may hold one account of each role.
    pub fn create_account(&self, p: &mut Platform, role: u8) -> (r: Result<(), PublishingPlatformError>)
        requires
            old(p).wf(),
        ensures
            final(p).wf(),
            match self.error(*old(p), role) {
                Some(e) => r == Err::<(), PublishingPlatformError>(e) && *final(p) == *old(p),
                None => {
                    let (key, bump) = user_key(self.user@, role, old(p).program_id@)->0;
                    let a = final(p).users.records()[key];
                    &&& r is Ok
                    &&& *final(p) == (Platform { users: final(p).users, ..*old(p) })
                    &&& final(p).users.records() == old(p).users.records().insert(key, a)
                    &&& a.role == role
                    &&& a.wallet_address@ == self.user@
                    &&& a.bump == bump
                },
            },
    {
        if role != UserRole::Reader.code() && role != UserRole::Writer.code() {
            return Err(PublishingPlatformError::InvalidRole);
        }
        let (key, bump) = match derive_user(&self.user, role, &p.program_id) {
            Some(found) => found,
            None => return Err(PublishingPlatformError::AddressUnavailable),
        };
        if p.users.contains(&key) {
            return Err(PublishingPlatformError::AccountAlreadyExists);
        }
        p.users.create(key, UserAccount { role, wallet_address: self.user, bump });
        Ok(())
    }
}

/// The accounts of a writer profile's creation: the wallet it is for.
pub struct CreateWriterAccount {
    pub user: Address,
}

impl CreateWriterAccount {
    /// The error that creating the profile meets, if any.
    pub open spec fn error(&self, p: Platform) -> Option<PublishingPlatformError> {
        let key = key_of(Namespace::Writer, self.user@, p.program_id@);
        if key is None {
            Some(PublishingPlatformError::AddressUnavailable)
        } else if p.writers.records().contains_key((key->0).0) {
            Some(PublishingPlatformError::AccountAlreadyExists)
        } else {
            None
        }
    }

    /// Creates the wallet's writer profile, with its counters at zero.
    pub fn create_writer_account(&self, p: &mut Platform) -> (r: Result<(), PublishingPlatformError>)
        requires
            old(p).wf(),
        ensures
            final(p).wf(),
            match self.error(*old(p)) {
                Some(e) => r == Err::<(), PublishingPlatformError>(e) && *final(p) == *old(p),
                None => {
                    let (key, bump) = key_of(Namespace::Writer, self.user@, old(p).program_id@)->0;
                    let a = final(p).writers.records()[key];
                    &&& r is Ok
                    &&& *final(p) == (Platform { writers: final(p).writers, ..*old(p) })
                    &&& final(p).writers.records() == old(p).writers.records().insert(key, a)
                    &&& a.wallet_address@ == self.user@
                    &&& a.bump == bump
                    &&& a.book_count == 0
                    &&& a.total_royalties == 0
                },
            },
    {
        let (key, bump) = match derive_by(Namespace::Writer, &self.user, &p.program_id) {
            Some(found) => found,
            None => return Err(PublishingPlatformError::AddressUnavailable),
        };
        if p.writers.contains(&key) {
            return Err(PublishingPlatformError::AccountAlreadyExists);
        }
        p.writers.create(key, WriterAccount { wallet_address: self.user, bump, book_count: 0, total_royalties: 0 });
        Ok(())
    }
}

/// The accounts of a reader profile's creation: the wallet it is for.
pub struct CreateReaderAccount {
    pub user: Address,
}

impl CreateReaderAccount {
    /// The error that creating the profile meets, if any.
    pub open spec fn error(&self, p: Platform) -> Option<PublishingPlatformError> {
        let key = key_of(Namespace::Reader, self.user@, p.program_id@);
        if key is None {
            Some(PublishingPlatformError::AddressUnavailable)
        } else if p.readers.records().contains_key((key->0).0) {
            Some(PublishingPlatformError::AccountAlreadyExists)
        } else {
            None
        }
    }

    /// Creates the wallet's reader profile, with its counters at zero.
    pub fn create_reader_account(&self, p: &mut Platform) -> (r: Result<(), PublishingPlatformError>)
        requires
            old(p).wf(),
        ensures
            final(p).wf(),
            match self.error(*old(p)) {
                Some(e) => r == Err::<(), PublishingPlatformError>(e) && *final(p) == *old(p),
                None => {
                    let (key, bump) = key_of(Namespace::Reader, self.user@, old(p).program_id@)->0;
                    let a = final(p).readers.records()[key];
                    &&& r is Ok
                    &&& *final(p) == (Platform { readers: final(p).readers, ..*old(p) })
                    &&& final(p).readers.records() == old(p).readers.records().insert(key, a)
                    &&& a.wallet_address@ == self.user@
                    &&& a.bump == bump
                    &&& a.review_count == 0
                    &&& a.total_upvotes == 0
                    &&& a.reputation_score == 0
                },
            },
    {
        let (key, bump) = match derive_by(Namespace::Reader, &self.user, &p.program_id) {
            Some(found) => found,
            None => return Err(PublishingPlatformError::AddressUnavailable),
        };
        if p.readers.contains(&key) {
            return Err(PublishingPlatformError::AccountAlreadyExists);
        }
        let profile = ReaderAccount {
            wallet_address: self.user,
            bump,
            review_count: 0,
            total_upvotes: 0,
            reputation_score: 0,
        };
        p.readers.create(key, profile);
        Ok(())
    }
}

/// A transfer of `amount` lamports from one wallet to another, for the
/// ledger to carry out.
#[derive(Clone, Copy, Debug)]
pub struct TipTransfer {
    pub from: Address,
    pub to: Address,
    pub amount: u64,
}

/// The accounts of a tip: the paying reader and the tipped wallet.
pub struct TipWriter {
    pub reader: Address,
    pub writer: Address,
}

impl TipWriter {
    /// The error that tipping `amount` meets, if any. The writer must hold a
    /// user account of the writer role; one that holds only a reader account
    /// has the wrong role.
    pub open spec fn error(&self, p: Platform, amount: u64) -> Option<PublishingPlatformError> {
        let writer_key = user_key(self.writer@, UserRole::Writer.spec_code(), p.program_id@);
        let reader_key = user_key(self.writer@, UserRole::Reader.spec_code(), p.program_id@);
        if amount == 0 {
            Some(PublishingPlatformError::ZeroTipAmount)
        } else if writer_key is None || reader_key is None {
            Some(PublishingPlatformError::AddressUnavailable)
        } else if p.users.records().contains_key((writer_key->0).0) {
            let account = p.users.records()[(writer_key->0).0];
            if account.role != UserRole::Writer.spec_code() {
                Some(PublishingPlatformError::InvalidWriterRole)
            } else if account.wallet_address@ != self.writer@ {
                Some(PublishingPlatformError::WriterAccountNotFound)
            } else {
                None
            }
        } else if p.users.records().contains_key((reader_key->0).0) {
            Some(PublishingPlatformError::InvalidWriterRole)
        } else {
            Some(PublishingPlatformError::WriterAccountNotFound)
        }
    }

    /// Decides a tip of `amount` to the writer: the transfer to make, from the
    /// reader to the writer, or why there is none. Changes no record.
    pub fn tip_writer(&self, p: &Platform, amount: u64) -> (r: Result<TipTransfer, PublishingPlatformError>)
        requires
            p.wf(),
        ensures
            match self.error(*p, amount) {
                Some(e) => r == Err::<TipTransfer, PublishingPlatformError>(e),
                None => r is Ok && r->Ok_0.from == self.reader && r->Ok_0.to == self.writer && r->Ok_0.amount == amount,
            },
    {
        if amount == 0 {
            return Err(PublishingPlatformError::ZeroTipAmount);
        }
        let writer_key = match derive_user(&self.writer, UserRole::Writer.code(), &p.program_id) {
            Some(found) => found.0,
            None => return Err(PublishingPlatformError::AddressUnavailable),
        };
        let reader_key = match derive_user(&self.writer, UserRole::Reader.code(), &p.program_id) {
            Some(found) => found.0,
            None => return Err(PublishingPlatformError::AddressUnavailable),
        };
        let account = match p.users.get(&writer_key) {
            Some(a) => a,
            None => {
                if p.users.contains(&reader_key) {
                    return Err(PublishingPlatformError::InvalidWriterRole);
                }
                return Err(PublishingPlatformError::WriterAccountNotFound);
            },
        };
        if account.role != UserRole::Writer.code() {
            return Err(PublishingPlatformError::InvalidWriterRole);
        }
        if !account.wallet_address.same_as(&self.writer) {
            return Err(PublishingPlatformError::WriterAccountNotFound);
        }
        Ok(TipTransfer { from: self.reader, to: self.writer, amount })
    }
}

/// The accounts of a book's creation: its writer and its collection mint.
pub struct CreateBook {
    pub writer: Address,
    pub collection_mint: Address,
}

impl CreateBook {
    /// The error that creating the book meets, if any.
    pub open spec fn error(&self, p: Platform, title: Seq<char>, royalties: u8, genre: Seq<char>) -> Option<
        PublishingPlatformError,
    > {
        let key = key_of(Namespace::Book, self.collection_mint@, p.program_id@);
        let profile = key_of(Namespace::Writer, self.writer@, p.program_id@);
        if text_len(title) > MAX_TITLE_LEN {
            Some(PublishingPlatformError::TitleTooLong)
        } else if text_len(genre) > MAX_GENRE_LEN {
            Some(PublishingPlatformError::GenreTooLong)
        } else if royalties > MAX_ROYALTY_PERCENTAGE {
            Some(PublishingPlatformError::InvalidRoyalty)
        } else if key is None || profile is None {
            Some(PublishingPlatformError::AddressUnavailable)
        } else if !p.writers.records().contains_key((profile->0).0) {
            Some(PublishingPlatformError::AccountNotFound)
        } else if p.books.records().contains_key((key->0).0) {
            Some(PublishingPlatformError::AccountAlreadyExists)
        } else if p.writers.records()[(profile->0).0].book_count == u32::MAX {
            Some(PublishingPlatformError::ArithmeticOverflow)
        } else {
            None
        }
    }

    /// Creates the book of the collection, written by the signer, with no
    /// chapter yet, and counts it in the signer's writer profile.
    pub fn create_book(&self, p: &mut Platform, title: String, royalties: u8, genre: String) -> (r: Result<
        (),
        PublishingPlatformError,
    >)
        requires
            old(p).wf(),
        ensures
            final(p).wf(),
            match self.error(*old(p), title@, royalties, genre@) {
                Some(e) => r == Err::<(), PublishingPlatformError>(e) && *final(p) == *old(p),
                None => {
                    let key = (key_of(Namespace::Book, self.collection_mint@, old(p).program_id@)->0).0;
                    let profile = (key_of(Namespace::Writer, self.writer@, old(p).program_id@)->0).0;
                    let b = final(p).books.records()[key];
                    let w = old(p).writers.records()[profile];
                    &&& r is Ok
                    &&& *final(p) == (Platform { books: final(p).books, writers: final(p).writers, ..*old(p) })
                    &&& final(p).writers.records() == old(p).writers.records().insert(
                        profile,
                        WriterAccount { book_count: (w.book_count + 1) as u32, ..w },
                    )
                    &&& final(p).books.records() == old(p).books.records().insert(key, b)
                    &&& b.title@ == title@
                    &&& b.author == self.writer
                    &&& b.chapter_count == 0
                    &&& b.genre@ == genre@
                    &&& b.royalty_percentage == royalties
                    &&& b.total_sales == 0
                    &&& b.review_score == 0
                    &&& b.collection_mint == self.collection_mint
                },
            },
    {
        if byte_len(&title) > MAX_TITLE_LEN {
            return Err(PublishingPlatformError::TitleTooLong);
        }
        if byte_len(&genre) > MAX_GENRE_LEN {
            return Err(PublishingPlatformError::GenreTooLong);
        }
        if royalties > MAX_ROYALTY_PERCENTAGE {
            return Err(PublishingPlatformError::InvalidRoyalty);
        }
        let key = match derive_by(Namespace::Book, &self.collection_mint, &p.program_id) {
            Some(found) => found.0,
            None => return Err(PublishingPlatformError::AddressUnavailable),
        };
        let profile = match derive_by(Namespace::Writer, &self.writer, &p.program_id) {
            Some(found) => found.0,
            None => return Err(PublishingPlatformError::AddressUnavailable),
        };
        let wi = match p.writers.find(&profile) {
            Some(i) => i,
            None => return Err(PublishingPlatformError::AccountNotFound),
        };
        if p.books.contains(&key) {
            return Err(PublishingPlatformError::AccountAlreadyExists);
        }
        let book_count = match p.writers.entries[wi].1.book_count.checked_add(1) {
            Some(c) => c,
            None => return Err(PublishingPlatformError::ArithmeticOverflow),
        };
        let ghost writers_before = p.writers;
        let writer = p.writers.record_mut(wi);
        writer.book_count = book_count;
        proof {
            writers_before.lemma_set(&p.writers, wi as int, p.writers.entries@[wi as int].1);
        }
        let book = Book {
            title,
            author: self.writer,
            chapter_count: 0,
            genre,
            royalty_percentage: royalties,
            total_sales: 0,
            review_score: 0,
            collection_mint: self.collection_mint,
        };
        p.books.create(key, book);
        Ok(())
    }
}

/// The accounts of a chapter's addition: the book's author, the chapter's
/// own NFT mint, and the book's collection mint.
pub struct AddChapter {
    pub writer: Address,
    pub chapter_mint: Address,
    pub book_collection: Address,
}

/// The chapter count that follows `count`, or `None` where the counter is
/// full.
pub open spec fn next_chapter_count(count: u8) -> Option<u8> {
    if count == u8::MAX {
        None
    } else {
        Some((count + 1) as u8)
    }
}

impl AddChapter {
    /// The error that adding the chapter meets, if any.
    pub open spec fn error(&self, p: Platform, title: Seq<char>, content_uri: Seq<char>) -> Option<
        PublishingPlatformError,
    > {
        let book_key = key_of(Namespace::Book, self.book_collection@, p.program_id@);
        let chapter_key = key_of(Namespace::Chapter, self.chapter_mint@, p.program_id@);
        if text_len(title) > MAX_TITLE_LEN {
            Some(PublishingPlatformError::TitleTooLong)
        } else if text_len(content_uri) > MAX_URI_LEN {
            Some(PublishingPlatformError::ContentUriTooLong)
        } else if book_key is None || chapter_key is None {
            Some(PublishingPlatformError::AddressUnavailable)
        } else if !p.books.records().contains_key((book_key->0).0) {
            Some(PublishingPlatformError::AccountNotFound)
        } else if p.books.records()[(book_key->0).0].author@ != self.writer@ {
            Some(PublishingPlatformError::UnauthorizedWriter)
        } else if p.chapters.records().contains_key((chapter_key->0).0) {
            Some(PublishingPlatformError::AccountAlreadyExists)
        } else if next_chapter_count(p.books.records()[(book_key->0).0].chapter_count) is None {
            Some(PublishingPlatformError::ChapterLimitExceeded)
        } else {
            None
        }
    }

    /// Adds the next chapter of the book: the book's count goes up by one and
    /// the new chapter, at the address of its mint, carries that number.
    pub fn add_chapter(&self, p: &mut Platform, title: String, content_uri: String) -> (r: Result<
        (),
        PublishingPlatformError,
    >)
        requires
            old(p).wf(),
        ensures
            final(p).wf(),
            match self.error(*old(p), title@, content_uri@) {
                Some(e) => r == Err::<(), PublishingPlatformError>(e) && *final(p) == *old(p),
                None => {
                    let book_key = (key_of(Namespace::Book, self.book_collection@, old(p).program_id@)->0).0;
                    let chapter_key = (key_of(Namespace::Chapter, self.chapter_mint@, old(p).program_id@)->0).0;
                    let before = old(p).books.records()[book_key];
                    let b = final(p).books.records()[book_key];
                    let c = final(p).chapters.records()[chapter_key];
                    &&& r is Ok
                    &&& *final(p) == (Platform { books: final(p).books, chapters: final(p).chapters, ..*old(p) })
                    &&& final(p).books.records() == old(p).books.records().insert(book_key, b)
                    &&& b == (Book { chapter_count: b.chapter_count, ..before })
                    &&& b.chapter_count == before.chapter_count + 1
                    &&& final(p).chapters.records() == old(p).chapters.records().insert(chapter_key, c)
                    &&& c.title@ == title@
                    &&& c.content_uri@ == content_uri@
                    &&& c.author == self.writer
                    &&& c.book_collection == self.book_collection
                    &&& c.chapter_mint == self.chapter_mint
                    &&& c.chapter_number == b.chapter_count
                    &&& !c.is_exclusive
                    &&& c.review_count == 0
                    &&& c.rating == 0
                    &&& c.rating_total == 0
                },
            },
    {
        if byte_len(&title) > MAX_TITLE_LEN {
            return Err(PublishingPlatformError::TitleTooLong);
        }
        if byte_len(&content_uri) > MAX_URI_LEN {
            return Err(PublishingPlatformError::ContentUriTooLong);
        }
        let book_key = match derive_by(Namespace::Book, &self.book_collection, &p.program_id) {
            Some(found) => found.0,
            None => return Err(PublishingPlatformError::AddressUnavailable),
        };
        let chapter_key = match derive_by(Namespace::Chapter, &self.chapter_mint, &p.program_id) {
            Some(found) => found.0,
            None => return Err(PublishingPlatformError::AddressUnavailable),
        };
        let i = match p.books.find(&book_key) {
            Some(i) => i,
            None => return Err(PublishingPlatformError::AccountNotFound),
        };
        if !p.books.entries[i].1.author.same_as(&self.writer) {
            return Err(PublishingPlatformError::UnauthorizedWriter);
        }
        if p.chapters.contains(&chapter_key) {
            return Err(PublishingPlatformError::AccountAlreadyExists);
        }
        let count = match p.books.entries[i].1.chapter_count.checked_add(1) {
            Some(c) => c,
            None => return Err(PublishingPlatformError::ChapterLimitExceeded),
        };
        let ghost books_before = p.books;
        let book = p.books.record_mut(i);
        book.chapter_count = count;
        proof {
            books_before.lemma_set(&p.books, i as int, p.books.entries@[i as int].1);
        }
        let chapter = Chapter {
            title,
            content_uri,
            author: self.writer,
            book_collection: self.book_collection,
            chapter_number: count,
            is_exclusive: false,
            review_count: 0,
            rating: 0,
            rating_total: 0,
            chapter_mint: self.chapter_mint,
        };
        p.chapters.create(chapter_key, chapter);
        Ok(())
    }
}

/// The accounts of an exclusive content's creation: its author and the
/// collection whose holders may read it.
pub struct CreateExclusiveContent {
    pub author: Address,
    pub collection_mint: Address,
}

impl CreateExclusiveContent {
    /// The error that creating the content meets, if any.
    pub open spec fn error(&self, p: Platform, content_uri: Seq<char>) -> Option<PublishingPlatformError> {
        let key = program_address(seeds_of(Namespace::Exclusive, seq![self.author@, self.collection_mint@]), p.program_id@);
        if text_len(content_uri) > MAX_URI_LEN {
            Some(PublishingPlatformError::ContentUriTooLong)
        } else if key is None {
            Some(PublishingPlatformError::AddressUnavailable)
        } else if p.exclusive_contents.records().contains_key((key->0).0) {
            Some(PublishingPlatformError::AccountAlreadyExists)
        } else {
            None
        }
    }
}

/// Creates the author's exclusive content for holders of the collection,
/// active and stamped with `now`, the ledger's clock in Unix seconds.
pub fn create_exclusive_content(ctx: &CreateExclusiveContent, p: &mut Platform, content_uri: String, now: i64) -> (r:
    Result<(), PublishingPlatformError>)
    requires
        old(p).wf(),
    ensures
        final(p).wf(),
        match ctx.error(*old(p), content_uri@) {
            Some(e) => r == Err::<(), PublishingPlatformError>(e) && *final(p) == *old(p),
            None => {
                let key = (program_address(
                    seeds_of(Namespace::Exclusive, seq![ctx.author@, ctx.collection_mint@]),
                    old(p).program_id@,
                )->0).0;
                let x = final(p).exclusive_contents.records()[key];
                &&& r is Ok
                &&& *final(p) == (Platform { exclusive_contents: final(p).exclusive_contents, ..*old(p) })
                &&& final(p).exclusive_contents.records() == old(p).exclusive_contents.records().insert(key, x)
                &&& x.author == ctx.author
                &&& x.required_collection == ctx.collection_mint
                &&& x.content_uri@ == content_uri@
                &&& x.is_active
                &&& x.created_at == now
            },
        },
{
    if byte_len(&content_uri) > MAX_URI_LEN {
        return Err(PublishingPlatformError::ContentUriTooLong);
    }
    let key = match derive_by_pair(Namespace::Exclusive, &ctx.author, &ctx.collection_mint, &p.program_id) {
        Some(found) => found.0,
        None => return Err(PublishingPlatformError::AddressUnavailable),
    };
    if p.exclusive_contents.contains(&key) {
        return Err(PublishingPlatformError::AccountAlreadyExists);
    }
    let content = ExclusiveContent {
        author: ctx.author,
        required_collection: ctx.collection_mint,
        content_uri,
        is_active: true,
        created_at: now,
    };
    p.exclusive_contents.create(key, content);
    Ok(())
}

/// The accounts of an access check: the reader, the exclusive content's
/// address, and the reader's holding of a chapter's NFT.
pub struct VerifyAccess {
    pub reader: Address,
    pub exclusive_content: Address,
    pub chapter_ata: TokenHolding,
}

impl VerifyAccess {
    /// The error that the access check meets, if any: the records must exist,
    /// and the reader must hold the chapter's NFT, whose book collection is
    /// the one the content requires.
    pub open spec fn error(&self, p: Platform) -> Option<PublishingPlatformError> {
        let chapter_key = key_of(Namespace::Chapter, self.chapter_ata.mint@, p.program_id@);
        if !p.exclusive_contents.records().contains_key(self.exclusive_content@) {
            Some(PublishingPlatformError::AccountNotFound)
        } else if chapter_key is None {
            Some(PublishingPlatformError::AddressUnavailable)
        } else if !p.chapters.records().contains_key((chapter_key->0).0) {
            Some(PublishingPlatformError::AccountNotFound)
        } else {
            ownership_error(
                self.reader@,
                self.chapter_ata,
                p.chapters.records()[(chapter_key->0).0].book_collection@,
                p.exclusive_contents.records()[self.exclusive_content@].required_collection@,
            )
        }
    }

    /// The exclusive content's URI, disclosed only when the check passes.
    pub fn verify_access(&self, p: &Platform) -> (r: Result<String, PublishingPlatformError>)
        requires
            p.wf(),
        ensures
            match self.error(*p) {
                Some(e) => r == Err::<String, PublishingPlatformError>(e),
                None => r is Ok && r->Ok_0@ == p.exclusive_contents.records()[self.exclusive_content@].content_uri@,
            },
    {
        let content = match p.exclusive_contents.get(&self.exclusive_content) {
            Some(c) => c,
            None => return Err(PublishingPlatformError::AccountNotFound),
        };
        let chapter_key = match derive_by(Namespace::Chapter, &self.chapter_ata.mint, &p.program_id) {
            Some(found) => found.0,
            None => return Err(PublishingPlatformError::AddressUnavailable),
        };
        let chapter = match p.chapters.get(&chapter_key) {
            Some(c) => c,
            None => return Err(PublishingPlatformError::AccountNotFound),
        };
        verify_access(&self.reader, content, &self.chapter_ata, &chapter.book_collection)
    }
}

/// `after` is the chapter `before` once a review rating it `rating` is
/// counted: one more review, the rating added to the total, and the rating
/// recomputed as the truncated mean; no counter overflows.
pub open spec fn reviewed(before: Chapter, after: Chapter, rating: u8) -> bool {
    &&& before.rating_total + rating <= u32::MAX
    &&& before.review_count + 1 <= u32::MAX
    &&& after == (Chapter {
        review_count: (before.review_count + 1) as u32,
        rating_total: (before.rating_total + rating) as u32,
        rating: ((before.rating_total + rating) / (before.review_count + 1)) as u8,
        ..before
    })
}

/// The accounts of a review: the reviewing wallet, and its holding of the
/// chapter's NFT, which locates the chapter.
pub struct SubmitReview {
    pub reviewer: Address,
    pub chapter_ata: TokenHolding,
}

impl SubmitReview {
    /// The address of the reviewing wallet's reader profile.
    pub open spec fn reader_key(&self, p: Platform) -> Option<(Seq<u8>, u8)> {
        key_of(Namespace::Reader, self.reviewer@, p.program_id@)
    }

    /// The address of the reviewed chapter.
    pub open spec fn chapter_key(&self, p: Platform) -> Option<(Seq<u8>, u8)> {
        key_of(Namespace::Chapter, self.chapter_ata.mint@, p.program_id@)
    }

    /// The address of the review, one per wallet and chapter.
    pub open spec fn review_key(&self, p: Platform) -> Option<(Seq<u8>, u8)> {
        program_address(
            seeds_of(Namespace::Review, seq![self.reviewer@, (self.chapter_key(p)->0).0]),
            p.program_id@,
        )
    }

    /// The error that the review meets, if any.
    pub open spec fn error(&self, p: Platform, content: Seq<char>, rating: u8) -> Option<PublishingPlatformError> {
        if rating < MIN_RATING || rating > MAX_RATING {
            Some(PublishingPlatformError::InvalidRating)
        } else if text_len(content) > MAX_REVIEW_LEN {
            Some(PublishingPlatformError::ReviewTooLong)
        } else if self.reader_key(p) is None || self.chapter_key(p) is None {
            Some(PublishingPlatformError::AddressUnavailable)
        } else if !p.readers.records().contains_key((self.reader_key(p)->0).0) {
            Some(PublishingPlatformError::AccountNotFound)
        } else if !p.chapters.records().contains_key((self.chapter_key(p)->0).0) {
            Some(PublishingPlatformError::AccountNotFound)
        } else if self.review_key(p) is None {
            Some(PublishingPlatformError::AddressUnavailable)
        } else if p.reviews.records().contains_key((self.review_key(p)->0).0) {
            Some(PublishingPlatformError::AccountAlreadyExists)
        } else {
            let reader = p.readers.records()[(self.reader_key(p)->0).0];
            let chapter = p.chapters.records()[(self.chapter_key(p)->0).0];
            if reader.review_count + 1 > u32::MAX || reader.reputation_score + REVIEW_REPUTATION > u64::MAX
                || chapter.review_count + 1 > u32::MAX || chapter.rating_total + rating > u32::MAX {
                Some(PublishingPlatformError::ArithmeticOverflow)
            } else {
                None
            }
        }
    }

    /// `after` is `before` with the review recorded: the review created, the
    /// reader's counters raised, and the chapter's rating recomputed.
    pub open spec fn submitted(&self, before: Platform, after: Platform, content: Seq<char>, rating: u8, now: i64) -> bool {
        let reader_key = (self.reader_key(before)->0).0;
        let chapter_key = (self.chapter_key(before)->0).0;
        let review_key = (self.review_key(before)->0).0;
        let reader = before.readers.records()[reader_key];
        let reader_after = after.readers.records()[reader_key];
        let chapter = before.chapters.records()[chapter_key];
        let v = after.reviews.records()[review_key];
        &&& after == (Platform {
            readers: after.readers,
            chapters: after.chapters,
            reviews: after.reviews,
            ..before
        })
        &&& after.reviews.records() == before.reviews.records().insert(review_key, v)
        &&& v.reviewer == self.reviewer
        &&& v.chapter@ == chapter_key
        &&& v.book_collection == chapter.book_collection
        &&& v.content@ == content
        &&& v.rating == rating
        &&& v.upvotes == 0
        &&& v.created_at == now
        &&& after.readers.records() == before.readers.records().insert(reader_key, reader_after)
        &&& reader_after == (ReaderAccount {
            review_count: (reader.review_count + 1) as u32,
            reputation_score: (reader.reputation_score + REVIEW_REPUTATION) as u64,
            ..reader
        })
        &&& after.chapters.records() == before.chapters.records().insert(
            chapter_key,
            after.chapters.records()[chapter_key],
        )
        &&& reviewed(chapter, after.chapters.records()[chapter_key], rating)
    }

    /// Records a review of the chapter with `rating` and `content`, stamped
    /// with `now`, the ledger's clock in Unix seconds.
    pub fn submit_review(&self, p: &mut Platform, content: String, rating: u8, now: i64) -> (r: Result<
        (),
        PublishingPlatformError,
    >)
        requires
            old(p).wf(),
        ensures
            final(p).wf(),
            match self.error(*old(p), content@, rating) {
                Some(e) => r == Err::<(), PublishingPlatformError>(e) && *final(p) == *old(p),
                None => r is Ok && self.submitted(*old(p), *final(p), content@, rating, now),
            },
    {
        if rating < MIN_RATING || rating > MAX_RATING {
            return Err(PublishingPlatformError::InvalidRating);
        }
        if byte_len(&content) > MAX_REVIEW_LEN {
            return Err(PublishingPlatformError::ReviewTooLong);
        }
        let reader_key = match derive_by(Namespace::Reader, &self.reviewer, &p.program_id) {
            Some(found) => found.0,
            None => return Err(PublishingPlatformError::AddressUnavailable),
        };
        let chapter_key = match derive_by(Namespace::Chapter, &self.chapter_ata.mint, &p.program_id) {
            Some(found) => found.0,
            None => return Err(PublishingPlatformError::AddressUnavailable),
        };
        let ri = match p.readers.find(&reader_key) {
            Some(i) => i,
            None => return Err(PublishingPlatformError::AccountNotFound),
        };
        let ci = match p.chapters.find(&chapter_key) {
            Some(i) => i,
            None => return Err(PublishingPlatformError::AccountNotFound),
        };
        let review_key = match derive_by_pair(Namespace::Review, &self.reviewer, &chapter_key, &p.program_id) {
            Some(found) => found.0,
            None => return Err(PublishingPlatformError::AddressUnavailable),
        };
        if p.reviews.contains(&review_key) {
            return Err(PublishingPlatformError::AccountAlreadyExists);
        }
        let reader_count = match p.readers.entries[ri].1.review_count.checked_add(1) {
            Some(c) => c,
            None => return Err(PublishingPlatformError::ArithmeticOverflow),
        };
        let reputation = match p.readers.entries[ri].1.reputation_score.checked_add(REVIEW_REPUTATION) {
            Some(s) => s,
            None => return Err(PublishingPlatformError::ArithmeticOverflow),
        };
        let review_count = match p.chapters.entries[ci].1.review_count.checked_add(1) {
            Some(c) => c,
            None => return Err(PublishingPlatformError::ArithmeticOverflow),
        };
        let total = match p.chapters.entries[ci].1.rating_total.checked_add(rating as u32) {
            Some(t) => t,
            None => return Err(PublishingPlatformError::ArithmeticOverflow),
        };
        let ghost chapter_before = p.chapters.entries@[ci as int].1;
        proof {
            assert(chapter_ok(p.chapters.records()[chapter_key@]));
            assert(total <= 5 * review_count);
            assert(total / review_count <= 5) by (nonlinear_arith)
                requires
                    total <= 5 * review_count,
                    review_count > 0,
            ;
        }
        let mean = (total / review_count) as u8;
        let review = Review {
            reviewer: self.reviewer,
            chapter: chapter_key,
            book_collection: p.chapters.entries[ci].1.book_collection,
            content,
            rating,
            upvotes: 0,
            created_at: now,
        };
        let ghost readers_before = p.readers;
        let reader = p.readers.record_mut(ri);
        reader.review_count = reader_count;
        reader.reputation_score = reputation;
        proof {
            readers_before.lemma_set(&p.readers, ri as int, p.readers.entries@[ri as int].1);
        }
        let ghost chapters_before = p.chapters;
        let chapter = p.chapters.record_mut(ci);
        chapter.review_count = review_count;
        chapter.rating_total = total;
        chapter.rating = mean;
        proof {
            chapters_before.lemma_set(&p.chapters, ci as int, p.chapters.entries@[ci as int].1);
        }
        p.reviews.create(review_key, review);
        Ok(())
    }
}

impl SubmitReview {
    /// The error that a review under the holders-only policy meets, if any:
    /// the reviewing wallet must hold a positive balance of the chapter's
    /// NFT, which is the asset that locates the chapter; past that, as under
    /// the open policy.
    pub open spec fn holder_error(&self, p: Platform, content: Seq<char>, rating: u8) -> Option<
        PublishingPlatformError,
    > {
        if self.chapter_ata.owner@ != self.reviewer@ || self.chapter_ata.amount == 0 {
            Some(PublishingPlatformError::NoNftOwnership)
        } else {
            self.error(p, content, rating)
        }
    }

    /// Records a review as `submit_review` does, under the policy that only
    /// holders of the chapter's NFT may review it.
    pub fn submit_review_as_holder(&self, p: &mut Platform, content: String, rating: u8, now: i64) -> (r: Result<
        (),
        PublishingPlatformError,
    >)
        requires
            old(p).wf(),
        ensures
            final(p).wf(),
            match self.holder_error(*old(p), content@, rating) {
                Some(e) => r == Err::<(), PublishingPlatformError>(e) && *final(p) == *old(p),
                None => r is Ok && self.submitted(*old(p), *final(p), content@, rating, now),
            },
    {
        if !self.chapter_ata.owner.same_as(&self.reviewer) || self.chapter_ata.amount == 0 {
            return Err(PublishingPlatformError::NoNftOwnership);
        }
        self.submit_review(p, content, rating, now)
    }
}

/// The accounts of a content upload: the writer, the mint of the new
/// collection, and the mint of the NFT that represents the content.
pub struct UploadContent {
    pub writer: Address,
    pub collection_mint: Address,
    pub nft_mint: Address,
}

impl UploadContent {
    /// The error that the upload meets, if any.
    pub open spec fn error(&self, p: Platform) -> Option<PublishingPlatformError> {
        match p.minter.create_collection_error(self.collection_mint@) {
            Some(e) => Some(PublishingPlatformError::Minter(e)),
            None => if p.minter.nfts.records().contains_key(self.nft_mint@) {
                Some(PublishingPlatformError::Minter(MinterError::NftExists))
            } else {
                None
            },
        }
    }

    /// Asks the minter to create the writer's collection; returns the order
    /// for the mint primitive.
    pub fn call_create_collection(&self, p: &mut Platform) -> (r: Result<MintOrder, PublishingPlatformError>)
        requires
            old(p).wf(),
        ensures
            final(p).wf(),
            *final(p) == (Platform { minter: final(p).minter, ..*old(p) }),
            match old(p).minter.create_collection_error(self.collection_mint@) {
                Some(e) => r == Err::<MintOrder, PublishingPlatformError>(PublishingPlatformError::Minter(e))
                    && *final(p) == *old(p),
                None => {
                    &&& r is Ok
                    &&& old(p).minter.collection_created(final(p).minter, self.writer@, self.collection_mint@)
                    &&& r->Ok_0.mint@ == self.collection_mint@
                    &&& r->Ok_0.authority@ == (old(p).minter.authority()->0).0
                    &&& r->Ok_0.destination@ == self.writer@
                    &&& r->Ok_0.amount == 1
                },
            },
    {
        match create_collection(&mut p.minter, &self.writer, &self.collection_mint) {
            Ok(order) => Ok(order),
            Err(e) => Err(PublishingPlatformError::Minter(e)),
        }
    }

    /// Asks the minter to mint the content's NFT into the collection, held by
    /// the writer; returns the order for the mint primitive. The content type
    /// is not recorded.
    pub fn call_mint_nft(
        &self,
        p: &mut Platform,
        ipfs_cid: String,
        title: String,
        symbol: String,
        royalties: u16,
        content_type: String,
    ) -> (r: Result<MintOrder, PublishingPlatformError>)
        requires
            old(p).wf(),
        ensures
            final(p).wf(),
            *final(p) == (Platform { minter: final(p).minter, ..*old(p) }),
            match old(p).minter.mint_nft_error(self.nft_mint@, self.collection_mint@) {
                Some(e) => r == Err::<MintOrder, PublishingPlatformError>(PublishingPlatformError::Minter(e))
                    && *final(p) == *old(p),
                None => {
                    &&& r is Ok
                    &&& old(p).minter.nft_minted(
                        final(p).minter,
                        self.writer@,
                        self.nft_mint@,
                        self.collection_mint@,
                        ipfs_cid@,
                        title@,
                        symbol@,
                        royalties,
                    )
                    &&& r->Ok_0.mint@ == self.nft_mint@
                    &&& r->Ok_0.authority@ == (old(p).minter.authority()->0).0
                    &&& r->Ok_0.destination@ == self.writer@
                    &&& r->Ok_0.uri@ == ipfs_cid@
                    &&& r->Ok_0.title@ == title@
                    &&& r->Ok_0.symbol@ == symbol@
                    &&& r->Ok_0.royalties == royalties
                    &&& r->Ok_0.amount == 1
                },
            },
    {
        match mint_nft(&mut p.minter, &self.writer, &self.nft_mint, &self.collection_mint, ipfs_cid, title, symbol, royalties) {
            Ok(order) => Ok(order),
            Err(e) => Err(PublishingPlatformError::Minter(e)),
        }
    }

    /// The listing step of an upload, which records nothing of its own.
    pub fn list_content(&self, p: &Platform) -> (r: Result<(), PublishingPlatformError>)
        ensures
            r is Ok,
    {
        Ok(())
    }

    /// Uploads content: creates the collection, mints the content's NFT into
    /// it, and lists it, all or nothing. Returns the two orders for the mint
    /// primitive, the collection's first.
    pub fn upload_content(
        &self,
        p: &mut Platform,
        content_id: String,
        title: String,
        symbol: String,
        royalties: u16,
        content_type: String,
    ) -> (r: Result<(MintOrder, MintOrder), PublishingPlatformError>)
        requires
            old(p).wf(),
        ensures
            final(p).wf(),
            match self.error(*old(p)) {
                Some(e) => r == Err::<(MintOrder, MintOrder), PublishingPlatformError>(e) && *final(p) == *old(p),
                None => {
                    let authority = (old(p).minter.authority()->0).0;
                    let c = final(p).minter.collections.records()[self.collection_mint@];
                    let n = final(p).minter.nfts.records()[self.nft_mint@];
                    let (collection_order, nft_order) = r->Ok_0;
                    &&& r is Ok
                    &&& *final(p) == (Platform { minter: final(p).minter, ..*old(p) })
                    &&& final(p).minter.program_id == old(p).minter.program_id
                    &&& final(p).minter.collections.records() == old(p).minter.collections.records().insert(
                        self.collection_mint@,
                        c,
                    )
                    &&& c.creator@ == self.writer@
                    &&& c.mint@ == self.collection_mint@
                    &&& c.authority@ == authority
                    &&& final(p).minter.nfts.records() == old(p).minter.nfts.records().insert(self.nft_mint@, n)
                    &&& n.mint@ == self.nft_mint@
                    &&& n.collection@ == self.collection_mint@
                    &&& n.owner@ == self.writer@
                    &&& n.uri@ == content_id@
                    &&& n.title@ == title@
                    &&& n.symbol@ == symbol@
                    &&& n.royalties == royalties
                    &&& !n.verified
                    &&& collection_order.mint@ == self.collection_mint@
                    &&& collection_order.authority@ == authority
                    &&& collection_order.destination@ == self.writer@
                    &&& collection_order.amount == 1
                    &&& nft_order.mint@ == self.nft_mint@
                    &&& nft_order.authority@ == authority
                    &&& nft_order.destination@ == self.writer@
                    &&& nft_order.uri@ == content_id@
                    &&& nft_order.title@ == title@
                    &&& nft_order.symbol@ == symbol@
                    &&& nft_order.royalties == royalties
                    &&& nft_order.amount == 1
                },
            },
    {
        if p.minter.derive_authority().is_none() {
            return Err(PublishingPlatformError::Minter(MinterError::AddressUnavailable));
        }
        if p.minter.collections.contains(&self.collection_mint) {
            return Err(PublishingPlatformError::Minter(MinterError::CollectionExists));
        }
        if p.minter.nfts.contains(&self.nft_mint) {
            return Err(PublishingPlatformError::Minter(MinterError::NftExists));
        }
        let ghost before = *p;
        let created = self.call_create_collection(p);
        let ghost mid = *p;
        let collection_order = match created {
            Ok(order) => order,
            Err(e) => return Err(e),
        };
        assert(mid.minter.collections.records().contains_key(self.collection_mint@));
        assert(mid.minter.authority() == before.minter.authority());
        let minted = self.call_mint_nft(p, content_id, title, symbol, royalties, content_type);
        let nft_order = match minted {
            Ok(order) => order,
            Err(e) => return Err(e),
        };
        assert(mid.minter.collections.records()[self.collection_mint@] == p.minter.collections.records()[self.collection_mint@]);
        match self.list_content(p) {
            Ok(()) => Ok((collection_order, nft_order)),
            Err(e) => Err(e),
        }
    }
}

} // verus!
