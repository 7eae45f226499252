use anchor_lang::solana_program::pubkey::Pubkey;
use publishing_platform::access::verify_access;
use publishing_platform::state::ExclusiveContent;
use publishing_platform::address::{derive_by, Address, Namespace};
use publishing_platform::errors::PublishingPlatformError;
use publishing_platform::marketplace::{Initialize, MarketplaceError, MarketplaceProgram};
use publishing_platform::minter::{create_collection, mint_nft, verify_collection, MinterError, MinterProgram};
use publishing_platform::platform::{
    create_exclusive_content, AddChapter, CreateAccount, CreateBook, CreateExclusiveContent, CreateReaderAccount,
    CreateWriterAccount, InitializePlatform, Platform, derive_user, SubmitReview, TipWriter, UploadContent, VerifyAccess,
    PLATFORM_FEE,
};
use publishing_platform::state::TokenHolding;

fn addr(n: u8) -> Address {
    let mut bytes = [0u8; 32];
    bytes[0] = n;
    bytes[31] = 0xA5;
    Address::new(bytes)
}

fn platform() -> Platform {
    Platform::new(addr(200), addr(201), addr(202))
}

fn key(ns: Namespace, k: &Address, program: &Address) -> Address {
    derive_by(ns, k, program).expect("derivable").0
}

fn writer_with_book(p: &mut Platform, wallet: &Address, collection: &Address) {
    let ctx = CreateAccount { user: *wallet };
    ctx.create_account(p, 1).unwrap();
    CreateWriterAccount { user: *wallet }.create_writer_account(p).unwrap();
    let book = CreateBook { writer: *wallet, collection_mint: *collection };
    book.create_book(p, String::from("Dune"), 10, String::from("SciFi")).unwrap();
}

fn add(p: &mut Platform, wallet: &Address, collection: &Address, mint: &Address) -> Result<(), PublishingPlatformError> {
    let ctx = AddChapter { writer: *wallet, chapter_mint: *mint, book_collection: *collection };
    ctx.add_chapter(p, String::from("Ch1"), String::from("uri://1"))
}

fn chapter_mint(i: u32) -> Address {
    let mut bytes = [7u8; 32];
    bytes[0] = (i & 0xff) as u8;
    bytes[1] = (i >> 8) as u8;
    Address::new(bytes)
}

#[test]
fn derivation_is_reproducible_and_keyed() {
    let program = addr(200);
    let a = derive_by(Namespace::Book, &addr(1), &program).unwrap();
    let b = derive_by(Namespace::Book, &addr(1), &program).unwrap();
    assert_eq!(a.0, b.0);
    assert_eq!(a.1, b.1);
    assert_ne!(a.0, addr(1));
    let c = derive_by(Namespace::Chapter, &addr(1), &program).unwrap();
    assert_ne!(a.0, c.0);
    let d = derive_by(Namespace::Book, &addr(2), &program).unwrap();
    assert_ne!(a.0, d.0);
}

#[test]
fn address_equality_compares_bytes() {
    assert!(addr(3).same_as(&addr(3)));
    assert!(!addr(3).same_as(&addr(4)));
    assert_eq!(addr(3).to_seed().len(), 32);
    assert_eq!(Namespace::Book.tag_bytes(), b"book".to_vec());
    assert_eq!(Namespace::Marketplace.tag_bytes(), b"marketplace".to_vec());
}

#[test]
fn marketplace_initialize_then_again_fails() {
    let mut m = MarketplaceProgram::new(addr(201));
    let ctx = Initialize { user: addr(1) };
    assert_eq!(ctx.init(&mut m, String::from("books"), 65535), Ok(()));
    let mut parts = Vec::new();
    parts.push(b"books".to_vec());
    let (k, bump) = publishing_platform::address::derive_seeds(Namespace::Marketplace, parts, &addr(201)).unwrap();
    let record = m.marketplaces.get(&k).expect("stored at the derived address");
    assert_eq!(record.fee, 65535);
    assert_eq!(record.name, "books");
    assert_eq!(record.bump, bump);
    assert_eq!(record.admin, key_none(Namespace::Admin, &addr(201)));
    let treasury = derive_by(Namespace::Treasury, &k, &addr(201)).unwrap();
    assert_eq!(record.treasury_bump, treasury.1);
    let t = m.treasuries.get(&treasury.0).expect("treasury stored beside the marketplace");
    assert_eq!(t.marketplace, k);
    assert_eq!(t.bump, treasury.1);
    assert_eq!(ctx.init(&mut m, String::from("books"), 0), Err(MarketplaceError::AlreadyInitialized));
    assert_eq!(m.marketplaces.entries.len(), 1);
    assert_eq!(m.treasuries.entries.len(), 1);
}

fn key_none(ns: Namespace, program: &Address) -> Address {
    publishing_platform::address::derive_seeds(ns, Vec::new(), program).unwrap().0
}

#[test]
fn marketplace_name_limits() {
    let mut m = MarketplaceProgram::new(addr(201));
    let ctx = Initialize { user: addr(1) };
    assert_eq!(ctx.init(&mut m, String::new(), 5), Err(MarketplaceError::NameTooLong));
    assert_eq!(ctx.init(&mut m, "x".repeat(33), 5), Err(MarketplaceError::NameTooLong));
    assert_eq!(ctx.init(&mut m, "x".repeat(32), 5), Ok(()));
    assert_eq!(ctx.init(&mut m, String::from("a"), 0), Ok(()));
    assert_eq!(m.marketplaces.entries.len(), 2);
}

#[test]
fn platform_genesis_creates_both_records() {
    let mut p = platform();
    let ctx = InitializePlatform { user: addr(1), platform_account: addr(50) };
    assert_eq!(ctx.initialize_platform(&mut p, String::from("publishing")), Ok(()));
    assert_eq!(p.platform_accounts.get(&addr(50)).unwrap().counter, 0);
    assert_eq!(p.marketplace.marketplaces.entries.len(), 1);
    assert_eq!(p.marketplace.marketplaces.entries[0].1.fee, PLATFORM_FEE);
    assert_eq!(ctx.initialize_platform(&mut p, String::from("other")), Err(PublishingPlatformError::AccountAlreadyExists));
    let second = InitializePlatform { user: addr(1), platform_account: addr(51) };
    assert_eq!(
        second.initialize_platform(&mut p, String::from("publishing")),
        Err(PublishingPlatformError::Marketplace(MarketplaceError::AlreadyInitialized))
    );
    assert_eq!(p.platform_accounts.entries.len(), 1);
}

#[test]
fn accounts_are_one_per_wallet_and_role() {
    let mut p = platform();
    let w = addr(1);
    assert_eq!(CreateAccount { user: w }.create_account(&mut p, 1), Ok(()));
    assert_eq!(CreateAccount { user: w }.create_account(&mut p, 1), Err(PublishingPlatformError::AccountAlreadyExists));
    assert_eq!(CreateAccount { user: w }.create_account(&mut p, 0), Ok(()));
    assert_eq!(CreateAccount { user: w }.create_account(&mut p, 0), Err(PublishingPlatformError::AccountAlreadyExists));
    assert_eq!(CreateAccount { user: w }.create_account(&mut p, 2), Err(PublishingPlatformError::InvalidRole));
    assert_eq!(p.users.entries.len(), 2);
    let writer_key = derive_user(&w, 1, &p.program_id).unwrap();
    let stored = p.users.get(&writer_key.0).unwrap();
    assert_eq!(stored.role, 1);
    assert_eq!(stored.wallet_address, w);
    assert_eq!(stored.bump, writer_key.1);
    let reader_key = derive_user(&w, 0, &p.program_id).unwrap().0;
    assert_ne!(reader_key, writer_key.0);
    assert_eq!(p.users.get(&reader_key).unwrap().role, 0);
    assert_eq!(CreateWriterAccount { user: w }.create_writer_account(&mut p), Ok(()));
    assert_eq!(CreateWriterAccount { user: w }.create_writer_account(&mut p), Err(PublishingPlatformError::AccountAlreadyExists));
    assert_eq!(CreateReaderAccount { user: w }.create_reader_account(&mut p), Ok(()));
    assert_eq!(CreateReaderAccount { user: w }.create_reader_account(&mut p), Err(PublishingPlatformError::AccountAlreadyExists));
    let reader = p.readers.get(&key(Namespace::Reader, &w, &p.program_id)).unwrap();
    assert_eq!(reader.review_count, 0);
    assert_eq!(reader.reputation_score, 0);
    let writer = p.writers.get(&key(Namespace::Writer, &w, &p.program_id)).unwrap();
    assert_eq!(writer.book_count, 0);
}

#[test]
fn dune_scenario_numbers_chapters() {
    let mut p = platform();
    let genesis = InitializePlatform { user: addr(1), platform_account: addr(50) };
    genesis.initialize_platform(&mut p, String::from("publishing")).unwrap();
    let w = addr(1);
    let collection = addr(60);
    writer_with_book(&mut p, &w, &collection);
    let book_key = key(Namespace::Book, &collection, &p.program_id);
    assert_eq!(p.books.get(&book_key).unwrap().chapter_count, 0);
    assert_eq!(add(&mut p, &w, &collection, &chapter_mint(1)), Ok(()));
    assert_eq!(p.books.get(&book_key).unwrap().chapter_count, 1);
    let first = p.chapters.get(&key(Namespace::Chapter, &chapter_mint(1), &p.program_id)).unwrap();
    assert_eq!(first.chapter_number, 1);
    assert_eq!(first.title, "Ch1");
    assert_eq!(first.content_uri, "uri://1");
    assert_eq!(add(&mut p, &w, &collection, &chapter_mint(2)), Ok(()));
    assert_eq!(p.books.get(&book_key).unwrap().chapter_count, 2);
    let second = p.chapters.get(&key(Namespace::Chapter, &chapter_mint(2), &p.program_id)).unwrap();
    assert_eq!(second.chapter_number, 2);
    let book = p.books.get(&book_key).unwrap();
    assert_eq!(book.title, "Dune");
    assert_eq!(book.genre, "SciFi");
    assert_eq!(book.royalty_percentage, 10);
}

#[test]
fn chapter_limit_is_hit_on_the_crossing_call() {
    let mut p = platform();
    let w = addr(1);
    let collection = addr(60);
    writer_with_book(&mut p, &w, &collection);
    for i in 0..255u32 {
        assert_eq!(add(&mut p, &w, &collection, &chapter_mint(i)), Ok(()), "call {}", i + 1);
    }
    assert_eq!(add(&mut p, &w, &collection, &chapter_mint(255)), Err(PublishingPlatformError::ChapterLimitExceeded));
    let book_key = key(Namespace::Book, &collection, &p.program_id);
    assert_eq!(p.books.get(&book_key).unwrap().chapter_count, 255);
    assert_eq!(p.chapters.entries.len(), 255);
}

#[test]
fn add_chapter_refusals() {
    let mut p = platform();
    let w = addr(1);
    let collection = addr(60);
    assert_eq!(add(&mut p, &w, &collection, &chapter_mint(1)), Err(PublishingPlatformError::AccountNotFound));
    writer_with_book(&mut p, &w, &collection);
    assert_eq!(add(&mut p, &addr(2), &collection, &chapter_mint(1)), Err(PublishingPlatformError::UnauthorizedWriter));
    assert_eq!(add(&mut p, &w, &collection, &chapter_mint(1)), Ok(()));
    assert_eq!(add(&mut p, &w, &collection, &chapter_mint(1)), Err(PublishingPlatformError::AccountAlreadyExists));
    let ctx = AddChapter { writer: w, chapter_mint: chapter_mint(9), book_collection: collection };
    assert_eq!(ctx.add_chapter(&mut p, "t".repeat(51), String::new()), Err(PublishingPlatformError::TitleTooLong));
    assert_eq!(ctx.add_chapter(&mut p, String::new(), "u".repeat(101)), Err(PublishingPlatformError::ContentUriTooLong));
    assert_eq!(ctx.add_chapter(&mut p, "t".repeat(50), "u".repeat(100)), Ok(()));
}

#[test]
fn create_book_refusals() {
    let mut p = platform();
    let ctx = CreateBook { writer: addr(1), collection_mint: addr(60) };
    assert_eq!(ctx.create_book(&mut p, String::new(), 1, String::new()), Err(PublishingPlatformError::AccountNotFound));
    CreateWriterAccount { user: addr(1) }.create_writer_account(&mut p).unwrap();
    assert_eq!(ctx.create_book(&mut p, "t".repeat(51), 1, String::new()), Err(PublishingPlatformError::TitleTooLong));
    assert_eq!(ctx.create_book(&mut p, String::new(), 1, "g".repeat(21)), Err(PublishingPlatformError::GenreTooLong));
    assert_eq!(ctx.create_book(&mut p, String::new(), 101, String::new()), Err(PublishingPlatformError::InvalidRoyalty));
    assert_eq!(ctx.create_book(&mut p, String::new(), 100, String::new()), Ok(()));
    assert_eq!(ctx.create_book(&mut p, String::new(), 0, String::new()), Err(PublishingPlatformError::AccountAlreadyExists));
    let other = CreateBook { writer: addr(1), collection_mint: addr(61) };
    assert_eq!(other.create_book(&mut p, String::new(), 0, String::new()), Ok(()));
    assert_eq!(p.writers.get(&key(Namespace::Writer, &addr(1), &p.program_id)).unwrap().book_count, 2);
}

fn reviewed_platform() -> (Platform, Address) {
    let mut p = platform();
    let w = addr(1);
    let collection = addr(60);
    writer_with_book(&mut p, &w, &collection);
    add(&mut p, &w, &collection, &chapter_mint(1)).unwrap();
    (p, collection)
}

fn review(p: &mut Platform, reader: u8, rating: u8) -> Result<(), PublishingPlatformError> {
    let r = addr(reader);
    if p.readers.get(&key(Namespace::Reader, &r, &p.program_id)).is_none() {
        CreateReaderAccount { user: r }.create_reader_account(p).unwrap();
    }
    let holding = TokenHolding { mint: chapter_mint(1), owner: r, amount: 1 };
    SubmitReview { reviewer: r, chapter_ata: holding }.submit_review(p, String::from("good"), rating, 1_700_000_000)
}

#[test]
fn chapter_rating_is_truncated_mean() {
    let (mut p, _) = reviewed_platform();
    let ck = key(Namespace::Chapter, &chapter_mint(1), &p.program_id);
    assert_eq!(review(&mut p, 10, 1), Ok(()));
    assert_eq!(p.chapters.get(&ck).unwrap().rating, 1);
    assert_eq!(review(&mut p, 11, 2), Ok(()));
    assert_eq!(p.chapters.get(&ck).unwrap().rating, 1);
    assert_eq!(review(&mut p, 12, 3), Ok(()));
    // 1 + 2 + 3 = 6 over three reviews
    let c = p.chapters.get(&ck).unwrap();
    assert_eq!(c.rating, 2);
    assert_eq!(c.review_count, 3);
    assert_eq!(c.rating_total, 6);
    assert_eq!(review(&mut p, 13, 5), Ok(()));
    assert_eq!(p.chapters.get(&ck).unwrap().rating, 2);
    assert_eq!(review(&mut p, 14, 5), Ok(()));
    // 16 over five
    assert_eq!(p.chapters.get(&ck).unwrap().rating, 3);
}

#[test]
fn second_review_of_same_chapter_fails() {
    let (mut p, collection) = reviewed_platform();
    assert_eq!(review(&mut p, 10, 4), Ok(()));
    assert_eq!(review(&mut p, 10, 5), Err(PublishingPlatformError::AccountAlreadyExists));
    let ck = key(Namespace::Chapter, &chapter_mint(1), &p.program_id);
    let c = p.chapters.get(&ck).unwrap();
    assert_eq!(c.rating, 4);
    assert_eq!(c.review_count, 1);
    let reader = p.readers.get(&key(Namespace::Reader, &addr(10), &p.program_id)).unwrap();
    assert_eq!(reader.review_count, 1);
    assert_eq!(reader.reputation_score, 50);
    assert_eq!(p.reviews.entries.len(), 1);
    let v = &p.reviews.entries[0].1;
    assert_eq!(v.rating, 4);
    assert_eq!(v.book_collection, collection);
    assert_eq!(v.created_at, 1_700_000_000);
    assert_eq!(v.content, "good");
}

#[test]
fn review_refusals() {
    let (mut p, _) = reviewed_platform();
    assert_eq!(review(&mut p, 10, 0), Err(PublishingPlatformError::InvalidRating));
    assert_eq!(review(&mut p, 10, 6), Err(PublishingPlatformError::InvalidRating));
    let r = addr(20);
    let holding = TokenHolding { mint: chapter_mint(1), owner: r, amount: 1 };
    let ctx = SubmitReview { reviewer: r, chapter_ata: holding };
    assert_eq!(ctx.submit_review(&mut p, String::new(), 3, 0), Err(PublishingPlatformError::AccountNotFound));
    CreateReaderAccount { user: r }.create_reader_account(&mut p).unwrap();
    assert_eq!(ctx.submit_review(&mut p, "x".repeat(501), 3, 0), Err(PublishingPlatformError::ReviewTooLong));
    let elsewhere = SubmitReview { reviewer: r, chapter_ata: TokenHolding { mint: chapter_mint(77), owner: r, amount: 1 } };
    assert_eq!(elsewhere.submit_review(&mut p, String::new(), 3, 0), Err(PublishingPlatformError::AccountNotFound));
}

#[test]
fn reputation_grows_with_each_review() {
    let mut p = platform();
    let w = addr(1);
    let collection = addr(60);
    writer_with_book(&mut p, &w, &collection);
    for i in 0..8u32 {
        add(&mut p, &w, &collection, &chapter_mint(i)).unwrap();
    }
    let r = addr(10);
    CreateReaderAccount { user: r }.create_reader_account(&mut p).unwrap();
    for i in 0..8u32 {
        let ctx = SubmitReview { reviewer: r, chapter_ata: TokenHolding { mint: chapter_mint(i), owner: r, amount: 1 } };
        assert_eq!(ctx.submit_review(&mut p, String::new(), 3, 0), Ok(()));
    }
    let reader = p.readers.get(&key(Namespace::Reader, &r, &p.program_id)).unwrap();
    assert_eq!(reader.review_count, 8);
    assert_eq!(reader.reputation_score, 400);
}

#[test]
fn holders_only_reviews_need_the_chapter_nft() {
    let (mut p, _) = reviewed_platform();
    let r = addr(10);
    CreateReaderAccount { user: r }.create_reader_account(&mut p).unwrap();
    let none = SubmitReview { reviewer: r, chapter_ata: TokenHolding { mint: chapter_mint(1), owner: r, amount: 0 } };
    assert_eq!(none.submit_review_as_holder(&mut p, String::new(), 4, 0), Err(PublishingPlatformError::NoNftOwnership));
    let others = SubmitReview { reviewer: r, chapter_ata: TokenHolding { mint: chapter_mint(1), owner: addr(11), amount: 1 } };
    assert_eq!(others.submit_review_as_holder(&mut p, String::new(), 4, 0), Err(PublishingPlatformError::NoNftOwnership));
    assert_eq!(p.reviews.entries.len(), 0);
    let held = SubmitReview { reviewer: r, chapter_ata: TokenHolding { mint: chapter_mint(1), owner: r, amount: 1 } };
    assert_eq!(held.submit_review_as_holder(&mut p, String::new(), 9, 0), Err(PublishingPlatformError::InvalidRating));
    assert_eq!(held.submit_review_as_holder(&mut p, String::new(), 4, 0), Ok(()));
    let ck = key(Namespace::Chapter, &chapter_mint(1), &p.program_id);
    assert_eq!(p.chapters.get(&ck).unwrap().rating, 4);
}

fn exclusive_platform() -> (Platform, Address) {
    let (mut p, collection) = reviewed_platform();
    let ctx = CreateExclusiveContent { author: addr(1), collection_mint: collection };
    assert_eq!(create_exclusive_content(&ctx, &mut p, String::from("ar://secret"), 42), Ok(()));
    let mut parts = Vec::new();
    parts.push(addr(1).to_seed());
    parts.push(collection.to_seed());
    let k = publishing_platform::address::derive_seeds(Namespace::Exclusive, parts, &p.program_id).unwrap().0;
    (p, k)
}

#[test]
fn exclusive_content_is_created_once() {
    let (mut p, k) = exclusive_platform();
    let x = p.exclusive_contents.get(&k).unwrap();
    assert!(x.is_active);
    assert_eq!(x.created_at, 42);
    assert_eq!(x.content_uri, "ar://secret");
    let ctx = CreateExclusiveContent { author: addr(1), collection_mint: addr(60) };
    assert_eq!(create_exclusive_content(&ctx, &mut p, String::new(), 0), Err(PublishingPlatformError::AccountAlreadyExists));
    let other = CreateExclusiveContent { author: addr(2), collection_mint: addr(60) };
    assert_eq!(create_exclusive_content(&other, &mut p, "u".repeat(101), 0), Err(PublishingPlatformError::ContentUriTooLong));
}

#[test]
fn access_granted_only_to_holders_of_the_collection() {
    let (p, k) = exclusive_platform();
    let reader = addr(30);
    let held = TokenHolding { mint: chapter_mint(1), owner: reader, amount: 1 };
    let ok = VerifyAccess { reader, exclusive_content: k, chapter_ata: held };
    assert_eq!(ok.verify_access(&p), Ok(String::from("ar://secret")));
    let empty = VerifyAccess { reader, exclusive_content: k, chapter_ata: TokenHolding { amount: 0, ..held } };
    assert_eq!(empty.verify_access(&p), Err(PublishingPlatformError::NoNftOwnership));
    let borrowed = VerifyAccess { reader: addr(31), exclusive_content: k, chapter_ata: held };
    assert_eq!(borrowed.verify_access(&p), Err(PublishingPlatformError::NoNftOwnership));
    let missing = VerifyAccess { reader, exclusive_content: addr(99), chapter_ata: held };
    assert_eq!(missing.verify_access(&p), Err(PublishingPlatformError::AccountNotFound));
}

#[test]
fn access_refused_for_another_collection() {
    let (mut p, k) = exclusive_platform();
    let w = addr(1);
    let other_collection = addr(61);
    let book = CreateBook { writer: w, collection_mint: other_collection };
    book.create_book(&mut p, String::from("Other"), 5, String::from("Poetry")).unwrap();
    add(&mut p, &w, &other_collection, &chapter_mint(2)).unwrap();
    let reader = addr(30);
    let held = TokenHolding { mint: chapter_mint(2), owner: reader, amount: 3 };
    let ctx = VerifyAccess { reader, exclusive_content: k, chapter_ata: held };
    assert_eq!(ctx.verify_access(&p), Err(PublishingPlatformError::InvalidCollection));
}

#[test]
fn access_check_discloses_uri_to_holders_only() {
    let reader = addr(30);
    let content = ExclusiveContent {
        author: addr(1),
        required_collection: addr(60),
        content_uri: String::from("ar://x"),
        is_active: true,
        created_at: 0,
    };
    let held = TokenHolding { mint: addr(80), owner: reader, amount: 2 };
    assert_eq!(verify_access(&reader, &content, &held, &addr(60)), Ok(String::from("ar://x")));
    assert_eq!(verify_access(&reader, &content, &held, &addr(61)), Err(PublishingPlatformError::InvalidCollection));
    let none = TokenHolding { amount: 0, ..held };
    assert_eq!(verify_access(&reader, &content, &none, &addr(60)), Err(PublishingPlatformError::NoNftOwnership));
    assert_eq!(verify_access(&addr(31), &content, &held, &addr(60)), Err(PublishingPlatformError::NoNftOwnership));
}

#[test]
fn tips_need_an_amount_and_a_writer() {
    let mut p = platform();
    let reader = addr(10);
    let writer = addr(1);
    let reader_role = addr(2);
    CreateAccount { user: writer }.create_account(&mut p, 1).unwrap();
    CreateAccount { user: reader_role }.create_account(&mut p, 0).unwrap();
    let tip = TipWriter { reader, writer };
    assert_eq!(tip.tip_writer(&p, 0).unwrap_err(), PublishingPlatformError::ZeroTipAmount);
    let t = tip.tip_writer(&p, 1000).unwrap();
    assert_eq!(t.from, reader);
    assert_eq!(t.to, writer);
    assert_eq!(t.amount, 1000);
    let to_reader = TipWriter { reader, writer: reader_role };
    assert_eq!(to_reader.tip_writer(&p, 0).unwrap_err(), PublishingPlatformError::ZeroTipAmount);
    assert_eq!(to_reader.tip_writer(&p, 5).unwrap_err(), PublishingPlatformError::InvalidWriterRole);
    let nobody = TipWriter { reader, writer: addr(3) };
    assert_eq!(nobody.tip_writer(&p, 5).unwrap_err(), PublishingPlatformError::WriterAccountNotFound);
    CreateAccount { user: reader_role }.create_account(&mut p, 1).unwrap();
    assert_eq!(to_reader.tip_writer(&p, 5).unwrap().amount, 5);
}

#[test]
fn minter_collections_and_members() {
    let mut m = MinterProgram::new(addr(202));
    let user = addr(1);
    assert_eq!(mint_nft(&mut m, &user, &addr(70), &addr(60), String::from("cid"), String::from("t"), String::from("S"), 500).err(), Some(MinterError::CollectionNotFound));
    let authority = key_none(Namespace::Authority, &addr(202));
    let order = create_collection(&mut m, &user, &addr(60)).unwrap();
    assert_eq!(order.mint, addr(60));
    assert_eq!(order.authority, authority);
    assert_eq!(order.destination, user);
    assert_eq!(order.amount, 1);
    assert_eq!(create_collection(&mut m, &user, &addr(60)).err(), Some(MinterError::CollectionExists));
    assert_eq!(m.collections.get(&addr(60)).unwrap().authority, authority);
    let nft_order = mint_nft(&mut m, &addr(2), &addr(70), &addr(60), String::from("cid"), String::from("t"), String::from("S"), 500).unwrap();
    assert_eq!(nft_order.mint, addr(70));
    assert_eq!(nft_order.authority, authority);
    assert_eq!(nft_order.destination, addr(2));
    assert_eq!(nft_order.uri, "cid");
    assert_eq!(nft_order.title, "t");
    assert_eq!(nft_order.symbol, "S");
    assert_eq!(nft_order.royalties, 500);
    assert_eq!(nft_order.amount, 1);
    assert_eq!(mint_nft(&mut m, &user, &addr(70), &addr(60), String::new(), String::new(), String::new(), 0).err(), Some(MinterError::NftExists));
    assert!(!m.nfts.get(&addr(70)).unwrap().verified);
    assert!(create_collection(&mut m, &user, &addr(61)).is_ok());
    assert_eq!(verify_collection(&mut m, &addr(70), &addr(61)), Err(MinterError::WrongCollection));
    assert_eq!(verify_collection(&mut m, &addr(71), &addr(60)), Err(MinterError::NftNotFound));
    assert_eq!(verify_collection(&mut m, &addr(70), &addr(62)), Err(MinterError::CollectionNotFound));
    assert_eq!(verify_collection(&mut m, &addr(70), &addr(60)), Ok(()));
    let n = m.nfts.get(&addr(70)).unwrap();
    assert!(n.verified);
    assert_eq!(n.uri, "cid");
    assert_eq!(n.royalties, 500);
}

#[test]
fn upload_is_all_or_nothing() {
    let mut p = platform();
    let ctx = UploadContent { writer: addr(1), collection_mint: addr(60), nft_mint: addr(70) };
    let (collection_order, nft_order) = ctx.upload_content(&mut p, String::from("cid"), String::from("Dune"), String::from("DUNE"), 500, String::from("book")).unwrap();
    assert_eq!(collection_order.mint, addr(60));
    assert_eq!(nft_order.mint, addr(70));
    assert_eq!(nft_order.uri, "cid");
    assert_eq!(nft_order.destination, addr(1));
    assert_eq!(nft_order.authority, p.minter.collections.get(&addr(60)).unwrap().authority);
    assert!(!p.minter.nfts.get(&addr(70)).unwrap().verified);
    assert_eq!(p.minter.collections.entries.len(), 1);
    assert_eq!(p.minter.nfts.get(&addr(70)).unwrap().collection, addr(60));
    assert_eq!(p.minter.nfts.get(&addr(70)).unwrap().owner, addr(1));
    let again = UploadContent { writer: addr(1), collection_mint: addr(61), nft_mint: addr(70) };
    assert_eq!(
        again.upload_content(&mut p, String::new(), String::new(), String::new(), 0, String::new()).err(),
        Some(PublishingPlatformError::Minter(MinterError::NftExists))
    );
    assert_eq!(p.minter.collections.entries.len(), 1);
    let split = UploadContent { writer: addr(1), collection_mint: addr(62), nft_mint: addr(72) };
    assert!(split.call_create_collection(&mut p).is_ok());
    assert_eq!(split.list_content(&p), Ok(()));
    assert!(split.call_mint_nft(&mut p, String::from("c"), String::from("t"), String::from("s"), 1, String::from("article")).is_ok());
    assert_eq!(p.minter.nfts.entries.len(), 2);
}

#[test]
fn derivation_matches_the_ledger_scheme() {
    let program = Pubkey::new_from_array(addr(201).bytes);
    let (expected, bump) = Pubkey::find_program_address(&[b"marketplace", b"books"], &program);
    let mut parts = Vec::new();
    parts.push(b"books".to_vec());
    let (k, b) = publishing_platform::address::derive_seeds(Namespace::Marketplace, parts, &addr(201)).unwrap();
    assert_eq!(k.bytes, expected.to_bytes());
    assert_eq!(b, bump);
    let wallet = addr(5);
    let (expected_user, user_bump) = Pubkey::find_program_address(&[b"user", &wallet.bytes, &[1]], &Pubkey::new_from_array(addr(200).bytes));
    let (user_key, b) = derive_user(&wallet, 1, &addr(200)).unwrap();
    assert_eq!(user_key.bytes, expected_user.to_bytes());
    assert_eq!(b, user_bump);
}
