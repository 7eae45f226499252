//! Properties that hold across the platform's operations.
use crate::access::ownership_error;
use crate::errors::PublishingPlatformError;
use crate::platform::{
    key_of, next_chapter_count, user_key, reviewed, AddChapter, Platform, SubmitReview, TipWriter, VerifyAccess,
};
use crate::address::Namespace;
use crate::state::{text_len, Chapter, UserRole, MAX_REVIEW_LEN, MAX_TITLE_LEN, MAX_URI_LEN};
use vstd::prelude::*;

verus! {

/// The sum of a list of ratings.
pub open spec fn rating_sum(ratings: Seq<u8>) -> int
    decreases ratings.len(),
{
    if ratings.len() == 0 {
        0
    } else {
        rating_sum(ratings.drop_last()) + ratings.last()
    }
}

/// A chapter that starts with no review and then counts the reviews
/// `ratings` one after another, `chapters[i + 1]` following `chapters[i]`,
/// ends with the truncated mean of those ratings as its rating.
pub proof fn lemma_rating_is_mean(chapters: Seq<Chapter>, ratings: Seq<u8>)
    requires
        chapters.len() == ratings.len() + 1,
        chapters[0].review_count == 0,
        chapters[0].rating_total == 0,
        forall|i: int| 0 <= i < ratings.len() ==> 1 <= #[trigger] ratings[i] <= 5,
        forall|i: int| 0 <= i < ratings.len() ==> reviewed(#[trigger] chapters[i], chapters[i + 1], ratings[i]),
    ensures
        chapters.last().review_count == ratings.len(),
        rating_sum(ratings) <= 5 * ratings.len(),
        chapters.last().rating_total == rating_sum(ratings),
        ratings.len() > 0 ==> chapters.last().rating == rating_sum(ratings) / (ratings.len() as int),
    decreases ratings.len(),
{
    if ratings.len() > 0 {
        let n = ratings.len() - 1;
        let shorter = chapters.take(n + 1);
        assert forall|i: int| 0 <= i < ratings.drop_last().len() implies reviewed(
            #[trigger] shorter[i],
            shorter[i + 1],
            ratings.drop_last()[i],
        ) by {
            assert(reviewed(chapters[i], chapters[i + 1], ratings[i]));
        }
        assert forall|i: int| 0 <= i < ratings.drop_last().len() implies 1 <= #[trigger] ratings.drop_last()[i]
            <= 5 by {
            assert(ratings.drop_last()[i] == ratings[i]);
        }
        lemma_rating_is_mean(shorter, ratings.drop_last());
        assert(reviewed(chapters[n], chapters[n + 1], ratings[n]));
        assert(ratings[n] <= 5);
        let total = rating_sum(ratings);
        let count = ratings.len() as int;
        assert(total / count <= 5) by (nonlinear_arith)
            requires
                total <= 5 * count,
                count > 0,
        ;
        assert(total / count >= 0) by (nonlinear_arith)
            requires
                total >= 0,
                count > 0,
        ;
    }
}

/// A wallet that has reviewed a chapter cannot review it again: a second
/// review of the same chapter from the same wallet fails because the review
/// exists already.
pub proof fn lemma_review_once(
    ctx: SubmitReview,
    before: Platform,
    after: Platform,
    content: Seq<char>,
    rating: u8,
    now: i64,
    second_content: Seq<char>,
    second_rating: u8,
)
    requires
        ctx.error(before, content, rating) is None,
        ctx.submitted(before, after, content, rating, now),
        1 <= second_rating <= 5,
        text_len(second_content) <= MAX_REVIEW_LEN,
    ensures
        ctx.error(after, second_content, second_rating) == Some(PublishingPlatformError::AccountAlreadyExists),
{
    assert(after.program_id == before.program_id);
    let reader_key = (ctx.reader_key(before)->0).0;
    let chapter_key = (ctx.chapter_key(before)->0).0;
    assert(after.readers.records().contains_key(reader_key));
    assert(after.chapters.records().contains_key(chapter_key));
}

/// Chapters added one at a time to a book succeed, as far as the count goes,
/// while it is below the counter's limit, and fail with the limit error on
/// the addition that would pass it, when the call is otherwise valid.
pub proof fn lemma_chapter_limit(ctx: AddChapter, p: Platform, title: Seq<char>, content_uri: Seq<char>)
    requires
        text_len(title) <= MAX_TITLE_LEN,
        text_len(content_uri) <= MAX_URI_LEN,
        key_of(Namespace::Book, ctx.book_collection@, p.program_id@) is Some,
        key_of(Namespace::Chapter, ctx.chapter_mint@, p.program_id@) is Some,
        p.books.records().contains_key((key_of(Namespace::Book, ctx.book_collection@, p.program_id@)->0).0),
        p.books.records()[(key_of(Namespace::Book, ctx.book_collection@, p.program_id@)->0).0].author@ == ctx.writer@,
        !p.chapters.records().contains_key((key_of(Namespace::Chapter, ctx.chapter_mint@, p.program_id@)->0).0),
    ensures
        ({
            let count = p.books.records()[(key_of(Namespace::Book, ctx.book_collection@, p.program_id@)->0).0].chapter_count;
            &&& count < u8::MAX ==> ctx.error(p, title, content_uri) is None && next_chapter_count(count) == Some(
                (count + 1) as u8,
            )
            &&& count == u8::MAX ==> ctx.error(p, title, content_uri) == Some(
                PublishingPlatformError::ChapterLimitExceeded,
            )
        }),
{
}

/// Access is granted exactly when the reader holds a positive balance of a
/// chapter's NFT whose book collection is the collection the content
/// requires; every other case is refused with a reason.
pub proof fn lemma_access_iff_holding(ctx: VerifyAccess, p: Platform)
    requires
        p.exclusive_contents.records().contains_key(ctx.exclusive_content@),
        key_of(Namespace::Chapter, ctx.chapter_ata.mint@, p.program_id@) is Some,
        p.chapters.records().contains_key((key_of(Namespace::Chapter, ctx.chapter_ata.mint@, p.program_id@)->0).0),
    ensures
        ({
            let chapter = p.chapters.records()[(key_of(Namespace::Chapter, ctx.chapter_ata.mint@, p.program_id@)->0).0];
            let required = p.exclusive_contents.records()[ctx.exclusive_content@].required_collection;
            &&& ctx.error(p) is None <==> (ctx.chapter_ata.owner@ == ctx.reader@ && ctx.chapter_ata.amount > 0
                && chapter.book_collection@ == required@)
            &&& (ctx.chapter_ata.owner@ != ctx.reader@ || ctx.chapter_ata.amount == 0) ==> ctx.error(p) == Some(
                PublishingPlatformError::NoNftOwnership,
            )
            &&& (ctx.chapter_ata.owner@ == ctx.reader@ && ctx.chapter_ata.amount > 0 && chapter.book_collection@
                != required@) ==> ctx.error(p) == Some(PublishingPlatformError::InvalidCollection)
        }),
{
}

/// A tip of nothing always fails with the zero-amount error; a positive tip
/// to a wallet whose user account has the reader role and not the writer
/// role always fails with the role error. Either way no transfer is decided.
pub proof fn lemma_tip_refusals(ctx: TipWriter, p: Platform, amount: u64)
    ensures
        ctx.error(p, 0) == Some(PublishingPlatformError::ZeroTipAmount),
        ({
            let writer_key = user_key(ctx.writer@, UserRole::Writer.spec_code(), p.program_id@);
            let reader_key = user_key(ctx.writer@, UserRole::Reader.spec_code(), p.program_id@);
            (amount > 0 && writer_key is Some && reader_key is Some
                && !p.users.records().contains_key((writer_key->0).0)
                && p.users.records().contains_key((reader_key->0).0)) ==> ctx.error(p, amount)
                == Some(PublishingPlatformError::InvalidWriterRole)
        }),
{
}

} // verus!
