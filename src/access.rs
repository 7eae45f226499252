//! The capability verifier: access is granted on proof that the presenter
//! holds an asset of the required collection.
use crate::address::Address;
use crate::errors::PublishingPlatformError;
use crate::state::{ExclusiveContent, TokenHolding};
use vstd::prelude::*;

verus! {

/// Why `holding`, presented by `presenter` for an asset of collection
/// `asset_collection`, does not prove membership of `required`; `None` when
/// it does.
pub open spec fn ownership_error(
    presenter: Seq<u8>,
    holding: TokenHolding,
    asset_collection: Seq<u8>,
    required: Seq<u8>,
) -> Option<PublishingPlatformError> {
    if holding.owner@ != presenter || holding.amount == 0 {
        Some(PublishingPlatformError::NoNftOwnership)
    } else if asset_collection != required {
        Some(PublishingPlatformError::InvalidCollection)
    } else {
        None
    }
}

/// Checks that `presenter` holds a positive balance in `holding`, and that
/// the held asset's collection, `asset_collection`, is `required`.
pub fn verify_ownership(
    presenter: &Address,
    holding: &TokenHolding,
    asset_collection: &Address,
    required: &Address,
) -> (r: Result<(), PublishingPlatformError>)
    ensures
        match ownership_error(presenter@, *holding, asset_collection@, required@) {
            Some(e) => r == Err::<(), PublishingPlatformError>(e),
            None => r is Ok,
        },
{
    if !holding.owner.same_as(presenter) || holding.amount == 0 {
        return Err(PublishingPlatformError::NoNftOwnership);
    }
    if !asset_collection.same_as(required) {
        return Err(PublishingPlatformError::InvalidCollection);
    }
    Ok(())
}

/// Discloses `content`'s URI to `reader` when `holding` proves that the
/// reader holds an asset of the collection the content requires, the asset
/// belonging to `asset_collection`; otherwise discloses nothing and says
/// why.
pub fn verify_access(
    reader: &Address,
    content: &ExclusiveContent,
    holding: &TokenHolding,
    asset_collection: &Address,
) -> (r: Result<String, PublishingPlatformError>)
    ensures
        match ownership_error(reader@, *holding, asset_collection@, content.required_collection@) {
            Some(e) => r == Err::<String, PublishingPlatformError>(e),
            None => r is Ok && r->Ok_0@ == content.content_uri@,
        },
{
    match verify_ownership(reader, holding, asset_collection, &content.required_collection) {
        Ok(()) => Ok(content.content_uri.clone()),
        Err(e) => Err(e),
    }
}

} // verus!
