//! The minter module: collections and the NFTs minted into them, all signed
//! for by an authority address that the module derives for itself.
use crate::address::{derive_seeds, program_address, seed_bytes, seeds_of, Address, Namespace};
use crate::store::Store;
use vstd::prelude::*;

verus! {

/// Why a minter operation failed.
#[derive(Clone, Copy, Debug, PartialEq, Eq, Structural)]
pub enum MinterError {
    /// The module's authority address cannot be derived.
    AddressUnavailable,
    /// A collection exists already at that mint.
    CollectionExists,
    /// An NFT exists already at that mint.
    NftExists,
    /// No collection exists at that mint.
    CollectionNotFound,
    /// No NFT exists at that mint.
    NftNotFound,
    /// The NFT belongs to another collection.
    WrongCollection,
}

/// A collection: the grouping asset that its NFTs point to.
pub struct Collection {
    pub mint: Address,
    pub authority: Address,
    pub creator: Address,
}

/// An NFT: one member asset, held by `owner`.
pub struct Nft {
    pub mint: Address,
    pub collection: Address,
    pub owner: Address,
    pub uri: String,
    pub title: String,
    pub symbol: String,
    pub royalties: u16,
    pub verified: bool,
}

/// A request to the external mint primitive: create the mint `mint` under
/// `authority`, attach the metadata and a master edition to it, and credit
/// `amount` tokens of it to `destination`.
pub struct MintOrder {
    pub mint: Address,
    pub authority: Address,
    pub destination: Address,
    pub uri: String,
    pub title: String,
    pub symbol: String,
    pub royalties: u16,
    pub amount: u64,
}

/// The minter module's identity, collections and NFTs, each keyed by its mint.
pub struct MinterProgram {
    pub program_id: Address,
    pub collections: Store<Collection>,
    pub nfts: Store<Nft>,
}

impl MinterProgram {
    /// The module's state is well formed.
    pub open spec fn wf(&self) -> bool {
        self.collections.wf() && self.nfts.wf()
    }

    /// The authority address that signs for the module's mints.
    pub open spec fn authority(&self) -> Option<(Seq<u8>, u8)> {
        program_address(seeds_of(Namespace::Authority, seq![]), self.program_id@)
    }

    /// The error that creating a collection at `mint` meets, if any.
    pub open spec fn create_collection_error(&self, mint: Seq<u8>) -> Option<MinterError> {
        if self.authority() is None {
            Some(MinterError::AddressUnavailable)
        } else if self.collections.records().contains_key(mint) {
            Some(MinterError::CollectionExists)
        } else {
            None
        }
    }

    /// The error that minting an NFT at `mint` into `collection` meets, if any.
    pub open spec fn mint_nft_error(&self, mint: Seq<u8>, collection: Seq<u8>) -> Option<MinterError> {
        if self.authority() is None {
            Some(MinterError::AddressUnavailable)
        } else if !self.collections.records().contains_key(collection) {
            Some(MinterError::CollectionNotFound)
        } else if self.nfts.records().contains_key(mint) {
            Some(MinterError::NftExists)
        } else {
            None
        }
    }

    /// The error that verifying the NFT at `mint` as a member of `collection`
    /// meets, if any.
    pub open spec fn verify_collection_error(&self, mint: Seq<u8>, collection: Seq<u8>) -> Option<MinterError> {
        if !self.nfts.records().contains_key(mint) {
            Some(MinterError::NftNotFound)
        } else if !self.collections.records().contains_key(collection) {
            Some(MinterError::CollectionNotFound)
        } else if self.nfts.records()[mint].collection@ != collection {
            Some(MinterError::WrongCollection)
        } else {
            None
        }
    }

    /// `after` is `self` with the collection at `mint`, created by `user`.
    pub open spec fn collection_created(&self, after: MinterProgram, user: Seq<u8>, mint: Seq<u8>) -> bool {
        let c = after.collections.records()[mint];
        &&& after.program_id == self.program_id
        &&& after.nfts.records() == self.nfts.records()
        &&& after.collections.records() == self.collections.records().insert(mint, c)
        &&& c.mint@ == mint
        &&& c.creator@ == user
        &&& c.authority@ == (self.authority()->0).0
    }

    /// `after` is `self` with the NFT at `mint` in `collection`, held by `owner`.
    pub open spec fn nft_minted(
        &self,
        after: MinterProgram,
        owner: Seq<u8>,
        mint: Seq<u8>,
        collection: Seq<u8>,
        uri: Seq<char>,
        title: Seq<char>,
        symbol: Seq<char>,
        royalties: u16,
    ) -> bool {
        let n = after.nfts.records()[mint];
        &&& after.program_id == self.program_id
        &&& after.collections.records() == self.collections.records()
        &&& after.nfts.records() == self.nfts.records().insert(mint, n)
        &&& n.mint@ == mint
        &&& n.collection@ == collection
        &&& n.owner@ == owner
        &&& n.uri@ == uri
        &&& n.title@ == title
        &&& n.symbol@ == symbol
        &&& n.royalties == royalties
        &&& !n.verified
    }

    /// A module with the given identity, holding nothing.
    pub fn new(program_id: Address) -> (r: MinterProgram)
        ensures
            r.wf(),
            r.program_id == program_id,
            r.collections.records() == Map::<Seq<u8>, Collection>::empty(),
            r.nfts.records() == Map::<Seq<u8>, Nft>::empty(),
    {
        MinterProgram { program_id, collections: Store::new(), nfts: Store::new() }
    }

    /// The module's authority address.
    pub fn derive_authority(&self) -> (r: Option<Address>)
        ensures
            match r {
                Some(a) => self.authority() is Some && a@ == (self.authority()->0).0,
                None => self.authority() is None,
            },
    {
        let no_parts: Vec<Vec<u8>> = Vec::new();
        proof {
            assert(seed_bytes(no_parts@) =~= seq![]);
        }
        match derive_seeds(Namespace::Authority, no_parts, &self.program_id) {
            Some(found) => Some(found.0),
            None => None,
        }
    }
}

/// Creates a collection at `mint`, created by `user` and signed for by the
/// module's authority, and returns the order for the mint primitive: the
/// collection's mint under that authority, with metadata and a master
/// edition, and one token to `user`. Fails, changing nothing, when the
/// authority cannot be derived or the mint holds a collection already.
pub fn create_collection(minter: &mut MinterProgram, user: &Address, mint: &Address) -> (r: Result<MintOrder, MinterError>)
    requires
        old(minter).wf(),
    ensures
        final(minter).wf(),
        match old(minter).create_collection_error(mint@) {
            Some(e) => r == Err::<MintOrder, MinterError>(e) && *final(minter) == *old(minter),
            None => {
                &&& r is Ok
                &&& old(minter).collection_created(*final(minter), user@, mint@)
                &&& r->Ok_0.mint@ == mint@
                &&& r->Ok_0.authority@ == (old(minter).authority()->0).0
                &&& r->Ok_0.destination@ == user@
                &&& r->Ok_0.uri@.len() == 0
                &&& r->Ok_0.title@.len() == 0
                &&& r->Ok_0.symbol@.len() == 0
                &&& r->Ok_0.royalties == 0
                &&& r->Ok_0.amount == 1
            },
        },
{
    let authority = match minter.derive_authority() {
        Some(a) => a,
        None => return Err(MinterError::AddressUnavailable),
    };
    if minter.collections.contains(mint) {
        return Err(MinterError::CollectionExists);
    }
    minter.collections.create(*mint, Collection { mint: *mint, authority, creator: *user });
    Ok(MintOrder {
        mint: *mint,
        authority,
        destination: *user,
        uri: String::new(),
        title: String::new(),
        symbol: String::new(),
        royalties: 0,
        amount: 1,
    })
}

/// Mints an NFT at `mint` into the collection at `collection_mint`, held by
/// `owner`, with its metadata, and returns the order for the mint primitive:
/// the mint under the module's authority, with that metadata and a master
/// edition, and one token to `owner`. Fails, changing nothing, when the authority
/// cannot be derived, the collection does not exist, or the mint holds an NFT
/// already.
pub fn mint_nft(
    minter: &mut MinterProgram,
    owner: &Address,
    mint: &Address,
    collection_mint: &Address,
    ipfs_cid: String,
    title: String,
    symbol: String,
    royalties: u16,
) -> (r: Result<MintOrder, MinterError>)
    requires
        old(minter).wf(),
    ensures
        final(minter).wf(),
        match old(minter).mint_nft_error(mint@, collection_mint@) {
            Some(e) => r == Err::<MintOrder, MinterError>(e) && *final(minter) == *old(minter),
            None => {
                &&& r is Ok
                &&& old(minter).nft_minted(
                    *final(minter),
                    owner@,
                    mint@,
                    collection_mint@,
                    ipfs_cid@,
                    title@,
                    symbol@,
                    royalties,
                )
                &&& r->Ok_0.mint@ == mint@
                &&& r->Ok_0.authority@ == (old(minter).authority()->0).0
                &&& r->Ok_0.destination@ == owner@
                &&& r->Ok_0.uri@ == ipfs_cid@
                &&& r->Ok_0.title@ == title@
                &&& r->Ok_0.symbol@ == symbol@
                &&& r->Ok_0.royalties == royalties
                &&& r->Ok_0.amount == 1
            },
        },
{
    let authority = match minter.derive_authority() {
        Some(a) => a,
        None => return Err(MinterError::AddressUnavailable),
    };
    if !minter.collections.contains(collection_mint) {
        return Err(MinterError::CollectionNotFound);
    }
    if minter.nfts.contains(mint) {
        return Err(MinterError::NftExists);
    }
    let order = MintOrder {
        mint: *mint,
        authority,
        destination: *owner,
        uri: ipfs_cid.clone(),
        title: title.clone(),
        symbol: symbol.clone(),
        royalties,
        amount: 1,
    };
    let nft = Nft {
        mint: *mint,
        collection: *collection_mint,
        owner: *owner,
        uri: ipfs_cid,
        title,
        symbol,
        royalties,
        verified: false,
    };
    minter.nfts.create(*mint, nft);
    Ok(order)
}

/// Marks the NFT at `mint` as a verified member of the collection at
/// `collection_mint`. Fails, changing nothing, when either is missing or the
/// NFT belongs to another collection.
pub fn verify_collection(minter: &mut MinterProgram, mint: &Address, collection_mint: &Address) -> (r: Result<(), MinterError>)
    requires
        old(minter).wf(),
    ensures
        final(minter).wf(),
        final(minter).program_id == old(minter).program_id,
        final(minter).collections == old(minter).collections,
        match old(minter).verify_collection_error(mint@, collection_mint@) {
            Some(e) => r == Err::<(), MinterError>(e) && *final(minter) == *old(minter),
            None => r is Ok && final(minter).nfts.records().dom() == old(minter).nfts.records().dom()
                && (forall|k: Seq<u8>| k != mint@ ==> #[trigger] final(minter).nfts.records()[k] == old(minter).nfts.records()[k])
                && final(minter).nfts.records()[mint@].verified
                && final(minter).nfts.records()[mint@].collection == old(minter).nfts.records()[mint@].collection
                && final(minter).nfts.records()[mint@].owner == old(minter).nfts.records()[mint@].owner,
        },
{
    let i = match minter.nfts.find(mint) {
        Some(i) => i,
        None => return Err(MinterError::NftNotFound),
    };
    if !minter.collections.contains(collection_mint) {
        return Err(MinterError::CollectionNotFound);
    }
    if !minter.nfts.entries[i].1.collection.same_as(collection_mint) {
        return Err(MinterError::WrongCollection);
    }
    let old_nft = &minter.nfts.entries[i].1;
    let nft = Nft {
        mint: old_nft.mint,
        collection: old_nft.collection,
        owner: old_nft.owner,
        uri: old_nft.uri.clone(),
        title: old_nft.title.clone(),
        symbol: old_nft.symbol.clone(),
        royalties: old_nft.royalties,
        verified: true,
    };
    minter.nfts.replace(i, nft);
    Ok(())
}

} // verus!
