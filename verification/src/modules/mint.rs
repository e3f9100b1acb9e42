use crate::errors::MarketplaceError;
use crate::modules::oracle::touched;
use crate::state::{Address, Collection, NftData, Project};
use vstd::prelude::*;

verus! {

/// How an NFT is minted.
#[derive(Clone, Copy, Debug, PartialEq, Eq, Structural)]
pub enum MintKind {
    /// As a token with metadata and a master edition.
    Standard,
    /// As a leaf of a compressed collection.
    Compressed,
}

/// The order to mint one NFT, for whoever does the minting.
#[derive(Clone, Debug, PartialEq, Eq)]
pub struct MintRequest {
    pub owner: Address,
    pub nft_mint: Address,
    pub metadata_uri: String,
    pub collection: Address,
    pub kind: MintKind,
}

/// The record of an NFT that `owner` has just got at `now`, before any fusion.
pub open spec fn fresh_nft(
    owner: Address,
    collection: Address,
    mint: Address,
    metadata_uri: String,
    now: i64,
    cooldown_end_timestamp: Option<i64>,
    discount_percent: Option<u8>,
) -> NftData {
    NftData {
        owner,
        collection,
        mint,
        metadata_uri,
        minted_at: now,
        cooldown_end_timestamp,
        discount_percent,
        fusion_level: 0,
        parent_nfts: None,
        rarity_score: 0,
    }
}

/// What the creation of a collection works on.
#[derive(Clone, Debug, PartialEq, Eq)]
pub struct CreateCollection {
    /// Who creates the collection.
    pub authority: Address,
    /// The key that `project` is filed under.
    pub project_key: Address,
    pub project: Project,
    /// The place of the collection: empty before, filled after.
    pub collection: Option<Collection>,
    /// The mint of the token that the collection is bound to, if it is bound.
    pub token_mint_account: Address,
}

/// Why the creation of a collection fails, if it does.
pub open spec fn create_collection_fault(
    ctx: CreateCollection,
    project_id: Seq<char>,
    metadata_uri: Seq<char>,
    token_mint: Option<Address>,
) -> Option<MarketplaceError> {
    if !ctx.project.serves(project_id) {
        Some(MarketplaceError::ProjectNotFound)
    } else if ctx.project.authority != ctx.authority {
        Some(MarketplaceError::Unauthorized)
    } else if ctx.collection is Some {
        Some(MarketplaceError::CollectionAlreadyExists)
    } else if token_mint matches Some(mint) && ctx.token_mint_account != mint {
        Some(MarketplaceError::InvalidTokenMint)
    } else if metadata_uri.len() == 0 {
        Some(MarketplaceError::InvalidMetadataUri)
    } else {
        None
    }
}

/// Creates a collection of the project and stamps the project with `now`.
///
/// Fails where the project is not the active project `project_id`, where the
/// caller is not its authority, where the collection exists already, where the
/// token's mint is not the one handed in, or where the metadata URI is empty.
pub fn create_collection(
    ctx: &mut CreateCollection,
    collection_id: String,
    project_id: String,
    metadata_uri: String,
    token_mint: Option<Address>,
    is_compressed: bool,
    now: i64,
) -> (done: Result<(), MarketplaceError>)
    ensures
        match create_collection_fault(*old(ctx), project_id@, metadata_uri@, token_mint) {
            Some(fault) => done == Err::<(), MarketplaceError>(fault) && *final(ctx) == *old(ctx),
            None => {
                &&& done is Ok
                &&& *final(ctx) == (CreateCollection {
                    collection: Some(
                        Collection {
                            project: old(ctx).project_key,
                            collection_id,
                            metadata_uri,
                            token_mint,
                            is_compressed,
                        },
                    ),
                    project: touched(old(ctx).project, now),
                    ..*old(ctx)
                })
            },
        },
{
    if ctx.project.project_id != project_id || !ctx.project.is_active {
        return Err(MarketplaceError::ProjectNotFound);
    }
    if ctx.project.authority != ctx.authority {
        return Err(MarketplaceError::Unauthorized);
    }
    if ctx.collection.is_some() {
        return Err(MarketplaceError::CollectionAlreadyExists);
    }
    if let Some(mint) = token_mint {
        if ctx.token_mint_account != mint {
            return Err(MarketplaceError::InvalidTokenMint);
        }
    }
    if metadata_uri.as_str().is_empty() {
        return Err(MarketplaceError::InvalidMetadataUri);
    }
    ctx.collection = Some(
        Collection {
            project: ctx.project_key,
            collection_id,
            metadata_uri,
            token_mint,
            is_compressed,
        },
    );
    ctx.project.touch(now);
    Ok(())
}

/// The order to mint the NFT `nft_mint` for `owner`: compressed or standard,
/// as the collection has it.
pub fn mint_nft_internal(
    owner: Address,
    nft_mint: Address,
    metadata_uri: String,
    collection: Address,
    is_compressed: bool,
) -> (order: Result<MintRequest, MarketplaceError>)
    ensures
        order == Ok::<MintRequest, MarketplaceError>(
            MintRequest {
                owner,
                nft_mint,
                metadata_uri,
                collection,
                kind: if is_compressed {
                    MintKind::Compressed
                } else {
                    MintKind::Standard
                },
            },
        ),
{
    let kind = if is_compressed {
        MintKind::Compressed
    } else {
        MintKind::Standard
    };
    Ok(MintRequest { owner, nft_mint, metadata_uri, collection, kind })
}

/// What the minting of an NFT works on.
#[derive(Clone, Debug, PartialEq, Eq)]
pub struct MintNft {
    /// Who gets the NFT.
    pub user: Address,
    /// The key that `collection` is filed under.
    pub collection_key: Address,
    pub collection: Collection,
    pub project: Project,
    /// The mint of the NFT that is created.
    pub nft_mint: Address,
    /// The place of the NFT's record: empty before, filled after.
    pub nft_data: Option<NftData>,
}

/// Why the minting of an NFT fails, if it does.
pub open spec fn mint_nft_fault(
    ctx: MintNft,
    collection_id: Seq<char>,
    metadata_uri: Seq<char>,
    traits_selection: Option<Seq<u8>>,
) -> Option<MarketplaceError> {
    if ctx.collection.collection_id@ != collection_id {
        Some(MarketplaceError::CollectionNotFound)
    } else if !ctx.project.is_active {
        Some(MarketplaceError::ProjectNotFound)
    } else if ctx.nft_data is Some {
        Some(MarketplaceError::InvalidTokenMint)
    } else if metadata_uri.len() == 0 {
        Some(MarketplaceError::InvalidMetadataUri)
    } else if traits_selection matches Some(traits) && traits.len() == 0 {
        Some(MarketplaceError::InvalidTraitsSelection)
    } else {
        None
    }
}

/// Mints an NFT of the collection for the user: files its record, stamps the
/// project with `now`, and hands back the order to mint.
///
/// Fails where the collection is not `collection_id`, where the project is
/// inactive, where the mint has a record already, where the metadata URI is
/// empty, or where a selection of traits is given and empty.
pub fn mint_nft(
    ctx: &mut MintNft,
    collection_id: String,
    metadata_uri: String,
    traits_selection: Option<Vec<u8>>,
    now: i64,
) -> (order: Result<MintRequest, MarketplaceError>)
    ensures
        match mint_nft_fault(
            *old(ctx),
            collection_id@,
            metadata_uri@,
            match traits_selection {
                Some(traits) => Some(traits@),
                None => None,
            },
        ) {
            Some(fault) => order == Err::<MintRequest, MarketplaceError>(fault) && *final(ctx)
                == *old(ctx),
            None => {
                &&& order == Ok::<MintRequest, MarketplaceError>(
                    MintRequest {
                        owner: old(ctx).user,
                        nft_mint: old(ctx).nft_mint,
                        metadata_uri,
                        collection: old(ctx).collection_key,
                        kind: if old(ctx).collection.is_compressed {
                            MintKind::Compressed
                        } else {
                            MintKind::Standard
                        },
                    },
                )
                &&& *final(ctx) == (MintNft {
                    nft_data: Some(
                        fresh_nft(
                            old(ctx).user,
                            old(ctx).collection_key,
                            old(ctx).nft_mint,
                            metadata_uri,
                            now,
                            None,
                            None,
                        ),
                    ),
                    project: touched(old(ctx).project, now),
                    ..*old(ctx)
                })
            },
        },
{
    if ctx.collection.collection_id != collection_id {
        return Err(MarketplaceError::CollectionNotFound);
    }
    if !ctx.project.is_active {
        return Err(MarketplaceError::ProjectNotFound);
    }
    if ctx.nft_data.is_some() {
        return Err(MarketplaceError::InvalidTokenMint);
    }
    if metadata_uri.as_str().is_empty() {
        return Err(MarketplaceError::InvalidMetadataUri);
    }
    if let Some(traits) = &traits_selection {
        if traits.len() == 0 {
            return Err(MarketplaceError::InvalidTraitsSelection);
        }
    }
    ctx.nft_data = Some(
        NftData {
            owner: ctx.user,
            collection: ctx.collection_key,
            mint: ctx.nft_mint,
            metadata_uri: metadata_uri.clone(),
            minted_at: now,
            cooldown_end_timestamp: None,
            discount_percent: None,
            fusion_level: 0,
            parent_nfts: None,
            rarity_score: 0,
        },
    );
    ctx.project.touch(now);
    mint_nft_internal(
        ctx.user,
        ctx.nft_mint,
        metadata_uri,
        ctx.collection_key,
        ctx.collection.is_compressed,
    )
}

} // verus!
