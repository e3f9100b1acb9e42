use crate::errors::MarketplaceError;
use crate::modules::fees::{
    distribute_fees, fee_payments, fee_split, rates_fit, royalty_payee, FeeVariant,
};
use crate::modules::mint::{fresh_nft, mint_nft_internal, MintKind, MintRequest};
use crate::modules::oracle::{check_oracle_status, oracle_fault, touched};
use crate::state::{
    total_moved, Address, Collection, LiquidityPool, NftData, PlatformConfig, Project,
    TokenAccount, TokenTransfer, TransferAuthority,
};
use vstd::prelude::*;
use vstd::string::StringExecFns;

verus! {

/// What the swap of tokens for an NFT works on.
#[derive(Clone, Debug, PartialEq, Eq)]
pub struct SwapTokenForNft {
    /// Who pays the tokens and gets the NFT.
    pub user: Address,
    pub platform_config: PlatformConfig,
    /// The key that `collection` is filed under.
    pub collection_key: Address,
    pub collection: Collection,
    pub project: Project,
    pub liquidity_pool: LiquidityPool,
    /// The account that the tokens are paid from.
    pub user_token_account: TokenAccount,
    /// The custody account that holds the pool's reserves.
    pub lp_token_account: TokenAccount,
    pub token_mint: Address,
    /// Where the platform's fee goes.
    pub platform_treasury: Address,
    /// Where the project's fee goes.
    pub project_treasury: Address,
    /// Where the royalty goes.
    pub royalty_wallet: Address,
    /// The mint of the NFT that is created.
    pub nft_mint: Address,
    /// The place of the NFT's record: empty before, filled after.
    pub nft_data: Option<NftData>,
}

/// What a swap hands back: what the ledger has to move, in order, and the
/// order to mint the NFT.
#[derive(Clone, Debug, PartialEq, Eq)]
pub struct SwapReceipt {
    pub transfers: Vec<TokenTransfer>,
    pub mint: MintRequest,
}

/// The metadata URI under which an NFT is minted before it is given its own.
pub open spec fn pending_metadata_uri() -> Seq<char> {
    "metadata_uri_placeholder"@
}

/// `required` less `discount` percent of it, rounded down.
pub open spec fn discounted_amount(required: u64, discount: Option<u8>) -> int {
    match discount {
        Some(percent) => required * (100 - percent) / 100,
        None => required as int,
    }
}

/// Why no price can be made of `required` and `discount`, if none can.
pub open spec fn discount_fault(required: u64, discount: Option<u8>) -> Option<MarketplaceError> {
    match discount {
        Some(percent) => if percent > 100 {
            Some(MarketplaceError::InvalidDiscountPercentage)
        } else if required * (100 - percent) > u64::MAX {
            Some(MarketplaceError::CalculationOverflow)
        } else {
            None
        },
        None => None,
    }
}

/// When the cooldown of an NFT bought at `now` ends: only an NFT bought at a
/// discount has one.
pub open spec fn cooldown_end(discount: Option<u8>, cooldown_period: Option<i64>, now: i64) -> Option<
    int,
> {
    match cooldown_period {
        Some(period) => if discount is Some {
            Some(now + period)
        } else {
            None
        },
        None => None,
    }
}

/// Why no cooldown can be set, if none can.
pub open spec fn cooldown_fault(discount: Option<u8>, cooldown_period: Option<i64>, now: i64) -> Option<
    MarketplaceError,
> {
    match cooldown_period {
        Some(period) => if discount is None {
            None
        } else if period <= 0 {
            Some(MarketplaceError::InvalidCooldownPeriod)
        } else if now + period > i64::MAX {
            Some(MarketplaceError::CalculationOverflow)
        } else {
            None
        },
        None => None,
    }
}

/// `required` less `discount` percent of it, rounded down. Fails with an
/// invalid discount percentage above 100, and with a calculation overflow
/// where `required` times what is left of 100 exceeds 64 bits.
pub fn apply_discount(required: u64, discount: Option<u8>) -> (price: Result<u64, MarketplaceError>)
    ensures
        price == match discount_fault(required, discount) {
            Some(fault) => Err::<u64, MarketplaceError>(fault),
            None => Ok::<u64, MarketplaceError>(discounted_amount(required, discount) as u64),
        },
        price matches Ok(amount) ==> amount <= required,
{
    match discount {
        Some(percent) => {
            if percent > 100 {
                return Err(MarketplaceError::InvalidDiscountPercentage);
            }
            let left: u64 = (100 - percent) as u64;
            assert(required * left <= required * 100) by (nonlinear_arith)
                requires
                    left <= 100,
            ;
            match required.checked_mul(left) {
                Some(scaled) => Ok(scaled / 100),
                None => Err(MarketplaceError::CalculationOverflow),
            }
        },
        None => Ok(required),
    }
}

/// When the cooldown of an NFT bought at `now` ends. Fails with an invalid
/// cooldown period on one that is not positive, and with a calculation overflow
/// where the end exceeds 64 bits.
pub fn set_cooldown(discount: Option<u8>, cooldown_period: Option<i64>, now: i64) -> (end: Result<
    Option<i64>,
    MarketplaceError,
>)
    ensures
        end == match cooldown_fault(discount, cooldown_period, now) {
            Some(fault) => Err::<Option<i64>, MarketplaceError>(fault),
            None => Ok::<Option<i64>, MarketplaceError>(
                match cooldown_end(discount, cooldown_period, now) {
                    Some(end) => Some(end as i64),
                    None => None,
                },
            ),
        },
{
    match cooldown_period {
        Some(period) => {
            if discount.is_none() {
                return Ok(None);
            }
            if period <= 0 {
                return Err(MarketplaceError::InvalidCooldownPeriod);
            }
            match now.checked_add(period) {
                Some(end) => Ok(Some(end)),
                None => Err(MarketplaceError::CalculationOverflow),
            }
        },
        None => Ok(None),
    }
}

/// Why a swap fails, if it does.
pub open spec fn swap_token_for_nft_fault(
    ctx: SwapTokenForNft,
    collection_id: Seq<char>,
    token_amount: u64,
    discount_percent: Option<u8>,
    cooldown_period: Option<i64>,
    now: i64,
) -> Option<MarketplaceError> {
    if !ctx.project.is_active {
        Some(MarketplaceError::ProjectNotFound)
    } else if !ctx.user_token_account.held_by(ctx.user, ctx.token_mint)
        || ctx.lp_token_account.address != ctx.liquidity_pool.lp_token_account {
        Some(MarketplaceError::InvalidTokenAccount)
    } else if ctx.token_mint != ctx.liquidity_pool.token_mint {
        Some(MarketplaceError::InvalidTokenMint)
    } else if ctx.platform_treasury != ctx.platform_config.platform_treasury
        || ctx.project_treasury != ctx.project.project_treasury || ctx.royalty_wallet
        != ctx.project.royalty_destination() {
        Some(MarketplaceError::InvalidTokenAccount)
    } else if ctx.nft_data is Some {
        Some(MarketplaceError::InvalidTokenMint)
    } else if ctx.collection.collection_id@ != collection_id {
        Some(MarketplaceError::CollectionNotFound)
    } else if ctx.collection.token_mint != Some(ctx.token_mint) {
        Some(MarketplaceError::NoTokenMintSpecified)
    } else if oracle_fault(ctx.liquidity_pool, now) is Some {
        oracle_fault(ctx.liquidity_pool, now)
    } else if discount_fault(token_amount, discount_percent) is Some {
        discount_fault(token_amount, discount_percent)
    } else if ctx.user_token_account.amount < discounted_amount(token_amount, discount_percent) {
        Some(MarketplaceError::InsufficientTokenAmount)
    } else if !rates_fit(
        ctx.platform_config.platform_fee_basis_points,
        ctx.project.royalty_basis_points,
    ) {
        Some(MarketplaceError::CalculationOverflow)
    } else {
        cooldown_fault(discount_percent, cooldown_period, now)
    }
}

/// The fees that a successful swap pays out of the pool's custody account,
/// under the pool's own authority: the platform's, all the rest of the rates
/// to the project, and the royalty, which is taken only where the project has
/// a royalty wallet bound.
pub open spec fn swap_fee_payments(ctx: SwapTokenForNft, paid: u64) -> Seq<TokenTransfer> {
    fee_payments(
        ctx.lp_token_account.address,
        ctx.platform_treasury,
        ctx.project_treasury,
        royalty_payee(Some(ctx.royalty_wallet), ctx.project),
        ctx.liquidity_pool.project,
        fee_split(
            paid,
            ctx.platform_config.platform_fee_basis_points,
            ctx.project.royalty_basis_points,
            ctx.project.royalty_wallet is Some,
            FeeVariant::Swap,
        ),
    )
}

/// What a successful swap asks of the ledger: the price, from the user into
/// the pool's custody account, and then the fees on it.
pub open spec fn swap_token_for_nft_transfers(
    ctx: SwapTokenForNft,
    token_amount: u64,
    discount_percent: Option<u8>,
) -> Seq<TokenTransfer> {
    let paid = discounted_amount(token_amount, discount_percent) as u64;
    seq![
        TokenTransfer {
            from: ctx.user_token_account.address,
            to: ctx.lp_token_account.address,
            authority: TransferAuthority::Signer(ctx.user),
            amount: paid,
        },
    ] + swap_fee_payments(ctx, paid)
}

/// Swaps tokens of the user for a new NFT of the collection. The price is
/// `token_amount` less the discount; it goes into the pool's custody account,
/// and platform, project and royalty wallet are paid their fees on it out of
/// that account, never more than the price; a project without a royalty
/// wallet is charged no royalty. An NFT bought at a discount and
/// with a cooldown period cannot be redeemed before `now` plus the period. The
/// record of the NFT is filed, and pool and project are stamped with `now`.
///
/// Fails where the project is inactive, where an account or the token is not
/// the one it has to be, where the mint has a record already, where the
/// collection is not `collection_id` or not bound to the token, where the
/// pool's price cannot be used at `now`, where the discount is above 100 or
/// the price overflows, where the user holds less than the price, where the two
/// fee rates together exceed 10000 basis points, or where the cooldown period
/// is not positive or its end overflows.
pub fn swap_token_for_nft(
    ctx: &mut SwapTokenForNft,
    collection_id: String,
    token_amount: u64,
    discount_percent: Option<u8>,
    cooldown_period: Option<i64>,
    now: i64,
) -> (receipt: Result<SwapReceipt, MarketplaceError>)
    ensures
        receipt is Ok ==> oracle_fault(old(ctx).liquidity_pool, now) is None,
        match swap_token_for_nft_fault(
            *old(ctx),
            collection_id@,
            token_amount,
            discount_percent,
            cooldown_period,
            now,
        ) {
            Some(fault) => receipt == Err::<SwapReceipt, MarketplaceError>(fault) && *final(ctx)
                == *old(ctx),
            None => {
                let paid = discounted_amount(token_amount, discount_percent) as u64;
                &&& receipt matches Ok(done)
                &&& done.transfers@ == swap_token_for_nft_transfers(
                    *old(ctx),
                    token_amount,
                    discount_percent,
                )
                &&& total_moved(swap_fee_payments(*old(ctx), paid)) <= paid <= token_amount
                &&& done.mint.metadata_uri@ == pending_metadata_uri()
                &&& done.mint == (MintRequest {
                    owner: old(ctx).user,
                    nft_mint: old(ctx).nft_mint,
                    metadata_uri: done.mint.metadata_uri,
                    collection: old(ctx).collection_key,
                    kind: if old(ctx).collection.is_compressed {
                        MintKind::Compressed
                    } else {
                        MintKind::Standard
                    },
                })
                &&& final(ctx).nft_data matches Some(nft_data)
                &&& nft_data.metadata_uri@.len() == 0
                &&& nft_data == fresh_nft(
                    old(ctx).user,
                    old(ctx).collection_key,
                    old(ctx).nft_mint,
                    nft_data.metadata_uri,
                    now,
                    match cooldown_end(discount_percent, cooldown_period, now) {
                        Some(end) => Some(end as i64),
                        None => None,
                    },
                    discount_percent,
                )
                &&& *final(ctx) == (SwapTokenForNft {
                    nft_data: final(ctx).nft_data,
                    project: touched(old(ctx).project, now),
                    liquidity_pool: LiquidityPool {
                        last_activity: now,
                        ..old(ctx).liquidity_pool
                    },
                    ..*old(ctx)
                })
            },
        },
{
    if !ctx.project.is_active {
        return Err(MarketplaceError::ProjectNotFound);
    }
    if !ctx.user_token_account.is_held_by(ctx.user, ctx.token_mint)
        || ctx.lp_token_account.address != ctx.liquidity_pool.lp_token_account {
        return Err(MarketplaceError::InvalidTokenAccount);
    }
    if ctx.token_mint != ctx.liquidity_pool.token_mint {
        return Err(MarketplaceError::InvalidTokenMint);
    }
    let royalty_destination = match ctx.project.royalty_wallet {
        Some(wallet) => wallet,
        None => ctx.project.project_treasury,
    };
    if ctx.platform_treasury != ctx.platform_config.platform_treasury || ctx.project_treasury
        != ctx.project.project_treasury || ctx.royalty_wallet != royalty_destination {
        return Err(MarketplaceError::InvalidTokenAccount);
    }
    if ctx.nft_data.is_some() {
        return Err(MarketplaceError::InvalidTokenMint);
    }
    if ctx.collection.collection_id != collection_id {
        return Err(MarketplaceError::CollectionNotFound);
    }
    match ctx.collection.token_mint {
        Some(bound) => {
            if bound != ctx.token_mint {
                return Err(MarketplaceError::NoTokenMintSpecified);
            }
        },
        None => { return Err(MarketplaceError::NoTokenMintSpecified); },
    }
    match check_oracle_status(&ctx.liquidity_pool, now) {
        Ok(()) => {},
        Err(fault) => { return Err(fault); },
    }
    let discounted = match apply_discount(token_amount, discount_percent) {
        Ok(discounted) => discounted,
        Err(fault) => { return Err(fault); },
    };
    if ctx.user_token_account.amount < discounted {
        return Err(MarketplaceError::InsufficientTokenAmount);
    }
    let mut fees = match distribute_fees(
        &ctx.lp_token_account,
        ctx.platform_treasury,
        ctx.project_treasury,
        Some(ctx.royalty_wallet),
        &ctx.liquidity_pool,
        &ctx.platform_config,
        &ctx.project,
        discounted,
        FeeVariant::Swap,
    ) {
        Ok(fees) => fees,
        Err(fault) => { return Err(fault); },
    };
    let cooldown_end_timestamp = match set_cooldown(discount_percent, cooldown_period, now) {
        Ok(end) => end,
        Err(fault) => { return Err(fault); },
    };
    let mut transfers: Vec<TokenTransfer> = Vec::new();
    transfers.push(
        TokenTransfer {
            from: ctx.user_token_account.address,
            to: ctx.lp_token_account.address,
            authority: TransferAuthority::Signer(ctx.user),
            amount: discounted,
        },
    );
    transfers.append(&mut fees);
    let mint = match mint_nft_internal(
        ctx.user,
        ctx.nft_mint,
        String::from_str("metadata_uri_placeholder"),
        ctx.collection_key,
        ctx.collection.is_compressed,
    ) {
        Ok(mint) => mint,
        Err(fault) => { return Err(fault); },
    };
    ctx.nft_data = Some(
        NftData {
            owner: ctx.user,
            collection: ctx.collection_key,
            mint: ctx.nft_mint,
            metadata_uri: String::new(),
            minted_at: now,
            cooldown_end_timestamp,
            discount_percent,
            fusion_level: 0,
            parent_nfts: None,
            rarity_score: 0,
        },
    );
    ctx.project.touch(now);
    ctx.liquidity_pool.last_activity = now;
    Ok(SwapReceipt { transfers, mint })
}

} // verus!
