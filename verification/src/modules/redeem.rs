use crate::errors::MarketplaceError;
use crate::modules::cooldown::{check_cooldown_expired, in_cooldown};
use crate::modules::fees::{fee_split, lemma_payment_total, rates_fit, split_fees, FeeVariant};
use crate::modules::oracle::{check_oracle_status, oracle_fault, touched, TOKEN_UNIT};
use crate::state::{
    with_payment, push_payment, total_moved, Address, Collection, LiquidityPool, NftData,
    PlatformConfig, Project, TokenAccount, TokenEscrow, TokenTransfer, TransferAuthority,
};
use vstd::prelude::*;

verus! {

/// What the redemption of an NFT through its token escrow works on.
#[derive(Clone, Debug, PartialEq, Eq)]
pub struct TokenEscrowRedemption {
    /// Who redeems.
    pub user: Address,
    pub platform_config: PlatformConfig,
    /// The record of the NFT that is redeemed.
    pub nft_data: NftData,
    /// The escrow of the NFT.
    pub token_escrow: TokenEscrow,
    /// The key that the NFT's collection is filed under.
    pub collection_key: Address,
    pub collection: Collection,
    /// The key that `project` is filed under.
    pub project_key: Address,
    pub project: Project,
    /// The account that receives the redeemed tokens.
    pub user_token_account: TokenAccount,
    /// The custody account that holds the deposited tokens.
    pub escrow_token_account: TokenAccount,
    /// Where the platform's fee goes.
    pub platform_treasury: TokenAccount,
    /// Where the project's fee goes.
    pub project_treasury: TokenAccount,
}

/// The platform's and the project's part of an escrowed amount.
pub open spec fn redemption_fees(ctx: TokenEscrowRedemption) -> (u64, u64) {
    let split = fee_split(
        ctx.token_escrow.token_amount,
        ctx.platform_config.platform_fee_basis_points,
        ctx.project.royalty_basis_points,
        false,
        FeeVariant::Redemption,
    );
    (split.platform_fee, split.project_fee)
}

/// Why a redemption through the escrow fails, if it does.
pub open spec fn redeem_escrow_token_fault(ctx: TokenEscrowRedemption, nft_mint: Address, now: i64) -> Option<
    MarketplaceError,
> {
    let escrow = ctx.token_escrow;
    if escrow.vesting_active(now) {
        Some(MarketplaceError::VestingPeriodActive)
    } else if ctx.nft_data.owner != ctx.user {
        Some(MarketplaceError::NotNftOwner)
    } else if ctx.nft_data.mint != nft_mint {
        Some(MarketplaceError::InvalidNftForFusion)
    } else if escrow.nft_mint != nft_mint {
        Some(MarketplaceError::InvalidTokenEscrow)
    } else if escrow.owner != ctx.user {
        Some(MarketplaceError::NotNftOwner)
    } else if !escrow.is_active {
        Some(MarketplaceError::EscrowNotActive)
    } else if ctx.collection_key != ctx.nft_data.collection {
        Some(MarketplaceError::CollectionNotFound)
    } else if ctx.project_key != ctx.collection.project {
        Some(MarketplaceError::ProjectNotFound)
    } else if !ctx.user_token_account.held_by(ctx.user, escrow.token_mint)
        || ctx.escrow_token_account.address != escrow.escrow_token_account
        || !ctx.platform_treasury.held_by(ctx.platform_config.platform_treasury, escrow.token_mint)
        || !ctx.project_treasury.held_by(ctx.project.project_treasury, escrow.token_mint) {
        Some(MarketplaceError::InvalidTokenAccount)
    } else if !rates_fit(
        ctx.platform_config.platform_fee_basis_points,
        ctx.project.royalty_basis_points,
    ) {
        Some(MarketplaceError::CalculationOverflow)
    } else {
        None
    }
}

/// What a successful redemption asks of the ledger, all of it out of the
/// escrow's custody account and under the escrow's own authority: the amount
/// less both fees to the user, then each fee that is not 0 to its treasury.
pub open spec fn redeem_escrow_token_transfers(ctx: TokenEscrowRedemption, nft_mint: Address) -> Seq<
    TokenTransfer,
> {
    let (platform_fee, project_fee) = redemption_fees(ctx);
    let authority = TransferAuthority::TokenEscrow(nft_mint);
    let source = ctx.escrow_token_account.address;
    let payout = TokenTransfer {
        from: source,
        to: ctx.user_token_account.address,
        authority,
        amount: (ctx.token_escrow.token_amount - platform_fee - project_fee) as u64,
    };
    let to_platform = TokenTransfer {
        from: source,
        to: ctx.platform_treasury.address,
        authority,
        amount: platform_fee,
    };
    let to_project = TokenTransfer {
        from: source,
        to: ctx.project_treasury.address,
        authority,
        amount: project_fee,
    };
    with_payment(with_payment(seq![payout], to_platform), to_project)
}

/// The records after a successful redemption at `now`: the escrow stays on
/// file but is inactive, the NFT is the project's, and the project is stamped.
pub open spec fn redeemed(ctx: TokenEscrowRedemption, now: i64) -> TokenEscrowRedemption {
    TokenEscrowRedemption {
        token_escrow: TokenEscrow { is_active: false, ..ctx.token_escrow },
        nft_data: NftData { owner: ctx.project_key, ..ctx.nft_data },
        project: touched(ctx.project, now),
        ..ctx
    }
}

/// Redeems an NFT for the tokens of its escrow. The platform's fee and the
/// project's fee are taken from the escrowed amount, the rest goes to the
/// user, and the transfers together move exactly the escrowed amount. The
/// escrow stays on file but becomes inactive, the NFT passes to the project,
/// and the project is stamped with `now`.
///
/// Fails with a vesting period active wherever `now` is before the end of
/// vesting; then where the user does not own the NFT or the escrow, where NFT
/// or escrow are not those of `nft_mint`, where the escrow is inactive, where
/// collection or project are not the NFT's, where an account is not the one it
/// has to be, or where the two fee rates together exceed 10000 basis points.
pub fn redeem_escrow_token(ctx: &mut TokenEscrowRedemption, nft_mint: Address, now: i64) -> (paid:
    Result<Vec<TokenTransfer>, MarketplaceError>)
    ensures
        match redeem_escrow_token_fault(*old(ctx), nft_mint, now) {
            Some(fault) => paid == Err::<Vec<TokenTransfer>, MarketplaceError>(fault)
                && *final(ctx) == *old(ctx),
            None => {
                &&& paid matches Ok(transfers)
                &&& transfers@ == redeem_escrow_token_transfers(*old(ctx), nft_mint)
                &&& total_moved(transfers@) == old(ctx).token_escrow.token_amount
                &&& *final(ctx) == redeemed(*old(ctx), now)
            },
        },
{
    let escrow = ctx.token_escrow;
    if let Some(vesting_end) = escrow.vesting_end_timestamp {
        if now < vesting_end {
            return Err(MarketplaceError::VestingPeriodActive);
        }
    }
    if ctx.nft_data.owner != ctx.user {
        return Err(MarketplaceError::NotNftOwner);
    }
    if ctx.nft_data.mint != nft_mint {
        return Err(MarketplaceError::InvalidNftForFusion);
    }
    if escrow.nft_mint != nft_mint {
        return Err(MarketplaceError::InvalidTokenEscrow);
    }
    if escrow.owner != ctx.user {
        return Err(MarketplaceError::NotNftOwner);
    }
    if !escrow.is_active {
        return Err(MarketplaceError::EscrowNotActive);
    }
    if ctx.collection_key != ctx.nft_data.collection {
        return Err(MarketplaceError::CollectionNotFound);
    }
    if ctx.project_key != ctx.collection.project {
        return Err(MarketplaceError::ProjectNotFound);
    }
    if !ctx.user_token_account.is_held_by(ctx.user, escrow.token_mint)
        || ctx.escrow_token_account.address != escrow.escrow_token_account
        || !ctx.platform_treasury.is_held_by(ctx.platform_config.platform_treasury, escrow.token_mint)
        || !ctx.project_treasury.is_held_by(ctx.project.project_treasury, escrow.token_mint) {
        return Err(MarketplaceError::InvalidTokenAccount);
    }
    let split = match split_fees(
        escrow.token_amount,
        ctx.platform_config.platform_fee_basis_points,
        ctx.project.royalty_basis_points,
        false,
        FeeVariant::Redemption,
    ) {
        Ok(split) => split,
        Err(fault) => { return Err(fault); },
    };
    let final_amount = escrow.token_amount - split.platform_fee - split.project_fee;
    let authority = TransferAuthority::TokenEscrow(nft_mint);
    let source = ctx.escrow_token_account.address;
    let payout = TokenTransfer {
        from: source,
        to: ctx.user_token_account.address,
        authority,
        amount: final_amount,
    };
    let to_platform = TokenTransfer {
        from: source,
        to: ctx.platform_treasury.address,
        authority,
        amount: split.platform_fee,
    };
    let to_project = TokenTransfer {
        from: source,
        to: ctx.project_treasury.address,
        authority,
        amount: split.project_fee,
    };
    let mut transfers: Vec<TokenTransfer> = Vec::new();
    transfers.push(payout);
    proof {
        assert(transfers@ =~= seq![payout]);
        lemma_payment_total(Seq::empty(), payout);
        lemma_payment_total(seq![payout], to_platform);
        lemma_payment_total(with_payment(seq![payout], to_platform), to_project);
    }
    push_payment(&mut transfers, to_platform);
    push_payment(&mut transfers, to_project);
    ctx.token_escrow.is_active = false;
    ctx.nft_data.owner = ctx.project_key;
    ctx.project.touch(now);
    Ok(transfers)
}

/// What the redemption of an NFT for tokens of the liquidity pool works on.
#[derive(Clone, Debug, PartialEq, Eq)]
pub struct RedeemNftForToken {
    /// Who redeems.
    pub user: Address,
    /// The user's funds, to which a storage deposit is refunded.
    pub user_funds: u64,
    /// The place of the NFT's record: empty once the NFT is redeemed.
    pub nft_data: Option<NftData>,
    /// The storage deposit that the NFT's record holds.
    pub nft_data_deposit: u64,
    pub project: Project,
    pub liquidity_pool: LiquidityPool,
    /// The mint of the NFT that is handed in.
    pub nft_mint: Address,
    /// The user's account of the NFT.
    pub user_nft_account: TokenAccount,
    /// The account that receives the redeemed tokens.
    pub user_token_account: TokenAccount,
    /// The custody account that holds the pool's reserves.
    pub lp_token_account: TokenAccount,
    pub token_mint: Address,
}

/// What one NFT is redeemed for: one token.
pub const REDEMPTION_UNIT: u64 = TOKEN_UNIT;

/// Why a redemption for tokens of the pool fails, if it does.
pub open spec fn redeem_nft_for_token_fault(ctx: RedeemNftForToken, nft_mint: Address, now: i64) -> Option<
    MarketplaceError,
> {
    match ctx.nft_data {
        None => Some(MarketplaceError::NotNftOwner),
        Some(nft_data) => if nft_data.owner != ctx.user {
            Some(MarketplaceError::NotNftOwner)
        } else if !ctx.project.is_active {
            Some(MarketplaceError::ProjectNotFound)
        } else if ctx.liquidity_pool.redemption_locked {
            Some(MarketplaceError::RedemptionLocked)
        } else if !ctx.user_nft_account.held_by(ctx.user, ctx.nft_mint)
            || !ctx.user_token_account.held_by(ctx.user, ctx.token_mint)
            || ctx.lp_token_account.address != ctx.liquidity_pool.lp_token_account {
            Some(MarketplaceError::InvalidTokenAccount)
        } else if ctx.token_mint != ctx.liquidity_pool.token_mint {
            Some(MarketplaceError::InvalidTokenMint)
        } else if ctx.nft_mint != nft_mint {
            Some(MarketplaceError::NotNftOwner)
        } else if oracle_fault(ctx.liquidity_pool, now) is Some {
            oracle_fault(ctx.liquidity_pool, now)
        } else if in_cooldown(nft_data, now) {
            Some(MarketplaceError::NftInCooldown)
        } else if ctx.lp_token_account.amount < REDEMPTION_UNIT {
            Some(MarketplaceError::InsufficientLiquidity)
        } else if ctx.user_funds + ctx.nft_data_deposit > u64::MAX {
            Some(MarketplaceError::CalculationOverflow)
        } else {
            None
        },
    }
}

/// What a successful redemption asks of the ledger: one token out of the
/// pool's custody account to the user, under the pool's own authority.
pub open spec fn redemption_payout(ctx: RedeemNftForToken) -> TokenTransfer {
    TokenTransfer {
        from: ctx.lp_token_account.address,
        to: ctx.user_token_account.address,
        authority: TransferAuthority::LiquidityPool(ctx.liquidity_pool.project),
        amount: REDEMPTION_UNIT,
    }
}

/// The records after a successful redemption at `now`: the NFT's record is
/// gone, its storage deposit is with the user, and pool and project are stamped.
pub open spec fn redeemed_for_token(ctx: RedeemNftForToken, now: i64) -> RedeemNftForToken {
    RedeemNftForToken {
        nft_data: None,
        nft_data_deposit: 0,
        user_funds: (ctx.user_funds + ctx.nft_data_deposit) as u64,
        project: touched(ctx.project, now),
        liquidity_pool: LiquidityPool { last_activity: now, ..ctx.liquidity_pool },
        ..ctx
    }
}

/// Redeems an NFT for one token of the liquidity pool. The record of the NFT
/// is destroyed and its storage deposit refunded to the user; pool and project
/// are stamped with `now`. Nothing is redeemed unless the pool's price can be
/// used at `now`.
///
/// Fails where the NFT has no record or is not the user's, where the project
/// is inactive, where redemption is locked, where an account is not the one it
/// has to be, where the token is not the pool's, where the NFT handed in is not
/// `nft_mint`, where the price is missing or out of date, where the NFT is in
/// cooldown, where the pool holds less than one token, or where the refund
/// overflows.
pub fn redeem_nft_for_token(ctx: &mut RedeemNftForToken, nft_mint: Address, now: i64) -> (paid:
    Result<TokenTransfer, MarketplaceError>)
    ensures
        paid is Ok ==> oracle_fault(old(ctx).liquidity_pool, now) is None,
        match redeem_nft_for_token_fault(*old(ctx), nft_mint, now) {
            Some(fault) => paid == Err::<TokenTransfer, MarketplaceError>(fault) && *final(ctx)
                == *old(ctx),
            None => {
                &&& paid == Ok::<TokenTransfer, MarketplaceError>(redemption_payout(*old(ctx)))
                &&& *final(ctx) == redeemed_for_token(*old(ctx), now)
            },
        },
{
    match &ctx.nft_data {
        None => { return Err(MarketplaceError::NotNftOwner); },
        Some(nft_data) => {
            if nft_data.owner != ctx.user {
                return Err(MarketplaceError::NotNftOwner);
            }
            if !ctx.project.is_active {
                return Err(MarketplaceError::ProjectNotFound);
            }
            if ctx.liquidity_pool.redemption_locked {
                return Err(MarketplaceError::RedemptionLocked);
            }
            if !ctx.user_nft_account.is_held_by(ctx.user, ctx.nft_mint)
                || !ctx.user_token_account.is_held_by(ctx.user, ctx.token_mint)
                || ctx.lp_token_account.address != ctx.liquidity_pool.lp_token_account {
                return Err(MarketplaceError::InvalidTokenAccount);
            }
            if ctx.token_mint != ctx.liquidity_pool.token_mint {
                return Err(MarketplaceError::InvalidTokenMint);
            }
            if ctx.nft_mint != nft_mint {
                return Err(MarketplaceError::NotNftOwner);
            }
            match check_oracle_status(&ctx.liquidity_pool, now) {
                Ok(()) => {},
                Err(fault) => { return Err(fault); },
            }
            match check_cooldown_expired(nft_data, now) {
                Ok(()) => {},
                Err(fault) => { return Err(fault); },
            }
        },
    }
    if ctx.lp_token_account.amount < REDEMPTION_UNIT {
        return Err(MarketplaceError::InsufficientLiquidity);
    }
    let refunded = match ctx.user_funds.checked_add(ctx.nft_data_deposit) {
        Some(refunded) => refunded,
        None => { return Err(MarketplaceError::CalculationOverflow); },
    };
    let payout = TokenTransfer {
        from: ctx.lp_token_account.address,
        to: ctx.user_token_account.address,
        authority: TransferAuthority::LiquidityPool(ctx.liquidity_pool.project),
        amount: REDEMPTION_UNIT,
    };
    ctx.project.touch(now);
    ctx.liquidity_pool.last_activity = now;
    ctx.nft_data = None;
    ctx.nft_data_deposit = 0;
    ctx.user_funds = refunded;
    Ok(payout)
}

} // verus!
