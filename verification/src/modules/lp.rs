use crate::errors::MarketplaceError;
use crate::modules::oracle::{touched, PriceSource};
use crate::state::{
    with_payment, push_payment, Address, LiquidityPool, PlatformConfig, Project, TokenAccount,
    TokenTransfer, TransferAuthority,
};
use vstd::prelude::*;

verus! {

/// A pool may be reclaimed once it has seen no activity for this many seconds,
/// about six months.
pub const INACTIVITY_PERIOD: i64 = 15_768_000;

/// What the setup of a project's liquidity pool works on.
#[derive(Clone, Debug, PartialEq, Eq)]
pub struct SetupLiquidityPool {
    /// Who sets the pool up.
    pub authority: Address,
    /// The key that `project` is filed under.
    pub project_key: Address,
    pub project: Project,
    /// The place of the project's pool: empty before, filled after.
    pub liquidity_pool: Option<LiquidityPool>,
    /// The mint of the pool's token.
    pub token_mint_account: Address,
    /// The custody account that will hold the pool's reserves.
    pub lp_token_account: TokenAccount,
    /// The account that the first reserves are taken from.
    pub authority_token_account: TokenAccount,
}

/// Why the setup of a pool fails, if it does.
pub open spec fn setup_liquidity_pool_fault(
    ctx: SetupLiquidityPool,
    project_id: Seq<char>,
    token_mint: Address,
) -> Option<MarketplaceError> {
    if !ctx.project.serves(project_id) {
        Some(MarketplaceError::ProjectNotFound)
    } else if ctx.project.authority != ctx.authority {
        Some(MarketplaceError::Unauthorized)
    } else if ctx.liquidity_pool is Some {
        Some(MarketplaceError::LiquidityPoolAlreadyExists)
    } else if ctx.token_mint_account != token_mint {
        Some(MarketplaceError::InvalidTokenMint)
    } else if ctx.lp_token_account.mint != ctx.token_mint_account
        || !ctx.authority_token_account.held_by(ctx.authority, token_mint) {
        Some(MarketplaceError::InvalidTokenAccount)
    } else {
        None
    }
}

/// The pool that a successful setup at `now` files: without a price, and with
/// redemption open.
pub open spec fn new_pool(ctx: SetupLiquidityPool, token_mint: Address, now: i64) -> LiquidityPool {
    LiquidityPool {
        project: ctx.project_key,
        token_mint,
        lp_token_account: ctx.lp_token_account.address,
        created_at: now,
        last_activity: now,
        oracle_price_usd: None,
        oracle_price_last_update: 0,
        redemption_locked: false,
        price_source: PriceSource::Unset,
    }
}

/// What a successful setup asks of the ledger: the first reserves, if there
/// are any, from the authority into the pool's custody account.
pub open spec fn setup_liquidity_pool_transfers(ctx: SetupLiquidityPool, initial_liquidity: u64) -> Seq<
    TokenTransfer,
> {
    with_payment(
        Seq::empty(),
        TokenTransfer {
            from: ctx.authority_token_account.address,
            to: ctx.lp_token_account.address,
            authority: TransferAuthority::Signer(ctx.authority),
            amount: initial_liquidity,
        },
    )
}

/// Sets up the liquidity pool of a project: files the pool without a price,
/// asks for `initial_liquidity` to be moved into its custody account if that is
/// not 0, and stamps the project with `now`.
///
/// Fails where the project is not the active project `project_id`, where the
/// caller is not its authority, where the project has a pool already, where the
/// mint is not `token_mint`, or where an account does not hold the token or is
/// not the authority's.
pub fn setup_liquidity_pool(
    ctx: &mut SetupLiquidityPool,
    project_id: String,
    token_mint: Address,
    initial_liquidity: u64,
    now: i64,
) -> (funded: Result<Vec<TokenTransfer>, MarketplaceError>)
    ensures
        match setup_liquidity_pool_fault(*old(ctx), project_id@, token_mint) {
            Some(fault) => funded == Err::<Vec<TokenTransfer>, MarketplaceError>(fault)
                && *final(ctx) == *old(ctx),
            None => {
                &&& funded matches Ok(transfers)
                &&& transfers@ == setup_liquidity_pool_transfers(*old(ctx), initial_liquidity)
                &&& *final(ctx) == (SetupLiquidityPool {
                    liquidity_pool: Some(new_pool(*old(ctx), token_mint, now)),
                    project: touched(old(ctx).project, now),
                    ..*old(ctx)
                })
            },
        },
{
    if ctx.project.project_id != project_id || !ctx.project.is_active {
        return Err(MarketplaceError::ProjectNotFound);
    }
    if ctx.project.authority != ctx.authority {
        return Err(MarketplaceError::Unauthorized);
    }
    if ctx.liquidity_pool.is_some() {
        return Err(MarketplaceError::LiquidityPoolAlreadyExists);
    }
    if ctx.token_mint_account != token_mint {
        return Err(MarketplaceError::InvalidTokenMint);
    }
    if ctx.lp_token_account.mint != ctx.token_mint_account
        || !ctx.authority_token_account.is_held_by(ctx.authority, token_mint) {
        return Err(MarketplaceError::InvalidTokenAccount);
    }
    ctx.liquidity_pool = Some(
        LiquidityPool {
            project: ctx.project_key,
            token_mint,
            lp_token_account: ctx.lp_token_account.address,
            created_at: now,
            last_activity: now,
            oracle_price_usd: None,
            oracle_price_last_update: 0,
            redemption_locked: false,
            price_source: PriceSource::Unset,
        },
    );
    let mut transfers: Vec<TokenTransfer> = Vec::new();
    push_payment(
        &mut transfers,
        TokenTransfer {
            from: ctx.authority_token_account.address,
            to: ctx.lp_token_account.address,
            authority: TransferAuthority::Signer(ctx.authority),
            amount: initial_liquidity,
        },
    );
    ctx.project.touch(now);
    Ok(transfers)
}

/// What the check of a pool for inactivity works on.
#[derive(Clone, Debug, PartialEq, Eq)]
pub struct CheckLpInactivity {
    /// Who asks for the check.
    pub authority: Address,
    pub platform_config: PlatformConfig,
    pub project: Project,
    pub liquidity_pool: LiquidityPool,
    /// The custody account that holds the pool's reserves.
    pub lp_token_account: TokenAccount,
    /// Where reclaimed reserves go.
    pub platform_treasury: Address,
}

/// Whether a pool last active at `last_activity` counts as inactive at `now`.
pub open spec fn inactive(last_activity: i64, now: i64) -> bool {
    now - last_activity >= INACTIVITY_PERIOD
}

/// Why the reclaiming of a pool fails, if it does.
pub open spec fn check_lp_inactivity_fault(ctx: CheckLpInactivity, project_id: Seq<char>, now: i64) -> Option<
    MarketplaceError,
> {
    if ctx.platform_config.authority != ctx.authority {
        Some(MarketplaceError::Unauthorized)
    } else if ctx.project.project_id@ != project_id {
        Some(MarketplaceError::ProjectNotFound)
    } else if ctx.lp_token_account.address != ctx.liquidity_pool.lp_token_account
        || ctx.platform_treasury != ctx.platform_config.platform_treasury {
        Some(MarketplaceError::InvalidTokenAccount)
    } else if !inactive(ctx.liquidity_pool.last_activity, now) {
        Some(MarketplaceError::LiquidityPoolNotInactive)
    } else {
        None
    }
}

/// What a successful reclaiming asks of the ledger: all the pool's reserves,
/// if there are any, to the platform treasury under the pool's own authority.
pub open spec fn check_lp_inactivity_transfers(ctx: CheckLpInactivity) -> Seq<TokenTransfer> {
    with_payment(
        Seq::empty(),
        TokenTransfer {
            from: ctx.lp_token_account.address,
            to: ctx.platform_treasury,
            authority: TransferAuthority::LiquidityPool(ctx.liquidity_pool.project),
            amount: ctx.lp_token_account.amount,
        },
    )
}

/// Reclaims the reserves of a pool that has been inactive for six months: they
/// go to the platform treasury, and the project becomes inactive.
///
/// Fails where the caller is not the platform's authority, where the project
/// is not `project_id`, where an account is not the one it has to be, or with a
/// pool not inactive where less than 15,768,000 seconds have passed since the
/// pool's last activity.
pub fn check_lp_inactivity(ctx: &mut CheckLpInactivity, project_id: String, now: i64) -> (swept:
    Result<Vec<TokenTransfer>, MarketplaceError>)
    ensures
        match check_lp_inactivity_fault(*old(ctx), project_id@, now) {
            Some(fault) => swept == Err::<Vec<TokenTransfer>, MarketplaceError>(fault) && *final(ctx)
                == *old(ctx),
            None => {
                &&& swept matches Ok(transfers)
                &&& transfers@ == check_lp_inactivity_transfers(*old(ctx))
                &&& *final(ctx) == (CheckLpInactivity {
                    project: Project { is_active: false, ..old(ctx).project },
                    ..*old(ctx)
                })
            },
        },
{
    if ctx.platform_config.authority != ctx.authority {
        return Err(MarketplaceError::Unauthorized);
    }
    if ctx.project.project_id != project_id {
        return Err(MarketplaceError::ProjectNotFound);
    }
    if ctx.lp_token_account.address != ctx.liquidity_pool.lp_token_account || ctx.platform_treasury
        != ctx.platform_config.platform_treasury {
        return Err(MarketplaceError::InvalidTokenAccount);
    }
    if (now as i128) - (ctx.liquidity_pool.last_activity as i128) < INACTIVITY_PERIOD as i128 {
        return Err(MarketplaceError::LiquidityPoolNotInactive);
    }
    let mut transfers: Vec<TokenTransfer> = Vec::new();
    push_payment(
        &mut transfers,
        TokenTransfer {
            from: ctx.lp_token_account.address,
            to: ctx.platform_treasury,
            authority: TransferAuthority::LiquidityPool(ctx.liquidity_pool.project),
            amount: ctx.lp_token_account.amount,
        },
    );
    ctx.project.is_active = false;
    Ok(transfers)
}

} // verus!
