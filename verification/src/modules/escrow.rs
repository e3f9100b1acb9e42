use crate::errors::MarketplaceError;
use crate::modules::oracle::touched;
use crate::state::{
    with_payment, push_payment, Address, Collection, NftData, Project, TokenAccount, TokenEscrow,
    TokenTransfer, TransferAuthority,
};
use vstd::prelude::*;

verus! {

/// What the creation of a token escrow works on.
#[derive(Clone, Debug, PartialEq, Eq)]
pub struct CreateTokenEscrow {
    /// Who deposits the tokens.
    pub owner: Address,
    /// The record of the NFT that the tokens are held against.
    pub nft_data: NftData,
    /// The key that `collection` is filed under.
    pub collection_key: Address,
    pub collection: Collection,
    /// The key that `project` is filed under.
    pub project_key: Address,
    pub project: Project,
    /// The place of the escrow of the NFT: empty before, filled after.
    pub token_escrow: Option<TokenEscrow>,
    pub token_mint: Address,
    /// The custody account that will hold the deposit.
    pub escrow_token_account: Address,
    /// The account that the deposit is taken from.
    pub owner_token_account: TokenAccount,
}

/// When a deposit made at `now` with the given vesting period becomes free.
pub open spec fn vesting_end(vesting_period: Option<i64>, now: i64) -> Option<int> {
    match vesting_period {
        Some(period) => Some(now + period),
        None => None,
    }
}

/// Why the creation of an escrow fails, if it does.
pub open spec fn create_token_escrow_fault(
    ctx: CreateTokenEscrow,
    token_amount: u64,
    vesting_period: Option<i64>,
    now: i64,
) -> Option<MarketplaceError> {
    if token_amount == 0 {
        Some(MarketplaceError::TokenPriceTooLow)
    } else if vesting_period matches Some(period) && period <= 0 {
        Some(MarketplaceError::InvalidCooldownPeriod)
    } else if ctx.nft_data.owner != ctx.owner {
        Some(MarketplaceError::NotNftOwner)
    } else if ctx.collection_key != ctx.nft_data.collection {
        Some(MarketplaceError::CollectionNotFound)
    } else if ctx.project_key != ctx.collection.project || !ctx.project.is_active {
        Some(MarketplaceError::ProjectNotFound)
    } else if ctx.token_escrow is Some {
        Some(MarketplaceError::EscrowAlreadyExists)
    } else if !ctx.owner_token_account.held_by(ctx.owner, ctx.token_mint) {
        Some(MarketplaceError::InvalidTokenAccount)
    } else if vesting_end(vesting_period, now) matches Some(end) && end > i64::MAX {
        Some(MarketplaceError::CalculationOverflow)
    } else {
        None
    }
}

/// The escrow that a successful creation files.
pub open spec fn created_escrow(
    ctx: CreateTokenEscrow,
    nft_mint: Address,
    token_amount: u64,
    vesting_period: Option<i64>,
    now: i64,
) -> TokenEscrow {
    TokenEscrow {
        owner: ctx.owner,
        nft_mint,
        token_mint: ctx.token_mint,
        token_amount,
        escrow_token_account: ctx.escrow_token_account,
        discount_percent: None,
        vesting_end_timestamp: match vesting_end(vesting_period, now) {
            Some(end) => Some(end as i64),
            None => None,
        },
        is_active: true,
        created_at: now,
    }
}

/// The deposit that a successful creation asks of the ledger.
pub open spec fn escrow_deposit(ctx: CreateTokenEscrow, token_amount: u64) -> TokenTransfer {
    TokenTransfer {
        from: ctx.owner_token_account.address,
        to: ctx.escrow_token_account,
        authority: TransferAuthority::Signer(ctx.owner),
        amount: token_amount,
    }
}

/// Creates the escrow of an NFT: `token_amount` tokens of the owner are to be
/// moved into the escrow's custody account, where they stay until `now` plus
/// the vesting period, if one is given. The project is stamped with `now`.
///
/// Fails with a token price too low on an amount of 0, whatever else holds;
/// with an invalid cooldown period on a vesting period that is given and not
/// greater than 0; then where the caller does not own the NFT, where
/// collection or project are not the NFT's or the project is inactive, where
/// the NFT has an escrow already, where the account to take from is not the
/// owner's account of the token, or where the end of vesting overflows.
pub fn create_token_escrow(
    ctx: &mut CreateTokenEscrow,
    nft_mint: Address,
    token_amount: u64,
    vesting_period: Option<i64>,
    now: i64,
) -> (deposit: Result<TokenTransfer, MarketplaceError>)
    ensures
        token_amount == 0 ==> deposit == Err::<TokenTransfer, MarketplaceError>(
            MarketplaceError::TokenPriceTooLow,
        ),
        token_amount != 0 && (vesting_period matches Some(period) && period <= 0) ==> deposit
            == Err::<TokenTransfer, MarketplaceError>(MarketplaceError::InvalidCooldownPeriod),
        match create_token_escrow_fault(*old(ctx), token_amount, vesting_period, now) {
            Some(fault) => deposit == Err::<TokenTransfer, MarketplaceError>(fault) && *final(ctx)
                == *old(ctx),
            None => {
                &&& deposit == Ok::<TokenTransfer, MarketplaceError>(
                    escrow_deposit(*old(ctx), token_amount),
                )
                &&& *final(ctx) == (CreateTokenEscrow {
                    token_escrow: Some(
                        created_escrow(*old(ctx), nft_mint, token_amount, vesting_period, now),
                    ),
                    project: touched(old(ctx).project, now),
                    ..*old(ctx)
                })
            },
        },
{
    if token_amount == 0 {
        return Err(MarketplaceError::TokenPriceTooLow);
    }
    if let Some(period) = vesting_period {
        if period <= 0 {
            return Err(MarketplaceError::InvalidCooldownPeriod);
        }
    }
    if ctx.nft_data.owner != ctx.owner {
        return Err(MarketplaceError::NotNftOwner);
    }
    if ctx.collection_key != ctx.nft_data.collection {
        return Err(MarketplaceError::CollectionNotFound);
    }
    if ctx.project_key != ctx.collection.project || !ctx.project.is_active {
        return Err(MarketplaceError::ProjectNotFound);
    }
    if ctx.token_escrow.is_some() {
        return Err(MarketplaceError::EscrowAlreadyExists);
    }
    if !ctx.owner_token_account.is_held_by(ctx.owner, ctx.token_mint) {
        return Err(MarketplaceError::InvalidTokenAccount);
    }
    let vesting_end_timestamp = match vesting_period {
        Some(period) => match now.checked_add(period) {
            Some(end) => Some(end),
            None => { return Err(MarketplaceError::CalculationOverflow); },
        },
        None => None,
    };
    ctx.token_escrow = Some(
        TokenEscrow {
            owner: ctx.owner,
            nft_mint,
            token_mint: ctx.token_mint,
            token_amount,
            escrow_token_account: ctx.escrow_token_account,
            discount_percent: None,
            vesting_end_timestamp,
            is_active: true,
            created_at: now,
        },
    );
    ctx.project.touch(now);
    Ok(
        TokenTransfer {
            from: ctx.owner_token_account.address,
            to: ctx.escrow_token_account,
            authority: TransferAuthority::Signer(ctx.owner),
            amount: token_amount,
        },
    )
}

/// What the early close of a token escrow works on.
#[derive(Clone, Debug, PartialEq, Eq)]
pub struct CloseTokenEscrow {
    /// Who asks for the close.
    pub owner: Address,
    /// The owner's funds, to which a storage deposit is refunded.
    pub owner_funds: u64,
    /// The place of the escrow of the NFT: empty once the escrow is closed.
    pub token_escrow: Option<TokenEscrow>,
    /// The storage deposit that the escrow's record holds.
    pub token_escrow_deposit: u64,
    /// The custody account that holds the deposited tokens.
    pub escrow_token_account: TokenAccount,
    /// The account that the tokens go back to.
    pub owner_token_account: TokenAccount,
}

/// Why the close of an escrow fails, if it does.
pub open spec fn close_token_escrow_fault(ctx: CloseTokenEscrow, nft_mint: Address, now: i64) -> Option<
    MarketplaceError,
> {
    match ctx.token_escrow {
        None => Some(MarketplaceError::InvalidTokenEscrow),
        Some(escrow) => if escrow.vesting_active(now) {
            Some(MarketplaceError::VestingPeriodActive)
        } else if escrow.owner != ctx.owner {
            Some(MarketplaceError::NotNftOwner)
        } else if !escrow.is_active {
            Some(MarketplaceError::EscrowNotActive)
        } else if ctx.escrow_token_account.address != escrow.escrow_token_account
            || !ctx.owner_token_account.held_by(ctx.owner, escrow.token_mint) {
            Some(MarketplaceError::InvalidTokenAccount)
        } else if escrow.nft_mint != nft_mint {
            Some(MarketplaceError::InvalidTokenEscrow)
        } else if ctx.owner_funds + ctx.token_escrow_deposit > u64::MAX {
            Some(MarketplaceError::CalculationOverflow)
        } else {
            None
        },
    }
}

/// What a successful close asks of the ledger: all that the custody account
/// holds goes back to the owner, under the escrow's own authority.
pub open spec fn close_token_escrow_transfers(ctx: CloseTokenEscrow, nft_mint: Address) -> Seq<
    TokenTransfer,
> {
    with_payment(
        Seq::empty(),
        TokenTransfer {
            from: ctx.escrow_token_account.address,
            to: ctx.owner_token_account.address,
            authority: TransferAuthority::TokenEscrow(nft_mint),
            amount: ctx.escrow_token_account.amount,
        },
    )
}

/// The records after a successful close: the escrow is gone and its storage
/// deposit is with the owner.
pub open spec fn closed(ctx: CloseTokenEscrow) -> CloseTokenEscrow {
    CloseTokenEscrow {
        token_escrow: None,
        token_escrow_deposit: 0,
        owner_funds: (ctx.owner_funds + ctx.token_escrow_deposit) as u64,
        ..ctx
    }
}

/// Closes the escrow of an NFT before any redemption: all that its custody
/// account holds is to go back to the owner under the escrow's own authority,
/// the record is destroyed, and its storage deposit is refunded to the owner.
///
/// Fails with an invalid token escrow where there is no escrow; with a vesting
/// period active wherever `now` is before the end of vesting, whatever else
/// holds; then where the caller is not the owner, where the escrow is inactive,
/// where the accounts are not the escrow's custody account and the owner's
/// account of the token, where the escrow is not that of `nft_mint`, or where
/// the refund overflows.
pub fn close_token_escrow(ctx: &mut CloseTokenEscrow, nft_mint: Address, now: i64) -> (returned:
    Result<Vec<TokenTransfer>, MarketplaceError>)
    ensures
        old(ctx).token_escrow matches Some(escrow) && escrow.vesting_active(now) ==> returned
            == Err::<Vec<TokenTransfer>, MarketplaceError>(MarketplaceError::VestingPeriodActive),
        match close_token_escrow_fault(*old(ctx), nft_mint, now) {
            Some(fault) => returned == Err::<Vec<TokenTransfer>, MarketplaceError>(fault)
                && *final(ctx) == *old(ctx),
            None => {
                &&& returned matches Ok(transfers)
                &&& transfers@ == close_token_escrow_transfers(*old(ctx), nft_mint)
                &&& *final(ctx) == closed(*old(ctx))
            },
        },
{
    let escrow = match ctx.token_escrow {
        Some(escrow) => escrow,
        None => { return Err(MarketplaceError::InvalidTokenEscrow); },
    };
    if let Some(vesting_end) = escrow.vesting_end_timestamp {
        if now < vesting_end {
            return Err(MarketplaceError::VestingPeriodActive);
        }
    }
    if escrow.owner != ctx.owner {
        return Err(MarketplaceError::NotNftOwner);
    }
    if !escrow.is_active {
        return Err(MarketplaceError::EscrowNotActive);
    }
    if ctx.escrow_token_account.address != escrow.escrow_token_account
        || !ctx.owner_token_account.is_held_by(ctx.owner, escrow.token_mint) {
        return Err(MarketplaceError::InvalidTokenAccount);
    }
    if escrow.nft_mint != nft_mint {
        return Err(MarketplaceError::InvalidTokenEscrow);
    }
    let refunded = match ctx.owner_funds.checked_add(ctx.token_escrow_deposit) {
        Some(refunded) => refunded,
        None => { return Err(MarketplaceError::CalculationOverflow); },
    };
    let mut transfers: Vec<TokenTransfer> = Vec::new();
    push_payment(
        &mut transfers,
        TokenTransfer {
            from: ctx.escrow_token_account.address,
            to: ctx.owner_token_account.address,
            authority: TransferAuthority::TokenEscrow(nft_mint),
            amount: ctx.escrow_token_account.amount,
        },
    );
    ctx.token_escrow = None;
    ctx.token_escrow_deposit = 0;
    ctx.owner_funds = refunded;
    Ok(transfers)
}

/// Once vesting is over, or where there is none, the owner's close of the active
/// escrow of `nft_mint` succeeds: all that the custody account holds goes back
/// to the owner's account under the escrow's own authority, in one transfer or
/// in none where it holds nothing; the record is gone, and its storage deposit
/// is with the owner. The accounts handed in have to be the escrow's custody
/// account and the owner's account of the token, and the owner's funds have to
/// have room for the deposit: without them there is nothing to move from or to.
pub proof fn lemma_close_permitted_after_vesting(ctx: CloseTokenEscrow, nft_mint: Address, now: i64)
    requires
        ctx.token_escrow matches Some(escrow) && {
            &&& escrow.vesting_end_timestamp matches Some(end) ==> now >= end
            &&& escrow.owner == ctx.owner
            &&& escrow.is_active
            &&& escrow.nft_mint == nft_mint
            &&& ctx.escrow_token_account.address == escrow.escrow_token_account
            &&& ctx.owner_token_account.held_by(ctx.owner, escrow.token_mint)
        },
        ctx.owner_funds + ctx.token_escrow_deposit <= u64::MAX,
    ensures
        close_token_escrow_fault(ctx, nft_mint, now) is None,
        close_token_escrow_transfers(ctx, nft_mint) == if ctx.escrow_token_account.amount == 0 {
            Seq::<TokenTransfer>::empty()
        } else {
            seq![
                TokenTransfer {
                    from: ctx.escrow_token_account.address,
                    to: ctx.owner_token_account.address,
                    authority: TransferAuthority::TokenEscrow(nft_mint),
                    amount: ctx.escrow_token_account.amount,
                },
            ]
        },
        closed(ctx).token_escrow is None,
        closed(ctx).token_escrow_deposit == 0,
        closed(ctx).owner_funds == ctx.owner_funds + ctx.token_escrow_deposit,
{
    let payment = TokenTransfer {
        from: ctx.escrow_token_account.address,
        to: ctx.owner_token_account.address,
        authority: TransferAuthority::TokenEscrow(nft_mint),
        amount: ctx.escrow_token_account.amount,
    };
    assert(Seq::<TokenTransfer>::empty().push(payment) =~= seq![payment]);
}

/// An escrow is closed once only: after a close that succeeded, a close at any
/// later time, by anyone, finds no escrow.
pub proof fn lemma_close_once(
    ctx: CloseTokenEscrow,
    nft_mint: Address,
    now: i64,
    again: CloseTokenEscrow,
    again_mint: Address,
    later: i64,
)
    requires
        close_token_escrow_fault(ctx, nft_mint, now) is None,
        again.token_escrow == closed(ctx).token_escrow,
    ensures
        close_token_escrow_fault(again, again_mint, later) == Some(
            MarketplaceError::InvalidTokenEscrow,
        ),
{
}

} // verus!
