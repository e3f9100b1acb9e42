use crate::errors::MarketplaceError;
use crate::state::{
    with_payment, push_payment, total_moved, Address, LiquidityPool, PlatformConfig, Project,
    TokenAccount, TokenTransfer, TransferAuthority, BASIS_POINTS,
};
use vstd::prelude::*;

verus! {

/// How the project's part of an amount is reckoned.
#[derive(Clone, Copy, Debug, PartialEq, Eq, Structural)]
pub enum FeeVariant {
    /// The project gets all that platform fee and royalty leave over.
    Swap,
    /// The project gets half of what platform fee and royalty leave over.
    Redemption,
}

/// The three parts taken out of one amount.
#[derive(Clone, Copy, Debug, PartialEq, Eq, Structural)]
pub struct FeeSplit {
    pub platform_fee: u64,
    pub project_fee: u64,
    pub royalty_fee: u64,
}

/// `rate` basis points of `amount`, rounded down.
pub open spec fn share(amount: int, rate: int) -> int {
    amount * rate / 10000
}

/// The project's rate in basis points, given the two other rates.
pub open spec fn project_rate(platform_rate: int, royalty_rate: int, variant: FeeVariant) -> int {
    match variant {
        FeeVariant::Swap => 10000 - platform_rate - royalty_rate,
        FeeVariant::Redemption => (10000 - platform_rate - royalty_rate) / 2,
    }
}

/// Whether the two rates leave a remainder to reckon the project's part from.
pub open spec fn rates_fit(platform_rate: u16, royalty_rate: u16) -> bool {
    platform_rate + royalty_rate <= 10000
}

/// The parts of `amount` under the given rates; meaningful where `rates_fit`.
pub open spec fn fee_split(
    amount: u64,
    platform_rate: u16,
    royalty_rate: u16,
    has_royalty_wallet: bool,
    variant: FeeVariant,
) -> FeeSplit {
    FeeSplit {
        platform_fee: share(amount as int, platform_rate as int) as u64,
        project_fee: share(
            amount as int,
            project_rate(platform_rate as int, royalty_rate as int, variant),
        ) as u64,
        royalty_fee: if has_royalty_wallet {
            share(amount as int, royalty_rate as int) as u64
        } else {
            0
        },
    }
}

/// Each part of a split is its rate's share of the amount, rounded down, and
/// the three parts together never exceed the amount.
pub proof fn lemma_split_within_amount(
    amount: u64,
    platform_rate: u16,
    royalty_rate: u16,
    has_royalty_wallet: bool,
    variant: FeeVariant,
)
    requires
        rates_fit(platform_rate, royalty_rate),
    ensures
        ({
            let split = fee_split(amount, platform_rate, royalty_rate, has_royalty_wallet, variant);
            &&& split.platform_fee == share(amount as int, platform_rate as int)
            &&& split.project_fee == share(
                amount as int,
                project_rate(platform_rate as int, royalty_rate as int, variant),
            )
            &&& split.royalty_fee == if has_royalty_wallet {
                share(amount as int, royalty_rate as int)
            } else {
                0
            }
            &&& split.platform_fee + split.project_fee + split.royalty_fee <= amount
        }),
{
    let a = amount as int;
    let p = platform_rate as int;
    let r = royalty_rate as int;
    let q = project_rate(p, r, variant);
    assert(0 <= q <= 10000 - p - r);
    lemma_share_bounds(a, p);
    lemma_share_bounds(a, q);
    lemma_share_bounds(a, r);
    assert(a * p + a * q + a * r <= a * 10000) by (nonlinear_arith)
        requires
            a >= 0,
            p + q + r <= 10000,
    ;
}

/// A share at a rate of at most 10000 lies between 0 and the amount, and 10000
/// times the share is at most amount times rate.
pub proof fn lemma_share_bounds(amount: int, rate: int)
    requires
        0 <= amount,
        0 <= rate <= 10000,
    ensures
        0 <= share(amount, rate) <= amount,
        10000 * share(amount, rate) <= amount * rate,
{
    assert(0 <= amount * rate <= amount * 10000) by (nonlinear_arith)
        requires
            0 <= amount,
            0 <= rate <= 10000,
    ;
}

/// `rate` basis points of `amount`, rounded down, or nothing where that is more
/// than 64 bits hold.
pub fn checked_share(amount: u64, rate: u16) -> (part: Option<u64>)
    ensures
        match part {
            Some(value) => value == share(amount as int, rate as int),
            None => share(amount as int, rate as int) > u64::MAX,
        },
{
    assert(amount * rate <= 0xffff_ffff_ffff_ffff * 0xffff) by (nonlinear_arith)
        requires
            amount <= 0xffff_ffff_ffff_ffff,
            rate <= 0xffff,
    ;
    let wide: u128 = (amount as u128) * (rate as u128) / 10000;
    if wide > u64::MAX as u128 {
        None
    } else {
        Some(wide as u64)
    }
}

/// Splits `amount` between platform, project and royalty. The platform part
/// and the royalty part are their rates' shares of the amount; no royalty is
/// taken where no royalty wallet is bound. The split fails where the two rates
/// together exceed 10000 basis points.
pub fn split_fees(
    amount: u64,
    platform_rate: u16,
    royalty_rate: u16,
    has_royalty_wallet: bool,
    variant: FeeVariant,
) -> (split: Result<FeeSplit, MarketplaceError>)
    ensures
        rates_fit(platform_rate, royalty_rate) ==> split == Ok::<FeeSplit, MarketplaceError>(
            fee_split(amount, platform_rate, royalty_rate, has_royalty_wallet, variant),
        ),
        !rates_fit(platform_rate, royalty_rate) ==> split == Err::<FeeSplit, MarketplaceError>(
            MarketplaceError::CalculationOverflow,
        ),
        split matches Ok(parts) ==> parts.platform_fee + parts.project_fee + parts.royalty_fee
            <= amount,
{
    if platform_rate > BASIS_POINTS || royalty_rate > BASIS_POINTS - platform_rate {
        return Err(MarketplaceError::CalculationOverflow);
    }
    let remainder: u16 = BASIS_POINTS - platform_rate - royalty_rate;
    let rate: u16 = match variant {
        FeeVariant::Swap => remainder,
        FeeVariant::Redemption => remainder / 2,
    };
    proof {
        lemma_split_within_amount(amount, platform_rate, royalty_rate, has_royalty_wallet, variant);
        lemma_share_bounds(amount as int, royalty_rate as int);
    }
    let platform_fee = match checked_share(amount, platform_rate) {
        Some(fee) => fee,
        None => { return Err(MarketplaceError::CalculationOverflow); },
    };
    let project_fee = match checked_share(amount, rate) {
        Some(fee) => fee,
        None => { return Err(MarketplaceError::CalculationOverflow); },
    };
    let royalty_fee = if has_royalty_wallet {
        match checked_share(amount, royalty_rate) {
            Some(fee) => fee,
            None => { return Err(MarketplaceError::CalculationOverflow); },
        }
    } else {
        0
    };
    Ok(FeeSplit { platform_fee, project_fee, royalty_fee })
}

/// The payments that hand `split` out of the pool's custody account `source`,
/// under the authority of the pool of `project`: to the platform, to the
/// project, and to the royalty wallet if there is one. A part of 0 is not paid.
pub open spec fn fee_payments(
    source: Address,
    platform_treasury: Address,
    project_treasury: Address,
    royalty_wallet: Option<Address>,
    project: Address,
    split: FeeSplit,
) -> Seq<TokenTransfer> {
    let authority = TransferAuthority::LiquidityPool(project);
    let platform = TokenTransfer {
        from: source,
        to: platform_treasury,
        authority,
        amount: split.platform_fee,
    };
    let to_project = TokenTransfer {
        from: source,
        to: project_treasury,
        authority,
        amount: split.project_fee,
    };
    let paid = with_payment(with_payment(Seq::empty(), platform), to_project);
    match royalty_wallet {
        Some(wallet) => with_payment(
            paid,
            TokenTransfer { from: source, to: wallet, authority, amount: split.royalty_fee },
        ),
        None => paid,
    }
}

/// The payments of a split move its three parts and no more.
pub proof fn lemma_fee_payments_total(
    source: Address,
    platform_treasury: Address,
    project_treasury: Address,
    royalty_wallet: Option<Address>,
    project: Address,
    split: FeeSplit,
)
    ensures
        total_moved(
            fee_payments(source, platform_treasury, project_treasury, royalty_wallet, project, split),
        ) == split.platform_fee + split.project_fee + (if royalty_wallet is Some {
            split.royalty_fee as int
        } else {
            0
        }),
{
    let authority = TransferAuthority::LiquidityPool(project);
    let platform = TokenTransfer {
        from: source,
        to: platform_treasury,
        authority,
        amount: split.platform_fee,
    };
    let to_project = TokenTransfer {
        from: source,
        to: project_treasury,
        authority,
        amount: split.project_fee,
    };
    let none = Seq::<TokenTransfer>::empty();
    let first = with_payment(none, platform);
    lemma_payment_total(none, platform);
    let second = with_payment(first, to_project);
    lemma_payment_total(first, to_project);
    match royalty_wallet {
        Some(wallet) => {
            lemma_payment_total(
                second,
                TokenTransfer { from: source, to: wallet, authority, amount: split.royalty_fee },
            );
        },
        None => {},
    }
}

/// A payment adds its amount to what a list of transfers moves.
pub proof fn lemma_payment_total(transfers: Seq<TokenTransfer>, transfer: TokenTransfer)
    ensures
        total_moved(with_payment(transfers, transfer)) == total_moved(transfers) + transfer.amount,
        total_moved(transfers.push(transfer)) == total_moved(transfers) + transfer.amount,
{
    assert(transfers.push(transfer).drop_last() =~= transfers);
}

/// The wallet that royalties are paid to: the one handed in, where the
/// project has a royalty wallet bound; none otherwise.
pub open spec fn royalty_payee(royalty_wallet: Option<Address>, project: Project) -> Option<Address> {
    if project.royalty_wallet is Some {
        royalty_wallet
    } else {
        None
    }
}

/// Distributes the fees on `amount` out of the pool's custody account: to the
/// platform treasury, to the project treasury and to the royalty wallet. No
/// royalty is taken unless a wallet is handed in and the project has a royalty
/// wallet bound. A fee of 0 is not paid, and the fees together never exceed
/// the amount. Fails where the platform's and the project's rates together
/// exceed 10000 basis points.
pub fn distribute_fees(
    lp_token_account: &TokenAccount,
    platform_treasury: Address,
    project_treasury: Address,
    royalty_wallet: Option<Address>,
    liquidity_pool: &LiquidityPool,
    platform_config: &PlatformConfig,
    project: &Project,
    amount: u64,
    variant: FeeVariant,
) -> (paid: Result<Vec<TokenTransfer>, MarketplaceError>)
    ensures
        !rates_fit(platform_config.platform_fee_basis_points, project.royalty_basis_points)
            ==> paid == Err::<Vec<TokenTransfer>, MarketplaceError>(
            MarketplaceError::CalculationOverflow,
        ),
        rates_fit(platform_config.platform_fee_basis_points, project.royalty_basis_points) ==> {
            &&& paid matches Ok(transfers)
            &&& transfers@ == fee_payments(
                lp_token_account.address,
                platform_treasury,
                project_treasury,
                royalty_payee(royalty_wallet, *project),
                liquidity_pool.project,
                fee_split(
                    amount,
                    platform_config.platform_fee_basis_points,
                    project.royalty_basis_points,
                    royalty_payee(royalty_wallet, *project) is Some,
                    variant,
                ),
            )
            &&& total_moved(transfers@) <= amount
        },
        project.valid_under(*platform_config) ==> paid is Ok,
{
    let payee = if project.royalty_wallet.is_some() {
        royalty_wallet
    } else {
        None
    };
    let split = match split_fees(
        amount,
        platform_config.platform_fee_basis_points,
        project.royalty_basis_points,
        payee.is_some(),
        variant,
    ) {
        Ok(split) => split,
        Err(fault) => { return Err(fault); },
    };
    let authority = TransferAuthority::LiquidityPool(liquidity_pool.project);
    let source = lp_token_account.address;
    let mut transfers: Vec<TokenTransfer> = Vec::new();
    push_payment(
        &mut transfers,
        TokenTransfer { from: source, to: platform_treasury, authority, amount: split.platform_fee },
    );
    push_payment(
        &mut transfers,
        TokenTransfer { from: source, to: project_treasury, authority, amount: split.project_fee },
    );
    match payee {
        Some(wallet) => {
            push_payment(
                &mut transfers,
                TokenTransfer { from: source, to: wallet, authority, amount: split.royalty_fee },
            );
        },
        None => {},
    }
    proof {
        lemma_fee_payments_total(
            source,
            platform_treasury,
            project_treasury,
            payee,
            liquidity_pool.project,
            split,
        );
    }
    Ok(transfers)
}

} // verus!
