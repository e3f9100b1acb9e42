use crate::errors::MarketplaceError;
use crate::state::{Address, LiquidityPool, Project, TokenAccount};
use vstd::arithmetic::power::{lemma_pow_increases, lemma_pow_positive, pow};
use vstd::prelude::*;

verus! {

/// Where the price of a pool came from.
#[derive(Clone, Copy, Debug, PartialEq, Eq, Structural)]
pub enum PriceSource {
    /// The push-oracle feed.
    Pyth,
    /// The ratio of the reserves of a liquidity pair.
    DexLiquidity,
    /// Set by hand.
    Manual,
    /// No price was recorded yet.
    Unset,
}

/// A price is stale once it is older than this many seconds.
pub const MAX_STALENESS: i64 = 3600;

/// The smallest units in one token: tokens have 9 decimal places.
pub const TOKEN_UNIT: u64 = 1_000_000_000;

/// What the push-oracle feed reports: the price is `price * 10^expo`.
#[derive(Clone, Copy, Debug, PartialEq, Eq, Structural)]
pub struct FeedPrice {
    pub price: i64,
    /// The confidence interval around the price.
    pub conf: u64,
    pub expo: i32,
    /// When the price was published.
    pub publish_time: i64,
}

/// Whether a value recorded at `since` is older at `now` than a price may be.
pub open spec fn out_of_date(since: i64, now: i64) -> bool {
    now - since > MAX_STALENESS
}

/// Why the price of `pool` cannot be used at `now`: redemption is locked, or
/// there is no price, or the price is out of date. Nothing where it can be used.
pub open spec fn oracle_fault(pool: LiquidityPool, now: i64) -> Option<MarketplaceError> {
    if pool.redemption_locked {
        Some(MarketplaceError::RedemptionLocked)
    } else if pool.oracle_price_usd is None || out_of_date(pool.oracle_price_last_update, now) {
        Some(MarketplaceError::StaleOracleFeed)
    } else {
        None
    }
}

/// The tokens, in smallest units, that `usd` micro-USD buy at `price`.
pub open spec fn tokens_for_usd(price: int, usd: int) -> int {
    usd * TOKEN_UNIT / price
}

/// The micro-USD that `tokens` smallest units are worth at `price`.
pub open spec fn usd_for_tokens(price: int, tokens: int) -> int {
    tokens * price / (TOKEN_UNIT as int)
}

/// The price in micro-USD that a feed's `price` and `expo` stand for.
pub open spec fn feed_price_micros(price: int, expo: int) -> int {
    price * pow(10, (if expo < 0 { -expo } else { expo }) as nat)
}

/// The price in micro-USD that the reserves of a liquidity pair give.
pub open spec fn reserve_ratio_price(base_reserves: int, token_reserves: int) -> int {
    base_reserves * TOKEN_UNIT / token_reserves
}

/// `pool` after `price` from `source` was recorded at `now`: redemption is open.
pub open spec fn with_price(pool: LiquidityPool, source: PriceSource, price: u64, now: i64) -> LiquidityPool {
    LiquidityPool {
        oracle_price_usd: Some(price),
        oracle_price_last_update: now,
        price_source: source,
        redemption_locked: false,
        ..pool
    }
}

/// `pool` after a price that was out of date arrived at `now`: redemption is
/// locked and the last known price stays.
pub open spec fn with_lock(pool: LiquidityPool, now: i64) -> LiquidityPool {
    LiquidityPool { oracle_price_last_update: now, redemption_locked: true, ..pool }
}

/// `project` after an operation touched it at `now`.
pub open spec fn touched(project: Project, now: i64) -> Project {
    Project { last_activity_timestamp: now, ..project }
}

/// Whether a value recorded at `since` is older at `now` than a price may be.
pub fn is_out_of_date(since: i64, now: i64) -> (old: bool)
    ensures
        old == out_of_date(since, now),
{
    now as i128 - since as i128 > MAX_STALENESS as i128
}

/// Checks that the price of the pool can be used at `now`: redemption is not
/// locked, a price was recorded, and it is no older than an hour.
pub fn check_oracle_status(liquidity_pool: &LiquidityPool, now: i64) -> (status: Result<
    (),
    MarketplaceError,
>)
    ensures
        status == match oracle_fault(*liquidity_pool, now) {
            Some(fault) => Err::<(), MarketplaceError>(fault),
            None => Ok::<(), MarketplaceError>(()),
        },
        status == Err::<(), MarketplaceError>(MarketplaceError::RedemptionLocked)
            <==> liquidity_pool.redemption_locked,
        status == Err::<(), MarketplaceError>(MarketplaceError::StaleOracleFeed) <==> (
        !liquidity_pool.redemption_locked && (liquidity_pool.oracle_price_usd is None
            || now - liquidity_pool.oracle_price_last_update > 3600)),
{
    if liquidity_pool.redemption_locked {
        return Err(MarketplaceError::RedemptionLocked);
    }
    if liquidity_pool.oracle_price_usd.is_none() {
        return Err(MarketplaceError::StaleOracleFeed);
    }
    if is_out_of_date(liquidity_pool.oracle_price_last_update, now) {
        return Err(MarketplaceError::StaleOracleFeed);
    }
    Ok(())
}

/// The tokens, in smallest units, that `usd_amount` micro-USD buy at the
/// pool's price. Fails as `check_oracle_status` does; on a price of 0, and on a
/// result that 64 bits do not hold, with a calculation overflow.
pub fn get_token_amount_for_usd(liquidity_pool: &LiquidityPool, usd_amount: u64, now: i64) -> (tokens:
    Result<u64, MarketplaceError>)
    ensures
        tokens == match oracle_fault(*liquidity_pool, now) {
            Some(fault) => Err::<u64, MarketplaceError>(fault),
            None => {
                let price = liquidity_pool.oracle_price_usd.unwrap();
                if price == 0 || tokens_for_usd(price as int, usd_amount as int) > u64::MAX {
                    Err::<u64, MarketplaceError>(MarketplaceError::CalculationOverflow)
                } else {
                    Ok::<u64, MarketplaceError>(
                        tokens_for_usd(price as int, usd_amount as int) as u64,
                    )
                }
            },
        },
{
    match check_oracle_status(liquidity_pool, now) {
        Ok(()) => {},
        Err(fault) => { return Err(fault); },
    }
    let price = match liquidity_pool.oracle_price_usd {
        Some(price) => price,
        None => { return Err(MarketplaceError::StaleOracleFeed); },
    };
    if price == 0 {
        return Err(MarketplaceError::CalculationOverflow);
    }
    assert(usd_amount * TOKEN_UNIT <= 0xffff_ffff_ffff_ffff * 1_000_000_000) by (nonlinear_arith)
        requires
            usd_amount <= 0xffff_ffff_ffff_ffff,
            TOKEN_UNIT == 1_000_000_000,
    ;
    let wide: u128 = (usd_amount as u128) * (TOKEN_UNIT as u128) / (price as u128);
    if wide > u64::MAX as u128 {
        Err(MarketplaceError::CalculationOverflow)
    } else {
        Ok(wide as u64)
    }
}

/// The micro-USD that `token_amount` smallest units are worth at the pool's
/// price. Fails as `check_oracle_status` does; on a result that 64 bits do not
/// hold, with a calculation overflow.
pub fn get_usd_value_for_tokens(liquidity_pool: &LiquidityPool, token_amount: u64, now: i64) -> (usd:
    Result<u64, MarketplaceError>)
    ensures
        usd == match oracle_fault(*liquidity_pool, now) {
            Some(fault) => Err::<u64, MarketplaceError>(fault),
            None => {
                let price = liquidity_pool.oracle_price_usd.unwrap();
                if usd_for_tokens(price as int, token_amount as int) > u64::MAX {
                    Err::<u64, MarketplaceError>(MarketplaceError::CalculationOverflow)
                } else {
                    Ok::<u64, MarketplaceError>(
                        usd_for_tokens(price as int, token_amount as int) as u64,
                    )
                }
            },
        },
{
    match check_oracle_status(liquidity_pool, now) {
        Ok(()) => {},
        Err(fault) => { return Err(fault); },
    }
    let price = match liquidity_pool.oracle_price_usd {
        Some(price) => price,
        None => { return Err(MarketplaceError::StaleOracleFeed); },
    };
    assert(token_amount * price <= 0xffff_ffff_ffff_ffff * 0xffff_ffff_ffff_ffff)
        by (nonlinear_arith)
        requires
            token_amount <= 0xffff_ffff_ffff_ffff,
            price <= 0xffff_ffff_ffff_ffff,
    ;
    let wide: u128 = (token_amount as u128) * (price as u128) / (TOKEN_UNIT as u128);
    if wide > u64::MAX as u128 {
        Err(MarketplaceError::CalculationOverflow)
    } else {
        Ok(wide as u64)
    }
}

/// The most that turning tokens into micro-USD and back can lose at `price`:
/// the token unit over the price, rounded up.
pub open spec fn round_trip_loss(price: int) -> int {
    (TOKEN_UNIT + price - 1) / price
}

/// Turning tokens into micro-USD and back never gives more tokens than there
/// were, and never loses more than the token unit over the price, rounded up:
/// at a price of the token unit or above, at most one. At any price at most one
/// is lost wherever the division by the token unit leaves no more than the
/// price as its remainder.
pub proof fn lemma_conversion_round_trip(price: u64, tokens: u64)
    requires
        price > 0,
    ensures
        tokens_for_usd(price as int, usd_for_tokens(price as int, tokens as int)) <= tokens,
        tokens - round_trip_loss(price as int) <= tokens_for_usd(
            price as int,
            usd_for_tokens(price as int, tokens as int),
        ),
        price >= TOKEN_UNIT ==> round_trip_loss(price as int) == 1,
        (tokens * price) % (TOKEN_UNIT as int) <= price ==> tokens - 1 <= tokens_for_usd(
            price as int,
            usd_for_tokens(price as int, tokens as int),
        ),
{
    let p = price as int;
    let t = tokens as int;
    let unit = TOKEN_UNIT as int;
    let value = t * p;
    let usd = value / unit;
    let rest = value % unit;
    assert(usd * unit == value - rest);
    let back = (usd * unit) / p;
    assert(back == tokens_for_usd(p, usd_for_tokens(p, t)));
    assert(back <= t) by (nonlinear_arith)
        requires
            back == (t * p - rest) / p,
            p > 0,
            rest >= 0,
    ;
    let loss = round_trip_loss(p);
    assert(loss * p >= unit && (p >= unit ==> loss == 1)) by (nonlinear_arith)
        requires
            loss == (unit + p - 1) / p,
            p > 0,
            unit > 0,
    ;
    assert(t - loss <= back) by (nonlinear_arith)
        requires
            back == (t * p - rest) / p,
            p > 0,
            0 <= rest < unit,
            loss * p >= unit,
    ;
    if rest <= p {
        assert(t - 1 <= back) by (nonlinear_arith)
            requires
                back == (t * p - rest) / p,
                p > 0,
                0 <= rest <= p,
        ;
    }
}

/// A pool without a price is refused at every use, locked or not: no operation
/// that needs a price goes on before one was recorded.
pub proof fn lemma_pool_without_price_is_refused(pool: LiquidityPool, now: i64)
    requires
        pool.oracle_price_usd is None,
    ensures
        oracle_fault(pool, now) is Some,
{
}

/// The price in micro-USD that a feed's price and exponent stand for. Fails
/// with a stale feed on a negative price, and with a calculation overflow on a
/// price that 64 bits do not hold.
pub fn normalize_feed_price(price: i64, expo: i32) -> (micros: Result<u64, MarketplaceError>)
    ensures
        micros == if price < 0 {
            Err::<u64, MarketplaceError>(MarketplaceError::StaleOracleFeed)
        } else if feed_price_micros(price as int, expo as int) > u64::MAX {
            Err::<u64, MarketplaceError>(MarketplaceError::CalculationOverflow)
        } else {
            Ok::<u64, MarketplaceError>(feed_price_micros(price as int, expo as int) as u64)
        },
{
    if price < 0 {
        return Err(MarketplaceError::StaleOracleFeed);
    }
    let digits: u32 = if expo < 0 {
        (-(expo as i64)) as u32
    } else {
        expo as u32
    };
    if price == 0 {
        assert(0 * pow(10, digits as nat) == 0) by (nonlinear_arith);
        return Ok(0);
    }
    let mut scaled: u64 = price as u64;
    let mut done: u32 = 0;
    proof {
        reveal_with_fuel(pow, 1);
        assert(price * pow(10, 0) == price) by (nonlinear_arith)
            requires
                pow(10, 0) == 1,
        ;
    }
    while done < digits
        invariant
            done <= digits,
            digits == if expo < 0 {
                -expo
            } else {
                expo as int
            },
            price > 0,
            scaled == price * pow(10, done as nat),
        decreases digits - done,
    {
        let next = match scaled.checked_mul(10) {
            Some(next) => next,
            None => {
                proof {
                    lemma_scaled_grows(price as int, done as nat + 1, digits as nat);
                    lemma_scaled_step(price as int, done as nat);
                }
                return Err(MarketplaceError::CalculationOverflow);
            },
        };
        proof {
            lemma_scaled_step(price as int, done as nat);
        }
        scaled = next;
        done += 1;
    }
    Ok(scaled)
}

/// One more decimal digit multiplies a scaled price by ten.
proof fn lemma_scaled_step(price: int, digits: nat)
    ensures
        price * pow(10, digits + 1) == price * pow(10, digits) * 10,
{
    reveal_with_fuel(pow, 2);
    assert(pow(10, digits + 1) == 10 * pow(10, digits));
    assert(price * (10 * pow(10, digits)) == price * pow(10, digits) * 10) by (nonlinear_arith);
}

/// A positive price scaled by more digits is no smaller.
proof fn lemma_scaled_grows(price: int, fewer: nat, more: nat)
    requires
        price > 0,
        fewer <= more,
    ensures
        price * pow(10, fewer) <= price * pow(10, more),
{
    lemma_pow_increases(10, fewer, more);
    lemma_pow_positive(10, fewer);
    assert(price * pow(10, fewer) <= price * pow(10, more)) by (nonlinear_arith)
        requires
            price > 0,
            pow(10, fewer) <= pow(10, more),
    ;
}

/// The price in micro-USD that the reserves of a liquidity pair give. Fails
/// with insufficient liquidity where either reserve is empty, and with a
/// calculation overflow on a price that 64 bits do not hold.
pub fn price_from_reserves(base_reserves: u64, token_reserves: u64) -> (price: Result<
    u64,
    MarketplaceError,
>)
    ensures
        price == if token_reserves == 0 || base_reserves == 0 {
            Err::<u64, MarketplaceError>(MarketplaceError::InsufficientLiquidity)
        } else if reserve_ratio_price(base_reserves as int, token_reserves as int) > u64::MAX {
            Err::<u64, MarketplaceError>(MarketplaceError::CalculationOverflow)
        } else {
            Ok::<u64, MarketplaceError>(
                reserve_ratio_price(base_reserves as int, token_reserves as int) as u64,
            )
        },
{
    if token_reserves == 0 || base_reserves == 0 {
        return Err(MarketplaceError::InsufficientLiquidity);
    }
    assert(base_reserves * TOKEN_UNIT <= 0xffff_ffff_ffff_ffff * 1_000_000_000) by (nonlinear_arith)
        requires
            base_reserves <= 0xffff_ffff_ffff_ffff,
            TOKEN_UNIT == 1_000_000_000,
    ;
    let wide: u128 = (base_reserves as u128) * (TOKEN_UNIT as u128) / (token_reserves as u128);
    if wide > u64::MAX as u128 {
        Err(MarketplaceError::CalculationOverflow)
    } else {
        Ok(wide as u64)
    }
}

impl LiquidityPool {
    /// Records `price` from `source` at `now` and opens redemption.
    pub fn record_price(&mut self, source: PriceSource, price: u64, now: i64)
        ensures
            *final(self) == with_price(*old(self), source, price, now),
            oracle_fault(*final(self), now) is None,
    {
        self.oracle_price_usd = Some(price);
        self.oracle_price_last_update = now;
        self.price_source = source;
        self.redemption_locked = false;
    }

    /// Locks redemption at `now`; the last known price stays.
    pub fn lock_redemption(&mut self, now: i64)
        ensures
            *final(self) == with_lock(*old(self), now),
            oracle_fault(*final(self), now) == Some(MarketplaceError::RedemptionLocked),
    {
        self.oracle_price_last_update = now;
        self.redemption_locked = true;
    }
}

impl Project {
    /// Stamps the project with the time of an operation on it.
    pub fn touch(&mut self, now: i64)
        ensures
            *final(self) == touched(*old(self), now),
    {
        self.last_activity_timestamp = now;
    }

    /// Whether the project is the active project filed under `project_id`.
    pub open spec fn serves(&self, project_id: Seq<char>) -> bool {
        self.project_id@ == project_id && self.is_active
    }
}

/// What an update of a pool's price from the push-oracle feed works on.
#[derive(Clone, Debug, PartialEq, Eq)]
pub struct UpdateOraclePrice {
    /// Who asks for the update.
    pub authority: Address,
    pub project: Project,
    pub liquidity_pool: LiquidityPool,
    /// What the feed reports at present; nothing where it reports no price.
    pub pyth_price_account: Option<FeedPrice>,
}

/// What an update of a pool's price from the reserves of a liquidity pair
/// works on.
#[derive(Clone, Debug, PartialEq, Eq)]
pub struct UpdateDexPrice {
    /// Who asks for the update.
    pub authority: Address,
    pub project: Project,
    pub liquidity_pool: LiquidityPool,
    /// The pair's reserve of the token.
    pub dex_token_account: TokenAccount,
    /// The pair's reserve of the stable unit, which has 6 decimal places.
    pub dex_base_account: TokenAccount,
    pub token_mint: Address,
}

/// What setting a pool's price by hand works on.
#[derive(Clone, Debug, PartialEq, Eq)]
pub struct SetManualPrice {
    /// Who sets the price.
    pub authority: Address,
    /// The authority of the platform.
    pub platform_authority: Address,
    pub project: Project,
    pub liquidity_pool: LiquidityPool,
}

/// Why an update from the feed fails, if it does.
pub open spec fn update_oracle_price_fault(ctx: UpdateOraclePrice, project_id: Seq<char>) -> Option<
    MarketplaceError,
> {
    if !ctx.project.serves(project_id) {
        Some(MarketplaceError::ProjectNotFound)
    } else {
        match ctx.pyth_price_account {
            None => Some(MarketplaceError::StaleOracleFeed),
            Some(feed) => if feed.price < 0 {
                Some(MarketplaceError::StaleOracleFeed)
            } else if feed_price_micros(feed.price as int, feed.expo as int) > u64::MAX {
                Some(MarketplaceError::CalculationOverflow)
            } else {
                None
            },
        }
    }
}

/// Updates the pool's price from the push-oracle feed. A price published more
/// than an hour before `now` locks redemption and leaves the last known price;
/// any other is recorded and opens redemption. The project is stamped with
/// `now`. Fails where the project is not the active project `project_id`, where
/// the feed reports no price or a negative one, or where the price overflows.
pub fn update_oracle_price(ctx: &mut UpdateOraclePrice, project_id: String, now: i64) -> (done:
    Result<(), MarketplaceError>)
    ensures
        match update_oracle_price_fault(*old(ctx), project_id@) {
            Some(fault) => done == Err::<(), MarketplaceError>(fault) && *final(ctx) == *old(ctx),
            None => {
                let feed = old(ctx).pyth_price_account.unwrap();
                &&& done is Ok
                &&& *final(ctx) == (UpdateOraclePrice {
                    liquidity_pool: if out_of_date(feed.publish_time, now) {
                        with_lock(old(ctx).liquidity_pool, now)
                    } else {
                        with_price(
                            old(ctx).liquidity_pool,
                            PriceSource::Pyth,
                            feed_price_micros(feed.price as int, feed.expo as int) as u64,
                            now,
                        )
                    },
                    project: touched(old(ctx).project, now),
                    ..*old(ctx)
                })
            },
        },
{
    if ctx.project.project_id != project_id || !ctx.project.is_active {
        return Err(MarketplaceError::ProjectNotFound);
    }
    let feed = match ctx.pyth_price_account {
        Some(feed) => feed,
        None => { return Err(MarketplaceError::StaleOracleFeed); },
    };
    let price_usd = match normalize_feed_price(feed.price, feed.expo) {
        Ok(price_usd) => price_usd,
        Err(fault) => { return Err(fault); },
    };
    if is_out_of_date(feed.publish_time, now) {
        ctx.liquidity_pool.lock_redemption(now);
    } else {
        ctx.liquidity_pool.record_price(PriceSource::Pyth, price_usd, now);
    }
    ctx.project.touch(now);
    Ok(())
}

/// Why an update from the reserves of a liquidity pair fails, if it does.
pub open spec fn update_dex_price_fault(ctx: UpdateDexPrice, project_id: Seq<char>) -> Option<
    MarketplaceError,
> {
    let base = ctx.dex_base_account.amount;
    let token = ctx.dex_token_account.amount;
    if !ctx.project.serves(project_id) {
        Some(MarketplaceError::ProjectNotFound)
    } else if ctx.token_mint != ctx.liquidity_pool.token_mint {
        Some(MarketplaceError::InvalidTokenMint)
    } else if token == 0 || base == 0 {
        Some(MarketplaceError::InsufficientLiquidity)
    } else if reserve_ratio_price(base as int, token as int) > u64::MAX {
        Some(MarketplaceError::CalculationOverflow)
    } else {
        None
    }
}

/// Updates the pool's price from the reserves of a liquidity pair: the price is
/// the base reserve times the token unit over the token reserve. The price is
/// recorded, redemption opens, and the project is stamped with `now`. Fails
/// where the project is not the active project `project_id`, where the token is
/// not the pool's, where a reserve is empty, or where the price overflows.
pub fn update_dex_price(ctx: &mut UpdateDexPrice, project_id: String, now: i64) -> (done: Result<
    (),
    MarketplaceError,
>)
    ensures
        match update_dex_price_fault(*old(ctx), project_id@) {
            Some(fault) => done == Err::<(), MarketplaceError>(fault) && *final(ctx) == *old(ctx),
            None => {
                &&& done is Ok
                &&& *final(ctx) == (UpdateDexPrice {
                    liquidity_pool: with_price(
                        old(ctx).liquidity_pool,
                        PriceSource::DexLiquidity,
                        reserve_ratio_price(
                            old(ctx).dex_base_account.amount as int,
                            old(ctx).dex_token_account.amount as int,
                        ) as u64,
                        now,
                    ),
                    project: touched(old(ctx).project, now),
                    ..*old(ctx)
                })
            },
        },
{
    if ctx.project.project_id != project_id || !ctx.project.is_active {
        return Err(MarketplaceError::ProjectNotFound);
    }
    if ctx.token_mint != ctx.liquidity_pool.token_mint {
        return Err(MarketplaceError::InvalidTokenMint);
    }
    let price_usd = match price_from_reserves(
        ctx.dex_base_account.amount,
        ctx.dex_token_account.amount,
    ) {
        Ok(price_usd) => price_usd,
        Err(fault) => { return Err(fault); },
    };
    ctx.liquidity_pool.record_price(PriceSource::DexLiquidity, price_usd, now);
    ctx.project.touch(now);
    Ok(())
}

/// Why setting a price by hand fails, if it does.
pub open spec fn set_manual_price_fault(ctx: SetManualPrice, project_id: Seq<char>) -> Option<
    MarketplaceError,
> {
    if ctx.platform_authority != ctx.authority {
        Some(MarketplaceError::Unauthorized)
    } else if !ctx.project.serves(project_id) {
        Some(MarketplaceError::ProjectNotFound)
    } else {
        None
    }
}

/// Sets the pool's price by hand: the price is recorded, redemption opens, and
/// the project is stamped with `now`. Only the platform's authority may do so,
/// and only for the active project `project_id`.
pub fn set_manual_price(ctx: &mut SetManualPrice, project_id: String, price_usd: u64, now: i64) -> (done:
    Result<(), MarketplaceError>)
    ensures
        match set_manual_price_fault(*old(ctx), project_id@) {
            Some(fault) => done == Err::<(), MarketplaceError>(fault) && *final(ctx) == *old(ctx),
            None => {
                &&& done is Ok
                &&& *final(ctx) == (SetManualPrice {
                    liquidity_pool: with_price(
                        old(ctx).liquidity_pool,
                        PriceSource::Manual,
                        price_usd,
                        now,
                    ),
                    project: touched(old(ctx).project, now),
                    ..*old(ctx)
                })
            },
        },
{
    if ctx.platform_authority != ctx.authority {
        return Err(MarketplaceError::Unauthorized);
    }
    if ctx.project.project_id != project_id || !ctx.project.is_active {
        return Err(MarketplaceError::ProjectNotFound);
    }
    ctx.liquidity_pool.record_price(PriceSource::Manual, price_usd, now);
    ctx.project.touch(now);
    Ok(())
}

} // verus!
