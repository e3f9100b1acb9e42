//! The price updates as callers invoke them.

use crate::errors::MarketplaceError;
use crate::modules::oracle::{
    feed_price_micros, out_of_date, reserve_ratio_price, set_manual_price,
    set_manual_price_fault, touched, update_dex_price, update_dex_price_fault,
    update_oracle_price, update_oracle_price_fault, with_lock, with_price, PriceSource,
    SetManualPrice, UpdateDexPrice, UpdateOraclePrice,
};
use vstd::prelude::*;

verus! {

/// Updates the pool's price from the push-oracle feed: a price published more
/// than an hour before `now` locks redemption and leaves the last known price,
/// any other is recorded and opens redemption; the project is stamped with
/// `now`.
pub fn update_price_from_pyth(ctx: &mut UpdateOraclePrice, project_id: String, now: i64) -> (done:
    Result<(), MarketplaceError>)
    ensures
        match update_oracle_price_fault(*old(ctx), project_id@) {
            Some(fault) => done == Err::<(), MarketplaceError>(fault) && *final(ctx) == *old(ctx),
            None => {
                let feed = old(ctx).pyth_price_account.unwrap();
                &&& done is Ok
                &&& *final(ctx) == (UpdateOraclePrice {
                    liquidity_pool: if out_of_date(feed.publish_time, now) {
                        with_lock(old(ctx).liquidity_pool, now)
                    } else {
                        with_price(
                            old(ctx).liquidity_pool,
                            PriceSource::Pyth,
                            feed_price_micros(feed.price as int, feed.expo as int) as u64,
                            now,
                        )
                    },
                    project: touched(old(ctx).project, now),
                    ..*old(ctx)
                })
            },
        },
{
    update_oracle_price(ctx, project_id, now)
}

/// Updates the pool's price from the reserves of a liquidity pair, opens
/// redemption, and stamps the project with `now`.
pub fn update_price_from_dex(ctx: &mut UpdateDexPrice, project_id: String, now: i64) -> (done:
    Result<(), MarketplaceError>)
    ensures
        match update_dex_price_fault(*old(ctx), project_id@) {
            Some(fault) => done == Err::<(), MarketplaceError>(fault) && *final(ctx) == *old(ctx),
            None => {
                &&& done is Ok
                &&& *final(ctx) == (UpdateDexPrice {
                    liquidity_pool: with_price(
                        old(ctx).liquidity_pool,
                        PriceSource::DexLiquidity,
                        reserve_ratio_price(
                            old(ctx).dex_base_account.amount as int,
                            old(ctx).dex_token_account.amount as int,
                        ) as u64,
                        now,
                    ),
                    project: touched(old(ctx).project, now),
                    ..*old(ctx)
                })
            },
        },
{
    update_dex_price(ctx, project_id, now)
}

/// Sets the pool's price by hand, opens redemption, and stamps the project
/// with `now`. Only the platform's authority may do so.
pub fn set_price_manually(ctx: &mut SetManualPrice, project_id: String, price_usd: u64, now: i64) -> (done:
    Result<(), MarketplaceError>)
    ensures
        match set_manual_price_fault(*old(ctx), project_id@) {
            Some(fault) => done == Err::<(), MarketplaceError>(fault) && *final(ctx) == *old(ctx),
            None => {
                &&& done is Ok
                &&& *final(ctx) == (SetManualPrice {
                    liquidity_pool: with_price(
                        old(ctx).liquidity_pool,
                        PriceSource::Manual,
                        price_usd,
                        now,
                    ),
                    project: touched(old(ctx).project, now),
                    ..*old(ctx)
                })
            },
        },
{
    set_manual_price(ctx, project_id, price_usd, now)
}

} // verus!
