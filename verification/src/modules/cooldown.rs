use crate::errors::MarketplaceError;
use crate::state::NftData;
use vstd::prelude::*;

verus! {

/// Whether the NFT may not be redeemed yet at `now`.
pub open spec fn in_cooldown(nft_data: NftData, now: i64) -> bool {
    nft_data.cooldown_end_timestamp matches Some(end) && now < end
}

/// The seconds of cooldown that are left at `now`, none once it is over.
pub open spec fn remaining_cooldown(nft_data: NftData, now: i64) -> Option<int> {
    match nft_data.cooldown_end_timestamp {
        Some(end) => if now < end {
            Some(end - now)
        } else {
            None
        },
        None => None,
    }
}

/// Checks that the cooldown of the NFT, if it has one, is over at `now`.
pub fn check_cooldown_expired(nft_data: &NftData, now: i64) -> (status: Result<(), MarketplaceError>)
    ensures
        status == if in_cooldown(*nft_data, now) {
            Err::<(), MarketplaceError>(MarketplaceError::NftInCooldown)
        } else {
            Ok::<(), MarketplaceError>(())
        },
{
    if let Some(cooldown_end) = nft_data.cooldown_end_timestamp {
        if now < cooldown_end {
            return Err(MarketplaceError::NftInCooldown);
        }
    }
    Ok(())
}

/// The seconds of cooldown that are left at `now`: none once it is over or
/// where the NFT has no cooldown. Fails with a calculation overflow where 64
/// bits do not hold the seconds.
pub fn get_remaining_cooldown(nft_data: &NftData, now: i64) -> (left: Result<
    Option<i64>,
    MarketplaceError,
>)
    ensures
        left == match remaining_cooldown(*nft_data, now) {
            Some(seconds) => if seconds > i64::MAX {
                Err::<Option<i64>, MarketplaceError>(MarketplaceError::CalculationOverflow)
            } else {
                Ok::<Option<i64>, MarketplaceError>(Some(seconds as i64))
            },
            None => Ok::<Option<i64>, MarketplaceError>(None),
        },
{
    if let Some(cooldown_end) = nft_data.cooldown_end_timestamp {
        if now < cooldown_end {
            return match cooldown_end.checked_sub(now) {
                Some(seconds) => Ok(Some(seconds)),
                None => Err(MarketplaceError::CalculationOverflow),
            };
        }
    }
    Ok(None)
}

} // verus!
