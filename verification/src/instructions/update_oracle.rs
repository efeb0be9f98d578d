//! Refresh a position's valuation from its price feed.
use vstd::prelude::*;
use crate::chainlink::{read_chainlink_price, spec_read_chainlink_price};
use crate::errors::{ProgramError, VaultError};
use crate::events::OracleUpdated;
use crate::keys::Pubkey;
use crate::state::{GpuCollateral, GpuStatus};

verus! {

/// The accounts of an oracle update.
#[derive(Clone, Copy, Debug)]
pub struct UpdateOracle {
    pub collateral: GpuCollateral,
    pub collateral_key: Pubkey,
    pub oracle_feed: Pubkey,
}

/// The first account constraint that the update's accounts violate, if any.
pub open spec fn account_error(ctx: UpdateOracle) -> Option<ProgramError> {
    if ctx.collateral.oracle_feed != ctx.oracle_feed {
        Some(ProgramError::Vault(VaultError::WrongOracleFeed))
    } else if ctx.collateral.status == GpuStatus::Liquidated {
        Some(ProgramError::Vault(VaultError::AlreadyLiquidated))
    } else if ctx.oracle_feed != ctx.collateral.oracle_feed {
        Some(ProgramError::ConstraintRaw)
    } else {
        None
    }
}

/// The outcome of an update with feed account data `feed_data`: the new
/// valuation, or the first check that fails.
pub open spec fn update_outcome(ctx: UpdateOracle, feed_data: Seq<u8>) -> Result<u64, ProgramError> {
    if account_error(ctx) is Some {
        Err(account_error(ctx)->0)
    } else {
        spec_read_chainlink_price(feed_data)
    }
}

/// The position after its valuation became `price` at time `now`.
pub open spec fn revalued_position(c: GpuCollateral, price: u64, now: i64) -> GpuCollateral {
    GpuCollateral { valuation_usd: price, last_valuation_ts: now, ..c }
}

/// Set the position's valuation to the price read from its feed account's
/// data `feed_data`, stamped with the current time `now`. Anyone may call it;
/// liquidated positions are refused.
pub fn handler(ctx: &mut UpdateOracle, feed_data: &[u8], now: i64) -> (r: Result<OracleUpdated, ProgramError>)
    ensures
        match r {
            Ok(event) => {
                let price = update_outcome(*old(ctx), feed_data@)->Ok_0;
                &&& update_outcome(*old(ctx), feed_data@) is Ok
                &&& *final(ctx) == (UpdateOracle {
                    collateral: revalued_position(old(ctx).collateral, price, now),
                    ..*old(ctx)
                })
                &&& event == (OracleUpdated { collateral: old(ctx).collateral_key, price, ts: now })
            },
            Err(e) => {
                &&& update_outcome(*old(ctx), feed_data@) == Err::<u64, ProgramError>(e)
                &&& *final(ctx) == *old(ctx)
            },
        },
{
    // Account constraints.
    if !ctx.collateral.oracle_feed.key_eq(&ctx.oracle_feed) {
        return Err(ProgramError::Vault(VaultError::WrongOracleFeed));
    }
    if ctx.collateral.status == GpuStatus::Liquidated {
        return Err(ProgramError::Vault(VaultError::AlreadyLiquidated));
    }
    if !ctx.oracle_feed.key_eq(&ctx.collateral.oracle_feed) {
        return Err(ProgramError::ConstraintRaw);
    }
    // Handler body.
    let price: u64 = match read_chainlink_price(feed_data) {
        Ok(p) => p,
        Err(e) => {
            return Err(e);
        },
    };
    ctx.collateral.valuation_usd = price;
    ctx.collateral.last_valuation_ts = now;
    Ok(OracleUpdated { collateral: ctx.collateral_key, price, ts: now })
}

} // verus!
