//! Permissionless liquidation of an underwater position.
use vstd::prelude::*;
use crate::cpi::{repay_data, four_metas, repay_instruction, UsdAiLendRepayAccounts};
use crate::errors::{ProgramError, VaultError};
use crate::events::Liquidation;
use crate::instructions::{ProgramCall, TokenAccount, TokenTransfer};
use crate::keys::Pubkey;
use crate::state::{GpuCollateral, GpuStatus, VaultConfig};

verus! {

/// The accounts of a liquidation.
#[derive(Clone, Copy, Debug)]
pub struct Liquidate {
    pub vault_config: VaultConfig,
    pub vault_config_key: Pubkey,
    pub collateral: GpuCollateral,
    pub collateral_key: Pubkey,
    pub nft_mint: Pubkey,
    pub liquidator: Pubkey,
    pub liquidator_usdai: TokenAccount,
    pub vault_nft_account: Pubkey,
    pub liquidator_nft_account: Pubkey,
    pub vault_usdai_account: Pubkey,
    pub oracle_feed: Pubkey,
    pub usd_ai_lend: Pubkey,
    pub token_program: Pubkey,
}

/// What a successful liquidation does, in order: the liquidator pays the
/// whole debt into the vault, the vault hands the GPU NFT to the liquidator,
/// and the vault settles the debt with the lending program.
#[derive(Clone, Debug)]
pub struct LiquidationPlan {
    pub debt_from_liquidator: TokenTransfer,
    pub nft_to_liquidator: TokenTransfer,
    pub lend_repay: ProgramCall,
    pub event: Liquidation,
}

/// The first account constraint that the liquidation's accounts violate, if any.
pub open spec fn account_error(ctx: Liquidate) -> Option<ProgramError> {
    let c = ctx.collateral;
    let cfg = ctx.vault_config;
    if c.oracle_feed != ctx.oracle_feed {
        Some(ProgramError::Vault(VaultError::WrongOracleFeed))
    } else if c.status != GpuStatus::Borrowing {
        Some(ProgramError::Vault(VaultError::NotBorrowing))
    } else if ctx.nft_mint != c.gpu_nft_mint {
        Some(ProgramError::Vault(VaultError::WrongMint))
    } else if ctx.liquidator_usdai.mint != cfg.usdai_mint {
        Some(ProgramError::Vault(VaultError::WrongMint))
    } else if ctx.liquidator_usdai.owner != ctx.liquidator {
        Some(ProgramError::Vault(VaultError::Unauthorized))
    } else if ctx.oracle_feed != c.oracle_feed {
        Some(ProgramError::ConstraintRaw)
    } else if ctx.usd_ai_lend != cfg.usd_ai_lend_program {
        Some(ProgramError::ConstraintRaw)
    } else {
        None
    }
}

/// The debt is above `threshold_bps` basis points of the valuation, compared
/// exactly: `borrowed / valuation > threshold_bps / 10_000`.
pub open spec fn above_threshold(borrowed: u64, valuation: u64, threshold_bps: u16) -> bool {
    borrowed * 10_000 > threshold_bps * valuation
}

/// The staleness check is reached: the accounts pass and the vault is not paused.
pub open spec fn reaches_staleness_check(ctx: Liquidate) -> bool {
    account_error(ctx) is None && !ctx.vault_config.paused
}

/// The outcome of a liquidation attempt at time `now`: the debt that the
/// liquidator covers, or the first check that fails.
pub open spec fn liquidate_outcome(ctx: Liquidate, now: i64) -> Result<u64, ProgramError> {
    let c = ctx.collateral;
    let cfg = ctx.vault_config;
    if account_error(ctx) is Some {
        Err(account_error(ctx)->0)
    } else if cfg.paused {
        Err(ProgramError::Vault(VaultError::Paused))
    } else if now - c.last_valuation_ts > cfg.min_oracle_staleness {
        Err(ProgramError::Vault(VaultError::StaleOracle))
    } else if c.valuation_usd == 0 {
        Err(ProgramError::Vault(VaultError::ZeroValuation))
    } else if !above_threshold(c.borrowed_usdai, c.valuation_usd, cfg.liquidation_ltv_bps) {
        Err(ProgramError::Vault(VaultError::NotLiquidatable))
    } else {
        Ok(c.borrowed_usdai)
    }
}

/// The position after liquidation: seized, with its debt settled.
pub open spec fn liquidated_position(c: GpuCollateral) -> GpuCollateral {
    GpuCollateral { borrowed_usdai: 0, status: GpuStatus::Liquidated, ..c }
}

/// The first account constraint that the liquidation's accounts violate, if any.
pub fn account_check(ctx: &Liquidate) -> (r: Option<ProgramError>)
    ensures
        r == account_error(*ctx),
{
    let cfg = ctx.vault_config;
    if !ctx.collateral.oracle_feed.key_eq(&ctx.oracle_feed) {
        return Some(ProgramError::Vault(VaultError::WrongOracleFeed));
    }
    if ctx.collateral.status != GpuStatus::Borrowing {
        return Some(ProgramError::Vault(VaultError::NotBorrowing));
    }
    if !ctx.nft_mint.key_eq(&ctx.collateral.gpu_nft_mint) {
        return Some(ProgramError::Vault(VaultError::WrongMint));
    }
    if !ctx.liquidator_usdai.mint.key_eq(&cfg.usdai_mint) {
        return Some(ProgramError::Vault(VaultError::WrongMint));
    }
    if !ctx.liquidator_usdai.owner.key_eq(&ctx.liquidator) {
        return Some(ProgramError::Vault(VaultError::Unauthorized));
    }
    if !ctx.oracle_feed.key_eq(&ctx.collateral.oracle_feed) {
        return Some(ProgramError::ConstraintRaw);
    }
    if !ctx.usd_ai_lend.key_eq(&cfg.usd_ai_lend_program) {
        return Some(ProgramError::ConstraintRaw);
    }
    None
}

/// Liquidate the position at time `now` (seconds): allowed to anyone once its
/// debt exceeds `liquidation_ltv_bps` of a valuation that is non-zero and no
/// older than `min_oracle_staleness` seconds.
///
/// The liquidator pays off the debt and receives the GPU NFT; the position
/// becomes `Liquidated` with no debt.
pub fn handler(ctx: &mut Liquidate, now: i64) -> (r: Result<LiquidationPlan, ProgramError>)
    requires
        reaches_staleness_check(*old(ctx)) ==> i64::MIN <= now - old(ctx).collateral.last_valuation_ts <= i64::MAX,
    ensures
        match r {
            Ok(plan) => {
                let debt = old(ctx).collateral.borrowed_usdai;
                &&& liquidate_outcome(*old(ctx), now) == Ok::<u64, ProgramError>(debt)
                &&& *final(ctx) == (Liquidate {
                    collateral: liquidated_position(old(ctx).collateral),
                    ..*old(ctx)
                })
                &&& plan.debt_from_liquidator == (TokenTransfer {
                    from: old(ctx).liquidator_usdai.key,
                    to: old(ctx).vault_usdai_account,
                    authority: old(ctx).liquidator,
                    amount: debt,
                    signed_by_vault: false,
                })
                &&& plan.nft_to_liquidator == (TokenTransfer {
                    from: old(ctx).vault_nft_account,
                    to: old(ctx).liquidator_nft_account,
                    authority: old(ctx).vault_config_key,
                    amount: 1,
                    signed_by_vault: true,
                })
                &&& plan.lend_repay.signed_by_vault
                &&& plan.lend_repay.instruction.is(
                    old(ctx).usd_ai_lend,
                    four_metas(old(ctx).liquidator, old(ctx).vault_usdai_account, old(ctx).vault_usdai_account, old(ctx).token_program),
                    repay_data(debt),
                )
                &&& plan.event == (Liquidation {
                    collateral: old(ctx).collateral_key,
                    liquidator: old(ctx).liquidator,
                    debt_repaid: debt,
                })
            },
            Err(e) => {
                &&& liquidate_outcome(*old(ctx), now) == Err::<u64, ProgramError>(e)
                &&& *final(ctx) == *old(ctx)
            },
        },
{
    let cfg = ctx.vault_config;
    if let Some(e) = account_check(ctx) {
        return Err(e);
    }
    // Handler body.
    if cfg.paused {
        return Err(ProgramError::Vault(VaultError::Paused));
    }
    if now - ctx.collateral.last_valuation_ts > cfg.min_oracle_staleness {
        return Err(ProgramError::Vault(VaultError::StaleOracle));
    }
    let current_value: u64 = ctx.collateral.valuation_usd;
    if current_value == 0 {
        return Err(ProgramError::Vault(VaultError::ZeroValuation));
    }
    let borrowed: u64 = ctx.collateral.borrowed_usdai;
    let threshold: u16 = cfg.liquidation_ltv_bps;
    assert(borrowed as u128 * 10_000u128 <= 0xffff_ffff_ffff_ffffu128 * 10_000u128) by (nonlinear_arith)
        requires
            borrowed <= 0xffff_ffff_ffff_ffffu64,
    ;
    assert(threshold as u128 * current_value as u128 <= 0xffffu128 * 0xffff_ffff_ffff_ffffu128) by (nonlinear_arith)
        requires
            threshold <= 0xffffu16,
            current_value <= 0xffff_ffff_ffff_ffffu64,
    ;
    let debt_scaled: u128 = borrowed as u128 * 10_000;
    let limit_scaled: u128 = threshold as u128 * current_value as u128;
    if debt_scaled <= limit_scaled {
        return Err(ProgramError::Vault(VaultError::NotLiquidatable));
    }
    let debt: u64 = ctx.collateral.borrowed_usdai;
    let debt_from_liquidator = TokenTransfer {
        from: ctx.liquidator_usdai.key,
        to: ctx.vault_usdai_account,
        authority: ctx.liquidator,
        amount: debt,
        signed_by_vault: false,
    };
    let nft_to_liquidator = TokenTransfer {
        from: ctx.vault_nft_account,
        to: ctx.liquidator_nft_account,
        authority: ctx.vault_config_key,
        amount: 1,
        signed_by_vault: true,
    };
    let lend_accounts = UsdAiLendRepayAccounts {
        borrower: ctx.liquidator,
        usdai_source: ctx.vault_usdai_account,
        collateral_vault: ctx.vault_usdai_account,
        token_program: ctx.token_program,
    };
    let lend_repay = ProgramCall {
        instruction: repay_instruction(ctx.usd_ai_lend, &lend_accounts, debt),
        signed_by_vault: true,
    };
    ctx.collateral.status = GpuStatus::Liquidated;
    ctx.collateral.borrowed_usdai = 0;
    let event = Liquidation { collateral: ctx.collateral_key, liquidator: ctx.liquidator, debt_repaid: debt };
    Ok(LiquidationPlan { debt_from_liquidator, nft_to_liquidator, lend_repay, event })
}

} // verus!
