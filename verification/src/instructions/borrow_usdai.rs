//! Borrow USDai against an active GPU position.
use vstd::prelude::*;
use crate::cpi::{borrow_instruction, borrow_data, four_metas, UsdAiLendBorrowAccounts};
use crate::errors::{ProgramError, VaultError};
use crate::events::UsdaiBorrowed;
use crate::instructions::{ProgramCall, TokenAccount, TokenTransfer};
use crate::keys::Pubkey;
use crate::math::{bps_of, checked_bps_mul, spec_checked_bps_mul};
use crate::state::{GpuCollateral, GpuStatus, VaultConfig};

verus! {

/// The accounts of a borrow.
#[derive(Clone, Copy, Debug)]
pub struct BorrowUsdai {
    pub vault_config: VaultConfig,
    pub vault_config_key: Pubkey,
    pub collateral: GpuCollateral,
    pub collateral_key: Pubkey,
    pub owner: Pubkey,
    pub oracle_feed: Pubkey,
    pub usd_ai_lend: Pubkey,
    pub owner_usdai_account: TokenAccount,
    pub vault_usdai_account: Pubkey,
    pub treasury_usdai_account: TokenAccount,
    pub token_program: Pubkey,
}

/// What a successful borrow does, in order: the lending program lends
/// `amount` into the vault's USDai account, the vault pays the owner the
/// amount net of the fee, and pays the fee to the treasury (each transfer
/// only when it is not zero).
#[derive(Clone, Debug)]
pub struct BorrowPlan {
    pub lend_borrow: ProgramCall,
    pub to_owner: Option<TokenTransfer>,
    pub to_treasury: Option<TokenTransfer>,
    pub event: UsdaiBorrowed,
}

/// The first account constraint that the borrow's accounts violate, if any.
pub open spec fn account_error(ctx: BorrowUsdai) -> Option<ProgramError> {
    let c = ctx.collateral;
    let cfg = ctx.vault_config;
    if c.owner != ctx.owner {
        Some(ProgramError::Vault(VaultError::Unauthorized))
    } else if c.oracle_feed != ctx.oracle_feed {
        Some(ProgramError::Vault(VaultError::WrongOracleFeed))
    } else if c.status != GpuStatus::Active {
        Some(ProgramError::Vault(VaultError::NotActive))
    } else if ctx.oracle_feed != c.oracle_feed {
        Some(ProgramError::ConstraintRaw)
    } else if ctx.usd_ai_lend != cfg.usd_ai_lend_program {
        Some(ProgramError::ConstraintRaw)
    } else if ctx.owner_usdai_account.mint != cfg.usdai_mint {
        Some(ProgramError::Vault(VaultError::WrongMint))
    } else if ctx.treasury_usdai_account.mint != cfg.usdai_mint {
        Some(ProgramError::Vault(VaultError::WrongMint))
    } else if ctx.treasury_usdai_account.owner != cfg.treasury {
        Some(ProgramError::Vault(VaultError::InvalidTreasury))
    } else {
        None
    }
}

/// The oracle freshness check is reached: the accounts pass and the vault is not paused.
pub open spec fn reaches_staleness_check(ctx: BorrowUsdai) -> bool {
    account_error(ctx) is None && !ctx.vault_config.paused
}

/// The outcome of borrowing `amount` at time `now`: the new total debt and
/// the protocol fee, or the first check that fails.
pub open spec fn borrow_outcome(ctx: BorrowUsdai, amount: u64, now: i64) -> Result<(u64, u64), ProgramError> {
    let c = ctx.collateral;
    let cfg = ctx.vault_config;
    if account_error(ctx) is Some {
        Err(account_error(ctx)->0)
    } else if cfg.paused {
        Err(ProgramError::Vault(VaultError::Paused))
    } else if now - c.last_valuation_ts > cfg.min_oracle_staleness {
        Err(ProgramError::Vault(VaultError::StaleOracle))
    } else if c.valuation_usd == 0 {
        Err(ProgramError::Vault(VaultError::ZeroValuation))
    } else if spec_checked_bps_mul(c.valuation_usd, cfg.max_ltv_bps) is Err {
        Err(ProgramError::Vault(VaultError::MathOverflow))
    } else if c.borrowed_usdai + amount > u64::MAX {
        Err(ProgramError::Vault(VaultError::MathOverflow))
    } else if c.borrowed_usdai + amount > bps_of(c.valuation_usd as int, cfg.max_ltv_bps as int) {
        Err(ProgramError::Vault(VaultError::ExceedsLtv))
    } else if spec_checked_bps_mul(amount, cfg.protocol_fee_bps) is Err {
        Err(ProgramError::Vault(VaultError::MathOverflow))
    } else if bps_of(amount as int, cfg.protocol_fee_bps as int) > amount {
        Err(ProgramError::Vault(VaultError::MathOverflow))
    } else {
        Ok(((c.borrowed_usdai + amount) as u64, bps_of(amount as int, cfg.protocol_fee_bps as int) as u64))
    }
}

/// The position after a borrow brings its debt to `new_total`.
pub open spec fn borrowed_position(c: GpuCollateral, new_total: u64) -> GpuCollateral {
    GpuCollateral { borrowed_usdai: new_total, status: GpuStatus::Borrowing, ..c }
}

/// A transfer of `amount` out of the vault's USDai account, signed by the vault,
/// or nothing when `amount` is zero.
pub open spec fn vault_payout(ctx: BorrowUsdai, to: Pubkey, amount: u64) -> Option<TokenTransfer> {
    if amount > 0 {
        Some(TokenTransfer {
            from: ctx.vault_usdai_account,
            to,
            authority: ctx.vault_config_key,
            amount,
            signed_by_vault: true,
        })
    } else {
        None
    }
}

/// The first account constraint that the borrow's accounts violate, if any.
pub fn account_check(ctx: &BorrowUsdai) -> (r: Option<ProgramError>)
    ensures
        r == account_error(*ctx),
{
    let cfg = ctx.vault_config;
    if !ctx.collateral.owner.key_eq(&ctx.owner) {
        return Some(ProgramError::Vault(VaultError::Unauthorized));
    }
    if !ctx.collateral.oracle_feed.key_eq(&ctx.oracle_feed) {
        return Some(ProgramError::Vault(VaultError::WrongOracleFeed));
    }
    if ctx.collateral.status != GpuStatus::Active {
        return Some(ProgramError::Vault(VaultError::NotActive));
    }
    if !ctx.oracle_feed.key_eq(&ctx.collateral.oracle_feed) {
        return Some(ProgramError::ConstraintRaw);
    }
    if !ctx.usd_ai_lend.key_eq(&cfg.usd_ai_lend_program) {
        return Some(ProgramError::ConstraintRaw);
    }
    if !ctx.owner_usdai_account.mint.key_eq(&cfg.usdai_mint) {
        return Some(ProgramError::Vault(VaultError::WrongMint));
    }
    if !ctx.treasury_usdai_account.mint.key_eq(&cfg.usdai_mint) {
        return Some(ProgramError::Vault(VaultError::WrongMint));
    }
    if !ctx.treasury_usdai_account.owner.key_eq(&cfg.treasury) {
        return Some(ProgramError::Vault(VaultError::InvalidTreasury));
    }
    None
}

/// Borrow `amount` USDai at time `now` (seconds) against the position.
///
/// The new debt must stay within `max_ltv_bps` of the cached valuation, which
/// must be non-zero and no older than `min_oracle_staleness` seconds. The
/// protocol fee (`protocol_fee_bps` of `amount`) goes to the treasury and the
/// rest to the owner; the position becomes `Borrowing`.
pub fn handler(ctx: &mut BorrowUsdai, amount: u64, now: i64) -> (r: Result<BorrowPlan, ProgramError>)
    requires
        reaches_staleness_check(*old(ctx)) ==> i64::MIN <= now - old(ctx).collateral.last_valuation_ts <= i64::MAX,
    ensures
        match r {
            Ok(plan) => {
                let (new_total, fee) = borrow_outcome(*old(ctx), amount, now)->Ok_0;
                &&& borrow_outcome(*old(ctx), amount, now) is Ok
                &&& *final(ctx) == (BorrowUsdai {
                    collateral: borrowed_position(old(ctx).collateral, new_total),
                    ..*old(ctx)
                })
                &&& plan.lend_borrow.signed_by_vault
                &&& plan.lend_borrow.instruction.is(
                    old(ctx).usd_ai_lend,
                    four_metas(old(ctx).owner, old(ctx).vault_usdai_account, old(ctx).vault_usdai_account, old(ctx).token_program),
                    borrow_data(amount, old(ctx).collateral_key),
                )
                &&& plan.to_owner == vault_payout(*old(ctx), old(ctx).owner_usdai_account.key, (amount - fee) as u64)
                &&& plan.to_treasury == vault_payout(*old(ctx), old(ctx).treasury_usdai_account.key, fee)
                &&& plan.event == (UsdaiBorrowed { collateral: old(ctx).collateral_key, amount, fee, new_total })
            },
            Err(e) => {
                &&& borrow_outcome(*old(ctx), amount, now) == Err::<(u64, u64), ProgramError>(e)
                &&& *final(ctx) == *old(ctx)
            },
        },
{
    let cfg = ctx.vault_config;
    if let Some(e) = account_check(ctx) {
        return Err(e);
    }
    // Handler body.
    if cfg.paused {
        return Err(ProgramError::Vault(VaultError::Paused));
    }
    if now - ctx.collateral.last_valuation_ts > cfg.min_oracle_staleness {
        return Err(ProgramError::Vault(VaultError::StaleOracle));
    }
    let current_value: u64 = ctx.collateral.valuation_usd;
    if current_value == 0 {
        return Err(ProgramError::Vault(VaultError::ZeroValuation));
    }
    let max_borrow: u64 = match checked_bps_mul(current_value, cfg.max_ltv_bps) {
        Ok(m) => m,
        Err(e) => {
            return Err(ProgramError::Vault(e));
        },
    };
    let new_borrowed: u64 = match ctx.collateral.borrowed_usdai.checked_add(amount) {
        Some(n) => n,
        None => {
            return Err(ProgramError::Vault(VaultError::MathOverflow));
        },
    };
    if new_borrowed > max_borrow {
        return Err(ProgramError::Vault(VaultError::ExceedsLtv));
    }
    let lend_accounts = UsdAiLendBorrowAccounts {
        borrower: ctx.owner,
        usdai_destination: ctx.vault_usdai_account,
        collateral_vault: ctx.vault_usdai_account,
        token_program: ctx.token_program,
    };
    let lend_borrow = ProgramCall {
        instruction: borrow_instruction(ctx.usd_ai_lend, &lend_accounts, amount, ctx.collateral_key),
        signed_by_vault: true,
    };
    let fee: u64 = match checked_bps_mul(amount, cfg.protocol_fee_bps) {
        Ok(f) => f,
        Err(e) => {
            return Err(ProgramError::Vault(e));
        },
    };
    let to_user: u64 = match amount.checked_sub(fee) {
        Some(t) => t,
        None => {
            return Err(ProgramError::Vault(VaultError::MathOverflow));
        },
    };
    let to_owner = if to_user > 0 {
        Some(TokenTransfer {
            from: ctx.vault_usdai_account,
            to: ctx.owner_usdai_account.key,
            authority: ctx.vault_config_key,
            amount: to_user,
            signed_by_vault: true,
        })
    } else {
        None
    };
    let to_treasury = if fee > 0 {
        Some(TokenTransfer {
            from: ctx.vault_usdai_account,
            to: ctx.treasury_usdai_account.key,
            authority: ctx.vault_config_key,
            amount: fee,
            signed_by_vault: true,
        })
    } else {
        None
    };
    ctx.collateral.borrowed_usdai = new_borrowed;
    ctx.collateral.status = GpuStatus::Borrowing;
    let event = UsdaiBorrowed { collateral: ctx.collateral_key, amount, fee, new_total: new_borrowed };
    Ok(BorrowPlan { lend_borrow, to_owner, to_treasury, event })
}

} // verus!
