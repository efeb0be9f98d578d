//! Repay USDai debt of a borrowing position.
use vstd::prelude::*;
use crate::cpi::{repay_data, four_metas, repay_instruction, UsdAiLendRepayAccounts};
use crate::errors::{ProgramError, VaultError};
use crate::events::UsdaiRepaid;
use crate::instructions::{ProgramCall, TokenAccount, TokenTransfer};
use crate::keys::Pubkey;
use crate::state::{GpuCollateral, GpuStatus, VaultConfig};

verus! {

/// The accounts of a repayment.
#[derive(Clone, Copy, Debug)]
pub struct RepayUsdai {
    pub vault_config: VaultConfig,
    pub vault_config_key: Pubkey,
    pub collateral: GpuCollateral,
    pub collateral_key: Pubkey,
    pub owner: Pubkey,
    pub owner_usdai_account: TokenAccount,
    pub vault_usdai_account: Pubkey,
    pub usd_ai_lend: Pubkey,
    pub token_program: Pubkey,
}

/// What a successful repayment does, in order: the owner pays `amount` into
/// the vault's USDai account, then the vault settles it with the lending program.
#[derive(Clone, Debug)]
pub struct RepayPlan {
    pub from_owner: TokenTransfer,
    pub lend_repay: ProgramCall,
    pub event: UsdaiRepaid,
}

/// The first account constraint that the repayment's accounts violate, if any.
pub open spec fn account_error(ctx: RepayUsdai) -> Option<ProgramError> {
    let c = ctx.collateral;
    let cfg = ctx.vault_config;
    if c.owner != ctx.owner {
        Some(ProgramError::Vault(VaultError::Unauthorized))
    } else if c.status != GpuStatus::Borrowing {
        Some(ProgramError::Vault(VaultError::NotBorrowing))
    } else if ctx.owner_usdai_account.mint != cfg.usdai_mint {
        Some(ProgramError::Vault(VaultError::WrongMint))
    } else if ctx.usd_ai_lend != cfg.usd_ai_lend_program {
        Some(ProgramError::ConstraintRaw)
    } else {
        None
    }
}

/// The outcome of repaying `amount`: the remaining debt, or the first check that fails.
pub open spec fn repay_outcome(ctx: RepayUsdai, amount: u64) -> Result<u64, ProgramError> {
    if account_error(ctx) is Some {
        Err(account_error(ctx)->0)
    } else if ctx.vault_config.paused {
        Err(ProgramError::Vault(VaultError::Paused))
    } else if amount > ctx.collateral.borrowed_usdai {
        Err(ProgramError::Vault(VaultError::RepayTooMuch))
    } else {
        Ok((ctx.collateral.borrowed_usdai - amount) as u64)
    }
}

/// The position's status after its debt becomes `remaining`: active again once nothing is owed.
pub open spec fn status_after_repay(remaining: u64) -> GpuStatus {
    if remaining == 0 {
        GpuStatus::Active
    } else {
        GpuStatus::Borrowing
    }
}

/// The position after a repayment leaves `remaining` owed.
pub open spec fn repaid_position(c: GpuCollateral, remaining: u64) -> GpuCollateral {
    GpuCollateral { borrowed_usdai: remaining, status: status_after_repay(remaining), ..c }
}

/// Repay `amount` USDai of the position's debt.
///
/// The amount may not exceed the debt; repaying all of it makes the position
/// `Active` again.
pub fn handler(ctx: &mut RepayUsdai, amount: u64) -> (r: Result<RepayPlan, ProgramError>)
    ensures
        match r {
            Ok(plan) => {
                let remaining = repay_outcome(*old(ctx), amount)->Ok_0;
                &&& repay_outcome(*old(ctx), amount) is Ok
                &&& *final(ctx) == (RepayUsdai {
                    collateral: repaid_position(old(ctx).collateral, remaining),
                    ..*old(ctx)
                })
                &&& plan.from_owner == (TokenTransfer {
                    from: old(ctx).owner_usdai_account.key,
                    to: old(ctx).vault_usdai_account,
                    authority: old(ctx).owner,
                    amount,
                    signed_by_vault: false,
                })
                &&& plan.lend_repay.signed_by_vault
                &&& plan.lend_repay.instruction.is(
                    old(ctx).usd_ai_lend,
                    four_metas(old(ctx).owner, old(ctx).vault_usdai_account, old(ctx).vault_usdai_account, old(ctx).token_program),
                    repay_data(amount),
                )
                &&& plan.event == (UsdaiRepaid { collateral: old(ctx).collateral_key, amount, remaining })
            },
            Err(e) => {
                &&& repay_outcome(*old(ctx), amount) == Err::<u64, ProgramError>(e)
                &&& *final(ctx) == *old(ctx)
            },
        },
{
    let cfg = ctx.vault_config;
    // Account constraints.
    if !ctx.collateral.owner.key_eq(&ctx.owner) {
        return Err(ProgramError::Vault(VaultError::Unauthorized));
    }
    if ctx.collateral.status != GpuStatus::Borrowing {
        return Err(ProgramError::Vault(VaultError::NotBorrowing));
    }
    if !ctx.owner_usdai_account.mint.key_eq(&cfg.usdai_mint) {
        return Err(ProgramError::Vault(VaultError::WrongMint));
    }
    if !ctx.usd_ai_lend.key_eq(&cfg.usd_ai_lend_program) {
        return Err(ProgramError::ConstraintRaw);
    }
    // Handler body.
    if cfg.paused {
        return Err(ProgramError::Vault(VaultError::Paused));
    }
    if amount > ctx.collateral.borrowed_usdai {
        return Err(ProgramError::Vault(VaultError::RepayTooMuch));
    }
    let from_owner = TokenTransfer {
        from: ctx.owner_usdai_account.key,
        to: ctx.vault_usdai_account,
        authority: ctx.owner,
        amount,
        signed_by_vault: false,
    };
    let lend_accounts = UsdAiLendRepayAccounts {
        borrower: ctx.owner,
        usdai_source: ctx.vault_usdai_account,
        collateral_vault: ctx.vault_usdai_account,
        token_program: ctx.token_program,
    };
    let lend_repay = ProgramCall {
        instruction: repay_instruction(ctx.usd_ai_lend, &lend_accounts, amount),
        signed_by_vault: true,
    };
    let remaining: u64 = ctx.collateral.borrowed_usdai - amount;
    ctx.collateral.borrowed_usdai = remaining;
    if remaining == 0 {
        ctx.collateral.status = GpuStatus::Active;
    }
    let event = UsdaiRepaid { collateral: ctx.collateral_key, amount, remaining };
    Ok(RepayPlan { from_owner, lend_repay, event })
}

} // verus!
