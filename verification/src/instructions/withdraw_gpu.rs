//! Return the GPU NFT to its owner once nothing is owed.
use vstd::prelude::*;
use crate::errors::{ProgramError, VaultError};
use crate::events::GpuWithdrawn;
use crate::instructions::{TokenAccount, TokenTransfer};
use crate::keys::Pubkey;
use crate::state::{GpuCollateral, GpuStatus, VaultConfig};

verus! {

/// The accounts of a withdrawal.
#[derive(Clone, Copy, Debug)]
pub struct WithdrawGpu {
    pub vault_config: VaultConfig,
    pub vault_config_key: Pubkey,
    pub collateral: GpuCollateral,
    pub collateral_key: Pubkey,
    pub owner: Pubkey,
    pub vault_nft_account: Pubkey,
    pub owner_nft_account: TokenAccount,
}

/// What a successful withdrawal does: the vault hands the NFT back to the owner.
#[derive(Clone, Copy, Debug)]
pub struct WithdrawPlan {
    pub nft_to_owner: TokenTransfer,
    pub event: GpuWithdrawn,
}

/// The first check of a withdrawal that fails, if any.
pub open spec fn withdraw_error(ctx: WithdrawGpu) -> Option<ProgramError> {
    let c = ctx.collateral;
    if c.owner != ctx.owner {
        Some(ProgramError::Vault(VaultError::Unauthorized))
    } else if c.status != GpuStatus::Active {
        Some(ProgramError::Vault(VaultError::NotActive))
    } else if c.borrowed_usdai != 0 {
        Some(ProgramError::Vault(VaultError::OutstandingDebt))
    } else if ctx.owner_nft_account.mint != c.gpu_nft_mint {
        Some(ProgramError::Vault(VaultError::WrongMint))
    } else if ctx.owner_nft_account.owner != ctx.owner {
        Some(ProgramError::Vault(VaultError::Unauthorized))
    } else if ctx.vault_config.paused {
        Some(ProgramError::Vault(VaultError::Paused))
    } else {
        None
    }
}

/// The position after its NFT left escrow.
pub open spec fn withdrawn_position(c: GpuCollateral) -> GpuCollateral {
    GpuCollateral { status: GpuStatus::Withdrawn, ..c }
}

/// Withdraw the GPU NFT of an active position without debt; the position
/// becomes `Withdrawn`.
pub fn handler(ctx: &mut WithdrawGpu) -> (r: Result<WithdrawPlan, ProgramError>)
    ensures
        match r {
            Ok(plan) => {
                &&& withdraw_error(*old(ctx)) is None
                &&& *final(ctx) == (WithdrawGpu {
                    collateral: withdrawn_position(old(ctx).collateral),
                    ..*old(ctx)
                })
                &&& plan.nft_to_owner == (TokenTransfer {
                    from: old(ctx).vault_nft_account,
                    to: old(ctx).owner_nft_account.key,
                    authority: old(ctx).vault_config_key,
                    amount: 1,
                    signed_by_vault: true,
                })
                &&& plan.event == (GpuWithdrawn { collateral: old(ctx).collateral_key, owner: old(ctx).owner })
            },
            Err(e) => {
                &&& withdraw_error(*old(ctx)) == Some(e)
                &&& *final(ctx) == *old(ctx)
            },
        },
{
    // Account constraints.
    if !ctx.collateral.owner.key_eq(&ctx.owner) {
        return Err(ProgramError::Vault(VaultError::Unauthorized));
    }
    if ctx.collateral.status != GpuStatus::Active {
        return Err(ProgramError::Vault(VaultError::NotActive));
    }
    if ctx.collateral.borrowed_usdai != 0 {
        return Err(ProgramError::Vault(VaultError::OutstandingDebt));
    }
    if !ctx.owner_nft_account.mint.key_eq(&ctx.collateral.gpu_nft_mint) {
        return Err(ProgramError::Vault(VaultError::WrongMint));
    }
    if !ctx.owner_nft_account.owner.key_eq(&ctx.owner) {
        return Err(ProgramError::Vault(VaultError::Unauthorized));
    }
    // Handler body.
    if ctx.vault_config.paused {
        return Err(ProgramError::Vault(VaultError::Paused));
    }
    let nft_to_owner = TokenTransfer {
        from: ctx.vault_nft_account,
        to: ctx.owner_nft_account.key,
        authority: ctx.vault_config_key,
        amount: 1,
        signed_by_vault: true,
    };
    ctx.collateral.status = GpuStatus::Withdrawn;
    Ok(WithdrawPlan { nft_to_owner, event: GpuWithdrawn { collateral: ctx.collateral_key, owner: ctx.owner } })
}

} // verus!
