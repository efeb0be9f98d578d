//! Stake CHIP for sCHIP, and unstake, through the external staking program.
use vstd::prelude::*;
use crate::cpi::{stake_data, unstake_data, four_metas, stake_instruction, unstake_instruction, UnstakeAccounts, UsdAiStakeAccounts};
use crate::errors::{ProgramError, VaultError};
use crate::events::{ChipStaked, ChipUnstaked};
use crate::instructions::{ProgramCall, TokenAccount};
use crate::keys::Pubkey;
use crate::state::VaultConfig;

verus! {

/// The accounts of a stake.
#[derive(Clone, Copy, Debug)]
pub struct StakeChip {
    pub vault_config: VaultConfig,
    pub owner: Pubkey,
    pub owner_chip_account: TokenAccount,
    pub owner_schip_account: TokenAccount,
    pub usd_ai_stake: Pubkey,
    pub token_program: Pubkey,
}

/// What a successful stake does: the staking program is called on the owner's behalf.
#[derive(Clone, Debug)]
pub struct StakePlan {
    pub stake: ProgramCall,
    pub event: ChipStaked,
}

/// The accounts of an unstake.
#[derive(Clone, Copy, Debug)]
pub struct UnstakeChip {
    pub vault_config: VaultConfig,
    pub owner: Pubkey,
    pub owner_schip_account: TokenAccount,
    pub owner_chip_account: TokenAccount,
    pub usd_ai_stake: Pubkey,
    pub token_program: Pubkey,
}

/// What a successful unstake does: the staking program is called on the owner's behalf.
#[derive(Clone, Debug)]
pub struct UnstakePlan {
    pub unstake: ProgramCall,
    pub event: ChipUnstaked,
}

/// The first check of a stake of `amount` that fails, if any.
pub open spec fn stake_error(ctx: StakeChip, amount: u64) -> Option<ProgramError> {
    let cfg = ctx.vault_config;
    if ctx.owner_chip_account.mint != cfg.chip_mint {
        Some(ProgramError::Vault(VaultError::WrongMint))
    } else if ctx.owner_schip_account.mint != cfg.s_chip_mint {
        Some(ProgramError::Vault(VaultError::WrongMint))
    } else if ctx.usd_ai_stake != cfg.usd_ai_stake_program {
        Some(ProgramError::ConstraintRaw)
    } else if cfg.paused {
        Some(ProgramError::Vault(VaultError::Paused))
    } else if amount == 0 {
        Some(ProgramError::Vault(VaultError::ZeroAmount))
    } else {
        None
    }
}

/// The first check of an unstake of `amount` that fails, if any.
pub open spec fn unstake_error(ctx: UnstakeChip, amount: u64) -> Option<ProgramError> {
    let cfg = ctx.vault_config;
    if ctx.owner_schip_account.mint != cfg.s_chip_mint {
        Some(ProgramError::Vault(VaultError::WrongMint))
    } else if ctx.owner_chip_account.mint != cfg.chip_mint {
        Some(ProgramError::Vault(VaultError::WrongMint))
    } else if ctx.usd_ai_stake != cfg.usd_ai_stake_program {
        Some(ProgramError::ConstraintRaw)
    } else if cfg.paused {
        Some(ProgramError::Vault(VaultError::Paused))
    } else if amount == 0 {
        Some(ProgramError::Vault(VaultError::ZeroAmount))
    } else {
        None
    }
}

/// Stake `amount` CHIP from the owner's CHIP account for sCHIP into the owner's sCHIP account.
pub fn handler(ctx: &StakeChip, amount: u64) -> (r: Result<StakePlan, ProgramError>)
    ensures
        match r {
            Ok(plan) => {
                &&& stake_error(*ctx, amount) is None
                &&& !plan.stake.signed_by_vault
                &&& plan.stake.instruction.is(
                    ctx.usd_ai_stake,
                    four_metas(ctx.owner, ctx.owner_chip_account.key, ctx.owner_schip_account.key, ctx.token_program),
                    stake_data(amount),
                )
                &&& plan.event == (ChipStaked { staker: ctx.owner, amount })
            },
            Err(e) => stake_error(*ctx, amount) == Some(e),
        },
{
    let cfg = ctx.vault_config;
    // Account constraints.
    if !ctx.owner_chip_account.mint.key_eq(&cfg.chip_mint) {
        return Err(ProgramError::Vault(VaultError::WrongMint));
    }
    if !ctx.owner_schip_account.mint.key_eq(&cfg.s_chip_mint) {
        return Err(ProgramError::Vault(VaultError::WrongMint));
    }
    if !ctx.usd_ai_stake.key_eq(&cfg.usd_ai_stake_program) {
        return Err(ProgramError::ConstraintRaw);
    }
    // Handler body.
    if cfg.paused {
        return Err(ProgramError::Vault(VaultError::Paused));
    }
    if amount == 0 {
        return Err(ProgramError::Vault(VaultError::ZeroAmount));
    }
    let accounts = UsdAiStakeAccounts {
        staker: ctx.owner,
        chip_source: ctx.owner_chip_account.key,
        s_chip_destination: ctx.owner_schip_account.key,
        token_program: ctx.token_program,
    };
    let stake = ProgramCall {
        instruction: stake_instruction(ctx.usd_ai_stake, &accounts, amount),
        signed_by_vault: false,
    };
    Ok(StakePlan { stake, event: ChipStaked { staker: ctx.owner, amount } })
}

/// Unstake `amount` sCHIP from the owner's sCHIP account back to CHIP in the owner's CHIP account.
pub fn unstake_handler(ctx: &UnstakeChip, amount: u64) -> (r: Result<UnstakePlan, ProgramError>)
    ensures
        match r {
            Ok(plan) => {
                &&& unstake_error(*ctx, amount) is None
                &&& !plan.unstake.signed_by_vault
                &&& plan.unstake.instruction.is(
                    ctx.usd_ai_stake,
                    four_metas(ctx.owner, ctx.owner_schip_account.key, ctx.owner_chip_account.key, ctx.token_program),
                    unstake_data(amount),
                )
                &&& plan.event == (ChipUnstaked { staker: ctx.owner, amount })
            },
            Err(e) => unstake_error(*ctx, amount) == Some(e),
        },
{
    let cfg = ctx.vault_config;
    // Account constraints.
    if !ctx.owner_schip_account.mint.key_eq(&cfg.s_chip_mint) {
        return Err(ProgramError::Vault(VaultError::WrongMint));
    }
    if !ctx.owner_chip_account.mint.key_eq(&cfg.chip_mint) {
        return Err(ProgramError::Vault(VaultError::WrongMint));
    }
    if !ctx.usd_ai_stake.key_eq(&cfg.usd_ai_stake_program) {
        return Err(ProgramError::ConstraintRaw);
    }
    // Handler body.
    if cfg.paused {
        return Err(ProgramError::Vault(VaultError::Paused));
    }
    if amount == 0 {
        return Err(ProgramError::Vault(VaultError::ZeroAmount));
    }
    let accounts = UnstakeAccounts {
        staker: ctx.owner,
        s_chip_source: ctx.owner_schip_account.key,
        chip_destination: ctx.owner_chip_account.key,
        token_program: ctx.token_program,
    };
    let unstake = ProgramCall {
        instruction: unstake_instruction(ctx.usd_ai_stake, &accounts, amount),
        signed_by_vault: false,
    };
    Ok(UnstakePlan { unstake, event: ChipUnstaked { staker: ctx.owner, amount } })
}

} // verus!
