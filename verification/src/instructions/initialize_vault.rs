//! Create the vault configuration.
use vstd::prelude::*;
use crate::errors::{ProgramError, VaultError};
use crate::keys::Pubkey;
use crate::state::VaultConfig;

verus! {

/// Highest borrow ceiling that a vault may be configured with (80%).
pub const MAX_LTV_CEILING_BPS: u16 = 8_000;

/// Protocol fee of a new vault: 10 basis points (0.1%).
pub const DEFAULT_PROTOCOL_FEE_BPS: u16 = 10;

/// Oldest valuation a new vault accepts for borrowing and liquidation: 300 seconds (5 minutes).
pub const DEFAULT_MIN_ORACLE_STALENESS: i64 = 300;

/// The accounts of an initialization; `vault_config_bump` is the bump seed of the
/// configuration's program-derived address.
#[derive(Clone, Copy, Debug)]
pub struct InitializeVault {
    pub payer: Pubkey,
    pub usdai_mint: Pubkey,
    pub chip_mint: Pubkey,
    pub s_chip_mint: Pubkey,
    pub usd_ai_lend_program: Pubkey,
    pub usd_ai_stake_program: Pubkey,
    pub treasury: Pubkey,
    pub vault_config_bump: u8,
}

/// The configuration that a successful initialization writes.
pub open spec fn initial_config(ctx: InitializeVault, max_ltv_bps: u16, liquidation_ltv_bps: u16) -> VaultConfig {
    VaultConfig {
        authority: ctx.payer,
        usdai_mint: ctx.usdai_mint,
        chip_mint: ctx.chip_mint,
        s_chip_mint: ctx.s_chip_mint,
        usd_ai_lend_program: ctx.usd_ai_lend_program,
        usd_ai_stake_program: ctx.usd_ai_stake_program,
        treasury: ctx.treasury,
        max_ltv_bps,
        liquidation_ltv_bps,
        protocol_fee_bps: DEFAULT_PROTOCOL_FEE_BPS,
        min_oracle_staleness: DEFAULT_MIN_ORACLE_STALENESS,
        paused: false,
        bump: ctx.vault_config_bump,
    }
}

/// Initialize the vault with a borrow ceiling of `max_ltv_bps` (at most 8000)
/// and a liquidation threshold of `liquidation_ltv_bps` (strictly above it).
/// The payer becomes the authority; the fee is 0.1%, the staleness bound
/// five minutes, and the vault starts unpaused.
pub fn handler(ctx: &InitializeVault, max_ltv_bps: u16, liquidation_ltv_bps: u16) -> (r: Result<VaultConfig, ProgramError>)
    ensures
        max_ltv_bps > 8_000 ==> r == Err::<VaultConfig, ProgramError>(ProgramError::Vault(VaultError::LtvTooHigh)),
        max_ltv_bps <= 8_000 && liquidation_ltv_bps <= max_ltv_bps ==> r == Err::<VaultConfig, ProgramError>(
            ProgramError::Vault(VaultError::InvalidLiquidationThreshold),
        ),
        max_ltv_bps <= 8_000 && liquidation_ltv_bps > max_ltv_bps ==> r == Ok::<VaultConfig, ProgramError>(
            initial_config(*ctx, max_ltv_bps, liquidation_ltv_bps),
        ),
        r matches Ok(config) ==> config.wf(),
{
    if max_ltv_bps > MAX_LTV_CEILING_BPS {
        return Err(ProgramError::Vault(VaultError::LtvTooHigh));
    }
    if liquidation_ltv_bps <= max_ltv_bps {
        return Err(ProgramError::Vault(VaultError::InvalidLiquidationThreshold));
    }
    Ok(VaultConfig {
        authority: ctx.payer,
        usdai_mint: ctx.usdai_mint,
        chip_mint: ctx.chip_mint,
        s_chip_mint: ctx.s_chip_mint,
        usd_ai_lend_program: ctx.usd_ai_lend_program,
        usd_ai_stake_program: ctx.usd_ai_stake_program,
        treasury: ctx.treasury,
        max_ltv_bps,
        liquidation_ltv_bps,
        protocol_fee_bps: DEFAULT_PROTOCOL_FEE_BPS,
        min_oracle_staleness: DEFAULT_MIN_ORACLE_STALENESS,
        paused: false,
        bump: ctx.vault_config_bump,
    })
}

} // verus!
