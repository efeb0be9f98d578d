//! Redirect protocol fees to another treasury.
use vstd::prelude::*;
use crate::errors::{ProgramError, VaultError};
use crate::events::TreasuryUpdated;
use crate::keys::Pubkey;
use crate::state::VaultConfig;

verus! {

/// The accounts of a treasury change: the authority signs.
#[derive(Clone, Copy, Debug)]
pub struct UpdateTreasury {
    pub vault_config: VaultConfig,
    pub authority: Pubkey,
    pub new_treasury: Pubkey,
}

/// Make `new_treasury` the fee recipient; only the authority may.
pub fn handler(ctx: &mut UpdateTreasury) -> (r: Result<TreasuryUpdated, ProgramError>)
    ensures
        old(ctx).vault_config.authority == old(ctx).authority ==> {
            &&& r == Ok::<TreasuryUpdated, ProgramError>(TreasuryUpdated {
                old_treasury: old(ctx).vault_config.treasury,
                new_treasury: old(ctx).new_treasury,
            })
            &&& *final(ctx) == (UpdateTreasury {
                vault_config: VaultConfig { treasury: old(ctx).new_treasury, ..old(ctx).vault_config },
                ..*old(ctx)
            })
        },
        old(ctx).vault_config.authority != old(ctx).authority ==> {
            &&& r == Err::<TreasuryUpdated, ProgramError>(ProgramError::Vault(VaultError::Unauthorized))
            &&& *final(ctx) == *old(ctx)
        },
{
    if !ctx.vault_config.authority.key_eq(&ctx.authority) {
        return Err(ProgramError::Vault(VaultError::Unauthorized));
    }
    let old_treasury = ctx.vault_config.treasury;
    ctx.vault_config.treasury = ctx.new_treasury;
    Ok(TreasuryUpdated { old_treasury, new_treasury: ctx.new_treasury })
}

} // verus!
