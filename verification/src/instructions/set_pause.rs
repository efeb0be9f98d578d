//! Emergency pause switch.
use vstd::prelude::*;
use crate::errors::{ProgramError, VaultError};
use crate::events::PauseSet;
use crate::keys::Pubkey;
use crate::state::VaultConfig;

verus! {

/// The accounts of a pause change: the authority signs.
#[derive(Clone, Copy, Debug)]
pub struct SetPause {
    pub vault_config: VaultConfig,
    pub authority: Pubkey,
}

/// Set the vault's pause flag to `paused`; only the authority may.
pub fn handler(ctx: &mut SetPause, paused: bool) -> (r: Result<PauseSet, ProgramError>)
    ensures
        old(ctx).vault_config.authority == old(ctx).authority ==> {
            &&& r == Ok::<PauseSet, ProgramError>(PauseSet { paused, authority: old(ctx).authority })
            &&& *final(ctx) == (SetPause { vault_config: VaultConfig { paused, ..old(ctx).vault_config }, ..*old(ctx) })
        },
        old(ctx).vault_config.authority != old(ctx).authority ==> {
            &&& r == Err::<PauseSet, ProgramError>(ProgramError::Vault(VaultError::Unauthorized))
            &&& *final(ctx) == *old(ctx)
        },
{
    if !ctx.vault_config.authority.key_eq(&ctx.authority) {
        return Err(ProgramError::Vault(VaultError::Unauthorized));
    }
    ctx.vault_config.paused = paused;
    Ok(PauseSet { paused, authority: ctx.authority })
}

} // verus!
