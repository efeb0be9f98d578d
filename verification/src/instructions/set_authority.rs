//! Hand the vault's authority to another address.
use vstd::prelude::*;
use crate::errors::{ProgramError, VaultError};
use crate::events::AuthorityChanged;
use crate::keys::Pubkey;
use crate::state::VaultConfig;

verus! {

/// The accounts of an authority change: the current authority signs.
#[derive(Clone, Copy, Debug)]
pub struct SetAuthority {
    pub vault_config: VaultConfig,
    pub authority: Pubkey,
    pub new_authority: Pubkey,
}

/// Make `new_authority` the vault's authority; only the current authority may.
pub fn handler(ctx: &mut SetAuthority) -> (r: Result<AuthorityChanged, ProgramError>)
    ensures
        old(ctx).vault_config.authority == old(ctx).authority ==> {
            &&& r == Ok::<AuthorityChanged, ProgramError>(AuthorityChanged {
                old_authority: old(ctx).vault_config.authority,
                new_authority: old(ctx).new_authority,
            })
            &&& *final(ctx) == (SetAuthority {
                vault_config: VaultConfig { authority: old(ctx).new_authority, ..old(ctx).vault_config },
                ..*old(ctx)
            })
        },
        old(ctx).vault_config.authority != old(ctx).authority ==> {
            &&& r == Err::<AuthorityChanged, ProgramError>(ProgramError::Vault(VaultError::Unauthorized))
            &&& *final(ctx) == *old(ctx)
        },
{
    if !ctx.vault_config.authority.key_eq(&ctx.authority) {
        return Err(ProgramError::Vault(VaultError::Unauthorized));
    }
    let old_authority = ctx.vault_config.authority;
    ctx.vault_config.authority = ctx.new_authority;
    Ok(AuthorityChanged { old_authority, new_authority: ctx.new_authority })
}

} // verus!
