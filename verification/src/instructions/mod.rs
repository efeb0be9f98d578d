//! The vault's instructions. Each handler takes the accounts it reads as plain
//! values, performs every check that the vault's logic makes (account
//! constraints and handler body, in their order), updates the accounts it
//! writes, and returns the plan of token transfers and program calls for the
//! runtime to carry out, together with the event to emit.
use vstd::prelude::*;
use crate::cpi::Instruction;
use crate::keys::Pubkey;

pub mod borrow_usdai;
pub mod initialize_vault;
pub mod liquidate;
pub mod register_gpu;
pub mod repay_usdai;
pub mod set_authority;
pub mod set_pause;
pub mod stake_chip;
pub mod update_oracle;
pub mod update_treasury;
pub mod withdraw_gpu;

verus! {

/// The fields of a token account that the vault's checks read.
#[derive(Clone, Copy, Debug)]
pub struct TokenAccount {
    pub key: Pubkey,
    pub mint: Pubkey,
    pub owner: Pubkey,
}

/// A token transfer of `amount` from `from` to `to`, authorized by `authority`
/// (the vault configuration's address signs when `signed_by_vault`).
#[derive(Clone, Copy, Debug)]
pub struct TokenTransfer {
    pub from: Pubkey,
    pub to: Pubkey,
    pub authority: Pubkey,
    pub amount: u64,
    pub signed_by_vault: bool,
}

/// Minting `amount` new tokens of `mint` into `to`, authorized by `authority`
/// (the vault configuration's address signs when `signed_by_vault`).
#[derive(Clone, Copy, Debug)]
pub struct MintTo {
    pub mint: Pubkey,
    pub to: Pubkey,
    pub authority: Pubkey,
    pub amount: u64,
    pub signed_by_vault: bool,
}

/// A call into another program, signed by the vault configuration's address when `signed_by_vault`.
#[derive(Clone, Debug)]
pub struct ProgramCall {
    pub instruction: Instruction,
    pub signed_by_vault: bool,
}

} // verus!
