//! Records that the vault's instructions emit.
use vstd::prelude::*;
use crate::keys::Pubkey;

verus! {

/// A GPU was registered and its collateral NFT minted into escrow.
#[derive(Clone, Copy, Debug)]
pub struct GpuRegistered {
    pub collateral: Pubkey,
    pub nft_mint: Pubkey,
    pub owner: Pubkey,
    pub oracle_feed: Pubkey,
}

/// USDai was borrowed against a collateral position.
#[derive(Clone, Copy, Debug)]
pub struct UsdaiBorrowed {
    pub collateral: Pubkey,
    pub amount: u64,
    pub fee: u64,
    pub new_total: u64,
}

/// USDai debt was repaid.
#[derive(Clone, Copy, Debug)]
pub struct UsdaiRepaid {
    pub collateral: Pubkey,
    pub amount: u64,
    pub remaining: u64,
}

/// CHIP was staked.
#[derive(Clone, Copy, Debug)]
pub struct ChipStaked {
    pub staker: Pubkey,
    pub amount: u64,
}

/// sCHIP was unstaked.
#[derive(Clone, Copy, Debug)]
pub struct ChipUnstaked {
    pub staker: Pubkey,
    pub amount: u64,
}

/// A position was liquidated.
#[derive(Clone, Copy, Debug)]
pub struct Liquidation {
    pub collateral: Pubkey,
    pub liquidator: Pubkey,
    pub debt_repaid: u64,
}

/// A position's valuation was refreshed from its oracle.
#[derive(Clone, Copy, Debug)]
pub struct OracleUpdated {
    pub collateral: Pubkey,
    pub price: u64,
    pub ts: i64,
}

/// A GPU NFT left escrow back to its owner.
#[derive(Clone, Copy, Debug)]
pub struct GpuWithdrawn {
    pub collateral: Pubkey,
    pub owner: Pubkey,
}

/// The vault authority changed.
#[derive(Clone, Copy, Debug)]
pub struct AuthorityChanged {
    pub old_authority: Pubkey,
    pub new_authority: Pubkey,
}

/// The pause flag was set.
#[derive(Clone, Copy, Debug)]
pub struct PauseSet {
    pub paused: bool,
    pub authority: Pubkey,
}

/// The treasury changed.
#[derive(Clone, Copy, Debug)]
pub struct TreasuryUpdated {
    pub old_treasury: Pubkey,
    pub new_treasury: Pubkey,
}

} // verus!
