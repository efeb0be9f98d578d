//! Account state of the vault: its configuration, each GPU collateral
//! position, and the per-user aggregate.
use vstd::prelude::*;
use crate::keys::Pubkey;

verus! {


/// Global configuration of the vault.
#[derive(Clone, Copy, Debug)]
pub struct VaultConfig {
    pub authority: Pubkey,
    pub usdai_mint: Pubkey,
    pub chip_mint: Pubkey,
    pub s_chip_mint: Pubkey,
    pub usd_ai_lend_program: Pubkey,
    pub usd_ai_stake_program: Pubkey,
    pub treasury: Pubkey,
    pub max_ltv_bps: u16,
    pub liquidation_ltv_bps: u16,
    pub protocol_fee_bps: u16,
    pub min_oracle_staleness: i64,
    pub paused: bool,
    pub bump: u8,
}

impl VaultConfig {
    /// Account size: discriminator, seven addresses, three `u16`, one `i64`, a `bool` and a `u8`.
    pub const LEN: usize = 8 + (32 * 7) + 2 + 2 + 2 + 8 + 1 + 1;

    /// The LTV limits that initialization establishes: the borrow ceiling is at
    /// most 80% and the liquidation threshold lies strictly above it.
    pub open spec fn wf(self) -> bool {
        &&& self.max_ltv_bps <= 8_000
        &&& self.liquidation_ltv_bps > self.max_ltv_bps
    }
}

/// The GPU class that a collateral NFT stands for.
#[derive(Clone, Copy, Debug, PartialEq, Eq, Structural)]
pub enum GpuModel {
    A100,
    A100Cluster8,
    H100,
    H200,
    Unknown,
}

impl GpuModel {
    /// Position of the variant, which is also its one-byte encoding.
    pub open spec fn tag(self) -> u8 {
        match self {
            GpuModel::A100 => 0,
            GpuModel::A100Cluster8 => 1,
            GpuModel::H100 => 2,
            GpuModel::H200 => 3,
            GpuModel::Unknown => 4,
        }
    }

    /// Appends the one-byte encoding of the variant (its position) to `buf`.
    pub fn serialize(&self, buf: &mut Vec<u8>)
        ensures
            final(buf)@ == old(buf)@.push(self.tag()),
    {
        let b: u8 = match self {
            GpuModel::A100 => 0,
            GpuModel::A100Cluster8 => 1,
            GpuModel::H100 => 2,
            GpuModel::H200 => 3,
            GpuModel::Unknown => 4,
        };
        buf.push(b);
    }
}

/// Lifecycle of a collateral position.
#[derive(Clone, Copy, Debug, PartialEq, Eq, Structural)]
pub enum GpuStatus {
    Active,
    Borrowing,
    Liquidated,
    Withdrawn,
}

impl GpuStatus {
    /// Position of the variant, which is also its one-byte encoding.
    pub open spec fn tag(self) -> u8 {
        match self {
            GpuStatus::Active => 0,
            GpuStatus::Borrowing => 1,
            GpuStatus::Liquidated => 2,
            GpuStatus::Withdrawn => 3,
        }
    }

    /// Appends the one-byte encoding of the variant (its position) to `buf`.
    pub fn serialize(&self, buf: &mut Vec<u8>)
        ensures
            final(buf)@ == old(buf)@.push(self.tag()),
    {
        let b: u8 = match self {
            GpuStatus::Active => 0,
            GpuStatus::Borrowing => 1,
            GpuStatus::Liquidated => 2,
            GpuStatus::Withdrawn => 3,
        };
        buf.push(b);
    }

    /// A position that left the vault: no instruction moves it on.
    pub open spec fn is_terminal(self) -> bool {
        self == GpuStatus::Liquidated || self == GpuStatus::Withdrawn
    }
}

/// One GPU pledged as collateral, with its valuation and outstanding debt.
#[derive(Clone, Copy, Debug)]
pub struct GpuCollateral {
    pub owner: Pubkey,
    pub gpu_nft_mint: Pubkey,
    pub valuation_usd: u64,
    pub borrowed_usdai: u64,
    pub model: GpuModel,
    pub status: GpuStatus,
    pub oracle_feed: Pubkey,
    pub last_valuation_ts: i64,
    pub bump: u8,
}

impl GpuCollateral {
    /// Account size: discriminator, two addresses, two `u64`, two one-byte enums, an address, an `i64` and a `u8`.
    pub const LEN: usize = 8 + 32 + 32 + 8 + 8 + 1 + 1 + 32 + 8 + 1;

    /// Debt only ever stands against a position that is borrowing.
    pub open spec fn wf(self) -> bool {
        self.borrowed_usdai > 0 ==> self.status == GpuStatus::Borrowing
    }
}

/// Aggregate position tracking per user (for indexing and display).
#[derive(Clone, Copy, Debug)]
pub struct UserPosition {
    pub owner: Pubkey,
    pub total_collateral_value: u64,
    pub total_borrowed: u64,
    pub total_staked_chip: u64,
    pub bump: u8,
}

impl UserPosition {
    /// Account size: discriminator, an address, three `u64` and a `u8`.
    pub const LEN: usize = 8 + 32 + 8 + 8 + 8 + 1;
}

} // verus!
