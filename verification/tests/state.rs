use gpu_vault::state::{GpuCollateral, GpuModel, GpuStatus, UserPosition, VaultConfig};

/// Account discriminator size that precedes every account's fields.
const DISCRIMINATOR: usize = 8;

#[test]
fn vault_config_len_matches_layout() {
    // authority, usdai_mint, chip_mint, s_chip_mint, usd_ai_lend_program,
    // usd_ai_stake_program, treasury: Pubkey (32 each)
    // max_ltv_bps, liquidation_ltv_bps, protocol_fee_bps: u16 (2 each)
    // min_oracle_staleness: i64 (8), paused: bool (1), bump: u8 (1)
    let expected = DISCRIMINATOR + (32 * 7) + 2 + 2 + 2 + 8 + 1 + 1;
    assert_eq!(VaultConfig::LEN, expected);
}

#[test]
fn gpu_collateral_len_matches_layout() {
    // owner, gpu_nft_mint: Pubkey (32 each); valuation_usd, borrowed_usdai: u64 (8 each)
    // model, status: enum (1 each); oracle_feed: Pubkey (32); last_valuation_ts: i64 (8); bump: u8 (1)
    let expected = DISCRIMINATOR + 32 + 32 + 8 + 8 + 1 + 1 + 32 + 8 + 1;
    assert_eq!(GpuCollateral::LEN, expected);
}

#[test]
fn user_position_len_matches_layout() {
    // owner: Pubkey (32); total_collateral_value, total_borrowed, total_staked_chip: u64 (8 each); bump: u8 (1)
    let expected = DISCRIMINATOR + 32 + 8 + 8 + 8 + 1;
    assert_eq!(UserPosition::LEN, expected);
}

#[test]
fn gpu_model_variants_are_unique() {
    let variants = vec![GpuModel::A100, GpuModel::A100Cluster8, GpuModel::H100, GpuModel::H200, GpuModel::Unknown];
    // enums serialize as u8 indices starting at 0
    for (i, variant) in variants.iter().enumerate() {
        let mut buf = Vec::new();
        variant.serialize(&mut buf);
        assert_eq!(buf[0], i as u8, "variant at index {} serialized incorrectly", i);
    }
}

#[test]
fn gpu_status_variants_are_unique() {
    let variants = vec![GpuStatus::Active, GpuStatus::Borrowing, GpuStatus::Liquidated, GpuStatus::Withdrawn];
    for (i, variant) in variants.iter().enumerate() {
        let mut buf = Vec::new();
        variant.serialize(&mut buf);
        assert_eq!(buf[0], i as u8, "variant at index {} serialized incorrectly", i);
    }
}

#[test]
fn serialize_appends_after_existing_bytes() {
    let mut buf = vec![9u8, 9];
    GpuStatus::Withdrawn.serialize(&mut buf);
    GpuModel::H200.serialize(&mut buf);
    assert_eq!(buf, vec![9, 9, 3, 3]);
}
