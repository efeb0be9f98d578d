use gpu_vault::errors::{ProgramError, VaultError};
use gpu_vault::instructions::borrow_usdai::{self, BorrowUsdai};
use gpu_vault::instructions::initialize_vault::{self, InitializeVault};
use gpu_vault::instructions::liquidate::{self, Liquidate};
use gpu_vault::instructions::register_gpu::{self, parse_model, RegisterGpu, RegisterGpuParams};
use gpu_vault::instructions::repay_usdai::{self, RepayUsdai};
use gpu_vault::instructions::set_authority::{self, SetAuthority};
use gpu_vault::instructions::set_pause::{self, SetPause};
use gpu_vault::instructions::stake_chip::{self, StakeChip, UnstakeChip};
use gpu_vault::instructions::update_oracle::{self, UpdateOracle};
use gpu_vault::instructions::update_treasury::{self, UpdateTreasury};
use gpu_vault::instructions::withdraw_gpu::{self, WithdrawGpu};
use gpu_vault::instructions::TokenAccount;
use gpu_vault::keys::Pubkey;
use gpu_vault::state::{GpuCollateral, GpuModel, GpuStatus, VaultConfig};

fn key(n: u8) -> Pubkey {
    Pubkey([n; 32])
}

const AUTHORITY: u8 = 1;
const USDAI: u8 = 2;
const CHIP: u8 = 3;
const SCHIP: u8 = 4;
const LEND: u8 = 5;
const STAKE: u8 = 6;
const TREASURY: u8 = 7;
const CONFIG: u8 = 8;
const OWNER: u8 = 9;
const MINT: u8 = 10;
const FEED: u8 = 11;
const COLLATERAL: u8 = 12;
const OWNER_USDAI: u8 = 13;
const VAULT_USDAI: u8 = 14;
const TREASURY_USDAI: u8 = 15;
const TOKEN_PROGRAM: u8 = 16;
const LIQUIDATOR: u8 = 17;
const NOW: i64 = 1_704_067_200;

fn config() -> VaultConfig {
    let ctx = InitializeVault {
        payer: key(AUTHORITY),
        usdai_mint: key(USDAI),
        chip_mint: key(CHIP),
        s_chip_mint: key(SCHIP),
        usd_ai_lend_program: key(LEND),
        usd_ai_stake_program: key(STAKE),
        treasury: key(TREASURY),
        vault_config_bump: 254,
    };
    initialize_vault::handler(&ctx, 7000, 8500).unwrap()
}

fn position(valuation: u64, borrowed: u64, status: GpuStatus) -> GpuCollateral {
    GpuCollateral {
        owner: key(OWNER),
        gpu_nft_mint: key(MINT),
        valuation_usd: valuation,
        borrowed_usdai: borrowed,
        model: GpuModel::H100,
        status,
        oracle_feed: key(FEED),
        last_valuation_ts: NOW - 60,
        bump: 253,
    }
}

fn token(k: u8, mint: u8, owner: u8) -> TokenAccount {
    TokenAccount { key: key(k), mint: key(mint), owner: key(owner) }
}

fn borrow_ctx(collateral: GpuCollateral) -> BorrowUsdai {
    BorrowUsdai {
        vault_config: config(),
        vault_config_key: key(CONFIG),
        collateral,
        collateral_key: key(COLLATERAL),
        owner: key(OWNER),
        oracle_feed: key(FEED),
        usd_ai_lend: key(LEND),
        owner_usdai_account: token(OWNER_USDAI, USDAI, OWNER),
        vault_usdai_account: key(VAULT_USDAI),
        treasury_usdai_account: token(TREASURY_USDAI, USDAI, TREASURY),
        token_program: key(TOKEN_PROGRAM),
    }
}

fn repay_ctx(collateral: GpuCollateral) -> RepayUsdai {
    RepayUsdai {
        vault_config: config(),
        vault_config_key: key(CONFIG),
        collateral,
        collateral_key: key(COLLATERAL),
        owner: key(OWNER),
        owner_usdai_account: token(OWNER_USDAI, USDAI, OWNER),
        vault_usdai_account: key(VAULT_USDAI),
        usd_ai_lend: key(LEND),
        token_program: key(TOKEN_PROGRAM),
    }
}

fn liquidate_ctx(collateral: GpuCollateral) -> Liquidate {
    Liquidate {
        vault_config: config(),
        vault_config_key: key(CONFIG),
        collateral,
        collateral_key: key(COLLATERAL),
        nft_mint: key(MINT),
        liquidator: key(LIQUIDATOR),
        liquidator_usdai: token(40, USDAI, LIQUIDATOR),
        vault_nft_account: key(41),
        liquidator_nft_account: key(42),
        vault_usdai_account: key(VAULT_USDAI),
        oracle_feed: key(FEED),
        usd_ai_lend: key(LEND),
        token_program: key(TOKEN_PROGRAM),
    }
}

/// The 8 bytes by which an Anchor program selects its instruction `name`.
fn sighash(name: &str) -> Vec<u8> {
    let digest = anchor_lang::solana_program::hash::hash(format!("global:{}", name).as_bytes());
    digest.to_bytes()[..8].to_vec()
}

fn tagged(name: &str, amount: u64) -> Vec<u8> {
    let mut data = sighash(name);
    data.extend_from_slice(&amount.to_le_bytes());
    data
}

fn vault_err(e: VaultError) -> ProgramError {
    ProgramError::Vault(e)
}

#[test]
fn initialize_sets_defaults() {
    let cfg = config();
    assert_eq!(cfg.authority.0, [AUTHORITY; 32]);
    assert_eq!(cfg.max_ltv_bps, 7000);
    assert_eq!(cfg.liquidation_ltv_bps, 8500);
    assert_eq!(cfg.protocol_fee_bps, 10);
    assert_eq!(cfg.min_oracle_staleness, 300);
    assert!(!cfg.paused);
    assert_eq!(cfg.bump, 254);
}

#[test]
fn initialize_rejects_bad_limits() {
    let ctx = InitializeVault {
        payer: key(1),
        usdai_mint: key(2),
        chip_mint: key(3),
        s_chip_mint: key(4),
        usd_ai_lend_program: key(5),
        usd_ai_stake_program: key(6),
        treasury: key(7),
        vault_config_bump: 1,
    };
    assert_eq!(initialize_vault::handler(&ctx, 8001, 9000).unwrap_err(), vault_err(VaultError::LtvTooHigh));
    assert_eq!(
        initialize_vault::handler(&ctx, 8000, 8000).unwrap_err(),
        vault_err(VaultError::InvalidLiquidationThreshold)
    );
    assert!(initialize_vault::handler(&ctx, 8000, 8001).is_ok());
}

#[test]
fn borrow_splits_fee_to_treasury() {
    let mut ctx = borrow_ctx(position(1_000_000, 0, GpuStatus::Active));
    let plan = borrow_usdai::handler(&mut ctx, 500_000, NOW).unwrap();
    assert_eq!(plan.event.fee, 500);
    assert_eq!(plan.event.new_total, 500_000);
    let to_owner = plan.to_owner.unwrap();
    assert_eq!(to_owner.amount, 499_500);
    assert_eq!(to_owner.to.0, [OWNER_USDAI; 32]);
    assert_eq!(to_owner.from.0, [VAULT_USDAI; 32]);
    assert!(to_owner.signed_by_vault);
    let to_treasury = plan.to_treasury.unwrap();
    assert_eq!(to_treasury.amount, 500);
    assert_eq!(to_treasury.to.0, [TREASURY_USDAI; 32]);
    assert_eq!(ctx.collateral.borrowed_usdai, 500_000);
    assert_eq!(ctx.collateral.status, GpuStatus::Borrowing);
    // The lending program is asked for the full amount, for this collateral.
    let ix = plan.lend_borrow.instruction;
    assert_eq!(ix.program_id.0, [LEND; 32]);
    let mut data = tagged("borrow", 500_000);
    data.extend_from_slice(&[COLLATERAL; 32]);
    assert_eq!(ix.data.len(), 48);
    assert_eq!(ix.data, data);
    assert_eq!(ix.accounts.len(), 4);
    assert!(ix.accounts[0].is_signer && !ix.accounts[0].is_writable);
    assert_eq!(ix.accounts[0].pubkey.0, [OWNER; 32]);
    assert_eq!(ix.accounts[1].pubkey.0, [VAULT_USDAI; 32]);
    assert!(ix.accounts[1].is_writable && ix.accounts[2].is_writable);
    assert!(!ix.accounts[3].is_writable);
}

#[test]
fn borrow_small_amount_has_no_fee_transfer() {
    let mut ctx = borrow_ctx(position(1_000_000, 0, GpuStatus::Active));
    let plan = borrow_usdai::handler(&mut ctx, 999, NOW).unwrap();
    assert_eq!(plan.event.fee, 0);
    assert!(plan.to_treasury.is_none());
    assert_eq!(plan.to_owner.unwrap().amount, 999);
}

#[test]
fn borrow_at_ceiling_succeeds_and_above_fails() {
    let mut ctx = borrow_ctx(position(1_000_000, 0, GpuStatus::Active));
    assert_eq!(borrow_usdai::handler(&mut ctx, 700_001, NOW).unwrap_err(), vault_err(VaultError::ExceedsLtv));
    assert_eq!(ctx.collateral.borrowed_usdai, 0);
    assert!(borrow_usdai::handler(&mut ctx, 700_000, NOW).is_ok());
}

#[test]
fn borrow_requires_fresh_nonzero_valuation() {
    let mut ctx = borrow_ctx(position(1_000_000, 0, GpuStatus::Active));
    assert_eq!(borrow_usdai::handler(&mut ctx, 1, NOW + 301 - 60).unwrap_err(), vault_err(VaultError::StaleOracle));
    assert!(borrow_usdai::handler(&mut ctx, 1, NOW + 300 - 60).is_ok());
    let mut unvalued = borrow_ctx(position(0, 0, GpuStatus::Active));
    assert_eq!(borrow_usdai::handler(&mut unvalued, 1, NOW).unwrap_err(), vault_err(VaultError::ZeroValuation));
}

#[test]
fn borrow_checks_accounts_first() {
    let mut ctx = borrow_ctx(position(1_000_000, 0, GpuStatus::Active));
    ctx.owner = key(99);
    ctx.vault_config.paused = true;
    assert_eq!(borrow_usdai::handler(&mut ctx, 1, NOW).unwrap_err(), vault_err(VaultError::Unauthorized));
    let mut ctx = borrow_ctx(position(1_000_000, 0, GpuStatus::Active));
    ctx.oracle_feed = key(99);
    assert_eq!(borrow_usdai::handler(&mut ctx, 1, NOW).unwrap_err(), vault_err(VaultError::WrongOracleFeed));
    let mut ctx = borrow_ctx(position(1_000_000, 0, GpuStatus::Borrowing));
    assert_eq!(borrow_usdai::handler(&mut ctx, 1, NOW).unwrap_err(), vault_err(VaultError::NotActive));
    let mut ctx = borrow_ctx(position(1_000_000, 0, GpuStatus::Active));
    ctx.usd_ai_lend = key(99);
    assert_eq!(borrow_usdai::handler(&mut ctx, 1, NOW).unwrap_err(), ProgramError::ConstraintRaw);
    assert_eq!(ProgramError::ConstraintRaw.code(), 2003);
    let mut ctx = borrow_ctx(position(1_000_000, 0, GpuStatus::Active));
    ctx.treasury_usdai_account.mint = key(99);
    assert_eq!(borrow_usdai::handler(&mut ctx, 1, NOW).unwrap_err(), vault_err(VaultError::WrongMint));
    let mut ctx = borrow_ctx(position(1_000_000, 0, GpuStatus::Active));
    ctx.treasury_usdai_account.owner = key(99);
    assert_eq!(borrow_usdai::handler(&mut ctx, 1, NOW).unwrap_err(), vault_err(VaultError::InvalidTreasury));
    let mut ctx = borrow_ctx(position(1_000_000, 0, GpuStatus::Active));
    ctx.vault_config.paused = true;
    assert_eq!(borrow_usdai::handler(&mut ctx, 1, NOW).unwrap_err(), vault_err(VaultError::Paused));
}

#[test]
fn borrow_with_fee_above_whole_overflows() {
    let mut ctx = borrow_ctx(position(1_000_000, 0, GpuStatus::Active));
    ctx.vault_config.protocol_fee_bps = 10_001;
    assert_eq!(borrow_usdai::handler(&mut ctx, 10_000, NOW).unwrap_err(), vault_err(VaultError::MathOverflow));
}

#[test]
fn repay_partial_then_full_reactivates() {
    let mut ctx = repay_ctx(position(1_000_000, 500_000, GpuStatus::Borrowing));
    let plan = repay_usdai::handler(&mut ctx, 200_000).unwrap();
    assert_eq!(plan.event.remaining, 300_000);
    assert_eq!(plan.from_owner.amount, 200_000);
    assert_eq!(plan.from_owner.authority.0, [OWNER; 32]);
    assert!(!plan.from_owner.signed_by_vault);
    assert_eq!(plan.lend_repay.instruction.data, tagged("repay", 200_000));
    assert_eq!(ctx.collateral.status, GpuStatus::Borrowing);
    assert_eq!(repay_usdai::handler(&mut ctx, 300_001).unwrap_err(), vault_err(VaultError::RepayTooMuch));
    repay_usdai::handler(&mut ctx, 300_000).unwrap();
    assert_eq!(ctx.collateral.borrowed_usdai, 0);
    assert_eq!(ctx.collateral.status, GpuStatus::Active);
}

#[test]
fn repay_requires_borrowing_position() {
    let mut ctx = repay_ctx(position(1_000_000, 0, GpuStatus::Active));
    assert_eq!(repay_usdai::handler(&mut ctx, 0).unwrap_err(), vault_err(VaultError::NotBorrowing));
}

#[test]
fn borrow_then_repay_restores_position() {
    let start = position(1_000_000, 0, GpuStatus::Active);
    let mut b = borrow_ctx(start);
    borrow_usdai::handler(&mut b, 600_000, NOW).unwrap();
    let mut r = repay_ctx(b.collateral);
    repay_usdai::handler(&mut r, 600_000).unwrap();
    assert_eq!(r.collateral.borrowed_usdai, start.borrowed_usdai);
    assert_eq!(r.collateral.status, start.status);
}

#[test]
fn liquidation_above_threshold() {
    // 850_100 / 1_000_000 = 8501 bps: just above the threshold.
    let mut ctx = liquidate_ctx(position(1_000_000, 850_100, GpuStatus::Borrowing));
    let plan = liquidate::handler(&mut ctx, NOW).unwrap();
    assert_eq!(plan.event.debt_repaid, 850_100);
    assert_eq!(plan.debt_from_liquidator.amount, 850_100);
    assert_eq!(plan.debt_from_liquidator.authority.0, [LIQUIDATOR; 32]);
    assert_eq!(plan.nft_to_liquidator.amount, 1);
    assert_eq!(plan.nft_to_liquidator.to.0, [42; 32]);
    assert!(plan.nft_to_liquidator.signed_by_vault);
    assert_eq!(plan.lend_repay.instruction.accounts[0].pubkey.0, [LIQUIDATOR; 32]);
    assert_eq!(plan.lend_repay.instruction.data, tagged("repay", 850_100));
    assert_eq!(ctx.collateral.status, GpuStatus::Liquidated);
    assert_eq!(ctx.collateral.borrowed_usdai, 0);
}

#[test]
fn liquidation_at_or_below_threshold_refused() {
    let mut ctx = liquidate_ctx(position(1_000_000, 849_999, GpuStatus::Borrowing));
    assert_eq!(liquidate::handler(&mut ctx, NOW).unwrap_err(), vault_err(VaultError::NotLiquidatable));
    assert_eq!(ctx.collateral.status, GpuStatus::Borrowing);
    // 850_000 / 1_000_000 is exactly the threshold.
    let mut ctx = liquidate_ctx(position(1_000_000, 850_000, GpuStatus::Borrowing));
    assert_eq!(liquidate::handler(&mut ctx, NOW).unwrap_err(), vault_err(VaultError::NotLiquidatable));
}

#[test]
fn liquidation_just_above_threshold_fraction() {
    // 850_099 / 1_000_000 is 8500.99 bps and 8501 / 10_001 is about 8500.15 bps:
    // both above 8500 bps, though they round down to it.
    let mut ctx = liquidate_ctx(position(1_000_000, 850_099, GpuStatus::Borrowing));
    assert_eq!(liquidate::handler(&mut ctx, NOW).unwrap().event.debt_repaid, 850_099);
    let mut ctx = liquidate_ctx(position(10_001, 8_501, GpuStatus::Borrowing));
    assert_eq!(liquidate::handler(&mut ctx, NOW).unwrap().event.debt_repaid, 8_501);
    assert_eq!(ctx.collateral.status, GpuStatus::Liquidated);
}

#[test]
fn liquidation_deeply_underwater() {
    // Debt seven times the valuation, far beyond what fits in basis points of a u16.
    let mut ctx = liquidate_ctx(position(100_000, 700_000, GpuStatus::Borrowing));
    assert_eq!(liquidate::handler(&mut ctx, NOW).unwrap().event.debt_repaid, 700_000);
    let mut ctx = liquidate_ctx(position(1, u64::MAX, GpuStatus::Borrowing));
    assert_eq!(liquidate::handler(&mut ctx, NOW).unwrap().event.debt_repaid, u64::MAX);
}

#[test]
fn liquidation_refuses_stale_valuation() {
    // Valued 60 s before NOW; the staleness limit is 300 s.
    let mut ctx = liquidate_ctx(position(1_000_000, 900_000, GpuStatus::Borrowing));
    assert_eq!(liquidate::handler(&mut ctx, NOW + 241).unwrap_err(), vault_err(VaultError::StaleOracle));
    assert_eq!(ctx.collateral.status, GpuStatus::Borrowing);
    assert_eq!(ctx.collateral.borrowed_usdai, 900_000);
    let mut ctx = liquidate_ctx(position(1_000_000, 900_000, GpuStatus::Borrowing));
    assert!(liquidate::handler(&mut ctx, NOW + 240).is_ok());
    // Staleness is checked before the valuation is read.
    let mut ctx = liquidate_ctx(position(0, 900_000, GpuStatus::Borrowing));
    assert_eq!(liquidate::handler(&mut ctx, NOW + 1_000).unwrap_err(), vault_err(VaultError::StaleOracle));
}

#[test]
fn liquidation_of_fresh_borrow_refused() {
    let mut b = borrow_ctx(position(1_000_000, 0, GpuStatus::Active));
    borrow_usdai::handler(&mut b, 700_000, NOW).unwrap();
    let mut l = liquidate_ctx(b.collateral);
    assert_eq!(liquidate::handler(&mut l, NOW).unwrap_err(), vault_err(VaultError::NotLiquidatable));
}

#[test]
fn liquidation_checks_accounts() {
    let mut ctx = liquidate_ctx(position(1_000_000, 900_000, GpuStatus::Borrowing));
    ctx.liquidator_usdai.owner = key(99);
    assert_eq!(liquidate::handler(&mut ctx, NOW).unwrap_err(), vault_err(VaultError::Unauthorized));
    let mut ctx = liquidate_ctx(position(1_000_000, 900_000, GpuStatus::Borrowing));
    ctx.nft_mint = key(99);
    assert_eq!(liquidate::handler(&mut ctx, NOW).unwrap_err(), vault_err(VaultError::WrongMint));
    let mut ctx = liquidate_ctx(position(0, 900_000, GpuStatus::Borrowing));
    assert_eq!(liquidate::handler(&mut ctx, NOW).unwrap_err(), vault_err(VaultError::ZeroValuation));
}

#[test]
fn withdraw_after_repayment() {
    let mut ctx = WithdrawGpu {
        vault_config: config(),
        vault_config_key: key(CONFIG),
        collateral: position(1_000_000, 0, GpuStatus::Active),
        collateral_key: key(COLLATERAL),
        owner: key(OWNER),
        vault_nft_account: key(41),
        owner_nft_account: token(43, MINT, OWNER),
    };
    let plan = withdraw_gpu::handler(&mut ctx).unwrap();
    assert_eq!(plan.nft_to_owner.amount, 1);
    assert_eq!(plan.nft_to_owner.to.0, [43; 32]);
    assert_eq!(ctx.collateral.status, GpuStatus::Withdrawn);
    // A withdrawn position cannot be withdrawn again.
    assert_eq!(withdraw_gpu::handler(&mut ctx).unwrap_err(), vault_err(VaultError::NotActive));
}

#[test]
fn withdraw_with_debt_refused() {
    let mut ctx = WithdrawGpu {
        vault_config: config(),
        vault_config_key: key(CONFIG),
        collateral: position(1_000_000, 5, GpuStatus::Active),
        collateral_key: key(COLLATERAL),
        owner: key(OWNER),
        vault_nft_account: key(41),
        owner_nft_account: token(43, MINT, OWNER),
    };
    assert_eq!(withdraw_gpu::handler(&mut ctx).unwrap_err(), vault_err(VaultError::OutstandingDebt));
}

fn feed_bytes(answer: i128, decimals: u8) -> Vec<u8> {
    let mut data = vec![0u8; 49];
    data[0..8].copy_from_slice(&1u64.to_le_bytes());
    data[8] = decimals;
    data[17..33].copy_from_slice(&answer.to_le_bytes());
    data[33..41].copy_from_slice(&NOW.to_le_bytes());
    data[41..49].copy_from_slice(&NOW.to_le_bytes());
    data
}

#[test]
fn update_oracle_sets_valuation_and_time() {
    let mut ctx = UpdateOracle {
        collateral: position(0, 0, GpuStatus::Active),
        collateral_key: key(COLLATERAL),
        oracle_feed: key(FEED),
    };
    let event = update_oracle::handler(&mut ctx, &feed_bytes(2_500_000, 4), NOW + 5).unwrap();
    assert_eq!(event.price, 250_000_000);
    assert_eq!(event.ts, NOW + 5);
    assert_eq!(ctx.collateral.valuation_usd, 250_000_000);
    assert_eq!(ctx.collateral.last_valuation_ts, NOW + 5);
    // A mock feed account without a full record gives $1.00.
    update_oracle::handler(&mut ctx, &[1, 2, 3], NOW + 6).unwrap();
    assert_eq!(ctx.collateral.valuation_usd, 1_000_000);
}

#[test]
fn update_oracle_refuses_liquidated_and_wrong_feed() {
    let mut ctx = UpdateOracle {
        collateral: position(0, 0, GpuStatus::Liquidated),
        collateral_key: key(COLLATERAL),
        oracle_feed: key(FEED),
    };
    assert_eq!(
        update_oracle::handler(&mut ctx, &feed_bytes(1, 6), NOW).unwrap_err(),
        vault_err(VaultError::AlreadyLiquidated)
    );
    let mut ctx = UpdateOracle {
        collateral: position(0, 0, GpuStatus::Active),
        collateral_key: key(COLLATERAL),
        oracle_feed: key(99),
    };
    assert_eq!(
        update_oracle::handler(&mut ctx, &feed_bytes(1, 6), NOW).unwrap_err(),
        vault_err(VaultError::WrongOracleFeed)
    );
    assert_eq!(ctx.collateral.valuation_usd, 0);
}

fn register_ctx() -> RegisterGpu {
    RegisterGpu {
        vault_config: config(),
        vault_config_key: key(CONFIG),
        gpu_collateral_key: key(COLLATERAL),
        gpu_collateral_bump: 250,
        gpu_nft_mint: Pubkey([0; 32]),
        vault_nft_account: key(46),
        metadata_account: key(44),
        owner: key(OWNER),
        oracle_feed: key(FEED),
        system_program: key(47),
        rent: key(48),
    }
}

/// Borsh's encoding of a string: little-endian `u32` byte length, then the bytes.
fn borsh_str(s: &str) -> Vec<u8> {
    let mut v = (s.len() as u32).to_le_bytes().to_vec();
    v.extend_from_slice(s.as_bytes());
    v
}

/// The expected data of the metadata creation for `name` and `uri`.
fn metadata_data(name: &str, uri: &str) -> Vec<u8> {
    let mut v = vec![33u8];
    v.extend(borsh_str(name));
    v.extend(borsh_str("GPU"));
    v.extend(borsh_str(uri));
    v.extend_from_slice(&0u16.to_le_bytes());
    v.extend_from_slice(&[0, 0, 0, 1, 0]);
    v
}

fn params(model: &str) -> RegisterGpuParams {
    RegisterGpuParams {
        model: model.to_string(),
        specs: "80GB HBM3".to_string(),
        cluster_id: key(45),
        prometheus_url: "https://metrics.example/gpu".to_string(),
    }
}

#[test]
fn register_opens_active_position_with_metadata() {
    let (collateral, plan) = register_gpu::handler(&register_ctx(), &params("H100")).unwrap();
    assert_eq!(collateral.model, GpuModel::H100);
    assert_eq!(collateral.status, GpuStatus::Active);
    assert_eq!(collateral.valuation_usd, 0);
    assert_eq!(collateral.borrowed_usdai, 0);
    assert_eq!(collateral.last_valuation_ts, 0);
    assert_eq!(collateral.bump, 250);
    assert_eq!(plan.nft_to_escrow.amount, 1);
    assert_eq!(plan.nft_to_escrow.to.0, [46; 32]);
    assert_eq!(plan.nft_to_escrow.mint.0, [0; 32]);
    assert!(plan.nft_to_escrow.signed_by_vault);
    // The all-zero address renders as 32 base58 '1' digits.
    let ix = &plan.metadata.instruction;
    assert!(plan.metadata.signed_by_vault);
    assert_eq!(ix.program_id.0, mpl_token_metadata::ID.to_bytes());
    assert_eq!(ix.data, metadata_data("GPU: H100", "https://metadata.usd.ai/gpu/11111111111111111111111111111111"));
    let expected = [
        (44u8, false, true),
        (0, false, false),
        (CONFIG, true, false),
        (OWNER, true, true),
        (CONFIG, false, false),
        (47, false, false),
        (48, false, false),
    ];
    assert_eq!(ix.accounts.len(), expected.len());
    for (meta, (k, signer, writable)) in ix.accounts.iter().zip(expected.iter()) {
        assert_eq!(meta.pubkey.0, [*k; 32]);
        assert_eq!(meta.is_signer, *signer);
        assert_eq!(meta.is_writable, *writable);
    }
    assert_eq!(plan.event.owner.0, [OWNER; 32]);
}

#[test]
fn register_uri_renders_mint_in_base58() {
    let mut ctx = register_ctx();
    let mut mint = [0u8; 32];
    mint[31] = 1;
    ctx.gpu_nft_mint = Pubkey(mint);
    let (_, plan) = register_gpu::handler(&ctx, &params("A100")).unwrap();
    assert_eq!(
        plan.metadata.instruction.data,
        metadata_data("GPU: A100", "https://metadata.usd.ai/gpu/11111111111111111111111111111112")
    );
}

#[test]
fn register_checks_lengths_before_pause() {
    let mut ctx = register_ctx();
    ctx.vault_config.paused = true;
    let long = "x".repeat(33);
    assert_eq!(register_gpu::handler(&ctx, &params(&long)).unwrap_err(), vault_err(VaultError::MetadataTooLong));
    assert_eq!(register_gpu::handler(&ctx, &params("H100")).unwrap_err(), vault_err(VaultError::Paused));
    // Length is counted in UTF-8 bytes: 11 three-byte characters are 33 bytes.
    ctx.vault_config.paused = false;
    let wide = "€".repeat(11);
    assert_eq!(register_gpu::handler(&ctx, &params(&wide)).unwrap_err(), vault_err(VaultError::MetadataTooLong));
    let fits = "x".repeat(32);
    assert!(register_gpu::handler(&ctx, &params(&fits)).is_ok());
}

#[test]
fn parse_model_names() {
    assert_eq!(parse_model("A100").unwrap(), GpuModel::A100);
    assert_eq!(parse_model("A100x8").unwrap(), GpuModel::A100Cluster8);
    assert_eq!(parse_model("A100-Cluster-8").unwrap(), GpuModel::A100Cluster8);
    assert_eq!(parse_model("H100").unwrap(), GpuModel::H100);
    assert_eq!(parse_model("H200").unwrap(), GpuModel::H200);
    assert_eq!(parse_model("h100").unwrap(), GpuModel::Unknown);
    assert_eq!(parse_model("").unwrap(), GpuModel::Unknown);
}

#[test]
fn stake_and_unstake_call_staking_program() {
    let stake = StakeChip {
        vault_config: config(),
        owner: key(OWNER),
        owner_chip_account: token(50, CHIP, OWNER),
        owner_schip_account: token(51, SCHIP, OWNER),
        usd_ai_stake: key(STAKE),
        token_program: key(TOKEN_PROGRAM),
    };
    let plan = stake_chip::handler(&stake, 77).unwrap();
    assert!(!plan.stake.signed_by_vault);
    assert_eq!(plan.stake.instruction.program_id.0, [STAKE; 32]);
    assert_eq!(plan.stake.instruction.data, tagged("stake", 77));
    assert_eq!(plan.stake.instruction.data.len(), 16);
    assert_eq!(plan.stake.instruction.accounts[1].pubkey.0, [50; 32]);
    assert_eq!(plan.stake.instruction.accounts[2].pubkey.0, [51; 32]);
    assert_eq!(plan.event.amount, 77);
    assert_eq!(stake_chip::handler(&stake, 0).unwrap_err(), vault_err(VaultError::ZeroAmount));

    let unstake = UnstakeChip {
        vault_config: config(),
        owner: key(OWNER),
        owner_schip_account: token(51, SCHIP, OWNER),
        owner_chip_account: token(50, CHIP, OWNER),
        usd_ai_stake: key(STAKE),
        token_program: key(TOKEN_PROGRAM),
    };
    let plan = stake_chip::unstake_handler(&unstake, 5).unwrap();
    assert_eq!(plan.unstake.instruction.accounts[1].pubkey.0, [51; 32]);
    assert_eq!(plan.unstake.instruction.accounts[2].pubkey.0, [50; 32]);
    assert_eq!(plan.unstake.instruction.data, tagged("unstake", 5));
    assert_eq!(plan.event.amount, 5);
    let mut wrong = unstake;
    wrong.owner_chip_account.mint = key(SCHIP);
    assert_eq!(stake_chip::unstake_handler(&wrong, 5).unwrap_err(), vault_err(VaultError::WrongMint));
}

#[test]
fn paused_vault_refuses_user_operations() {
    let mut cfg = config();
    cfg.paused = true;
    let mut b = borrow_ctx(position(1_000_000, 0, GpuStatus::Active));
    b.vault_config = cfg;
    assert_eq!(borrow_usdai::handler(&mut b, 1, NOW).unwrap_err(), vault_err(VaultError::Paused));
    let mut r = repay_ctx(position(1_000_000, 10, GpuStatus::Borrowing));
    r.vault_config = cfg;
    assert_eq!(repay_usdai::handler(&mut r, 1).unwrap_err(), vault_err(VaultError::Paused));
    let mut l = liquidate_ctx(position(1_000_000, 900_000, GpuStatus::Borrowing));
    l.vault_config = cfg;
    assert_eq!(liquidate::handler(&mut l, NOW).unwrap_err(), vault_err(VaultError::Paused));
    let stake = StakeChip {
        vault_config: cfg,
        owner: key(OWNER),
        owner_chip_account: token(50, CHIP, OWNER),
        owner_schip_account: token(51, SCHIP, OWNER),
        usd_ai_stake: key(STAKE),
        token_program: key(TOKEN_PROGRAM),
    };
    assert_eq!(stake_chip::handler(&stake, 1).unwrap_err(), vault_err(VaultError::Paused));
}

#[test]
fn admin_operations_need_the_authority() {
    let mut ctx = SetPause { vault_config: config(), authority: key(AUTHORITY) };
    let event = set_pause::handler(&mut ctx, true).unwrap();
    assert!(event.paused && ctx.vault_config.paused);
    let mut intruder = SetPause { vault_config: config(), authority: key(99) };
    assert_eq!(set_pause::handler(&mut intruder, true).unwrap_err(), vault_err(VaultError::Unauthorized));
    assert!(!intruder.vault_config.paused);

    let mut ctx = UpdateTreasury { vault_config: config(), authority: key(AUTHORITY), new_treasury: key(60) };
    let event = update_treasury::handler(&mut ctx).unwrap();
    assert_eq!(event.old_treasury.0, [TREASURY; 32]);
    assert_eq!(ctx.vault_config.treasury.0, [60; 32]);

    let mut ctx = SetAuthority { vault_config: config(), authority: key(AUTHORITY), new_authority: key(61) };
    let event = set_authority::handler(&mut ctx).unwrap();
    assert_eq!(event.old_authority.0, [AUTHORITY; 32]);
    assert_eq!(ctx.vault_config.authority.0, [61; 32]);
    // The old authority lost its rights.
    let mut again = SetAuthority { vault_config: ctx.vault_config, authority: key(AUTHORITY), new_authority: key(62) };
    assert_eq!(set_authority::handler(&mut again).unwrap_err(), vault_err(VaultError::Unauthorized));
}

#[test]
fn liquidated_position_is_final() {
    let mut l = liquidate_ctx(position(1_000_000, 900_000, GpuStatus::Borrowing));
    liquidate::handler(&mut l, NOW).unwrap();
    let mut b = borrow_ctx(l.collateral);
    assert_eq!(borrow_usdai::handler(&mut b, 1, NOW).unwrap_err(), vault_err(VaultError::NotActive));
    let mut r = repay_ctx(l.collateral);
    assert_eq!(repay_usdai::handler(&mut r, 0).unwrap_err(), vault_err(VaultError::NotBorrowing));
    let mut again = liquidate_ctx(l.collateral);
    assert_eq!(liquidate::handler(&mut again, NOW).unwrap_err(), vault_err(VaultError::NotBorrowing));
}

#[test]
fn any_liquidator_may_liquidate() {
    let mut first = liquidate_ctx(position(1_000_000, 900_000, GpuStatus::Borrowing));
    let mut second = first;
    second.liquidator = key(70);
    second.liquidator_usdai = token(71, USDAI, 70);
    let a = liquidate::handler(&mut first, NOW).unwrap();
    let b = liquidate::handler(&mut second, NOW).unwrap();
    assert_eq!(a.event.debt_repaid, b.event.debt_repaid);
    assert_eq!(b.event.liquidator.0, [70; 32]);
    assert_eq!(b.debt_from_liquidator.from.0, [71; 32]);
}

#[test]
fn debt_stands_only_against_borrowing_positions() {
    let mut b = borrow_ctx(position(1_000_000, 0, GpuStatus::Active));
    borrow_usdai::handler(&mut b, 100, NOW).unwrap();
    assert!(b.collateral.borrowed_usdai > 0 && b.collateral.status == GpuStatus::Borrowing);
    let mut r = repay_ctx(b.collateral);
    repay_usdai::handler(&mut r, 40).unwrap();
    assert!(r.collateral.borrowed_usdai > 0 && r.collateral.status == GpuStatus::Borrowing);
    let mut u = UpdateOracle { collateral: r.collateral, collateral_key: key(COLLATERAL), oracle_feed: key(FEED) };
    update_oracle::handler(&mut u, &feed_bytes(5, 6), NOW).unwrap();
    assert_eq!(u.collateral.status, GpuStatus::Borrowing);
    assert_eq!(u.collateral.borrowed_usdai, 60);
}

#[test]
fn admin_changes_keep_ltv_limits() {
    let mut ctx = SetPause { vault_config: config(), authority: key(AUTHORITY) };
    set_pause::handler(&mut ctx, true).unwrap();
    assert_eq!(ctx.vault_config.max_ltv_bps, 7000);
    assert_eq!(ctx.vault_config.liquidation_ltv_bps, 8500);
    let mut ctx = UpdateTreasury { vault_config: ctx.vault_config, authority: key(AUTHORITY), new_treasury: key(60) };
    update_treasury::handler(&mut ctx).unwrap();
    assert_eq!(ctx.vault_config.max_ltv_bps, 7000);
    assert_eq!(ctx.vault_config.liquidation_ltv_bps, 8500);
    assert!(ctx.vault_config.paused);
}

#[test]
fn borrow_right_after_oracle_update_is_fresh() {
    let mut start = position(0, 0, GpuStatus::Active);
    start.last_valuation_ts = 0;
    let mut u = UpdateOracle { collateral: start, collateral_key: key(COLLATERAL), oracle_feed: key(FEED) };
    update_oracle::handler(&mut u, &feed_bytes(2_000_000, 6), NOW).unwrap();
    let mut b = borrow_ctx(u.collateral);
    let plan = borrow_usdai::handler(&mut b, 1_400_000, NOW).unwrap();
    assert_eq!(plan.event.new_total, 1_400_000);
}

#[test]
fn full_repayment_then_withdrawal() {
    let mut r = repay_ctx(position(1_000_000, 300, GpuStatus::Borrowing));
    repay_usdai::handler(&mut r, 300).unwrap();
    let mut w = WithdrawGpu {
        vault_config: config(),
        vault_config_key: key(CONFIG),
        collateral: r.collateral,
        collateral_key: key(COLLATERAL),
        owner: key(OWNER),
        vault_nft_account: key(41),
        owner_nft_account: token(43, MINT, OWNER),
    };
    assert!(withdraw_gpu::handler(&mut w).is_ok());
    assert_eq!(w.collateral.status, GpuStatus::Withdrawn);
}

#[test]
fn collateral_lifecycle_keeps_the_pledge() {
    let (start, _) = register_gpu::handler(&register_ctx(), &params("H200")).unwrap();
    let mut c = start;
    c.valuation_usd = 1_000_000;
    c.last_valuation_ts = NOW;
    let mut b = borrow_ctx(c);
    borrow_usdai::handler(&mut b, 300_000, NOW).unwrap();
    assert_eq!(b.collateral.status, GpuStatus::Borrowing);
    let mut r = repay_ctx(b.collateral);
    repay_usdai::handler(&mut r, 100_000).unwrap();
    assert_eq!(r.collateral.status, GpuStatus::Borrowing);
    repay_usdai::handler(&mut r, 200_000).unwrap();
    assert_eq!(r.collateral.status, GpuStatus::Active);
    assert_eq!(r.collateral.borrowed_usdai, 0);
    let mut w = WithdrawGpu {
        vault_config: config(),
        vault_config_key: key(CONFIG),
        collateral: r.collateral,
        collateral_key: key(COLLATERAL),
        owner: key(OWNER),
        owner_nft_account: token(43, 0, OWNER),
        vault_nft_account: key(46),
    };
    withdraw_gpu::handler(&mut w).unwrap();
    let end = w.collateral;
    assert_eq!(end.status, GpuStatus::Withdrawn);
    assert_eq!(end.borrowed_usdai, 0);
    assert_eq!(end.owner.0, start.owner.0);
    assert_eq!(end.gpu_nft_mint.0, start.gpu_nft_mint.0);
    assert_eq!(end.oracle_feed.0, start.oracle_feed.0);
    assert_eq!(end.model, start.model);
    assert_eq!(end.bump, start.bump);
    // Withdrawn is final.
    let mut again = borrow_ctx(end);
    assert_eq!(borrow_usdai::handler(&mut again, 1, NOW).unwrap_err(), vault_err(VaultError::NotActive));
}

#[test]
fn config_terms_survive_admin_changes() {
    let first = config();
    let mut p = SetPause { vault_config: first, authority: key(AUTHORITY) };
    set_pause::handler(&mut p, true).unwrap();
    let mut t = UpdateTreasury { vault_config: p.vault_config, authority: key(AUTHORITY), new_treasury: key(60) };
    update_treasury::handler(&mut t).unwrap();
    let mut a = SetAuthority { vault_config: t.vault_config, authority: key(AUTHORITY), new_authority: key(61) };
    set_authority::handler(&mut a).unwrap();
    let cfg = a.vault_config;
    assert!(cfg.paused);
    assert_eq!(cfg.treasury.0, [60; 32]);
    assert_eq!(cfg.authority.0, [61; 32]);
    assert_eq!(cfg.max_ltv_bps, first.max_ltv_bps);
    assert_eq!(cfg.liquidation_ltv_bps, first.liquidation_ltv_bps);
    assert_eq!(cfg.protocol_fee_bps, first.protocol_fee_bps);
    assert_eq!(cfg.min_oracle_staleness, first.min_oracle_staleness);
    assert_eq!(cfg.usdai_mint.0, first.usdai_mint.0);
    assert_eq!(cfg.usd_ai_lend_program.0, first.usd_ai_lend_program.0);
    assert_eq!(cfg.bump, first.bump);
}
