//! Properties of the vault that span its instructions.
use vstd::prelude::*;
use crate::errors::{ProgramError, VaultError};
use crate::instructions::borrow_usdai::{self, borrow_outcome, borrowed_position, vault_payout, BorrowUsdai};
use crate::instructions::liquidate::{self, liquidate_outcome, liquidated_position, Liquidate};
use crate::instructions::register_gpu::{register_error, registered_collateral, RegisterGpu, RegisterGpuParams};
use crate::instructions::repay_usdai::{self, repay_outcome, repaid_position, status_after_repay, RepayUsdai};
use crate::instructions::stake_chip::{stake_error, unstake_error, StakeChip, UnstakeChip};
use crate::instructions::update_oracle::{self, revalued_position, update_outcome, UpdateOracle};
use crate::instructions::withdraw_gpu::{withdraw_error, withdrawn_position, WithdrawGpu};
use crate::keys::Pubkey;
use crate::math::{
    bps_of, lemma_bps_of_at_most_whole, lemma_within_ceiling_scaled, spec_checked_bps_mul, spec_checked_ltv_bps,
};
use crate::chainlink::{feed_from_bytes, spec_read_chainlink_price};
use vstd::utf8::encode_utf8;
use crate::state::{GpuCollateral, GpuStatus, VaultConfig};

verus! {

/// The amount a transfer plan moves, zero when there is no transfer.
pub open spec fn moved(t: Option<crate::instructions::TokenTransfer>) -> int {
    match t {
        Some(tr) => tr.amount as int,
        None => 0,
    }
}

/// A successful borrow rests on a fresh, non-zero valuation and keeps the
/// debt within the LTV ceiling: the new total is the old debt plus the amount
/// and at most `max_ltv_bps` of the valuation.
/// The protocol fee is `protocol_fee_bps` of the amount, and what the owner
/// and the treasury receive adds up to the amount borrowed.
pub proof fn law_borrow_within_ltv_ceiling(ctx: BorrowUsdai, amount: u64, now: i64)
    requires
        borrow_outcome(ctx, amount, now) is Ok,
    ensures
        ({
            let (new_total, fee) = borrow_outcome(ctx, amount, now)->Ok_0;
            &&& ctx.collateral.valuation_usd > 0
            &&& now - ctx.collateral.last_valuation_ts <= ctx.vault_config.min_oracle_staleness
            &&& new_total == ctx.collateral.borrowed_usdai + amount
            &&& new_total <= bps_of(ctx.collateral.valuation_usd as int, ctx.vault_config.max_ltv_bps as int)
            &&& fee == bps_of(amount as int, ctx.vault_config.protocol_fee_bps as int)
            &&& moved(vault_payout(ctx, ctx.owner_usdai_account.key, (amount - fee) as u64))
                + moved(vault_payout(ctx, ctx.treasury_usdai_account.key, fee)) == amount
        }),
{
}

/// Under a well-formed configuration (liquidation threshold above the borrow
/// ceiling), a position that has just borrowed cannot be liquidated at the
/// same valuation: a liquidation attempt fails, and on a fresh valuation it
/// fails because the position is not liquidatable.
pub proof fn law_fresh_borrow_is_not_liquidatable(
    b: BorrowUsdai,
    amount: u64,
    now: i64,
    l: Liquidate,
    later: i64,
)
    requires
        borrow_outcome(b, amount, now) is Ok,
        b.vault_config.wf(),
        l.vault_config == b.vault_config,
        l.collateral == borrowed_position(b.collateral, borrow_outcome(b, amount, now)->Ok_0.0),
        liquidate::account_error(l) is None,
    ensures
        liquidate_outcome(l, later) is Err,
        later - l.collateral.last_valuation_ts <= l.vault_config.min_oracle_staleness ==> liquidate_outcome(l, later)
            == Err::<u64, ProgramError>(ProgramError::Vault(VaultError::NotLiquidatable)),
{
    let new_total = borrow_outcome(b, amount, now)->Ok_0.0;
    let v = b.collateral.valuation_usd as int;
    let m = b.vault_config.max_ltv_bps as int;
    let t = b.vault_config.liquidation_ltv_bps as int;
    lemma_within_ceiling_scaled(new_total as int, v, m);
    assert(m * v <= t * v) by (nonlinear_arith)
        requires
            m <= t,
            v >= 0,
    ;
}

/// With valid accounts, an unpaused vault and a fresh, non-zero valuation, a
/// position is liquidated exactly when its debt exceeds the liquidation
/// threshold (`borrowed * 10_000 > liquidation_ltv_bps * valuation`, however
/// far underwater); the liquidator then covers the whole debt.
pub proof fn law_liquidation_threshold(l: Liquidate, now: i64)
    requires
        liquidate::account_error(l) is None,
        !l.vault_config.paused,
        now - l.collateral.last_valuation_ts <= l.vault_config.min_oracle_staleness,
        l.collateral.valuation_usd > 0,
    ensures
        liquidate_outcome(l, now) is Ok <==> l.collateral.borrowed_usdai * 10_000 > l.vault_config.liquidation_ltv_bps
            * l.collateral.valuation_usd,
        liquidate_outcome(l, now) is Ok ==> liquidate_outcome(l, now) == Ok::<u64, ProgramError>(
            l.collateral.borrowed_usdai,
        ),
{
}

/// A liquidation never rests on an outdated valuation: when the valuation is
/// older than `min_oracle_staleness` seconds, it fails.
pub proof fn law_liquidation_needs_fresh_valuation(l: Liquidate, now: i64)
    requires
        now - l.collateral.last_valuation_ts > l.vault_config.min_oracle_staleness,
    ensures
        liquidate_outcome(l, now) is Err,
        liquidate::account_error(l) is None && !l.vault_config.paused ==> liquidate_outcome(l, now)
            == Err::<u64, ProgramError>(ProgramError::Vault(VaultError::StaleOracle)),
{
}

/// Liquidation is open to anyone: who the liquidator is does not change the
/// outcome, as long as the USDai account paying the debt is the liquidator's own.
pub proof fn law_liquidation_is_permissionless(
    l: Liquidate,
    now: i64,
    who: Pubkey,
    usdai: crate::instructions::TokenAccount,
)
    requires
        l.liquidator_usdai.owner == l.liquidator,
        usdai.owner == who,
        usdai.mint == l.liquidator_usdai.mint,
    ensures
        liquidate_outcome(Liquidate { liquidator: who, liquidator_usdai: usdai, ..l }, now) == liquidate_outcome(l, now),
{
}

/// Repaying what was just borrowed brings the debt back to what it was; from
/// a well-formed active position (no debt) it restores the position exactly.
pub proof fn law_repay_undoes_borrow(b: BorrowUsdai, amount: u64, now: i64, r: RepayUsdai)
    requires
        borrow_outcome(b, amount, now) is Ok,
        r.vault_config == b.vault_config,
        r.collateral == borrowed_position(b.collateral, borrow_outcome(b, amount, now)->Ok_0.0),
        repay_usdai::account_error(r) is None,
    ensures
        repay_outcome(r, amount) == Ok::<u64, ProgramError>(b.collateral.borrowed_usdai),
        b.collateral.wf() ==> repaid_position(r.collateral, b.collateral.borrowed_usdai) == b.collateral,
{
}

/// Repaying the whole debt makes the position active again; repaying part of
/// it leaves the position borrowing.
pub proof fn law_full_repayment_reactivates(r: RepayUsdai, amount: u64)
    requires
        repay_outcome(r, amount) is Ok,
    ensures
        amount == r.collateral.borrowed_usdai ==> repaid_position(r.collateral, repay_outcome(r, amount)->Ok_0)
            == (GpuCollateral { borrowed_usdai: 0, status: GpuStatus::Active, ..r.collateral }),
        amount < r.collateral.borrowed_usdai ==> repaid_position(r.collateral, repay_outcome(r, amount)->Ok_0).status
            == GpuStatus::Borrowing,
{
}

/// A valuation just read from the oracle is fresh: borrowing at the time of the
/// update never fails for staleness, and it borrows against the price read.
pub proof fn law_fresh_valuation_is_not_stale(
    update: UpdateOracle,
    feed_data: Seq<u8>,
    now: i64,
    borrow: BorrowUsdai,
    amount: u64,
)
    requires
        update_outcome(update, feed_data) is Ok,
        borrow.collateral == revalued_position(update.collateral, update_outcome(update, feed_data)->Ok_0, now),
        borrow.vault_config.min_oracle_staleness >= 0,
    ensures
        borrow_outcome(borrow, amount, now) != Err::<(u64, u64), ProgramError>(ProgramError::Vault(VaultError::StaleOracle)),
        borrow.collateral.valuation_usd == update_outcome(update, feed_data)->Ok_0,
{
}

/// Repaying the whole debt lets the owner take the NFT back: with valid
/// accounts and an unpaused vault, the withdrawal then passes every check.
pub proof fn law_full_repayment_allows_withdrawal(r: RepayUsdai, w: WithdrawGpu)
    requires
        repay_outcome(r, r.collateral.borrowed_usdai) is Ok,
        w.collateral == repaid_position(r.collateral, 0),
        w.owner == r.owner,
        w.owner_nft_account.mint == w.collateral.gpu_nft_mint,
        w.owner_nft_account.owner == w.owner,
        !w.vault_config.paused,
    ensures
        withdraw_error(w) is None,
{
}

/// A paused vault refuses every user operation: registration, borrowing,
/// repayment, liquidation, withdrawal, staking and unstaking.
pub proof fn law_paused_vault_refuses_user_operations(
    register: RegisterGpu,
    params: RegisterGpuParams,
    borrow: BorrowUsdai,
    borrow_amount: u64,
    now: i64,
    repay: RepayUsdai,
    repay_amount: u64,
    liquidation: Liquidate,
    liquidation_now: i64,
    withdraw: WithdrawGpu,
    stake: StakeChip,
    stake_amount: u64,
    unstake: UnstakeChip,
    unstake_amount: u64,
)
    requires
        register.vault_config.paused,
        borrow.vault_config.paused,
        repay.vault_config.paused,
        liquidation.vault_config.paused,
        withdraw.vault_config.paused,
        stake.vault_config.paused,
        unstake.vault_config.paused,
    ensures
        register_error(register, params) is Some,
        borrow_outcome(borrow, borrow_amount, now) is Err,
        repay_outcome(repay, repay_amount) is Err,
        liquidate_outcome(liquidation, liquidation_now) is Err,
        withdraw_error(withdraw) is Some,
        stake_error(stake, stake_amount) is Some,
        unstake_error(unstake, unstake_amount) is Some,
{
}

/// Debt stands only against a borrowing position: every position a
/// registration opens is well formed, and every successful instruction on a
/// well-formed position leaves it well formed.
pub proof fn law_positions_stay_well_formed(
    register: RegisterGpu,
    params: RegisterGpuParams,
    borrow: BorrowUsdai,
    borrow_amount: u64,
    now: i64,
    repay: RepayUsdai,
    repay_amount: u64,
    liquidation: Liquidate,
    withdraw: WithdrawGpu,
    update: UpdateOracle,
    feed_data: Seq<u8>,
)
    ensures
        registered_collateral(register, params).wf(),
        borrow_outcome(borrow, borrow_amount, now) is Ok ==> borrowed_position(
            borrow.collateral,
            borrow_outcome(borrow, borrow_amount, now)->Ok_0.0,
        ).wf(),
        repay_outcome(repay, repay_amount) is Ok ==> repaid_position(
            repay.collateral,
            repay_outcome(repay, repay_amount)->Ok_0,
        ).wf(),
        liquidate_outcome(liquidation, now) is Ok ==> liquidated_position(liquidation.collateral).wf(),
        withdraw_error(withdraw) is None ==> withdrawn_position(withdraw.collateral).wf(),
        update.collateral.wf() && update_outcome(update, feed_data) is Ok ==> revalued_position(
            update.collateral,
            update_outcome(update, feed_data)->Ok_0,
            now,
        ).wf(),
{
}

/// A liquidated or withdrawn position is final: borrowing, repaying,
/// liquidating and withdrawing all fail on it, and an oracle update leaves its
/// status as it is.
pub proof fn law_terminal_positions_are_final(
    borrow: BorrowUsdai,
    borrow_amount: u64,
    now: i64,
    repay: RepayUsdai,
    repay_amount: u64,
    liquidation: Liquidate,
    withdraw: WithdrawGpu,
    update: UpdateOracle,
    price: u64,
)
    ensures
        borrow.collateral.status.is_terminal() ==> borrow_outcome(borrow, borrow_amount, now) is Err,
        repay.collateral.status.is_terminal() ==> repay_outcome(repay, repay_amount) is Err,
        liquidation.collateral.status.is_terminal() ==> liquidate_outcome(liquidation, now) is Err,
        withdraw.collateral.status.is_terminal() ==> withdraw_error(withdraw) is Some,
        revalued_position(update.collateral, price, now).status == update.collateral.status,
{
}

/// The GPU NFT leaves escrow only against a settled position: a withdrawal
/// needs an active position without debt, and a liquidation makes the
/// liquidator pay the whole debt first.
pub proof fn law_nft_leaves_escrow_only_when_settled(withdraw: WithdrawGpu, liquidation: Liquidate, now: i64)
    ensures
        withdraw_error(withdraw) is None ==> withdraw.collateral.borrowed_usdai == 0 && withdraw.collateral.status
            == GpuStatus::Active,
        liquidate_outcome(liquidation, now) is Ok ==> liquidate_outcome(liquidation, now)->Ok_0
            == liquidation.collateral.borrowed_usdai,
{
}

/// The administrative changes (authority, pause flag, treasury) leave the
/// LTV limits alone, so a well-formed configuration stays well formed.
pub proof fn law_admin_changes_keep_ltv_limits(cfg: VaultConfig, authority: Pubkey, paused: bool, treasury: Pubkey)
    requires
        cfg.wf(),
    ensures
        (VaultConfig { authority, ..cfg }).wf(),
        (VaultConfig { paused, ..cfg }).wf(),
        (VaultConfig { treasury, ..cfg }).wf(),
{
}

/// Borrowing is live: with the owner signing for an active position, its own
/// feed and the configured lending program, USDai accounts of the USDai mint
/// (the treasury's owned by the treasury), an unpaused vault, a non-zero
/// valuation no older than `min_oracle_staleness`, and limits of at most
/// 10_000 basis points, a borrow succeeds whenever the new debt is at most
/// `valuation * max_ltv_bps / 10_000`, however large the valuation. The new
/// debt is the old plus the amount, and the fee is
/// `amount * protocol_fee_bps / 10_000`.
pub proof fn law_borrow_succeeds_within_ceiling(ctx: BorrowUsdai, amount: u64, now: i64)
    requires
        ctx.collateral.owner == ctx.owner,
        ctx.collateral.oracle_feed == ctx.oracle_feed,
        ctx.collateral.status == GpuStatus::Active,
        ctx.usd_ai_lend == ctx.vault_config.usd_ai_lend_program,
        ctx.owner_usdai_account.mint == ctx.vault_config.usdai_mint,
        ctx.treasury_usdai_account.mint == ctx.vault_config.usdai_mint,
        ctx.treasury_usdai_account.owner == ctx.vault_config.treasury,
        !ctx.vault_config.paused,
        ctx.collateral.valuation_usd > 0,
        now - ctx.collateral.last_valuation_ts <= ctx.vault_config.min_oracle_staleness,
        ctx.vault_config.max_ltv_bps <= 10_000,
        ctx.vault_config.protocol_fee_bps <= 10_000,
        ctx.collateral.borrowed_usdai + amount <= (ctx.collateral.valuation_usd * ctx.vault_config.max_ltv_bps)
            / 10_000,
    ensures
        borrow_outcome(ctx, amount, now) == Ok::<(u64, u64), ProgramError>(
            (
                (ctx.collateral.borrowed_usdai + amount) as u64,
                ((amount * ctx.vault_config.protocol_fee_bps) / 10_000) as u64,
            ),
        ),
{
    lemma_bps_of_at_most_whole(ctx.collateral.valuation_usd as int, ctx.vault_config.max_ltv_bps as int);
    lemma_bps_of_at_most_whole(amount as int, ctx.vault_config.protocol_fee_bps as int);
}

/// Liquidation's account checks compare keys, status and mints only: with
/// the position's own feed and NFT mint, a borrowing position, a USDai
/// account of the USDai mint owned by the liquidator and the configured
/// lending program, they pass whatever the valuation and the debt. Then, in
/// an unpaused vault with a non-zero valuation no older than
/// `min_oracle_staleness`, a debt above `liquidation_ltv_bps` of the
/// valuation (`debt * 10_000 > liquidation_ltv_bps * valuation`) is
/// liquidated, the liquidator covering the whole debt.
pub proof fn law_liquidation_accounts_are_keys_only(ctx: Liquidate, now: i64)
    requires
        ctx.collateral.oracle_feed == ctx.oracle_feed,
        ctx.collateral.status == GpuStatus::Borrowing,
        ctx.nft_mint == ctx.collateral.gpu_nft_mint,
        ctx.liquidator_usdai.mint == ctx.vault_config.usdai_mint,
        ctx.liquidator_usdai.owner == ctx.liquidator,
        ctx.usd_ai_lend == ctx.vault_config.usd_ai_lend_program,
    ensures
        liquidate::account_error(ctx) is None,
        !ctx.vault_config.paused && ctx.collateral.valuation_usd > 0 && now - ctx.collateral.last_valuation_ts
            <= ctx.vault_config.min_oracle_staleness && ctx.collateral.borrowed_usdai * 10_000
            > ctx.vault_config.liquidation_ltv_bps * ctx.collateral.valuation_usd ==> liquidate_outcome(ctx, now)
            == Ok::<u64, ProgramError>(ctx.collateral.borrowed_usdai),
{
}

/// Repayment is live: the owner of a borrowing position, paying from a USDai
/// account through the configured lending program in an unpaused vault, can
/// repay any amount up to the debt, whatever the size of the debt; what
/// remains owed is the debt minus the amount. More than the debt is refused
/// as `RepayTooMuch`.
pub proof fn law_repay_succeeds_up_to_debt(ctx: RepayUsdai, amount: u64)
    requires
        ctx.collateral.owner == ctx.owner,
        ctx.collateral.status == GpuStatus::Borrowing,
        ctx.owner_usdai_account.mint == ctx.vault_config.usdai_mint,
        ctx.usd_ai_lend == ctx.vault_config.usd_ai_lend_program,
        !ctx.vault_config.paused,
    ensures
        repay_usdai::account_error(ctx) is None,
        amount <= ctx.collateral.borrowed_usdai ==> repay_outcome(ctx, amount) == Ok::<u64, ProgramError>(
            (ctx.collateral.borrowed_usdai - amount) as u64,
        ),
        amount > ctx.collateral.borrowed_usdai ==> repay_outcome(ctx, amount) == Err::<u64, ProgramError>(
            ProgramError::Vault(VaultError::RepayTooMuch),
        ),
{
}

/// A feed account is read by its first 49 bytes: when the data holds at
/// least a whole record and the record is stamped after 2020-01-01
/// (1_577_836_800), the price is that record's normalized price (its error
/// becomes a vault error); shorter data, or an older record, gives the
/// $1.00 fallback (1_000_000). Whatever follows the record does not matter.
pub proof fn law_feed_read_by_its_record(data: Seq<u8>, other: Seq<u8>)
    ensures
        data.len() >= 49 && feed_from_bytes(data.subrange(0, 49)).timestamp > 1_577_836_800 ==> spec_read_chainlink_price(
            data,
        ) == match feed_from_bytes(data.subrange(0, 49)).spec_price_usd_6() {
            Ok(p) => Ok::<u64, ProgramError>(p),
            Err(e) => Err::<u64, ProgramError>(ProgramError::Vault(e)),
        },
        data.len() < 49 || feed_from_bytes(data.subrange(0, 49)).timestamp <= 1_577_836_800
            ==> spec_read_chainlink_price(data) == Ok::<u64, ProgramError>(1_000_000),
        data.len() >= 49 && other.len() >= 49 && data.subrange(0, 49) == other.subrange(0, 49)
            ==> spec_read_chainlink_price(data) == spec_read_chainlink_price(other),
{
}

/// Registration's length limits are exactly: model at most 32, specs at most
/// 64 and metrics URL at most 128 UTF-8 bytes. In an unpaused vault a
/// registration passes its checks if and only if all three hold; otherwise
/// it is refused as `MetadataTooLong`, paused or not.
pub proof fn law_registration_length_limits(ctx: RegisterGpu, params: RegisterGpuParams)
    ensures
        !ctx.vault_config.paused ==> (register_error(ctx, params) is None <==> (encode_utf8(params.model@).len() <= 32
            && encode_utf8(params.specs@).len() <= 64 && encode_utf8(params.prometheus_url@).len() <= 128)),
        !(encode_utf8(params.model@).len() <= 32 && encode_utf8(params.specs@).len() <= 64 && encode_utf8(
            params.prometheus_url@,
        ).len() <= 128) ==> register_error(ctx, params) == Some(ProgramError::Vault(VaultError::MetadataTooLong)),
{
}

/// A borrow's account checks pass exactly when the owner signs for an active
/// position with its own feed, the lending program is the configured one,
/// and both USDai accounts hold the USDai mint, the treasury's owned by the
/// treasury.
pub proof fn law_borrow_account_checks(ctx: BorrowUsdai)
    ensures
        borrow_usdai::account_error(ctx) is None <==> {
            &&& ctx.collateral.owner == ctx.owner
            &&& ctx.collateral.oracle_feed == ctx.oracle_feed
            &&& ctx.collateral.status == GpuStatus::Active
            &&& ctx.usd_ai_lend == ctx.vault_config.usd_ai_lend_program
            &&& ctx.owner_usdai_account.mint == ctx.vault_config.usdai_mint
            &&& ctx.treasury_usdai_account.mint == ctx.vault_config.usdai_mint
            &&& ctx.treasury_usdai_account.owner == ctx.vault_config.treasury
        },
{
}

/// A borrow past the ceiling is refused: with passing accounts, an unpaused
/// vault, a fresh non-zero valuation and a ceiling of at most 10_000 basis
/// points, a new debt above `valuation * max_ltv_bps / 10_000` gives
/// `ExceedsLtv` (or `MathOverflow` when the sum itself overflows `u64`).
pub proof fn law_borrow_refused_past_ceiling(ctx: BorrowUsdai, amount: u64, now: i64)
    requires
        borrow_usdai::account_error(ctx) is None,
        !ctx.vault_config.paused,
        ctx.collateral.valuation_usd > 0,
        now - ctx.collateral.last_valuation_ts <= ctx.vault_config.min_oracle_staleness,
        ctx.vault_config.max_ltv_bps <= 10_000,
        ctx.collateral.borrowed_usdai + amount > (ctx.collateral.valuation_usd * ctx.vault_config.max_ltv_bps)
            / 10_000,
    ensures
        ctx.collateral.borrowed_usdai + amount <= u64::MAX ==> borrow_outcome(ctx, amount, now)
            == Err::<(u64, u64), ProgramError>(ProgramError::Vault(VaultError::ExceedsLtv)),
        ctx.collateral.borrowed_usdai + amount > u64::MAX ==> borrow_outcome(ctx, amount, now)
            == Err::<(u64, u64), ProgramError>(ProgramError::Vault(VaultError::MathOverflow)),
{
    lemma_bps_of_at_most_whole(ctx.collateral.valuation_usd as int, ctx.vault_config.max_ltv_bps as int);
}

/// A liquidation's account checks pass exactly when the feed and NFT mint
/// are the position's, the position is borrowing, the liquidator pays from
/// its own USDai account, and the lending program is the configured one.
pub proof fn law_liquidation_account_checks(ctx: Liquidate)
    ensures
        liquidate::account_error(ctx) is None <==> {
            &&& ctx.collateral.oracle_feed == ctx.oracle_feed
            &&& ctx.collateral.status == GpuStatus::Borrowing
            &&& ctx.nft_mint == ctx.collateral.gpu_nft_mint
            &&& ctx.liquidator_usdai.mint == ctx.vault_config.usdai_mint
            &&& ctx.liquidator_usdai.owner == ctx.liquidator
            &&& ctx.usd_ai_lend == ctx.vault_config.usd_ai_lend_program
        },
{
}

/// A repayment's account checks pass exactly when the owner signs for a
/// borrowing position, pays from a USDai account, and the lending program is
/// the configured one.
pub proof fn law_repay_account_checks(ctx: RepayUsdai)
    ensures
        repay_usdai::account_error(ctx) is None <==> {
            &&& ctx.collateral.owner == ctx.owner
            &&& ctx.collateral.status == GpuStatus::Borrowing
            &&& ctx.owner_usdai_account.mint == ctx.vault_config.usdai_mint
            &&& ctx.usd_ai_lend == ctx.vault_config.usd_ai_lend_program
        },
{
}

/// A withdrawal passes exactly when the owner takes back the NFT of an
/// active position without debt, into an NFT account of that mint that the
/// owner holds, in an unpaused vault.
pub proof fn law_withdrawal_checks(ctx: WithdrawGpu)
    ensures
        withdraw_error(ctx) is None <==> {
            &&& ctx.collateral.owner == ctx.owner
            &&& ctx.collateral.status == GpuStatus::Active
            &&& ctx.collateral.borrowed_usdai == 0
            &&& ctx.owner_nft_account.mint == ctx.collateral.gpu_nft_mint
            &&& ctx.owner_nft_account.owner == ctx.owner
            &&& !ctx.vault_config.paused
        },
{
}

/// An oracle update reads the position's own feed and refuses only a
/// liquidated position: with the matching feed and any other status, the new
/// valuation is exactly what the feed account's data gives.
pub proof fn law_oracle_update_reads_the_feed(ctx: UpdateOracle, feed_data: Seq<u8>)
    ensures
        update_oracle::account_error(ctx) is None <==> ctx.collateral.oracle_feed == ctx.oracle_feed
            && ctx.collateral.status != GpuStatus::Liquidated,
        update_oracle::account_error(ctx) is None ==> update_outcome(ctx, feed_data) == spec_read_chainlink_price(
            feed_data,
        ),
{
}

/// Staking and unstaking pass exactly when the CHIP and sCHIP accounts hold
/// the configured mints, the staking program is the configured one, the
/// vault is unpaused and the amount is not zero.
pub proof fn law_staking_checks(stake: StakeChip, stake_amount: u64, unstake: UnstakeChip, unstake_amount: u64)
    ensures
        stake_error(stake, stake_amount) is None <==> {
            &&& stake.owner_chip_account.mint == stake.vault_config.chip_mint
            &&& stake.owner_schip_account.mint == stake.vault_config.s_chip_mint
            &&& stake.usd_ai_stake == stake.vault_config.usd_ai_stake_program
            &&& !stake.vault_config.paused
            &&& stake_amount > 0
        },
        unstake_error(unstake, unstake_amount) is None <==> {
            &&& unstake.owner_chip_account.mint == unstake.vault_config.chip_mint
            &&& unstake.owner_schip_account.mint == unstake.vault_config.s_chip_mint
            &&& unstake.usd_ai_stake == unstake.vault_config.usd_ai_stake_program
            &&& !unstake.vault_config.paused
            &&& unstake_amount > 0
        },
{
}

/// Basis points of a value, with at most 10_000 basis points, are exactly
/// `value * bps / 10_000` rounded down; a loan-to-value ratio is exactly
/// `borrowed * 10_000 / valuation` rounded down whenever it fits in `u16`,
/// and a zero valuation is refused as `ZeroValuation`.
pub proof fn law_basis_point_arithmetic(value: u64, bps: u16, borrowed: u64, valuation: u64)
    ensures
        bps <= 10_000 ==> spec_checked_bps_mul(value, bps) == Ok::<u64, VaultError>(((value * bps) / 10_000) as u64),
        valuation == 0 ==> spec_checked_ltv_bps(borrowed, valuation) == Err::<u16, VaultError>(
            VaultError::ZeroValuation,
        ),
        valuation > 0 && (borrowed * 10_000) / (valuation as int) <= 0xffff ==> spec_checked_ltv_bps(borrowed, valuation)
            == Ok::<u16, VaultError>(((borrowed * 10_000) / (valuation as int)) as u16),
        valuation > 0 && (borrowed * 10_000) / (valuation as int) > 0xffff ==> spec_checked_ltv_bps(borrowed, valuation)
            == Err::<u16, VaultError>(VaultError::MathOverflow),
{
    if bps <= 10_000 {
        lemma_bps_of_at_most_whole(value as int, bps as int);
    }
}

} // verus!
