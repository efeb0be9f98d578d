//! What holds over any sequence of instructions: the life of a collateral
//! position from its registration, and of the vault configuration from its
//! initialization.
use vstd::prelude::*;
use crate::instructions::borrow_usdai::{borrow_outcome, borrowed_position, BorrowUsdai};
use crate::instructions::initialize_vault::initial_config;
use crate::instructions::initialize_vault::InitializeVault;
use crate::instructions::liquidate::{liquidate_outcome, liquidated_position, Liquidate};
use crate::instructions::register_gpu::{registered_collateral, RegisterGpu, RegisterGpuParams};
use crate::instructions::repay_usdai::{repaid_position, repay_outcome, RepayUsdai};
use crate::instructions::set_authority::SetAuthority;
use crate::instructions::set_pause::SetPause;
use crate::instructions::update_oracle::{revalued_position, update_outcome, UpdateOracle};
use crate::instructions::update_treasury::UpdateTreasury;
use crate::instructions::withdraw_gpu::{withdraw_error, withdrawn_position, WithdrawGpu};
use crate::state::{GpuCollateral, GpuStatus, VaultConfig};

verus! {

/// An instruction on a collateral position, with its other inputs; the
/// position it acts on is the current one, whatever its context held.
pub enum CollateralEvent {
    Borrow { ctx: BorrowUsdai, amount: u64, now: i64 },
    Repay { ctx: RepayUsdai, amount: u64 },
    Liquidation { ctx: Liquidate, now: i64 },
    Withdrawal { ctx: WithdrawGpu },
    Revaluation { ctx: UpdateOracle, feed_data: Seq<u8>, now: i64 },
}

/// The position after the instruction `e` ran on `c`: what the handler's
/// contract writes on success, and `c` itself when the handler fails.
#[verifier::opaque]
pub open spec fn after_event(c: GpuCollateral, e: CollateralEvent) -> GpuCollateral {
    match e {
        CollateralEvent::Borrow { ctx, amount, now } => match borrow_outcome(BorrowUsdai { collateral: c, ..ctx }, amount, now) {
            Ok((total, _fee)) => borrowed_position(c, total),
            Err(_) => c,
        },
        CollateralEvent::Repay { ctx, amount } => match repay_outcome(RepayUsdai { collateral: c, ..ctx }, amount) {
            Ok(remaining) => repaid_position(c, remaining),
            Err(_) => c,
        },
        CollateralEvent::Liquidation { ctx, now } => if liquidate_outcome(Liquidate { collateral: c, ..ctx }, now) is Ok {
            liquidated_position(c)
        } else {
            c
        },
        CollateralEvent::Withdrawal { ctx } => if withdraw_error(WithdrawGpu { collateral: c, ..ctx }) is None {
            withdrawn_position(c)
        } else {
            c
        },
        CollateralEvent::Revaluation { ctx, feed_data, now } => match update_outcome(
            UpdateOracle { collateral: c, ..ctx },
            feed_data,
        ) {
            Ok(price) => revalued_position(c, price, now),
            Err(_) => c,
        },
    }
}

/// The position after the instructions `events`, in order, ran on `c`.
#[verifier::opaque]
pub open spec fn after_events(c: GpuCollateral, events: Seq<CollateralEvent>) -> GpuCollateral
    decreases events.len(),
{
    if events.len() == 0 {
        c
    } else {
        after_event(after_events(c, events.drop_last()), events.last())
    }
}

/// `b` is the same pledge as `a`: owner, NFT, price feed, model and bump seed agree.
pub open spec fn same_pledge(a: GpuCollateral, b: GpuCollateral) -> bool {
    &&& b.owner == a.owner
    &&& b.gpu_nft_mint == a.gpu_nft_mint
    &&& b.oracle_feed == a.oracle_feed
    &&& b.model == a.model
    &&& b.bump == a.bump
}

/// The status moves only along the lifecycle: it stays, or goes
/// Active → Borrowing (borrow), Borrowing → Active (full repayment),
/// Borrowing → Liquidated (liquidation) or Active → Withdrawn (withdrawal).
pub open spec fn lifecycle_move(from: GpuStatus, to: GpuStatus) -> bool {
    ||| to == from
    ||| from == GpuStatus::Active && to == GpuStatus::Borrowing
    ||| from == GpuStatus::Borrowing && to == GpuStatus::Active
    ||| from == GpuStatus::Borrowing && to == GpuStatus::Liquidated
    ||| from == GpuStatus::Active && to == GpuStatus::Withdrawn
}

/// Every instruction on a well-formed position leaves it well formed, the same
/// pledge, and moves its status only along the lifecycle. A liquidated
/// position is left exactly as it is; a withdrawn one keeps its status and
/// its (zero) debt.
pub proof fn law_each_instruction_follows_lifecycle(c: GpuCollateral, e: CollateralEvent)
    requires
        c.wf(),
    ensures
        after_event(c, e).wf(),
        same_pledge(c, after_event(c, e)),
        lifecycle_move(c.status, after_event(c, e).status),
        c.status == GpuStatus::Liquidated ==> after_event(c, e) == c,
        c.status == GpuStatus::Withdrawn ==> after_event(c, e).status == c.status && after_event(c, e).borrowed_usdai
            == c.borrowed_usdai,
{
    reveal(after_event);
}

/// The effect of one more instruction at the end of a sequence.
proof fn lemma_after_events_step(c: GpuCollateral, events: Seq<CollateralEvent>, i: int)
    requires
        0 <= i < events.len(),
    ensures
        after_events(c, events.take(i + 1)) == after_event(after_events(c, events.take(i)), events[i]),
{
    reveal(after_events);
    assert(events.take(i + 1).drop_last() =~= events.take(i));
    assert(events.take(i + 1).last() == events[i]);
}

/// A well-formed position stays well formed and the same pledge over any sequence.
proof fn lemma_sequence_keeps_pledge(c: GpuCollateral, events: Seq<CollateralEvent>)
    requires
        c.wf(),
    ensures
        after_events(c, events).wf(),
        same_pledge(c, after_events(c, events)),
    decreases events.len(),
{
    reveal(after_events);
    if events.len() > 0 {
        lemma_sequence_keeps_pledge(c, events.drop_last());
        law_each_instruction_follows_lifecycle(after_events(c, events.drop_last()), events.last());
    }
}

/// Step `i` of a sequence from a well-formed position moves the status along the lifecycle.
proof fn lemma_step_follows_lifecycle(c: GpuCollateral, events: Seq<CollateralEvent>, i: int)
    requires
        c.wf(),
        0 <= i < events.len(),
    ensures
        lifecycle_move(after_events(c, events.take(i)).status, after_events(c, events.take(i + 1)).status),
{
    lemma_after_events_step(c, events, i);
    lemma_sequence_keeps_pledge(c, events.take(i));
    law_each_instruction_follows_lifecycle(after_events(c, events.take(i)), events[i]);
}

/// Once terminal at step `i`, the status and the debt stay what they were up to step `j`.
proof fn lemma_terminal_stays(c: GpuCollateral, events: Seq<CollateralEvent>, i: int, j: int)
    requires
        c.wf(),
        0 <= i <= j <= events.len(),
        after_events(c, events.take(i)).status.is_terminal(),
    ensures
        after_events(c, events.take(j)).status == after_events(c, events.take(i)).status,
        after_events(c, events.take(j)).borrowed_usdai == after_events(c, events.take(i)).borrowed_usdai,
        after_events(c, events.take(j)).borrowed_usdai == 0,
    decreases j - i,
{
    lemma_sequence_keeps_pledge(c, events.take(i));
    if j > i {
        lemma_terminal_stays(c, events, i, j - 1);
        lemma_after_events_step(c, events, j - 1);
        lemma_sequence_keeps_pledge(c, events.take(j - 1));
        law_each_instruction_follows_lifecycle(after_events(c, events.take(j - 1)), events[j - 1]);
    }
}

/// A terminal status, once reached, stays with zero debt.
proof fn lemma_terminal_is_final(c: GpuCollateral, events: Seq<CollateralEvent>)
    requires
        c.wf(),
    ensures
        forall|i: int, j: int|
            #![trigger after_events(c, events.take(i)), after_events(c, events.take(j))]
            0 <= i <= j <= events.len() && after_events(c, events.take(i)).status.is_terminal() ==> {
                &&& after_events(c, events.take(j)).status == after_events(c, events.take(i)).status
                &&& after_events(c, events.take(j)).borrowed_usdai == 0
            },
{
    assert forall|i: int, j: int|
        #![trigger after_events(c, events.take(i)), after_events(c, events.take(j))]
        0 <= i <= j <= events.len() && after_events(c, events.take(i)).status.is_terminal() implies {
            &&& after_events(c, events.take(j)).status == after_events(c, events.take(i)).status
            &&& after_events(c, events.take(j)).borrowed_usdai == 0
        } by {
        lemma_terminal_stays(c, events, i, j);
    }
}

/// The life of a registered GPU: `start` is the position that a registration
/// opens. After any sequence of borrows, repayments, liquidations, withdrawals
/// and oracle updates, at every step the position is well formed (debt only
/// while borrowing) and is the pledge that registration opened (owner, NFT,
/// feed, model and bump never change); each step moves the status only along
/// the lifecycle; and once liquidated or withdrawn, the status stays so with
/// no debt.
pub proof fn law_collateral_lifecycle(
    register: RegisterGpu,
    params: RegisterGpuParams,
    start: GpuCollateral,
    events: Seq<CollateralEvent>,
)
    requires
        start == registered_collateral(register, params),
    ensures
        forall|i: int|
            0 <= i <= events.len() ==> (#[trigger] after_events(start, events.take(i))).wf() && same_pledge(
                start,
                after_events(start, events.take(i)),
            ),
        forall|i: int, j: int|
            #![trigger after_events(start, events.take(i)), after_events(start, events.take(j))]
            0 <= i < events.len() && j == i + 1 ==> lifecycle_move(
                after_events(start, events.take(i)).status,
                after_events(start, events.take(j)).status,
            ),
        forall|i: int, j: int|
            #![trigger after_events(start, events.take(i)), after_events(start, events.take(j))]
            0 <= i <= j <= events.len() && after_events(start, events.take(i)).status.is_terminal() ==> {
                &&& after_events(start, events.take(j)).status == after_events(start, events.take(i)).status
                &&& after_events(start, events.take(j)).borrowed_usdai == 0
            },
{
    assert forall|i: int| 0 <= i <= events.len() implies (#[trigger] after_events(start, events.take(i))).wf()
        && same_pledge(start, after_events(start, events.take(i))) by {
        lemma_sequence_keeps_pledge(start, events.take(i));
    }
    assert forall|i: int, j: int|
        #![trigger after_events(start, events.take(i)), after_events(start, events.take(j))]
        0 <= i < events.len() && j == i + 1 implies lifecycle_move(
            after_events(start, events.take(i)).status,
            after_events(start, events.take(j)).status,
        ) by {
        lemma_step_follows_lifecycle(start, events, i);
    }
    lemma_terminal_is_final(start, events);
}

/// An administrative change of the vault configuration; the configuration it
/// acts on is the current one, whatever its context held.
pub enum AdminChange {
    Authority { ctx: SetAuthority },
    Pause { ctx: SetPause, paused: bool },
    Treasury { ctx: UpdateTreasury },
}

/// The configuration after the change `ch` was asked of `cfg`: what the
/// handler's contract writes when the signer is the authority, `cfg` itself
/// otherwise.
pub open spec fn after_admin_change(cfg: VaultConfig, ch: AdminChange) -> VaultConfig {
    match ch {
        AdminChange::Authority { ctx } => if cfg.authority == ctx.authority {
            VaultConfig { authority: ctx.new_authority, ..cfg }
        } else {
            cfg
        },
        AdminChange::Pause { ctx, paused } => if cfg.authority == ctx.authority {
            VaultConfig { paused, ..cfg }
        } else {
            cfg
        },
        AdminChange::Treasury { ctx } => if cfg.authority == ctx.authority {
            VaultConfig { treasury: ctx.new_treasury, ..cfg }
        } else {
            cfg
        },
    }
}

/// The configuration after the changes `changes`, in order.
pub open spec fn after_admin_changes(cfg: VaultConfig, changes: Seq<AdminChange>) -> VaultConfig
    decreases changes.len(),
{
    if changes.len() == 0 {
        cfg
    } else {
        after_admin_change(after_admin_changes(cfg, changes.drop_last()), changes.last())
    }
}

/// `b` keeps what `a` fixed at initialization: the LTV limits, the fee, the
/// staleness bound, the three mints, both program ids and the bump seed.
pub open spec fn same_terms(a: VaultConfig, b: VaultConfig) -> bool {
    &&& b.max_ltv_bps == a.max_ltv_bps
    &&& b.liquidation_ltv_bps == a.liquidation_ltv_bps
    &&& b.protocol_fee_bps == a.protocol_fee_bps
    &&& b.min_oracle_staleness == a.min_oracle_staleness
    &&& b.usdai_mint == a.usdai_mint
    &&& b.chip_mint == a.chip_mint
    &&& b.s_chip_mint == a.s_chip_mint
    &&& b.usd_ai_lend_program == a.usd_ai_lend_program
    &&& b.usd_ai_stake_program == a.usd_ai_stake_program
    &&& b.bump == a.bump
}

proof fn lemma_admin_changes_keep_terms(cfg: VaultConfig, changes: Seq<AdminChange>)
    ensures
        same_terms(cfg, after_admin_changes(cfg, changes)),
    decreases changes.len(),
{
    if changes.len() > 0 {
        lemma_admin_changes_keep_terms(cfg, changes.drop_last());
    }
}

/// The life of the vault configuration: once initialization succeeded, after
/// any sequence of authority, pause and treasury changes the borrow ceiling
/// stays at most 80% with the liquidation threshold above it, and the LTV
/// limits, fee, staleness bound, mints, program ids and bump seed are those
/// that initialization wrote. (Every other instruction takes the
/// configuration read-only: its contract leaves it as it was.)
pub proof fn law_config_lifecycle(
    init: InitializeVault,
    max_ltv_bps: u16,
    liquidation_ltv_bps: u16,
    changes: Seq<AdminChange>,
)
    requires
        max_ltv_bps <= 8_000,
        liquidation_ltv_bps > max_ltv_bps,
    ensures
        forall|i: int|
            0 <= i <= changes.len() ==> {
                let cfg = #[trigger] after_admin_changes(
                    initial_config(init, max_ltv_bps, liquidation_ltv_bps),
                    changes.take(i),
                );
                &&& cfg.wf()
                &&& same_terms(initial_config(init, max_ltv_bps, liquidation_ltv_bps), cfg)
            },
{
    let first = initial_config(init, max_ltv_bps, liquidation_ltv_bps);
    assert forall|i: int| 0 <= i <= changes.len() implies {
        let cfg = #[trigger] after_admin_changes(first, changes.take(i));
        &&& cfg.wf()
        &&& same_terms(first, cfg)
    } by {
        lemma_admin_changes_keep_terms(first, changes.take(i));
    }
}

} // verus!
