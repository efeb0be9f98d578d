# gpu_vault

Verified core of a GPU collateral vault on Solana: owners register GPUs as
NFT-backed collateral, borrow USDai against an oracle valuation up to a
loan-to-value ceiling (with a protocol fee to the treasury), repay, withdraw
the NFT once nothing is owed, and anyone may liquidate a position whose debt
exceeds the liquidation threshold of a fresh valuation. CHIP staking is routed to an external
staking program.

## Layout

- `src/` — the library, verified with Verus.
  - `math.rs` — basis-point arithmetic (`checked_bps_mul`, `checked_ltv_bps`).
  - `chainlink.rs` — decoding of price-feed accounts and 6-decimal normalization.
  - `state.rs`, `events.rs`, `errors.rs`, `keys.rs` — accounts, events, error codes, addresses.
  - `cpi.rs` — instructions for the external lending and staking programs,
    each led by the 8-byte tag by which those Anchor programs select it.
  - `metaplex.rs` — the token-metadata instruction that describes a GPU NFT.
  - `instructions/` — one module per instruction: every check, the new
    account state, and the plan of transfers and calls to carry out.
  - `laws.rs` — properties across instructions (LTV ceiling, liquidation
    threshold and staleness, pause, repayment undoing a borrow, position invariants).
  - `lifecycle.rs` — what holds over any sequence of instructions: the life
    of a collateral position and of the vault configuration.
  - `cli.rs` — cluster selection for the operator command line.
- `tests/` — scenario tests of the library.
- `app/` — the on-chain program glue (Anchor accounts, token transfers,
  program calls, events), the operator command line and the desktop dashboard.
