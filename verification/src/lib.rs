//! Verified core of the GPU collateral vault: basis-point arithmetic,
//! oracle feed decoding, the collateral state machine and the
//! instruction plans that the on-chain glue executes.
pub mod chainlink;
pub mod cli;
pub mod cpi;
pub mod errors;
pub mod events;
pub mod instructions;
pub mod keys;
pub mod laws;
pub mod lifecycle;
pub mod math;
pub mod metaplex;
pub mod state;
