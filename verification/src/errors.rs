//! Errors that the vault's instructions return.
use vstd::prelude::*;

verus! {

/// The vault program's own error codes, numbered from 6000 in declaration order.
#[derive(Clone, Copy, Debug, PartialEq, Eq, Structural)]
pub enum VaultError {
    LtvTooHigh,
    InvalidLiquidationThreshold,
    InvalidUtilization,
    Unauthorized,
    MathOverflow,
    ExceedsLtv,
    AlreadyLiquidated,
    NotActive,
    NotBorrowing,
    InsufficientStake,
    StaleOracle,
    ZeroValuation,
    NotLiquidatable,
    WrongOracleFeed,
    WrongMint,
    InvalidTreasury,
    MetadataTooLong,
    RepayTooMuch,
    ZeroAmount,
    OutstandingDebt,
    NothingToWithdraw,
    Paused,
}

/// First error number of custom program errors.
pub const ERROR_CODE_OFFSET: u32 = 6000;

impl VaultError {
    /// Position of the variant in the declaration.
    pub open spec fn index(self) -> u32 {
        match self {
            VaultError::LtvTooHigh => 0,
            VaultError::InvalidLiquidationThreshold => 1,
            VaultError::InvalidUtilization => 2,
            VaultError::Unauthorized => 3,
            VaultError::MathOverflow => 4,
            VaultError::ExceedsLtv => 5,
            VaultError::AlreadyLiquidated => 6,
            VaultError::NotActive => 7,
            VaultError::NotBorrowing => 8,
            VaultError::InsufficientStake => 9,
            VaultError::StaleOracle => 10,
            VaultError::ZeroValuation => 11,
            VaultError::NotLiquidatable => 12,
            VaultError::WrongOracleFeed => 13,
            VaultError::WrongMint => 14,
            VaultError::InvalidTreasury => 15,
            VaultError::MetadataTooLong => 16,
            VaultError::RepayTooMuch => 17,
            VaultError::ZeroAmount => 18,
            VaultError::OutstandingDebt => 19,
            VaultError::NothingToWithdraw => 20,
            VaultError::Paused => 21,
        }
    }

    /// The variant's name.
    pub open spec fn spec_name(self) -> Seq<char> {
        match self {
            VaultError::LtvTooHigh => "LtvTooHigh"@,
            VaultError::InvalidLiquidationThreshold => "InvalidLiquidationThreshold"@,
            VaultError::InvalidUtilization => "InvalidUtilization"@,
            VaultError::Unauthorized => "Unauthorized"@,
            VaultError::MathOverflow => "MathOverflow"@,
            VaultError::ExceedsLtv => "ExceedsLtv"@,
            VaultError::AlreadyLiquidated => "AlreadyLiquidated"@,
            VaultError::NotActive => "NotActive"@,
            VaultError::NotBorrowing => "NotBorrowing"@,
            VaultError::InsufficientStake => "InsufficientStake"@,
            VaultError::StaleOracle => "StaleOracle"@,
            VaultError::ZeroValuation => "ZeroValuation"@,
            VaultError::NotLiquidatable => "NotLiquidatable"@,
            VaultError::WrongOracleFeed => "WrongOracleFeed"@,
            VaultError::WrongMint => "WrongMint"@,
            VaultError::InvalidTreasury => "InvalidTreasury"@,
            VaultError::MetadataTooLong => "MetadataTooLong"@,
            VaultError::RepayTooMuch => "RepayTooMuch"@,
            VaultError::ZeroAmount => "ZeroAmount"@,
            VaultError::OutstandingDebt => "OutstandingDebt"@,
            VaultError::NothingToWithdraw => "NothingToWithdraw"@,
            VaultError::Paused => "Paused"@,
        }
    }

    /// The variant's human-readable message.
    pub open spec fn spec_msg(self) -> Seq<char> {
        match self {
            VaultError::LtvTooHigh => "LTV exceeds maximum 8000 bps (80%)"@,
            VaultError::InvalidLiquidationThreshold => "Liquidation threshold must exceed max LTV"@,
            VaultError::InvalidUtilization => "Utilization must be 0-10000 basis points"@,
            VaultError::Unauthorized => "Unauthorized access"@,
            VaultError::MathOverflow => "Math overflow"@,
            VaultError::ExceedsLtv => "Exceeds allowed LTV"@,
            VaultError::AlreadyLiquidated => "Collateral already liquidated"@,
            VaultError::NotActive => "Collateral is not active"@,
            VaultError::NotBorrowing => "Collateral is not borrowing"@,
            VaultError::InsufficientStake => "Insufficient sCHIP balance"@,
            VaultError::StaleOracle => "Oracle price stale"@,
            VaultError::ZeroValuation => "Zero valuation"@,
            VaultError::NotLiquidatable => "Position is not liquidatable"@,
            VaultError::WrongOracleFeed => "Wrong oracle feed for collateral"@,
            VaultError::WrongMint => "Wrong token mint"@,
            VaultError::InvalidTreasury => "Invalid treasury account"@,
            VaultError::MetadataTooLong => "Metadata strings too long"@,
            VaultError::RepayTooMuch => "Repay amount exceeds debt"@,
            VaultError::ZeroAmount => "Amount must be greater than zero"@,
            VaultError::OutstandingDebt => "Collateral has outstanding debt"@,
            VaultError::NothingToWithdraw => "Nothing to withdraw"@,
            VaultError::Paused => "Program is paused"@,
        }
    }

    /// The error number reported on chain: 6000 plus the variant's position.
    pub fn code(&self) -> (c: u32)
        ensures
            c == ERROR_CODE_OFFSET + self.index(),
    {
        let i: u32 = match self {
            VaultError::LtvTooHigh => 0,
            VaultError::InvalidLiquidationThreshold => 1,
            VaultError::InvalidUtilization => 2,
            VaultError::Unauthorized => 3,
            VaultError::MathOverflow => 4,
            VaultError::ExceedsLtv => 5,
            VaultError::AlreadyLiquidated => 6,
            VaultError::NotActive => 7,
            VaultError::NotBorrowing => 8,
            VaultError::InsufficientStake => 9,
            VaultError::StaleOracle => 10,
            VaultError::ZeroValuation => 11,
            VaultError::NotLiquidatable => 12,
            VaultError::WrongOracleFeed => 13,
            VaultError::WrongMint => 14,
            VaultError::InvalidTreasury => 15,
            VaultError::MetadataTooLong => 16,
            VaultError::RepayTooMuch => 17,
            VaultError::ZeroAmount => 18,
            VaultError::OutstandingDebt => 19,
            VaultError::NothingToWithdraw => 20,
            VaultError::Paused => 21,
        };
        ERROR_CODE_OFFSET + i
    }

    /// The variant's name, as reported in program logs.
    pub fn name(&self) -> (s: &'static str)
        ensures
            s@ == self.spec_name(),
    {
        match self {
            VaultError::LtvTooHigh => "LtvTooHigh",
            VaultError::InvalidLiquidationThreshold => "InvalidLiquidationThreshold",
            VaultError::InvalidUtilization => "InvalidUtilization",
            VaultError::Unauthorized => "Unauthorized",
            VaultError::MathOverflow => "MathOverflow",
            VaultError::ExceedsLtv => "ExceedsLtv",
            VaultError::AlreadyLiquidated => "AlreadyLiquidated",
            VaultError::NotActive => "NotActive",
            VaultError::NotBorrowing => "NotBorrowing",
            VaultError::InsufficientStake => "InsufficientStake",
            VaultError::StaleOracle => "StaleOracle",
            VaultError::ZeroValuation => "ZeroValuation",
            VaultError::NotLiquidatable => "NotLiquidatable",
            VaultError::WrongOracleFeed => "WrongOracleFeed",
            VaultError::WrongMint => "WrongMint",
            VaultError::InvalidTreasury => "InvalidTreasury",
            VaultError::MetadataTooLong => "MetadataTooLong",
            VaultError::RepayTooMuch => "RepayTooMuch",
            VaultError::ZeroAmount => "ZeroAmount",
            VaultError::OutstandingDebt => "OutstandingDebt",
            VaultError::NothingToWithdraw => "NothingToWithdraw",
            VaultError::Paused => "Paused",
        }
    }

    /// The variant's human-readable message.
    pub fn msg(&self) -> (s: &'static str)
        ensures
            s@ == self.spec_msg(),
    {
        match self {
            VaultError::LtvTooHigh => "LTV exceeds maximum 8000 bps (80%)",
            VaultError::InvalidLiquidationThreshold => "Liquidation threshold must exceed max LTV",
            VaultError::InvalidUtilization => "Utilization must be 0-10000 basis points",
            VaultError::Unauthorized => "Unauthorized access",
            VaultError::MathOverflow => "Math overflow",
            VaultError::ExceedsLtv => "Exceeds allowed LTV",
            VaultError::AlreadyLiquidated => "Collateral already liquidated",
            VaultError::NotActive => "Collateral is not active",
            VaultError::NotBorrowing => "Collateral is not borrowing",
            VaultError::InsufficientStake => "Insufficient sCHIP balance",
            VaultError::StaleOracle => "Oracle price stale",
            VaultError::ZeroValuation => "Zero valuation",
            VaultError::NotLiquidatable => "Position is not liquidatable",
            VaultError::WrongOracleFeed => "Wrong oracle feed for collateral",
            VaultError::WrongMint => "Wrong token mint",
            VaultError::InvalidTreasury => "Invalid treasury account",
            VaultError::MetadataTooLong => "Metadata strings too long",
            VaultError::RepayTooMuch => "Repay amount exceeds debt",
            VaultError::ZeroAmount => "Amount must be greater than zero",
            VaultError::OutstandingDebt => "Collateral has outstanding debt",
            VaultError::NothingToWithdraw => "Nothing to withdraw",
            VaultError::Paused => "Program is paused",
        }
    }
}

/// Why an instruction failed: one of the vault's own errors, or one of the
/// framework's account checks that the vault's logic performs.
#[derive(Clone, Copy, Debug, PartialEq, Eq, Structural)]
pub enum ProgramError {
    /// A custom vault error.
    Vault(VaultError),
    /// A `constraint = ...` on an account, written without a custom error, was violated (code 2003).
    ConstraintRaw,
    /// Account data was too short to hold the expected layout (code 3004).
    AccountDidNotSerialize,
}

/// Framework error number of a violated raw account constraint.
pub const CONSTRAINT_RAW_CODE: u32 = 2003;

/// Framework error number of account data that does not hold the expected layout.
pub const ACCOUNT_DID_NOT_SERIALIZE_CODE: u32 = 3004;

impl ProgramError {
    /// The error number reported on chain.
    pub open spec fn spec_code(self) -> u32 {
        match self {
            ProgramError::Vault(e) => (ERROR_CODE_OFFSET + e.index()) as u32,
            ProgramError::ConstraintRaw => CONSTRAINT_RAW_CODE,
            ProgramError::AccountDidNotSerialize => ACCOUNT_DID_NOT_SERIALIZE_CODE,
        }
    }

    /// The error's name, as reported in program logs.
    pub open spec fn spec_name(self) -> Seq<char> {
        match self {
            ProgramError::Vault(e) => e.spec_name(),
            ProgramError::ConstraintRaw => "ConstraintRaw"@,
            ProgramError::AccountDidNotSerialize => "AccountDidNotSerialize"@,
        }
    }

    /// The error number reported on chain.
    pub fn code(&self) -> (c: u32)
        ensures
            c == self.spec_code(),
    {
        match self {
            ProgramError::Vault(e) => e.code(),
            ProgramError::ConstraintRaw => CONSTRAINT_RAW_CODE,
            ProgramError::AccountDidNotSerialize => ACCOUNT_DID_NOT_SERIALIZE_CODE,
        }
    }

    /// The error's name, as reported in program logs.
    pub fn name(&self) -> (s: &'static str)
        ensures
            s@ == self.spec_name(),
    {
        match self {
            ProgramError::Vault(e) => e.name(),
            ProgramError::ConstraintRaw => "ConstraintRaw",
            ProgramError::AccountDidNotSerialize => "AccountDidNotSerialize",
        }
    }
}

} // verus!
