//! Instructions that the vault sends to the external USD.AI lending and
//! staking programs, built as plain values for the runtime to invoke.
use vstd::prelude::*;
use vstd::bytes::{spec_u64_to_le_bytes, u64_to_le_bytes};
use crate::keys::Pubkey;

verus! {

/// One account that an instruction touches.
#[derive(Clone, Copy, Debug)]
pub struct AccountMeta {
    pub pubkey: Pubkey,
    pub is_signer: bool,
    pub is_writable: bool,
}

impl AccountMeta {
    /// A writable account.
    pub fn new(pubkey: Pubkey, is_signer: bool) -> (m: AccountMeta)
        ensures
            m == (AccountMeta { pubkey, is_signer, is_writable: true }),
    {
        AccountMeta { pubkey, is_signer, is_writable: true }
    }

    /// A read-only account.
    pub fn new_readonly(pubkey: Pubkey, is_signer: bool) -> (m: AccountMeta)
        ensures
            m == (AccountMeta { pubkey, is_signer, is_writable: false }),
    {
        AccountMeta { pubkey, is_signer, is_writable: false }
    }
}

/// An instruction for another program: its id, the accounts in order, and the data bytes.
#[derive(Clone, Debug)]
pub struct Instruction {
    pub program_id: Pubkey,
    pub accounts: Vec<AccountMeta>,
    pub data: Vec<u8>,
}

/// Accounts of a borrow on the lending program.
#[derive(Clone, Copy, Debug)]
pub struct UsdAiLendBorrowAccounts {
    pub borrower: Pubkey,
    pub usdai_destination: Pubkey,
    pub collateral_vault: Pubkey,
    pub token_program: Pubkey,
}

/// Accounts of a repayment on the lending program.
#[derive(Clone, Copy, Debug)]
pub struct UsdAiLendRepayAccounts {
    pub borrower: Pubkey,
    pub usdai_source: Pubkey,
    pub collateral_vault: Pubkey,
    pub token_program: Pubkey,
}

/// Accounts of a stake on the staking program.
#[derive(Clone, Copy, Debug)]
pub struct UsdAiStakeAccounts {
    pub staker: Pubkey,
    pub chip_source: Pubkey,
    pub s_chip_destination: Pubkey,
    pub token_program: Pubkey,
}

/// Accounts of an unstake on the staking program.
#[derive(Clone, Copy, Debug)]
pub struct UnstakeAccounts {
    pub staker: Pubkey,
    pub s_chip_source: Pubkey,
    pub chip_destination: Pubkey,
    pub token_program: Pubkey,
}

/// The four accounts of every lending and staking call: a signing read-only
/// authority, two writable token accounts, and the read-only token program.
pub open spec fn four_metas(authority: Pubkey, first: Pubkey, second: Pubkey, token_program: Pubkey) -> Seq<AccountMeta> {
    seq![
        AccountMeta { pubkey: authority, is_signer: true, is_writable: false },
        AccountMeta { pubkey: first, is_signer: false, is_writable: true },
        AccountMeta { pubkey: second, is_signer: false, is_writable: true },
        AccountMeta { pubkey: token_program, is_signer: false, is_writable: false },
    ]
}

/// Anchor programs select an instruction by its first 8 data bytes: the
/// first 8 bytes of the SHA-256 digest of `global:<name>`. These are the
/// tags of the lending program's `borrow` and `repay` and of the staking
/// program's `stake` and `unstake`.
pub open spec fn borrow_tag() -> Seq<u8> {
    seq![228u8, 253u8, 131u8, 202u8, 207u8, 116u8, 89u8, 18u8]
}

/// The tag of the lending program's `repay`.
pub open spec fn repay_tag() -> Seq<u8> {
    seq![234u8, 103u8, 67u8, 82u8, 208u8, 234u8, 219u8, 166u8]
}

/// The tag of the staking program's `stake`.
pub open spec fn stake_tag() -> Seq<u8> {
    seq![206u8, 176u8, 202u8, 18u8, 200u8, 209u8, 179u8, 108u8]
}

/// The tag of the staking program's `unstake`.
pub open spec fn unstake_tag() -> Seq<u8> {
    seq![90u8, 95u8, 107u8, 42u8, 205u8, 124u8, 50u8, 225u8]
}

/// Data of a borrow: its tag, the amount (little-endian `u64`), then the
/// collateral address.
pub open spec fn borrow_data(amount: u64, collateral: Pubkey) -> Seq<u8> {
    borrow_tag() + spec_u64_to_le_bytes(amount) + collateral@
}

/// Data of a repayment: its tag, then the amount as a little-endian `u64`.
pub open spec fn repay_data(amount: u64) -> Seq<u8> {
    repay_tag() + spec_u64_to_le_bytes(amount)
}

/// Data of a stake: its tag, then the amount as a little-endian `u64`.
pub open spec fn stake_data(amount: u64) -> Seq<u8> {
    stake_tag() + spec_u64_to_le_bytes(amount)
}

/// Data of an unstake: its tag, then the amount as a little-endian `u64`.
pub open spec fn unstake_data(amount: u64) -> Seq<u8> {
    unstake_tag() + spec_u64_to_le_bytes(amount)
}

/// The 8-byte tag `tag` followed by `amount` as a little-endian `u64`.
fn tagged_amount(tag: [u8; 8], amount: u64) -> (v: Vec<u8>)
    ensures
        v@ == tag@ + spec_u64_to_le_bytes(amount),
{
    let mut v: Vec<u8> = Vec::new();
    let mut i: usize = 0;
    while i < 8
        invariant
            0 <= i <= 8,
            v@ == tag@.subrange(0, i as int),
        decreases 8 - i,
    {
        v.push(tag[i]);
        assert(tag@.subrange(0, (i + 1) as int) =~= tag@.subrange(0, i as int).push(tag@[i as int]));
        i = i + 1;
    }
    assert(tag@.subrange(0, 8) =~= tag@);
    let le = u64_to_le_bytes(amount);
    let ghost before = v@;
    let mut j: usize = 0;
    while j < 8
        invariant
            0 <= j <= 8,
            le@ == spec_u64_to_le_bytes(amount),
            le@.len() == 8,
            v@ == before + le@.subrange(0, j as int),
        decreases 8 - j,
    {
        v.push(le[j]);
        assert(le@.subrange(0, (j + 1) as int) =~= le@.subrange(0, j as int).push(le@[j as int]));
        j = j + 1;
    }
    assert(le@.subrange(0, 8) =~= le@);
    v
}

impl Instruction {
    /// `self` is the instruction for `program` over `metas` with data `data`.
    pub open spec fn is(&self, program: Pubkey, metas: Seq<AccountMeta>, data: Seq<u8>) -> bool {
        &&& self.program_id == program
        &&& self.accounts@ == metas
        &&& self.data@ == data
    }
}

fn metas_of(authority: Pubkey, first: Pubkey, second: Pubkey, token_program: Pubkey) -> (v: Vec<AccountMeta>)
    ensures
        v@ == four_metas(authority, first, second, token_program),
{
    let mut v: Vec<AccountMeta> = Vec::new();
    v.push(AccountMeta::new_readonly(authority, true));
    v.push(AccountMeta::new(first, false));
    v.push(AccountMeta::new(second, false));
    v.push(AccountMeta::new_readonly(token_program, false));
    assert(v@ =~= four_metas(authority, first, second, token_program));
    v
}

/// Appends the 32 bytes of `key` to `buf`.
fn push_key(buf: &mut Vec<u8>, key: &Pubkey)
    ensures
        final(buf)@ == old(buf)@ + key@,
{
    let ghost start = buf@;
    let mut i: usize = 0;
    while i < 32
        invariant
            0 <= i <= 32,
            buf@ == start + key.0@.subrange(0, i as int),
        decreases 32 - i,
    {
        buf.push(key.0[i]);
        assert(key.0@.subrange(0, (i + 1) as int) =~= key.0@.subrange(0, i as int).push(key.0@[i as int]));
        i = i + 1;
    }
    assert(key.0@.subrange(0, 32) =~= key.0@);
}

/// The borrow instruction of the lending program at `program`.
pub fn borrow_instruction(
    program: Pubkey,
    accounts: &UsdAiLendBorrowAccounts,
    amount: u64,
    collateral: Pubkey,
) -> (ix: Instruction)
    ensures
        ix.is(
            program,
            four_metas(accounts.borrower, accounts.usdai_destination, accounts.collateral_vault, accounts.token_program),
            borrow_data(amount, collateral),
        ),
{
    let tag: [u8; 8] = [228, 253, 131, 202, 207, 116, 89, 18];
    assert(tag@ =~= borrow_tag());
    let mut data = tagged_amount(tag, amount);
    push_key(&mut data, &collateral);
    let metas = metas_of(accounts.borrower, accounts.usdai_destination, accounts.collateral_vault, accounts.token_program);
    Instruction { program_id: program, accounts: metas, data }
}

/// The repay instruction of the lending program at `program`.
pub fn repay_instruction(program: Pubkey, accounts: &UsdAiLendRepayAccounts, amount: u64) -> (ix: Instruction)
    ensures
        ix.is(
            program,
            four_metas(accounts.borrower, accounts.usdai_source, accounts.collateral_vault, accounts.token_program),
            repay_data(amount),
        ),
{
    let tag: [u8; 8] = [234, 103, 67, 82, 208, 234, 219, 166];
    assert(tag@ =~= repay_tag());
    let data = tagged_amount(tag, amount);
    let metas = metas_of(accounts.borrower, accounts.usdai_source, accounts.collateral_vault, accounts.token_program);
    Instruction { program_id: program, accounts: metas, data }
}

/// The stake instruction of the staking program at `program`.
pub fn stake_instruction(program: Pubkey, accounts: &UsdAiStakeAccounts, amount: u64) -> (ix: Instruction)
    ensures
        ix.is(
            program,
            four_metas(accounts.staker, accounts.chip_source, accounts.s_chip_destination, accounts.token_program),
            stake_data(amount),
        ),
{
    let tag: [u8; 8] = [206, 176, 202, 18, 200, 209, 179, 108];
    assert(tag@ =~= stake_tag());
    let data = tagged_amount(tag, amount);
    let metas = metas_of(accounts.staker, accounts.chip_source, accounts.s_chip_destination, accounts.token_program);
    Instruction { program_id: program, accounts: metas, data }
}

/// The unstake instruction of the staking program at `program`.
pub fn unstake_instruction(program: Pubkey, accounts: &UnstakeAccounts, amount: u64) -> (ix: Instruction)
    ensures
        ix.is(
            program,
            four_metas(accounts.staker, accounts.s_chip_source, accounts.chip_destination, accounts.token_program),
            unstake_data(amount),
        ),
{
    let tag: [u8; 8] = [90, 95, 107, 42, 205, 124, 50, 225];
    assert(tag@ =~= unstake_tag());
    let data = tagged_amount(tag, amount);
    let metas = metas_of(accounts.staker, accounts.s_chip_source, accounts.chip_destination, accounts.token_program);
    Instruction { program_id: program, accounts: metas, data }
}

} // verus!
