//! The token-metadata program's `CreateMetadataAccountV3` instruction, which
//! names and describes the GPU NFT.
use vstd::prelude::*;
use vstd::bytes::{spec_u16_to_le_bytes, spec_u32_to_le_bytes};
use vstd::utf8::encode_utf8;
use mpl_token_metadata::instructions::{CreateMetadataAccountV3, CreateMetadataAccountV3InstructionArgs};
use mpl_token_metadata::types::DataV2;
use crate::cpi::{AccountMeta, Instruction};
use crate::keys::Pubkey;

verus! {

/// The bytes of the token-metadata program's id,
/// `metaqbxxUerdq28cj1RbAWkYQm3ybzjb6a8bt518x1s`.
pub open spec fn token_metadata_program_id() -> Seq<u8> {
    seq![
        11u8, 112u8, 101u8, 177u8, 227u8, 209u8, 124u8, 69u8, 56u8, 157u8, 82u8, 127u8, 107u8, 4u8, 195u8, 205u8,
        88u8, 184u8, 108u8, 115u8, 26u8, 160u8, 253u8, 181u8, 73u8, 182u8, 209u8, 188u8, 3u8, 248u8, 41u8, 70u8,
    ]
}

/// Borsh's encoding of a string: its UTF-8 length as a little-endian `u32`,
/// then its UTF-8 bytes.
pub open spec fn borsh_string(s: Seq<char>) -> Seq<u8> {
    spec_u32_to_le_bytes(encode_utf8(s).len() as u32) + encode_utf8(s)
}

/// Data of a `CreateMetadataAccountV3` without creators, collection, uses or
/// collection details: the instruction's tag 33, the name, symbol and URI,
/// the seller fee (little-endian `u16`), three absent options, the
/// mutability flag, and one more absent option.
pub open spec fn create_metadata_data(name: Seq<char>, symbol: Seq<char>, uri: Seq<char>, fee: u16, is_mutable: bool) -> Seq<u8> {
    seq![33u8] + borsh_string(name) + borsh_string(symbol) + borsh_string(uri) + spec_u16_to_le_bytes(fee)
        + seq![0u8, 0u8, 0u8, if is_mutable { 1u8 } else { 0u8 }, 0u8]
}

/// The accounts of a `CreateMetadataAccountV3`, with the rent sysvar given.
pub open spec fn create_metadata_metas(
    metadata: Pubkey,
    mint: Pubkey,
    mint_authority: Pubkey,
    payer: Pubkey,
    update_authority: Pubkey,
    update_authority_is_signer: bool,
    system_program: Pubkey,
    rent: Pubkey,
) -> Seq<AccountMeta> {
    seq![
        AccountMeta { pubkey: metadata, is_signer: false, is_writable: true },
        AccountMeta { pubkey: mint, is_signer: false, is_writable: false },
        AccountMeta { pubkey: mint_authority, is_signer: true, is_writable: false },
        AccountMeta { pubkey: payer, is_signer: true, is_writable: true },
        AccountMeta { pubkey: update_authority, is_signer: update_authority_is_signer, is_writable: false },
        AccountMeta { pubkey: system_program, is_signer: false, is_writable: false },
        AccountMeta { pubkey: rent, is_signer: false, is_writable: false },
    ]
}

/// Builds the instruction through `mpl_token_metadata`'s
/// `CreateMetadataAccountV3::instruction`, with the rent sysvar given and no
/// creators, collection, uses or collection details. The contract states what
/// that builder's source shows: the program is the token-metadata program, the
/// seven accounts come in the order of `create_metadata_metas` with its flags,
/// and the data is the tag byte 33 followed by the Borsh encoding of the
/// arguments. Borsh fails, and the builder panics, on a string longer than
/// `u32::MAX` bytes; `requires` excludes those.
#[verifier::external_body]
pub(crate) fn create_metadata_instruction(
    metadata: Pubkey,
    mint: Pubkey,
    mint_authority: Pubkey,
    payer: Pubkey,
    update_authority: Pubkey,
    update_authority_is_signer: bool,
    system_program: Pubkey,
    rent: Pubkey,
    name: String,
    symbol: String,
    uri: String,
    seller_fee_basis_points: u16,
    is_mutable: bool,
) -> (ix: Instruction)
    requires
        encode_utf8(name@).len() <= u32::MAX,
        encode_utf8(symbol@).len() <= u32::MAX,
        encode_utf8(uri@).len() <= u32::MAX,
    ensures
        ix.program_id@ == token_metadata_program_id(),
        ix.accounts@ == create_metadata_metas(
            metadata,
            mint,
            mint_authority,
            payer,
            update_authority,
            update_authority_is_signer,
            system_program,
            rent,
        ),
        ix.data@ == create_metadata_data(name@, symbol@, uri@, seller_fee_basis_points, is_mutable),
{
    let ix = CreateMetadataAccountV3 {
        metadata: metadata.0.into(), mint: mint.0.into(), mint_authority: mint_authority.0.into(), payer: payer.0.into(),
        update_authority: (update_authority.0.into(), update_authority_is_signer),
        system_program: system_program.0.into(), rent: Some(rent.0.into()),
    }.instruction(CreateMetadataAccountV3InstructionArgs {
        data: DataV2 { name, symbol, uri, seller_fee_basis_points, creators: None, collection: None, uses: None },
        is_mutable, collection_details: None,
    });
    let accounts = ix.accounts.iter().map(|a| AccountMeta { pubkey: Pubkey(a.pubkey.to_bytes()),
        is_signer: a.is_signer, is_writable: a.is_writable }).collect();
    Instruction { program_id: Pubkey(ix.program_id.to_bytes()), accounts, data: ix.data }
}

/// UTF-8 encodes a concatenation piece by piece.
pub(crate) proof fn lemma_encode_utf8_concat(a: Seq<char>, b: Seq<char>)
    ensures
        encode_utf8(a + b) == encode_utf8(a) + encode_utf8(b),
    decreases a.len(),
{
    if a.len() == 0 {
        assert(a + b =~= b);
        assert(encode_utf8(a) =~= Seq::<u8>::empty());
        assert(encode_utf8(a) + encode_utf8(b) =~= encode_utf8(b));
    } else {
        lemma_encode_utf8_concat(a.drop_first(), b);
        assert((a + b).drop_first() =~= a.drop_first() + b);
        assert((a + b)[0] == a[0]);
        assert(encode_utf8(a + b) =~= encode_utf8(a) + encode_utf8(b));
    }
}

} // verus!
