//! Register a GPU: open its collateral position and describe its NFT.
use vstd::prelude::*;
use vstd::utf8::{encode_utf8, is_ascii_chars_encode_utf8};
use crate::errors::{ProgramError, VaultError};
use crate::events::GpuRegistered;
use crate::instructions::{MintTo, ProgramCall};
use crate::keys::{base58, base58_text, Pubkey};
use crate::metaplex::{
    create_metadata_data, create_metadata_instruction, create_metadata_metas, lemma_encode_utf8_concat,
    token_metadata_program_id,
};
use crate::state::{GpuCollateral, GpuModel, GpuStatus, VaultConfig};

verus! {

/// Longest model name, in UTF-8 bytes.
pub const MAX_MODEL_LEN: usize = 32;

/// Longest specification text, in UTF-8 bytes.
pub const MAX_SPECS_LEN: usize = 64;

/// Longest metrics URL, in UTF-8 bytes.
pub const MAX_PROMETHEUS_URL_LEN: usize = 128;

/// What the owner states about the GPU.
#[derive(Clone, Debug)]
pub struct RegisterGpuParams {
    pub model: String,
    pub specs: String,
    pub cluster_id: Pubkey,
    pub prometheus_url: String,
}

/// The accounts of a registration: the addresses of the new collateral
/// account (with its bump seed), NFT mint, the vault's escrow account for the
/// NFT and the metadata account, the owner who pays, the GPU's price feed,
/// and the system program and rent sysvar that the metadata creation reads.
#[derive(Clone, Copy, Debug)]
pub struct RegisterGpu {
    pub vault_config: VaultConfig,
    pub vault_config_key: Pubkey,
    pub gpu_collateral_key: Pubkey,
    pub gpu_collateral_bump: u8,
    pub gpu_nft_mint: Pubkey,
    pub vault_nft_account: Pubkey,
    pub metadata_account: Pubkey,
    pub owner: Pubkey,
    pub oracle_feed: Pubkey,
    pub system_program: Pubkey,
    pub rent: Pubkey,
}

/// What a successful registration does besides writing the position, in
/// order: mint the single NFT into the vault's escrow, then describe it with
/// the token-metadata program, signed by the vault.
#[derive(Clone, Debug)]
pub struct RegisterPlan {
    pub nft_to_escrow: MintTo,
    pub metadata: ProgramCall,
    pub event: GpuRegistered,
}

/// The GPU class named by `s`; unrecognized names map to `Unknown`.
pub open spec fn spec_parse_model(s: Seq<char>) -> GpuModel {
    if s == "A100"@ {
        GpuModel::A100
    } else if s == "A100x8"@ || s == "A100-Cluster-8"@ {
        GpuModel::A100Cluster8
    } else if s == "H100"@ {
        GpuModel::H100
    } else if s == "H200"@ {
        GpuModel::H200
    } else {
        GpuModel::Unknown
    }
}

/// The GPU class named by `s`: "A100", "A100x8" or "A100-Cluster-8", "H100",
/// "H200"; any other name is `Unknown`. It never fails.
pub fn parse_model(s: &str) -> (r: Result<GpuModel, ProgramError>)
    ensures
        r == Ok::<GpuModel, ProgramError>(spec_parse_model(s@)),
{
    let owned: String = s.to_owned();
    if owned == String::from_str("A100") {
        Ok(GpuModel::A100)
    } else if owned == String::from_str("A100x8") || owned == String::from_str("A100-Cluster-8") {
        Ok(GpuModel::A100Cluster8)
    } else if owned == String::from_str("H100") {
        Ok(GpuModel::H100)
    } else if owned == String::from_str("H200") {
        Ok(GpuModel::H200)
    } else {
        Ok(GpuModel::Unknown)
    }
}

/// The parameters fit their length limits (in UTF-8 bytes).
pub open spec fn params_fit(params: RegisterGpuParams) -> bool {
    &&& encode_utf8(params.model@).len() <= 32
    &&& encode_utf8(params.specs@).len() <= 64
    &&& encode_utf8(params.prometheus_url@).len() <= 128
}

/// The first check of a registration that fails, if any.
pub open spec fn register_error(ctx: RegisterGpu, params: RegisterGpuParams) -> Option<ProgramError> {
    if !params_fit(params) {
        Some(ProgramError::Vault(VaultError::MetadataTooLong))
    } else if ctx.vault_config.paused {
        Some(ProgramError::Vault(VaultError::Paused))
    } else {
        None
    }
}

/// The position that a registration opens: active, unvalued, without debt.
pub open spec fn registered_collateral(ctx: RegisterGpu, params: RegisterGpuParams) -> GpuCollateral {
    GpuCollateral {
        owner: ctx.owner,
        gpu_nft_mint: ctx.gpu_nft_mint,
        valuation_usd: 0,
        borrowed_usdai: 0,
        model: spec_parse_model(params.model@),
        status: GpuStatus::Active,
        oracle_feed: ctx.oracle_feed,
        last_valuation_ts: 0,
        bump: ctx.gpu_collateral_bump,
    }
}

/// Register a GPU: the single NFT is minted into the vault's escrow, and the
/// new position records the owner, NFT mint, model and price feed, and is
/// active with no valuation and no debt. The token-metadata program then
/// describes the NFT, signed by the vault, which is its mint authority and
/// (not signing) update authority, while the owner pays: named
/// "GPU: <model>", symbol "GPU", pointing at
/// "https://metadata.usd.ai/gpu/<mint>", mutable, with no seller fee and no
/// creators, collection or uses.
pub fn handler(ctx: &RegisterGpu, params: &RegisterGpuParams) -> (r: Result<(GpuCollateral, RegisterPlan), ProgramError>)
    requires
        encode_utf8(params.model@).len() <= usize::MAX,
        encode_utf8(params.specs@).len() <= usize::MAX,
        encode_utf8(params.prometheus_url@).len() <= usize::MAX,
    ensures
        match r {
            Ok((collateral, plan)) => {
                &&& register_error(*ctx, *params) is None
                &&& collateral == registered_collateral(*ctx, *params)
                &&& collateral.wf()
                &&& plan.nft_to_escrow == (MintTo {
                    mint: ctx.gpu_nft_mint,
                    to: ctx.vault_nft_account,
                    authority: ctx.vault_config_key,
                    amount: 1,
                    signed_by_vault: true,
                })
                &&& plan.metadata.signed_by_vault
                &&& plan.metadata.instruction.program_id@ == token_metadata_program_id()
                &&& plan.metadata.instruction.accounts@ == create_metadata_metas(
                    ctx.metadata_account,
                    ctx.gpu_nft_mint,
                    ctx.vault_config_key,
                    ctx.owner,
                    ctx.vault_config_key,
                    false,
                    ctx.system_program,
                    ctx.rent,
                )
                &&& plan.metadata.instruction.data@ == create_metadata_data(
                    "GPU: "@ + params.model@,
                    "GPU"@,
                    "https://metadata.usd.ai/gpu/"@ + base58_text(ctx.gpu_nft_mint@),
                    0,
                    true,
                )
                &&& plan.event == (GpuRegistered {
                    collateral: ctx.gpu_collateral_key,
                    nft_mint: ctx.gpu_nft_mint,
                    owner: ctx.owner,
                    oracle_feed: ctx.oracle_feed,
                })
            },
            Err(e) => register_error(*ctx, *params) == Some(e),
        },
{
    if !(params.model.as_str().len() <= MAX_MODEL_LEN && params.specs.as_str().len() <= MAX_SPECS_LEN
        && params.prometheus_url.as_str().len() <= MAX_PROMETHEUS_URL_LEN) {
        return Err(ProgramError::Vault(VaultError::MetadataTooLong));
    }
    if ctx.vault_config.paused {
        return Err(ProgramError::Vault(VaultError::Paused));
    }
    let model = match parse_model(params.model.as_str()) {
        Ok(m) => m,
        Err(e) => {
            return Err(e);
        },
    };
    let collateral = GpuCollateral {
        owner: ctx.owner,
        gpu_nft_mint: ctx.gpu_nft_mint,
        valuation_usd: 0,
        borrowed_usdai: 0,
        model,
        status: GpuStatus::Active,
        oracle_feed: ctx.oracle_feed,
        last_valuation_ts: 0,
        bump: ctx.gpu_collateral_bump,
    };
    let mut name = String::from_str("GPU: ");
    name.append(params.model.as_str());
    let mut uri = String::from_str("https://metadata.usd.ai/gpu/");
    let mint_text = base58(&ctx.gpu_nft_mint);
    uri.append(mint_text.as_str());
    proof {
        reveal_strlit("GPU: ");
        reveal_strlit("GPU");
        reveal_strlit("https://metadata.usd.ai/gpu/");
        is_ascii_chars_encode_utf8("GPU: "@);
        is_ascii_chars_encode_utf8("GPU"@);
        is_ascii_chars_encode_utf8("https://metadata.usd.ai/gpu/"@);
        lemma_encode_utf8_concat("GPU: "@, params.model@);
        lemma_encode_utf8_concat("https://metadata.usd.ai/gpu/"@, mint_text@);
    }
    let instruction = create_metadata_instruction(
        ctx.metadata_account,
        ctx.gpu_nft_mint,
        ctx.vault_config_key,
        ctx.owner,
        ctx.vault_config_key,
        false,
        ctx.system_program,
        ctx.rent,
        name,
        String::from_str("GPU"),
        uri,
        0,
        true,
    );
    let metadata = ProgramCall { instruction, signed_by_vault: true };
    let event = GpuRegistered {
        collateral: ctx.gpu_collateral_key,
        nft_mint: ctx.gpu_nft_mint,
        owner: ctx.owner,
        oracle_feed: ctx.oracle_feed,
    };
    let nft_to_escrow = MintTo {
        mint: ctx.gpu_nft_mint,
        to: ctx.vault_nft_account,
        authority: ctx.vault_config_key,
        amount: 1,
        signed_by_vault: true,
    };
    Ok((collateral, RegisterPlan { nft_to_escrow, metadata, event }))
}

} // verus!
