//! A capped-supply fungible token program, modelled as verified state
//! transitions over the accounts each instruction touches.
pub mod address;
pub mod errors;
pub mod states;
pub mod outcomes;
pub mod instructions;
pub mod laws;

pub use address::{associated_token_address, derive_mint_address, mint_seed, Address};
pub use errors::OmertaError;
pub use instructions::{
    apply_init_token, apply_mint_tokens, apply_transfer, approve, authorize_spend, bind_token_account, burn,
    change_mint_authority, holds_authority, init_token, mint_tokens, transfer, update_metadata,
};
pub use states::{
    ApproveToken, BurnTokens, ChangeMintAuthority, InitToken, InitTokenParams, MetadataRecord, MintAccount,
    MintTokens, TokenAccount, TransferToken, UpdateMetadata, MAX_CAP, MAX_DECIMALS,
};
