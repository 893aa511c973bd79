use vstd::prelude::*;

use crate::address::Address;

verus! {

/// The hard cap on the mint's supply, in raw units.
pub const MAX_CAP: u64 = 100_000_000_000_000_000;

/// The largest decimal precision a mint can be created with.
pub const MAX_DECIMALS: u8 = 9;

/// The token's global record.
#[derive(Clone, Copy, Debug, PartialEq, Eq)]
pub struct MintAccount {
    pub address: Address,
    pub supply: u64,
    pub decimals: u8,
    /// The one signer allowed to mint; `None` once minting is disabled.
    pub mint_authority: Option<Address>,
    pub freeze_authority: Option<Address>,
}

impl MintAccount {
    /// The supply respects the cap and the precision is in range.
    pub open spec fn wf(&self) -> bool {
        &&& self.supply <= MAX_CAP
        &&& self.decimals <= MAX_DECIMALS
    }
}

/// One holder's balance of the mint, with its delegation.
#[derive(Clone, Copy, Debug, PartialEq, Eq)]
pub struct TokenAccount {
    pub address: Address,
    pub mint: Address,
    pub owner: Address,
    pub amount: u64,
    /// The one approved spender, if any.
    pub delegate: Option<Address>,
    /// What the delegate may still spend.
    pub delegated_amount: u64,
}

impl TokenAccount {
    /// A delegated allowance exists only beside a delegate.
    pub open spec fn wf(&self) -> bool {
        self.delegate is None ==> self.delegated_amount == 0
    }

    /// A fresh, empty account of `owner` for `mint` at `address`.
    pub open spec fn empty(address: Address, owner: Address, mint: Address) -> TokenAccount {
        TokenAccount { address, mint, owner, amount: 0, delegate: None, delegated_amount: 0 }
    }
}

/// The descriptive record bound to the mint.
#[derive(Clone, Debug, PartialEq, Eq)]
pub struct MetadataRecord {
    pub address: Address,
    pub mint: Address,
    pub name: String,
    pub symbol: String,
    pub uri: String,
    pub is_mutable: bool,
    pub update_authority: Address,
}

/// The descriptive fields of the token, with the precision of its mint.
#[derive(Clone, Debug, PartialEq, Eq)]
pub struct InitTokenParams {
    pub name: String,
    pub symbol: String,
    pub uri: String,
    pub decimals: u8,
}

/// The accounts of the instruction that creates the mint and its metadata.
/// An account that does not exist yet is `None`.
#[derive(Clone, Debug, PartialEq, Eq)]
pub struct InitToken {
    pub program_id: Address,
    pub metadata_address: Address,
    pub metadata: Option<MetadataRecord>,
    pub mint_address: Address,
    pub mint: Option<MintAccount>,
    pub payer: Address,
}

/// The accounts of the instruction that mints to the destination holder's
/// associated token account, which is created if absent (paid by the payer).
#[derive(Clone, Copy, Debug, PartialEq, Eq)]
pub struct MintTokens {
    pub program_id: Address,
    pub mint: MintAccount,
    pub destination_owner: Address,
    pub destination_address: Address,
    pub destination: Option<TokenAccount>,
    pub payer: Address,
    pub token_program: Address,
    pub associated_token_program: Address,
}

/// The accounts of a transfer from a signer's token account to the
/// recipient's associated token account, which is created if absent.
#[derive(Clone, Copy, Debug, PartialEq, Eq)]
pub struct TransferToken {
    pub from: Address,
    pub to: Address,
    pub mint: MintAccount,
    pub from_ata: TokenAccount,
    pub to_ata_address: Address,
    pub to_ata: Option<TokenAccount>,
    pub token_program: Address,
    pub associated_token_program: Address,
}

/// The accounts of an approval of a delegate on the owner's token account.
#[derive(Clone, Copy, Debug, PartialEq, Eq)]
pub struct ApproveToken {
    pub from_ata: TokenAccount,
    pub from: Address,
    pub delegate: Address,
}

/// The accounts of a burn from a token account.
#[derive(Clone, Copy, Debug, PartialEq, Eq)]
pub struct BurnTokens {
    pub mint: MintAccount,
    pub from_ata: TokenAccount,
    pub payer: Address,
}

/// The accounts of the rotation of the mint authority.
#[derive(Clone, Copy, Debug, PartialEq, Eq)]
pub struct ChangeMintAuthority {
    pub mint: MintAccount,
    pub current_authority: Address,
}

/// The accounts of an update of the metadata record.
#[derive(Clone, Debug, PartialEq, Eq)]
pub struct UpdateMetadata {
    pub metadata: MetadataRecord,
    pub mint: MintAccount,
    pub payer: Address,
}

} // verus!
