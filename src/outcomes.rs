use vstd::prelude::*;

use crate::address::Address;
use crate::errors::OmertaError;
use crate::states::{
    ApproveToken, BurnTokens, ChangeMintAuthority, InitToken, InitTokenParams, MetadataRecord, MintAccount,
    MintTokens, TokenAccount, TransferToken, UpdateMetadata, MAX_CAP, MAX_DECIMALS,
};

verus! {

/// What an instruction does, given its outcome: on success the accounts
/// become `after_ok`; on an abort the error is returned and nothing changes.
pub open spec fn settles<C>(outcome: Result<C, OmertaError>, before: C, after: C, r: Result<(), OmertaError>) -> bool {
    match outcome {
        Ok(c) => r is Ok && after == c,
        Err(e) => r == Err::<(), OmertaError>(e) && after == before,
    }
}

/// `signer` is the authority on record.
pub open spec fn is_authority(authority: Option<Address>, signer: Address) -> bool {
    authority matches Some(a) && a@ == signer@
}

/// The create-if-absent binding of an associated token account: it must sit
/// at its associated address; an existing one must be the record of that
/// address, belong to `mint` and be held by `owner`; an absent one is
/// created empty.
pub open spec fn bound_account(
    slot: Option<TokenAccount>,
    address: Address,
    owner: Address,
    mint: Address,
    ata_key: Seq<u8>,
) -> Result<TokenAccount, OmertaError> {
    if address@ != ata_key {
        Err(OmertaError::NotAssociatedTokenAccount)
    } else {
        match slot {
            Some(a) => if a.address@ != address@ {
                Err(OmertaError::NotAssociatedTokenAccount)
            } else if a.mint@ != mint@ {
                Err(OmertaError::TokenMintMismatch)
            } else if a.owner@ != owner@ {
                Err(OmertaError::TokenOwnerMismatch)
            } else {
                Ok(a)
            },
            None => Ok(TokenAccount::empty(address, owner, mint)),
        }
    }
}

/// Whether `signer` may debit `amount` from `src`, and the account after
/// its allowance is consumed: a delegate spends from its allowance (and is
/// cleared when the allowance reaches zero), the owner spends freely.
pub open spec fn spend_authority(src: TokenAccount, signer: Address, amount: u64) -> Result<TokenAccount, OmertaError> {
    if src.delegate matches Some(d) && d@ == signer@ {
        if src.delegated_amount < amount {
            Err(OmertaError::InsufficientFunds)
        } else {
            let left = (src.delegated_amount - amount) as u64;
            Ok(TokenAccount { delegate: if left == 0 { None } else { src.delegate }, delegated_amount: left, ..src })
        }
    } else if src.owner@ == signer@ {
        Ok(src)
    } else {
        Err(OmertaError::OwnerMismatch)
    }
}

/// Creating the mint at `mint_key` and binding its metadata record.
pub open spec fn init_token_outcome(c: InitToken, p: InitTokenParams, mint_key: Seq<u8>) -> Result<InitToken, OmertaError> {
    if c.mint_address@ != mint_key {
        Err(OmertaError::SeedsMismatch)
    } else if c.mint is Some || c.metadata is Some {
        Err(OmertaError::AlreadyInitialized)
    } else if p.decimals > MAX_DECIMALS {
        Err(OmertaError::InvalidDecimals)
    } else {
        Ok(InitToken {
            mint: Some(MintAccount {
                address: c.mint_address,
                supply: 0,
                decimals: p.decimals,
                mint_authority: Some(c.payer),
                freeze_authority: None,
            }),
            metadata: Some(MetadataRecord {
                address: c.metadata_address,
                mint: c.mint_address,
                name: p.name,
                symbol: p.symbol,
                uri: p.uri,
                is_mutable: true,
                update_authority: c.payer,
            }),
            ..c
        })
    }
}

/// Overwriting the descriptive fields of the metadata record.
pub open spec fn update_metadata_outcome(c: UpdateMetadata, p: InitTokenParams) -> Result<UpdateMetadata, OmertaError> {
    if c.metadata.mint@ != c.mint.address@ {
        Err(OmertaError::MetadataMintMismatch)
    } else if c.metadata.update_authority@ != c.payer@ {
        Err(OmertaError::UpdateAuthorityMismatch)
    } else if !c.metadata.is_mutable {
        Err(OmertaError::ImmutableMetadata)
    } else {
        Ok(UpdateMetadata { metadata: MetadataRecord { name: p.name, symbol: p.symbol, uri: p.uri, ..c.metadata }, ..c })
    }
}

/// Minting `amount` to the destination holder's associated account, with
/// the mint expected at `mint_key` and that account at `ata_key`.
pub open spec fn mint_tokens_outcome(c: MintTokens, amount: u64, mint_key: Seq<u8>, ata_key: Seq<u8>) -> Result<MintTokens, OmertaError> {
    if c.mint.address@ != mint_key {
        Err(OmertaError::SeedsMismatch)
    } else if !is_authority(c.mint.mint_authority, c.payer) {
        Err(OmertaError::MintAuthorityMismatch)
    } else {
        match bound_account(c.destination, c.destination_address, c.destination_owner, c.mint.address, ata_key) {
            Err(e) => Err(e),
            Ok(d) => if c.mint.supply + amount > MAX_CAP {
                Err(OmertaError::CapExceed)
            } else if d.amount + amount > u64::MAX {
                Err(OmertaError::Overflow)
            } else {
                Ok(MintTokens {
                    mint: MintAccount { supply: (c.mint.supply + amount) as u64, ..c.mint },
                    destination: Some(TokenAccount { amount: (d.amount + amount) as u64, ..d }),
                    ..c
                })
            },
        }
    }
}

/// Moving `amount` from the signer's account to the recipient's associated
/// account, expected at `ata_key`.
pub open spec fn transfer_outcome(c: TransferToken, amount: u64, ata_key: Seq<u8>) -> Result<TransferToken, OmertaError> {
    match bound_account(c.to_ata, c.to_ata_address, c.to, c.mint.address, ata_key) {
        Err(e) => Err(e),
        Ok(dest) => if c.from_ata.amount < amount {
            Err(OmertaError::InsufficientFunds)
        } else if c.from_ata.mint@ != dest.mint@ {
            Err(OmertaError::TokenMintMismatch)
        } else {
            match spend_authority(c.from_ata, c.from, amount) {
                Err(e) => Err(e),
                Ok(src) => if c.from_ata.address@ == c.to_ata_address@ {
                    Ok(c)
                } else if dest.amount + amount > u64::MAX {
                    Err(OmertaError::Overflow)
                } else {
                    Ok(TransferToken {
                        from_ata: TokenAccount { amount: (src.amount - amount) as u64, ..src },
                        to_ata: Some(TokenAccount { amount: (dest.amount + amount) as u64, ..dest }),
                        ..c
                    })
                },
            }
        },
    }
}

/// Replacing the delegation of the owner's account by `{delegate, amount}`.
pub open spec fn approve_outcome(c: ApproveToken, amount: u64) -> Result<ApproveToken, OmertaError> {
    if c.from_ata.owner@ != c.from@ {
        Err(OmertaError::OwnerMismatch)
    } else {
        Ok(ApproveToken { from_ata: TokenAccount { delegate: Some(c.delegate), delegated_amount: amount, ..c.from_ata }, ..c })
    }
}

/// Destroying `amount` from a token account and from the supply.
pub open spec fn burn_outcome(c: BurnTokens, amount: u64) -> Result<BurnTokens, OmertaError> {
    if c.from_ata.amount < amount {
        Err(OmertaError::InsufficientFunds)
    } else if c.from_ata.mint@ != c.mint.address@ {
        Err(OmertaError::TokenMintMismatch)
    } else {
        match spend_authority(c.from_ata, c.payer, amount) {
            Err(e) => Err(e),
            Ok(src) => if c.mint.supply < amount {
                Err(OmertaError::Overflow)
            } else {
                Ok(BurnTokens {
                    mint: MintAccount { supply: (c.mint.supply - amount) as u64, ..c.mint },
                    from_ata: TokenAccount { amount: (src.amount - amount) as u64, ..src },
                    ..c
                })
            },
        }
    }
}

/// Handing the mint authority to `new_authority`; `None` disables minting
/// for good.
pub open spec fn change_mint_authority_outcome(c: ChangeMintAuthority, new_authority: Option<Address>) -> Result<ChangeMintAuthority, OmertaError> {
    match c.mint.mint_authority {
        None => Err(OmertaError::AuthorityDisabled),
        Some(a) => if a@ != c.current_authority@ {
            Err(OmertaError::MintAuthorityMismatch)
        } else {
            Ok(ChangeMintAuthority { mint: MintAccount { mint_authority: new_authority, ..c.mint }, ..c })
        },
    }
}

} // verus!
