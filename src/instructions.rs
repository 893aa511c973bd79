use vstd::prelude::*;

use crate::address::{
    associated_seeds, associated_token_address, derive_mint_address, mint_seeds,
    program_address_of, Address,
};
use crate::errors::OmertaError;
use crate::outcomes::{
    approve_outcome, bound_account, burn_outcome, change_mint_authority_outcome, init_token_outcome,
    is_authority, mint_tokens_outcome, settles, spend_authority, transfer_outcome, update_metadata_outcome,
};
use crate::states::{
    ApproveToken, BurnTokens, ChangeMintAuthority, InitToken, InitTokenParams, MetadataRecord, MintAccount,
    MintTokens, TokenAccount, TransferToken, UpdateMetadata, MAX_CAP, MAX_DECIMALS,
};

verus! {

/// Whether `signer` is the authority on record.
pub fn holds_authority(authority: &Option<Address>, signer: &Address) -> (r: bool)
    ensures
        r == is_authority(*authority, *signer),
{
    match authority {
        Some(a) => a.same_as(signer),
        None => false,
    }
}

/// Creates the mint at the expected address `mint_key`, with no supply and
/// the payer as mint authority, and binds a mutable metadata record to it.
pub fn apply_init_token(ctx: &mut InitToken, metadata: InitTokenParams, mint_key: &Address) -> (r: Result<(), OmertaError>)
    ensures
        settles(init_token_outcome(*old(ctx), metadata, mint_key@), *old(ctx), *final(ctx), r),
{
    if !ctx.mint_address.same_as(mint_key) {
        return Err(OmertaError::SeedsMismatch);
    }
    if ctx.mint.is_some() || ctx.metadata.is_some() {
        return Err(OmertaError::AlreadyInitialized);
    }
    if metadata.decimals > MAX_DECIMALS {
        return Err(OmertaError::InvalidDecimals);
    }
    ctx.mint = Some(MintAccount {
        address: ctx.mint_address,
        supply: 0,
        decimals: metadata.decimals,
        mint_authority: Some(ctx.payer),
        freeze_authority: None,
    });
    ctx.metadata = Some(MetadataRecord {
        address: ctx.metadata_address,
        mint: ctx.mint_address,
        name: metadata.name,
        symbol: metadata.symbol,
        uri: metadata.uri,
        is_mutable: true,
        update_authority: ctx.payer,
    });
    Ok(())
}

/// Initialize: derives the mint's address from the fixed seed and the
/// program's address, then creates the mint there with its metadata record.
pub fn init_token(ctx: &mut InitToken, metadata: InitTokenParams) -> (r: Result<(), OmertaError>)
    ensures
        match program_address_of(mint_seeds(), old(ctx).program_id@) {
            Some((key, _)) => settles(init_token_outcome(*old(ctx), metadata, key), *old(ctx), *final(ctx), r),
            None => r == Err::<(), OmertaError>(OmertaError::DerivationExhausted) && *final(ctx) == *old(ctx),
        },
{
    let derived = derive_mint_address(&ctx.program_id);
    match derived {
        Ok((key, _)) => apply_init_token(ctx, metadata, &key),
        Err(e) => Err(e),
    }
}

/// Update Metadata: overwrites name, symbol and URI of a mutable record
/// bound to the mint, on the signature of its update authority.
pub fn update_metadata(ctx: &mut UpdateMetadata, new_metadata: InitTokenParams) -> (r: Result<(), OmertaError>)
    ensures
        settles(update_metadata_outcome(*old(ctx), new_metadata), *old(ctx), *final(ctx), r),
{
    if !ctx.metadata.mint.same_as(&ctx.mint.address) {
        return Err(OmertaError::MetadataMintMismatch);
    }
    if !ctx.metadata.update_authority.same_as(&ctx.payer) {
        return Err(OmertaError::UpdateAuthorityMismatch);
    }
    if !ctx.metadata.is_mutable {
        return Err(OmertaError::ImmutableMetadata);
    }
    ctx.metadata.name = new_metadata.name;
    ctx.metadata.symbol = new_metadata.symbol;
    ctx.metadata.uri = new_metadata.uri;
    Ok(())
}

/// The explicit create-if-absent step for an associated token account:
/// checks the account against its expected address `ata_key`, and returns
/// the existing account or a fresh empty one.
pub fn bind_token_account(
    slot: &Option<TokenAccount>,
    address: &Address,
    owner: &Address,
    mint: &Address,
    ata_key: &Address,
) -> (r: Result<TokenAccount, OmertaError>)
    ensures
        r == bound_account(*slot, *address, *owner, *mint, ata_key@),
{
    if !address.same_as(ata_key) {
        return Err(OmertaError::NotAssociatedTokenAccount);
    }
    match slot {
        Some(a) => {
            if !a.address.same_as(address) {
                Err(OmertaError::NotAssociatedTokenAccount)
            } else if !a.mint.same_as(mint) {
                Err(OmertaError::TokenMintMismatch)
            } else if !a.owner.same_as(owner) {
                Err(OmertaError::TokenOwnerMismatch)
            } else {
                Ok(*a)
            }
        },
        None => Ok(TokenAccount {
            address: *address,
            mint: *mint,
            owner: *owner,
            amount: 0,
            delegate: None,
            delegated_amount: 0,
        }),
    }
}

/// Checks that `signer` may debit `amount` from `src`, as owner or as
/// delegate, and returns the account with the delegate's allowance consumed.
pub fn authorize_spend(src: &TokenAccount, signer: &Address, amount: u64) -> (r: Result<TokenAccount, OmertaError>)
    ensures
        r == spend_authority(*src, *signer, amount),
{
    let is_delegate = match &src.delegate {
        Some(d) => d.same_as(signer),
        None => false,
    };
    if is_delegate {
        if src.delegated_amount < amount {
            return Err(OmertaError::InsufficientFunds);
        }
        let left = src.delegated_amount - amount;
        let mut out = *src;
        out.delegated_amount = left;
        if left == 0 {
            out.delegate = None;
        }
        Ok(out)
    } else if src.owner.same_as(signer) {
        Ok(*src)
    } else {
        Err(OmertaError::OwnerMismatch)
    }
}

/// Mints `amount` to the destination holder's associated account, given the expected
/// addresses of the mint (`mint_key`) and of that account (`ata_key`).
/// Aborts with `CapExceed`, changing nothing, when the supply would pass
/// the cap.
pub fn apply_mint_tokens(ctx: &mut MintTokens, amount: u64, mint_key: &Address, ata_key: &Address) -> (r: Result<(), OmertaError>)
    ensures
        settles(mint_tokens_outcome(*old(ctx), amount, mint_key@, ata_key@), *old(ctx), *final(ctx), r),
{
    if !ctx.mint.address.same_as(mint_key) {
        return Err(OmertaError::SeedsMismatch);
    }
    if !holds_authority(&ctx.mint.mint_authority, &ctx.payer) {
        return Err(OmertaError::MintAuthorityMismatch);
    }
    let dest = match bind_token_account(&ctx.destination, &ctx.destination_address, &ctx.destination_owner, &ctx.mint.address, ata_key) {
        Ok(d) => d,
        Err(e) => return Err(e),
    };
    if amount > MAX_CAP || ctx.mint.supply > MAX_CAP - amount {
        return Err(OmertaError::CapExceed);
    }
    if dest.amount > u64::MAX - amount {
        return Err(OmertaError::Overflow);
    }
    let mut credited = dest;
    credited.amount = dest.amount + amount;
    ctx.mint.supply = ctx.mint.supply + amount;
    ctx.destination = Some(credited);
    Ok(())
}

/// Mint: derives the mint's address and the destination holder's
/// associated account,
/// then mints `amount` there under the supply cap.
pub fn mint_tokens(ctx: &mut MintTokens, amount: u64) -> (r: Result<(), OmertaError>)
    ensures
        match (
            program_address_of(mint_seeds(), old(ctx).program_id@),
            program_address_of(
                associated_seeds(old(ctx).destination_owner@, old(ctx).token_program@, old(ctx).mint.address@),
                old(ctx).associated_token_program@,
            ),
        ) {
            (Some((mint_key, _)), Some((ata_key, _))) => settles(
                mint_tokens_outcome(*old(ctx), amount, mint_key, ata_key),
                *old(ctx),
                *final(ctx),
                r,
            ),
            _ => r == Err::<(), OmertaError>(OmertaError::DerivationExhausted) && *final(ctx) == *old(ctx),
        },
{
    let mint_key = match derive_mint_address(&ctx.program_id) {
        Ok((k, _)) => k,
        Err(e) => return Err(e),
    };
    let ata_key = match associated_token_address(&ctx.destination_owner, &ctx.mint.address, &ctx.token_program, &ctx.associated_token_program) {
        Ok((k, _)) => k,
        Err(e) => return Err(e),
    };
    apply_mint_tokens(ctx, amount, &mint_key, &ata_key)
}

/// Moves `amount` from the signer's account to the recipient's associated
/// account, given its expected address `ata_key`. A transfer onto the
/// source account itself is checked like any other, then writes nothing:
/// balances, allowance and both records stay as they were.
pub fn apply_transfer(ctx: &mut TransferToken, amount: u64, ata_key: &Address) -> (r: Result<(), OmertaError>)
    ensures
        settles(transfer_outcome(*old(ctx), amount, ata_key@), *old(ctx), *final(ctx), r),
{
    let dest = match bind_token_account(&ctx.to_ata, &ctx.to_ata_address, &ctx.to, &ctx.mint.address, ata_key) {
        Ok(d) => d,
        Err(e) => return Err(e),
    };
    if ctx.from_ata.amount < amount {
        return Err(OmertaError::InsufficientFunds);
    }
    if !ctx.from_ata.mint.same_as(&dest.mint) {
        return Err(OmertaError::TokenMintMismatch);
    }
    let src = match authorize_spend(&ctx.from_ata, &ctx.from, amount) {
        Ok(s) => s,
        Err(e) => return Err(e),
    };
    if ctx.from_ata.address.same_as(&ctx.to_ata_address) {
        return Ok(());
    }
    if dest.amount > u64::MAX - amount {
        return Err(OmertaError::Overflow);
    }
    let mut debited = src;
    debited.amount = src.amount - amount;
    let mut credited = dest;
    credited.amount = dest.amount + amount;
    ctx.from_ata = debited;
    ctx.to_ata = Some(credited);
    Ok(())
}

/// Transfer: derives the recipient's associated account, then moves
/// `amount` to it from the signer's account.
pub fn transfer(ctx: &mut TransferToken, amount: u64) -> (r: Result<(), OmertaError>)
    ensures
        match program_address_of(
            associated_seeds(old(ctx).to@, old(ctx).token_program@, old(ctx).mint.address@),
            old(ctx).associated_token_program@,
        ) {
            Some((ata_key, _)) => settles(transfer_outcome(*old(ctx), amount, ata_key), *old(ctx), *final(ctx), r),
            None => r == Err::<(), OmertaError>(OmertaError::DerivationExhausted) && *final(ctx) == *old(ctx),
        },
{
    let ata_key = match associated_token_address(&ctx.to, &ctx.mint.address, &ctx.token_program, &ctx.associated_token_program) {
        Ok((k, _)) => k,
        Err(e) => return Err(e),
    };
    apply_transfer(ctx, amount, &ata_key)
}

/// Approve: replaces any delegation on the owner's account by
/// `{delegate, amount}`; the balance is not consulted.
pub fn approve(ctx: &mut ApproveToken, amount: u64) -> (r: Result<(), OmertaError>)
    ensures
        settles(approve_outcome(*old(ctx), amount), *old(ctx), *final(ctx), r),
{
    if !ctx.from_ata.owner.same_as(&ctx.from) {
        return Err(OmertaError::OwnerMismatch);
    }
    ctx.from_ata.delegate = Some(ctx.delegate);
    ctx.from_ata.delegated_amount = amount;
    Ok(())
}

/// Burn: destroys `amount` from a token account and from the supply, on the
/// signature of the account's owner or delegate.
pub fn burn(ctx: &mut BurnTokens, amount: u64) -> (r: Result<(), OmertaError>)
    ensures
        settles(burn_outcome(*old(ctx), amount), *old(ctx), *final(ctx), r),
{
    if ctx.from_ata.amount < amount {
        return Err(OmertaError::InsufficientFunds);
    }
    if !ctx.from_ata.mint.same_as(&ctx.mint.address) {
        return Err(OmertaError::TokenMintMismatch);
    }
    let src = match authorize_spend(&ctx.from_ata, &ctx.payer, amount) {
        Ok(s) => s,
        Err(e) => return Err(e),
    };
    if ctx.mint.supply < amount {
        return Err(OmertaError::Overflow);
    }
    let mut debited = src;
    debited.amount = src.amount - amount;
    ctx.mint.supply = ctx.mint.supply - amount;
    ctx.from_ata = debited;
    Ok(())
}

/// Authority Rotation: the current mint authority hands minting to
/// `new_authority`, or disables it for good with `None`; a mint without
/// authority stays so.
pub fn change_mint_authority(ctx: &mut ChangeMintAuthority, new_authority: Option<Address>) -> (r: Result<(), OmertaError>)
    ensures
        settles(change_mint_authority_outcome(*old(ctx), new_authority), *old(ctx), *final(ctx), r),
{
    match &ctx.mint.mint_authority {
        None => return Err(OmertaError::AuthorityDisabled),
        Some(a) => {
            if !a.same_as(&ctx.current_authority) {
                return Err(OmertaError::MintAuthorityMismatch);
            }
        },
    }
    ctx.mint.mint_authority = new_authority;
    Ok(())
}

} // verus!
