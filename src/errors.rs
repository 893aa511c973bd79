use vstd::prelude::*;

verus! {

/// Every way an instruction of this program can abort. An aborted
/// instruction leaves every account it was handed unchanged.
#[derive(Clone, Copy, Debug, PartialEq, Eq, Structural)]
pub enum OmertaError {
    /// The mint would hold more than the supply cap.
    CapExceed,
    /// No bump seed yields a valid program address for the seeds.
    DerivationExhausted,
    /// The account to be created already exists.
    AlreadyInitialized,
    /// The decimal precision is outside `0..=9`.
    InvalidDecimals,
    /// The mint account is not at the address derived from the mint seed.
    SeedsMismatch,
    /// The signer is not the mint authority on record (or there is none).
    MintAuthorityMismatch,
    /// The mint authority was removed: the supply is fixed for good.
    AuthorityDisabled,
    /// The token account is not at its associated address.
    NotAssociatedTokenAccount,
    /// The token account belongs to another mint.
    TokenMintMismatch,
    /// The associated token account is held by someone else.
    TokenOwnerMismatch,
    /// The signer may not debit the source account.
    OwnerMismatch,
    /// The source balance (or the delegated allowance) is below the amount.
    InsufficientFunds,
    /// A balance or the supply would leave the range of `u64`.
    Overflow,
    /// The signer is not the metadata record's update authority.
    UpdateAuthorityMismatch,
    /// The metadata record is bound to another mint.
    MetadataMintMismatch,
    /// The metadata record was created immutable.
    ImmutableMetadata,
}

} // verus!
