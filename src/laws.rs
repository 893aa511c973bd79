use vstd::prelude::*;

use crate::address::Address;
use crate::errors::OmertaError;
use crate::outcomes::{approve_outcome, init_token_outcome, is_authority, bound_account, burn_outcome, change_mint_authority_outcome, mint_tokens_outcome, transfer_outcome};
use crate::states::{InitToken, InitTokenParams, ApproveToken, BurnTokens, ChangeMintAuthority, MintTokens, TransferToken, MAX_CAP};

verus! {

/// The accounts after minting each of `amounts` in turn; a mint that aborts
/// leaves them as they were.
pub open spec fn mint_run(c: MintTokens, amounts: Seq<u64>, mint_key: Seq<u8>, ata_key: Seq<u8>) -> MintTokens
    decreases amounts.len(),
{
    if amounts.len() == 0 {
        c
    } else {
        let prev = mint_run(c, amounts.drop_last(), mint_key, ata_key);
        match mint_tokens_outcome(prev, amounts.last(), mint_key, ata_key) {
            Ok(next) => next,
            Err(_) => prev,
        }
    }
}

/// The sum of the amounts of the mints of `mint_run` that succeeded.
pub open spec fn minted_total(c: MintTokens, amounts: Seq<u64>, mint_key: Seq<u8>, ata_key: Seq<u8>) -> int
    decreases amounts.len(),
{
    if amounts.len() == 0 {
        0
    } else {
        let prev = mint_run(c, amounts.drop_last(), mint_key, ata_key);
        minted_total(c, amounts.drop_last(), mint_key, ata_key) + match mint_tokens_outcome(
            prev,
            amounts.last(),
            mint_key,
            ata_key,
        ) {
            Ok(_) => amounts.last() as int,
            Err(_) => 0int,
        }
    }
}

/// Over any sequence of mints against one mint, the supply is the starting
/// supply plus the sum of the amounts minted so far, and never passes the
/// cap. Each prefix of the sequence is itself such a sequence.
pub proof fn lemma_supply_tracks_minted(c: MintTokens, amounts: Seq<u64>, mint_key: Seq<u8>, ata_key: Seq<u8>)
    requires
        c.mint.supply <= MAX_CAP,
    ensures
        mint_run(c, amounts, mint_key, ata_key).mint.supply == c.mint.supply + minted_total(c, amounts, mint_key, ata_key),
        mint_run(c, amounts, mint_key, ata_key).mint.supply <= MAX_CAP,
    decreases amounts.len(),
{
    if amounts.len() > 0 {
        lemma_supply_tracks_minted(c, amounts.drop_last(), mint_key, ata_key);
    }
}

/// A mint that would carry the supply past the cap aborts, so the supply and
/// the destination balance stay as they were.
pub proof fn lemma_cap_violation_aborts(c: MintTokens, amount: u64, mint_key: Seq<u8>, ata_key: Seq<u8>)
    requires
        c.mint.supply + amount > MAX_CAP,
    ensures
        mint_tokens_outcome(c, amount, mint_key, ata_key) is Err,
{
}

/// A mint against the mint at its derived address, signed by the mint
/// authority, into a destination that binds and has room, succeeds exactly
/// when the supply stays within the cap, and then adds `amount` to both the
/// supply and the destination balance.
pub proof fn lemma_mint_within_cap_succeeds(c: MintTokens, amount: u64, mint_key: Seq<u8>, ata_key: Seq<u8>)
    requires
        c.mint.address@ == mint_key,
        is_authority(c.mint.mint_authority, c.payer),
        bound_account(c.destination, c.destination_address, c.destination_owner, c.mint.address, ata_key) is Ok,
        bound_account(c.destination, c.destination_address, c.destination_owner, c.mint.address, ata_key)->Ok_0.amount
            + amount <= u64::MAX,
    ensures
        c.mint.supply + amount <= MAX_CAP <==> mint_tokens_outcome(c, amount, mint_key, ata_key) is Ok,
        c.mint.supply + amount > MAX_CAP ==> mint_tokens_outcome(c, amount, mint_key, ata_key) == Err::<
            MintTokens,
            OmertaError,
        >(OmertaError::CapExceed),
        mint_tokens_outcome(c, amount, mint_key, ata_key) is Ok ==> {
            let after = mint_tokens_outcome(c, amount, mint_key, ata_key)->Ok_0;
            &&& after.mint.supply == c.mint.supply + amount
            &&& after.destination.unwrap().amount == bound_account(
                c.destination,
                c.destination_address,
                c.destination_owner,
                c.mint.address,
                ata_key,
            )->Ok_0.amount + amount
        },
{
}

/// A transfer of more than the source balance, between accounts that bind,
/// aborts with `InsufficientFunds`, so both balances stay as they were.
pub proof fn lemma_overdraft_fails(c: TransferToken, amount: u64, ata_key: Seq<u8>)
    requires
        amount > c.from_ata.amount,
        bound_account(c.to_ata, c.to_ata_address, c.to, c.mint.address, ata_key) is Ok,
    ensures
        transfer_outcome(c, amount, ata_key) == Err::<TransferToken, OmertaError>(OmertaError::InsufficientFunds),
{
}

/// A burn of `amount` followed by a mint of `amount` against the burned mint
/// restores the supply.
pub proof fn lemma_burn_then_mint_restores_supply(
    b: BurnTokens,
    amount: u64,
    m: MintTokens,
    mint_key: Seq<u8>,
    ata_key: Seq<u8>,
)
    requires
        burn_outcome(b, amount) is Ok,
        m.mint == burn_outcome(b, amount)->Ok_0.mint,
        mint_tokens_outcome(m, amount, mint_key, ata_key) is Ok,
    ensures
        mint_tokens_outcome(m, amount, mint_key, ata_key)->Ok_0.mint.supply == b.mint.supply,
{
}

/// After a burn from a mint within the cap, minting the same amount back
/// never exceeds the cap.
pub proof fn lemma_remint_after_burn_within_cap(
    b: BurnTokens,
    amount: u64,
    m: MintTokens,
    mint_key: Seq<u8>,
    ata_key: Seq<u8>,
)
    requires
        b.mint.supply <= MAX_CAP,
        burn_outcome(b, amount) is Ok,
        m.mint == burn_outcome(b, amount)->Ok_0.mint,
    ensures
        mint_tokens_outcome(m, amount, mint_key, ata_key) != Err::<MintTokens, OmertaError>(OmertaError::CapExceed),
{
}

/// A burn of `amount` from a mint within the cap, followed by a mint of
/// `amount` against the burned mint at its derived address, signed by its
/// authority into a destination that binds and has room, succeeds and
/// restores the supply.
pub proof fn lemma_burn_then_mint_succeeds(
    b: BurnTokens,
    amount: u64,
    m: MintTokens,
    mint_key: Seq<u8>,
    ata_key: Seq<u8>,
)
    requires
        b.mint.supply <= MAX_CAP,
        burn_outcome(b, amount) is Ok,
        m.mint == burn_outcome(b, amount)->Ok_0.mint,
        m.mint.address@ == mint_key,
        is_authority(m.mint.mint_authority, m.payer),
        bound_account(m.destination, m.destination_address, m.destination_owner, m.mint.address, ata_key) is Ok,
        bound_account(m.destination, m.destination_address, m.destination_owner, m.mint.address, ata_key)->Ok_0.amount
            + amount <= u64::MAX,
    ensures
        mint_tokens_outcome(m, amount, mint_key, ata_key) is Ok,
        mint_tokens_outcome(m, amount, mint_key, ata_key)->Ok_0.mint.supply == b.mint.supply,
{
    lemma_mint_within_cap_succeeds(m, amount, mint_key, ata_key);
}

/// A second approval on the same account supersedes the first: the account
/// is left with exactly the second delegate and amount.
pub proof fn lemma_second_approval_supersedes(c: ApproveToken, x: u64, delegate2: Address, y: u64)
    requires
        approve_outcome(c, x) is Ok,
    ensures
        ({
            let second = ApproveToken { delegate: delegate2, ..approve_outcome(c, x)->Ok_0 };
            &&& approve_outcome(second, y) is Ok
            &&& approve_outcome(second, y)->Ok_0.from_ata.delegate == Some(delegate2)
            &&& approve_outcome(second, y)->Ok_0.from_ata.delegated_amount == y
        }),
{
}

/// Once the authority is rotated from A to anything but A (another signer,
/// or none), a mint signed by A against the rotated mint fails with
/// `MintAuthorityMismatch`.
pub proof fn lemma_rotation_revokes_old_authority(
    rot: ChangeMintAuthority,
    new_authority: Option<Address>,
    m: MintTokens,
    amount: u64,
    mint_key: Seq<u8>,
    ata_key: Seq<u8>,
)
    requires
        change_mint_authority_outcome(rot, new_authority) is Ok,
        m.mint == change_mint_authority_outcome(rot, new_authority)->Ok_0.mint,
        m.payer@ == rot.current_authority@,
        !is_authority(new_authority, rot.current_authority),
        m.mint.address@ == mint_key,
    ensures
        mint_tokens_outcome(m, amount, mint_key, ata_key) == Err::<MintTokens, OmertaError>(
            OmertaError::MintAuthorityMismatch,
        ),
{
}

/// Every instruction that writes the mint keeps it well formed: the supply
/// stays within the cap and the precision within range.
pub proof fn lemma_mint_stays_well_formed(
    init: InitToken,
    params: InitTokenParams,
    m: MintTokens,
    b: BurnTokens,
    rot: ChangeMintAuthority,
    amount: u64,
    new_authority: Option<Address>,
    mint_key: Seq<u8>,
    ata_key: Seq<u8>,
)
    requires
        m.mint.wf(),
        b.mint.wf(),
        rot.mint.wf(),
    ensures
        init_token_outcome(init, params, mint_key) is Ok ==> init_token_outcome(init, params, mint_key)->Ok_0.mint.unwrap().wf(),
        mint_tokens_outcome(m, amount, mint_key, ata_key) is Ok ==> mint_tokens_outcome(m, amount, mint_key, ata_key)->Ok_0.mint.wf(),
        burn_outcome(b, amount) is Ok ==> burn_outcome(b, amount)->Ok_0.mint.wf(),
        change_mint_authority_outcome(rot, new_authority) is Ok ==> change_mint_authority_outcome(rot, new_authority)->Ok_0.mint.wf(),
{
}

/// Once minting is disabled, no mint succeeds and every later rotation
/// aborts: the supply stays final.
pub proof fn lemma_disabled_authority_is_final(
    m: MintTokens,
    rot: ChangeMintAuthority,
    amount: u64,
    new_authority: Option<Address>,
    mint_key: Seq<u8>,
    ata_key: Seq<u8>,
)
    requires
        m.mint.mint_authority is None,
        rot.mint.mint_authority is None,
    ensures
        mint_tokens_outcome(m, amount, mint_key, ata_key) is Err,
        change_mint_authority_outcome(rot, new_authority) == Err::<ChangeMintAuthority, OmertaError>(
            OmertaError::AuthorityDisabled,
        ),
{
}

/// Every instruction that writes token accounts keeps them well formed: an
/// allowance is left only beside a delegate.
pub proof fn lemma_token_accounts_stay_well_formed(
    m: MintTokens,
    t: TransferToken,
    a: ApproveToken,
    b: BurnTokens,
    amount: u64,
    mint_key: Seq<u8>,
    ata_key: Seq<u8>,
)
    requires
        m.destination matches Some(d) ==> d.wf(),
        t.from_ata.wf(),
        t.to_ata matches Some(d) ==> d.wf(),
        a.from_ata.wf(),
        b.from_ata.wf(),
    ensures
        mint_tokens_outcome(m, amount, mint_key, ata_key) is Ok ==> mint_tokens_outcome(
            m,
            amount,
            mint_key,
            ata_key,
        )->Ok_0.destination.unwrap().wf(),
        transfer_outcome(t, amount, ata_key) is Ok ==> {
            &&& transfer_outcome(t, amount, ata_key)->Ok_0.from_ata.wf()
            &&& (transfer_outcome(t, amount, ata_key)->Ok_0.to_ata matches Some(d) ==> d.wf())
        },
        approve_outcome(a, amount) is Ok ==> approve_outcome(a, amount)->Ok_0.from_ata.wf(),
        burn_outcome(b, amount) is Ok ==> burn_outcome(b, amount)->Ok_0.from_ata.wf(),
{
}

/// A transfer never changes who holds an account or which mint it belongs
/// to: the source keeps its owner and mint, an existing recipient keeps its
/// own, and a created recipient is the recipient's account of the mint
/// (a transfer onto the source itself creates nothing).
/// The mint itself is left as it was.
pub proof fn lemma_transfer_keeps_owners_and_mints(c: TransferToken, amount: u64, ata_key: Seq<u8>)
    requires
        transfer_outcome(c, amount, ata_key) is Ok,
    ensures
        ({
            let after = transfer_outcome(c, amount, ata_key)->Ok_0;
            &&& after.mint == c.mint
            &&& after.from_ata.address == c.from_ata.address
            &&& after.from_ata.owner == c.from_ata.owner
            &&& after.from_ata.mint == c.from_ata.mint
            &&& match c.to_ata {
                Some(d) => after.to_ata matches Some(e) && e.address == d.address && e.owner == d.owner && e.mint
                    == d.mint,
                None => if c.from_ata.address@ == c.to_ata_address@ {
                    after.to_ata is None
                } else {
                    after.to_ata matches Some(e) && e.address == c.to_ata_address && e.owner == c.to && e.mint
                        == c.mint.address
                },
            }
        }),
{
}

} // verus!
