use anchor_lang::prelude::Pubkey;
use vstd::prelude::*;

use crate::errors::OmertaError;

verus! {

/// A 32-byte account address on the ledger.
#[derive(Clone, Copy, Debug, PartialEq, Eq)]
pub struct Address {
    pub bytes: [u8; 32],
}

impl View for Address {
    type V = Seq<u8>;

    open spec fn view(&self) -> Seq<u8> {
        self.bytes@
    }
}

/// The program address (and bump seed) found for `seeds` under `program_id`,
/// or `None` when no bump seed gives a valid one.
pub uninterp spec fn program_address_of(seeds: Seq<Seq<u8>>, program_id: Seq<u8>) -> Option<(Seq<u8>, u8)>;

/// The view of a derivation result: the found address as bytes, with its bump.
pub open spec fn found_view(r: Option<(Address, u8)>) -> Option<(Seq<u8>, u8)> {
    match r {
        Some((a, b)) => Some((a@, b)),
        None => None,
    }
}

/// The byte strings of a list of seeds.
pub open spec fn seeds_view(seeds: Seq<Vec<u8>>) -> Seq<Seq<u8>> {
    seeds.map_values(|s: Vec<u8>| s@)
}

/// Relies on `Pubkey::try_find_program_address`: a deterministic search over
/// bump seeds, `None` when none of them yields an address off the curve.
#[verifier::external_body]
fn find_program_address(seeds: &Vec<Vec<u8>>, program_id: &Address) -> (r: Option<(Address, u8)>)
    ensures
        found_view(r) == program_address_of(seeds_view(seeds@), program_id@),
{
    let refs: Vec<&[u8]> = seeds.iter().map(|s| s.as_slice()).collect();
    let program = Pubkey::new_from_array(program_id.bytes);
    Pubkey::try_find_program_address(&refs, &program).map(|(k, b)| (Address { bytes: k.to_bytes() }, b))
}

impl Address {
    /// Whether two addresses are the same account.
    pub fn same_as(&self, other: &Address) -> (r: bool)
        ensures
            r == (self@ == other@),
    {
        let mut i: usize = 0;
        while i < 32
            invariant
                i <= 32,
                forall|j: int| 0 <= j < i ==> self.bytes@[j] == other.bytes@[j],
            decreases 32 - i,
        {
            if self.bytes[i] != other.bytes[i] {
                return false;
            }
            i = i + 1;
        }
        assert(self@ =~= other@);
        true
    }

    /// The address as a seed for a derivation.
    pub fn to_seed(&self) -> (r: Vec<u8>)
        ensures
            r@ == self@,
    {
        let mut v: Vec<u8> = Vec::new();
        let mut i: usize = 0;
        while i < 32
            invariant
                i <= 32,
                v@ =~= self@.subrange(0, i as int),
            decreases 32 - i,
        {
            v.push(self.bytes[i]);
            i = i + 1;
        }
        v
    }
}

/// The fixed seed from which the mint's address is derived: `b"mint"`.
pub open spec fn mint_seed_view() -> Seq<u8> {
    seq![109u8, 105u8, 110u8, 116u8]
}

/// The seeds of the mint's program-derived address.
pub open spec fn mint_seeds() -> Seq<Seq<u8>> {
    seq![mint_seed_view()]
}

/// The seeds of a holder's associated token account: the holder, the token
/// program and the mint.
pub open spec fn associated_seeds(wallet: Seq<u8>, token_program: Seq<u8>, mint: Seq<u8>) -> Seq<Seq<u8>> {
    seq![wallet, token_program, mint]
}

/// What a derivation gives to an instruction: the address, or the abort when
/// the search over bump seeds finds none.
pub open spec fn derivation_result(found: Option<(Seq<u8>, u8)>, r: Result<(Address, u8), OmertaError>) -> bool {
    match found {
        Some((a, b)) => r matches Ok((k, c)) && k@ == a && c == b,
        None => r == Err::<(Address, u8), OmertaError>(OmertaError::DerivationExhausted),
    }
}

/// The seed of the mint address as bytes.
pub fn mint_seed() -> (r: Vec<u8>)
    ensures
        r@ == mint_seed_view(),
{
    let mut v: Vec<u8> = Vec::new();
    v.push(109u8);
    v.push(105u8);
    v.push(110u8);
    v.push(116u8);
    assert(v@ =~= mint_seed_view());
    v
}

fn found_to_result(found: Option<(Address, u8)>) -> (r: Result<(Address, u8), OmertaError>)
    ensures
        derivation_result(found_view(found), r),
{
    match found {
        Some(p) => Ok(p),
        None => Err(OmertaError::DerivationExhausted),
    }
}

/// The derived authority: the mint's address and bump seed, recomputed from
/// the fixed seed and the program's own address on every call.
pub fn derive_mint_address(program_id: &Address) -> (r: Result<(Address, u8), OmertaError>)
    ensures
        derivation_result(program_address_of(mint_seeds(), program_id@), r),
{
    let mut seeds: Vec<Vec<u8>> = Vec::new();
    seeds.push(mint_seed());
    assert(seeds_view(seeds@) =~= mint_seeds());
    found_to_result(find_program_address(&seeds, program_id))
}

/// The associated token account of `wallet` for `mint`: the address derived
/// from the holder, the token program and the mint under the
/// associated-token program.
pub fn associated_token_address(
    wallet: &Address,
    mint: &Address,
    token_program: &Address,
    associated_token_program: &Address,
) -> (r: Result<(Address, u8), OmertaError>)
    ensures
        derivation_result(
            program_address_of(associated_seeds(wallet@, token_program@, mint@), associated_token_program@),
            r,
        ),
{
    let mut seeds: Vec<Vec<u8>> = Vec::new();
    seeds.push(wallet.to_seed());
    seeds.push(token_program.to_seed());
    seeds.push(mint.to_seed());
    assert(seeds_view(seeds@) =~= associated_seeds(wallet@, token_program@, mint@));
    found_to_result(find_program_address(&seeds, associated_token_program))
}

} // verus!
