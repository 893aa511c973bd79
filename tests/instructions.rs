use anchor_lang::prelude::Pubkey;
use anchor_spl::associated_token::get_associated_token_address;
use omerta_solana_spl::{
    apply_mint_tokens, apply_transfer, approve, associated_token_address, bind_token_account, burn,
    change_mint_authority, derive_mint_address, init_token, mint_seed, mint_tokens, transfer, update_metadata,
    Address, ApproveToken, BurnTokens, ChangeMintAuthority, InitToken, InitTokenParams, MetadataRecord,
    MintAccount, MintTokens, OmertaError, TokenAccount, TransferToken, UpdateMetadata, MAX_CAP,
};

fn addr(pk: &Pubkey) -> Address {
    Address { bytes: pk.to_bytes() }
}

fn key(n: u8) -> Address {
    Address { bytes: [n; 32] }
}

fn program_id() -> Address {
    key(7)
}

fn token_program() -> Address {
    addr(&anchor_spl::token::ID)
}

fn ata_program() -> Address {
    addr(&anchor_spl::associated_token::ID)
}

fn derived_mint() -> Address {
    let (k, _) = Pubkey::find_program_address(&[b"mint"], &Pubkey::new_from_array(program_id().bytes));
    addr(&k)
}

fn ata_of(wallet: Address, mint: Address) -> Address {
    addr(&get_associated_token_address(
        &Pubkey::new_from_array(wallet.bytes),
        &Pubkey::new_from_array(mint.bytes),
    ))
}

fn params(decimals: u8) -> InitTokenParams {
    InitTokenParams {
        name: "Omerta".to_string(),
        symbol: "OMT".to_string(),
        uri: "https://example.org/meta.json".to_string(),
        decimals,
    }
}

fn fresh_init(payer: Address) -> InitToken {
    InitToken {
        program_id: program_id(),
        metadata_address: key(40),
        metadata: None,
        mint_address: derived_mint(),
        mint: None,
        payer,
    }
}

fn mint_ctx(mint: MintAccount, payer: Address, destination: Option<TokenAccount>) -> MintTokens {
    MintTokens {
        program_id: program_id(),
        mint,
        destination_owner: payer,
        destination_address: ata_of(payer, mint.address),
        destination,
        payer,
        token_program: token_program(),
        associated_token_program: ata_program(),
    }
}

fn transfer_ctx(mint: MintAccount, from: Address, from_ata: TokenAccount, to: Address, to_ata: Option<TokenAccount>) -> TransferToken {
    TransferToken {
        from,
        to,
        mint,
        from_ata,
        to_ata_address: ata_of(to, mint.address),
        to_ata,
        token_program: token_program(),
        associated_token_program: ata_program(),
    }
}

fn holder_account(owner: Address, mint: Address, amount: u64) -> TokenAccount {
    TokenAccount { address: ata_of(owner, mint), mint, owner, amount, delegate: None, delegated_amount: 0 }
}

fn plain_mint(supply: u64, authority: Option<Address>) -> MintAccount {
    MintAccount { address: derived_mint(), supply, decimals: 6, mint_authority: authority, freeze_authority: None }
}

#[test]
fn mint_seed_is_fixed() {
    assert_eq!(mint_seed(), b"mint".to_vec());
}

#[test]
fn derived_mint_address_matches_ledger_derivation() {
    let (k, bump) = Pubkey::find_program_address(&[b"mint"], &Pubkey::new_from_array(program_id().bytes));
    let r = derive_mint_address(&program_id());
    assert_eq!(r, Ok((addr(&k), bump)));
    assert_ne!(addr(&k), program_id());
    assert_eq!(derive_mint_address(&program_id()), r);
}

#[test]
fn associated_address_matches_ledger_convention() {
    let wallet = key(11);
    let mint = derived_mint();
    let (a, _) = associated_token_address(&wallet, &mint, &token_program(), &ata_program()).unwrap();
    assert_eq!(a, ata_of(wallet, mint));
    assert_ne!(a, wallet);
}

#[test]
fn cap_scenario_initialize_mint_and_refuse_over_cap() {
    let h1 = key(11);
    let mut init = fresh_init(h1);
    assert_eq!(init_token(&mut init, params(6)), Ok(()));
    let mint = init.mint.unwrap();
    assert_eq!(mint.supply, 0);
    assert_eq!(mint.decimals, 6);
    assert_eq!(mint.mint_authority, Some(h1));
    let md = init.metadata.clone().unwrap();
    assert_eq!(md.name, "Omerta");
    assert_eq!(md.symbol, "OMT");
    assert!(md.is_mutable);
    assert_eq!(md.mint, mint.address);

    let mut m = mint_ctx(mint, h1, None);
    assert_eq!(mint_tokens(&mut m, 50_000_000_000_000_000), Ok(()));
    assert_eq!(m.mint.supply, 50_000_000_000_000_000);
    assert_eq!(m.destination.unwrap().amount, 50_000_000_000_000_000);
    let before = m;
    assert_eq!(mint_tokens(&mut m, 60_000_000_000_000_000), Err(OmertaError::CapExceed));
    assert_eq!(m.mint.supply, 50_000_000_000_000_000);
    assert_eq!(m, before);
}

#[test]
fn transfer_scenario_after_minting() {
    let h1 = key(11);
    let h2 = key(12);
    let mut m = mint_ctx(plain_mint(0, Some(h1)), h1, None);
    assert_eq!(mint_tokens(&mut m, 50_000_000_000_000_000), Ok(()));
    let mut t = transfer_ctx(m.mint, h1, m.destination.unwrap(), h2, None);
    assert_eq!(transfer(&mut t, 10_000_000_000_000_000), Ok(()));
    assert_eq!(t.from_ata.amount, 40_000_000_000_000_000);
    let to = t.to_ata.unwrap();
    assert_eq!(to.amount, 10_000_000_000_000_000);
    assert_eq!(to.owner, h2);
    assert_eq!(t.mint.supply, 50_000_000_000_000_000);
}

#[test]
fn supply_is_sum_of_successful_mints() {
    let h1 = key(11);
    let mut m = mint_ctx(plain_mint(0, Some(h1)), h1, None);
    let amounts = [30_000_000_000_000_000u64, 80_000_000_000_000_000, 70_000_000_000_000_000, 1];
    let mut total: u64 = 0;
    for a in amounts {
        if mint_tokens(&mut m, a).is_ok() {
            total += a;
        }
        assert_eq!(m.mint.supply, total);
        assert!(m.mint.supply <= MAX_CAP);
    }
    assert_eq!(total, MAX_CAP);
}

#[test]
fn minting_exactly_to_the_cap_succeeds() {
    let h1 = key(11);
    let mut m = mint_ctx(plain_mint(MAX_CAP - 5, Some(h1)), h1, None);
    assert_eq!(mint_tokens(&mut m, 5), Ok(()));
    assert_eq!(m.mint.supply, MAX_CAP);
    assert_eq!(mint_tokens(&mut m, 1), Err(OmertaError::CapExceed));
    assert_eq!(mint_tokens(&mut m, u64::MAX), Err(OmertaError::CapExceed));
}

#[test]
fn overdraft_fails_and_changes_nothing() {
    let h1 = key(11);
    let h2 = key(12);
    let mint = plain_mint(100, Some(h1));
    let mut t = transfer_ctx(mint, h1, holder_account(h1, mint.address, 100), h2, Some(holder_account(h2, mint.address, 3)));
    let before = t;
    assert_eq!(transfer(&mut t, 101), Err(OmertaError::InsufficientFunds));
    assert_eq!(t, before);
}

#[test]
fn burn_then_mint_restores_supply() {
    let h1 = key(11);
    let mint = plain_mint(500, Some(h1));
    let mut b = BurnTokens { mint, from_ata: holder_account(h1, mint.address, 500), payer: h1 };
    assert_eq!(burn(&mut b, 200), Ok(()));
    assert_eq!(b.mint.supply, 300);
    assert_eq!(b.from_ata.amount, 300);
    let mut m = mint_ctx(b.mint, h1, Some(b.from_ata));
    assert_eq!(mint_tokens(&mut m, 200), Ok(()));
    assert_eq!(m.mint.supply, 500);
}

#[test]
fn second_approval_replaces_the_first() {
    let h1 = key(11);
    let mint = derived_mint();
    let mut a = ApproveToken { from_ata: holder_account(h1, mint, 10), from: h1, delegate: key(21) };
    assert_eq!(approve(&mut a, 7), Ok(()));
    assert_eq!(a.from_ata.delegate, Some(key(21)));
    a.delegate = key(22);
    assert_eq!(approve(&mut a, 3), Ok(()));
    assert_eq!(a.from_ata.delegate, Some(key(22)));
    assert_eq!(a.from_ata.delegated_amount, 3);
    assert_eq!(a.from_ata.amount, 10);
}

#[test]
fn approval_needs_no_balance_but_the_owner() {
    let h1 = key(11);
    let mint = derived_mint();
    let mut a = ApproveToken { from_ata: holder_account(h1, mint, 0), from: h1, delegate: key(21) };
    assert_eq!(approve(&mut a, 1_000), Ok(()));
    assert_eq!(a.from_ata.delegated_amount, 1_000);
    let mut bad = ApproveToken { from_ata: holder_account(h1, mint, 0), from: key(12), delegate: key(21) };
    let before = bad;
    assert_eq!(approve(&mut bad, 5), Err(OmertaError::OwnerMismatch));
    assert_eq!(bad, before);
}

#[test]
fn rotation_revokes_the_old_authority() {
    let a = key(11);
    let b = key(12);
    let mut rot = ChangeMintAuthority { mint: plain_mint(0, Some(a)), current_authority: a };
    assert_eq!(change_mint_authority(&mut rot, Some(b)), Ok(()));
    assert_eq!(rot.mint.mint_authority, Some(b));
    let mut m = mint_ctx(rot.mint, a, None);
    assert_eq!(mint_tokens(&mut m, 1), Err(OmertaError::MintAuthorityMismatch));
    let mut m2 = mint_ctx(rot.mint, b, None);
    assert_eq!(mint_tokens(&mut m2, 1), Ok(()));
    let mut again = ChangeMintAuthority { mint: rot.mint, current_authority: a };
    assert_eq!(change_mint_authority(&mut again, Some(a)), Err(OmertaError::MintAuthorityMismatch));
}

#[test]
fn disabled_authority_cannot_mint_or_rotate() {
    let a = key(11);
    let mut rot = ChangeMintAuthority { mint: plain_mint(0, None), current_authority: a };
    assert_eq!(change_mint_authority(&mut rot, Some(a)), Err(OmertaError::AuthorityDisabled));
    let mut m = mint_ctx(plain_mint(0, None), a, None);
    assert_eq!(mint_tokens(&mut m, 1), Err(OmertaError::MintAuthorityMismatch));
}

#[test]
fn second_initialize_is_refused() {
    let h1 = key(11);
    let mut init = fresh_init(h1);
    assert_eq!(init_token(&mut init, params(6)), Ok(()));
    let before = init.clone();
    assert_eq!(init_token(&mut init, params(6)), Err(OmertaError::AlreadyInitialized));
    assert_eq!(init, before);
}

#[test]
fn initialize_checks_decimals_and_address() {
    let h1 = key(11);
    let mut init = fresh_init(h1);
    assert_eq!(init_token(&mut init, params(10)), Err(OmertaError::InvalidDecimals));
    assert_eq!(init_token(&mut init, params(9)), Ok(()));
    let mut wrong = fresh_init(h1);
    wrong.mint_address = key(3);
    assert_eq!(init_token(&mut wrong, params(6)), Err(OmertaError::SeedsMismatch));
    assert!(wrong.mint.is_none());
}

#[test]
fn mint_checks_mint_address_and_destination() {
    let h1 = key(11);
    let mut off_seed = mint_ctx(MintAccount { address: key(3), ..plain_mint(0, Some(h1)) }, h1, None);
    assert_eq!(mint_tokens(&mut off_seed, 1), Err(OmertaError::SeedsMismatch));
    let mut stray = mint_ctx(plain_mint(0, Some(h1)), h1, None);
    stray.destination_address = key(4);
    assert_eq!(mint_tokens(&mut stray, 1), Err(OmertaError::NotAssociatedTokenAccount));
    let mint = plain_mint(0, Some(h1));
    let foreign = TokenAccount { mint: key(5), ..holder_account(h1, mint.address, 0) };
    let mut other_mint = mint_ctx(mint, h1, Some(foreign));
    assert_eq!(mint_tokens(&mut other_mint, 1), Err(OmertaError::TokenMintMismatch));
    let held = TokenAccount { owner: key(12), ..holder_account(h1, mint.address, 0) };
    let mut other_owner = mint_ctx(mint, h1, Some(held));
    assert_eq!(mint_tokens(&mut other_owner, 1), Err(OmertaError::TokenOwnerMismatch));
}

#[test]
fn mint_overflowing_the_destination_fails() {
    let h1 = key(11);
    let mint = plain_mint(0, Some(h1));
    let full = holder_account(h1, mint.address, u64::MAX);
    let mut m = mint_ctx(mint, h1, Some(full));
    assert_eq!(apply_mint_tokens(&mut m, 1, &mint.address, &full.address), Err(OmertaError::Overflow));
}

#[test]
fn delegate_spends_from_its_allowance() {
    let h1 = key(11);
    let h2 = key(12);
    let d = key(21);
    let mint = plain_mint(100, Some(h1));
    let src = TokenAccount { delegate: Some(d), delegated_amount: 30, ..holder_account(h1, mint.address, 100) };
    let mut t = transfer_ctx(mint, d, src, h2, None);
    assert_eq!(transfer(&mut t, 40), Err(OmertaError::InsufficientFunds));
    assert_eq!(transfer(&mut t, 20), Ok(()));
    assert_eq!(t.from_ata.amount, 80);
    assert_eq!(t.from_ata.delegated_amount, 10);
    assert_eq!(t.from_ata.delegate, Some(d));
    let mut t2 = transfer_ctx(mint, d, t.from_ata, h2, t.to_ata);
    assert_eq!(transfer(&mut t2, 10), Ok(()));
    assert_eq!(t2.from_ata.delegate, None);
    assert_eq!(t2.from_ata.delegated_amount, 0);
    assert_eq!(t2.to_ata.unwrap().amount, 30);
}

#[test]
fn stranger_cannot_transfer() {
    let h1 = key(11);
    let h2 = key(12);
    let mint = plain_mint(100, Some(h1));
    let mut t = transfer_ctx(mint, key(13), holder_account(h1, mint.address, 100), h2, None);
    assert_eq!(transfer(&mut t, 1), Err(OmertaError::OwnerMismatch));
}

#[test]
fn transfer_between_mints_fails() {
    let h1 = key(11);
    let h2 = key(12);
    let mint = plain_mint(100, Some(h1));
    let src = TokenAccount { mint: key(5), ..holder_account(h1, mint.address, 100) };
    let mut t = transfer_ctx(mint, h1, src, h2, None);
    assert_eq!(transfer(&mut t, 1), Err(OmertaError::TokenMintMismatch));
}

#[test]
fn transfer_onto_itself_moves_nothing() {
    let h1 = key(11);
    let mint = plain_mint(100, Some(h1));
    let acct = holder_account(h1, mint.address, 100);
    let mut t = transfer_ctx(mint, h1, acct, h1, Some(acct));
    assert_eq!(transfer(&mut t, 60), Ok(()));
    assert_eq!(t.from_ata.amount, 100);
    assert_eq!(t.to_ata.unwrap().amount, 100);
}

#[test]
fn transfer_overflowing_the_recipient_fails() {
    let h1 = key(11);
    let h2 = key(12);
    let mint = plain_mint(100, Some(h1));
    let to = holder_account(h2, mint.address, u64::MAX);
    let mut t = transfer_ctx(mint, h1, holder_account(h1, mint.address, 100), h2, Some(to));
    assert_eq!(apply_transfer(&mut t, 1, &to.address), Err(OmertaError::Overflow));
}

#[test]
fn burn_refuses_overdraft_stranger_and_other_mint() {
    let h1 = key(11);
    let mint = plain_mint(50, Some(h1));
    let mut b = BurnTokens { mint, from_ata: holder_account(h1, mint.address, 50), payer: h1 };
    assert_eq!(burn(&mut b, 51), Err(OmertaError::InsufficientFunds));
    let mut s = BurnTokens { mint, from_ata: holder_account(h1, mint.address, 50), payer: key(13) };
    assert_eq!(burn(&mut s, 1), Err(OmertaError::OwnerMismatch));
    let mut o = BurnTokens { mint, from_ata: TokenAccount { mint: key(5), ..holder_account(h1, mint.address, 50) }, payer: h1 };
    assert_eq!(burn(&mut o, 1), Err(OmertaError::TokenMintMismatch));
    let mut short = BurnTokens { mint: plain_mint(10, Some(h1)), from_ata: holder_account(h1, mint.address, 50), payer: h1 };
    assert_eq!(burn(&mut short, 20), Err(OmertaError::Overflow));
}

fn record(authority: Address, is_mutable: bool) -> MetadataRecord {
    MetadataRecord {
        address: key(40),
        mint: derived_mint(),
        name: "Omerta".to_string(),
        symbol: "OMT".to_string(),
        uri: "https://example.org/meta.json".to_string(),
        is_mutable,
        update_authority: authority,
    }
}

#[test]
fn metadata_update_by_its_authority() {
    let h1 = key(11);
    let mut u = UpdateMetadata { metadata: record(h1, true), mint: plain_mint(0, Some(h1)), payer: h1 };
    let new = InitTokenParams { name: "Omerta II".to_string(), symbol: "OM2".to_string(), uri: "https://example.org/2.json".to_string(), decimals: 6 };
    assert_eq!(update_metadata(&mut u, new), Ok(()));
    assert_eq!(u.metadata.name, "Omerta II");
    assert_eq!(u.metadata.symbol, "OM2");
    assert_eq!(u.metadata.uri, "https://example.org/2.json");
    assert_eq!(u.mint.supply, 0);
}

#[test]
fn metadata_update_refused() {
    let h1 = key(11);
    let mut other = UpdateMetadata { metadata: record(h1, true), mint: plain_mint(0, Some(h1)), payer: key(12) };
    assert_eq!(update_metadata(&mut other, params(6)), Err(OmertaError::UpdateAuthorityMismatch));
    let mut frozen = UpdateMetadata { metadata: record(h1, false), mint: plain_mint(0, Some(h1)), payer: h1 };
    assert_eq!(update_metadata(&mut frozen, params(6)), Err(OmertaError::ImmutableMetadata));
    assert_eq!(frozen.metadata, record(h1, false));
}

#[test]
fn binding_creates_an_absent_account_once() {
    let h1 = key(11);
    let mint = derived_mint();
    let ata = ata_of(h1, mint);
    let created = bind_token_account(&None, &ata, &h1, &mint, &ata).unwrap();
    assert_eq!(created, TokenAccount { address: ata, mint, owner: h1, amount: 0, delegate: None, delegated_amount: 0 });
    let existing = TokenAccount { amount: 9, ..created };
    assert_eq!(bind_token_account(&Some(existing), &ata, &h1, &mint, &ata), Ok(existing));
}

#[test]
fn metadata_of_another_mint_is_refused() {
    let h1 = key(11);
    let foreign = MetadataRecord { mint: key(5), ..record(h1, true) };
    let mut u = UpdateMetadata { metadata: foreign.clone(), mint: plain_mint(0, Some(h1)), payer: h1 };
    assert_eq!(update_metadata(&mut u, params(6)), Err(OmertaError::MetadataMintMismatch));
    assert_eq!(u.metadata, foreign);
}

#[test]
fn removing_the_authority_fixes_the_supply() {
    let a = key(11);
    let mut rot = ChangeMintAuthority { mint: plain_mint(700, Some(a)), current_authority: a };
    assert_eq!(change_mint_authority(&mut rot, None), Ok(()));
    assert_eq!(rot.mint.mint_authority, None);
    assert_eq!(rot.mint.supply, 700);
    let mut m = mint_ctx(rot.mint, a, None);
    assert_eq!(mint_tokens(&mut m, 1), Err(OmertaError::MintAuthorityMismatch));
    assert_eq!(m.mint.supply, 700);
    let mut again = ChangeMintAuthority { mint: rot.mint, current_authority: a };
    assert_eq!(change_mint_authority(&mut again, Some(a)), Err(OmertaError::AuthorityDisabled));
}

#[test]
fn mint_to_another_holder() {
    let h1 = key(11);
    let h2 = key(12);
    let mint = plain_mint(0, Some(h1));
    let mut m = MintTokens { destination_owner: h2, destination_address: ata_of(h2, mint.address), ..mint_ctx(mint, h1, None) };
    assert_eq!(mint_tokens(&mut m, 25), Ok(()));
    let d = m.destination.unwrap();
    assert_eq!(d.owner, h2);
    assert_eq!(d.amount, 25);
    assert_eq!(m.mint.supply, 25);
    let mut wrong = MintTokens { destination_owner: h2, ..mint_ctx(mint, h1, None) };
    assert_eq!(mint_tokens(&mut wrong, 25), Err(OmertaError::NotAssociatedTokenAccount));
}

#[test]
fn delegate_transfer_onto_itself_keeps_the_allowance() {
    let h1 = key(11);
    let d = key(21);
    let mint = plain_mint(100, Some(h1));
    let acct = TokenAccount { delegate: Some(d), delegated_amount: 30, ..holder_account(h1, mint.address, 100) };
    let mut t = transfer_ctx(mint, d, acct, h1, Some(acct));
    assert_eq!(transfer(&mut t, 30), Ok(()));
    assert_eq!(t.from_ata, acct);
    assert_eq!(t.to_ata, Some(acct));
    assert_eq!(transfer(&mut t, 31), Err(OmertaError::InsufficientFunds));
}

#[test]
fn transfer_onto_itself_leaves_the_recipient_record() {
    let h1 = key(11);
    let h2 = key(12);
    let mint = plain_mint(100, Some(h1));
    let acct = holder_account(h1, mint.address, 100);
    let other = holder_account(h2, mint.address, 4);
    let mut t = TransferToken { to_ata_address: acct.address, ..transfer_ctx(mint, h1, acct, h2, Some(other)) };
    let before = t;
    assert_eq!(apply_transfer(&mut t, 10, &acct.address), Err(OmertaError::NotAssociatedTokenAccount));
    assert_eq!(t, before);
}

#[test]
fn binding_refuses_a_record_of_another_address() {
    let h1 = key(11);
    let mint = derived_mint();
    let ata = ata_of(h1, mint);
    let elsewhere = TokenAccount { address: key(6), mint, owner: h1, amount: 9, delegate: None, delegated_amount: 0 };
    assert_eq!(bind_token_account(&Some(elsewhere), &ata, &h1, &mint, &ata), Err(OmertaError::NotAssociatedTokenAccount));
}
