use vault::addr::Address;
use vault::errors::ErrorCode;
use vault::ledger::Ledger;
use vault::ops::{deposit, initialize, withdraw, CloseVault, Deposit, Initialize, Withdraw};
use vault::pda::{
    check_state_address, check_vault_address, derive_state_address, derive_vault_address,
    reconstruct_signing_authority, SeedProof,
};

fn program_id() -> Address {
    Address::new([7u8; 32])
}

fn owner_a() -> Address {
    Address::new([1u8; 32])
}

fn owner_b() -> Address {
    Address::new([2u8; 32])
}

/// Derives the (state record, vault) addresses for an owner.
fn accounts_for(owner: &Address) -> (Address, Address) {
    let program = program_id();
    let (state, _) = derive_state_address(&program, owner).expect("state derivation");
    let (vault_acct, _) = derive_vault_address(&program, &state).expect("vault derivation");
    (state, vault_acct)
}

/// A funded, initialized owner: returns the ledger and the owner's
/// resolved accounts.
fn initialized_ledger(owner: &Address, funding: u64) -> (Ledger, Address, Address) {
    let program = program_id();
    let mut ledger = Ledger::new();
    ledger.credit(owner, funding).expect("funding");
    initialize(&mut ledger, &program, &Initialize { owner: *owner }).expect("initialize");
    let (state, vault_acct) = accounts_for(owner);
    (ledger, state, vault_acct)
}

#[test]
fn derivation_is_deterministic() {
    let program = program_id();
    let owner = owner_a();
    let first = derive_state_address(&program, &owner).expect("state derivation");
    let second = derive_state_address(&program, &owner).expect("state derivation");
    assert!(first.0.equals(&second.0));
    assert_eq!(first.1, second.1);
    let v1 = derive_vault_address(&program, &first.0).expect("vault derivation");
    let v2 = derive_vault_address(&program, &second.0).expect("vault derivation");
    assert!(v1.0.equals(&v2.0));
    assert_eq!(v1.1, v2.1);
}

#[test]
fn derived_addresses_are_fresh() {
    let program = program_id();
    let owner = owner_a();
    let (state, state_bump) = derive_state_address(&program, &owner).expect("state derivation");
    let (vault_acct, vault_bump) = derive_vault_address(&program, &state).expect("vault derivation");
    assert!(!state.equals(&owner));
    assert!(!vault_acct.equals(&state));
    assert!(!vault_acct.equals(&owner));
    // The found bump re-derives exactly the found address.
    assert!(check_state_address(&program, &owner, state_bump, &state));
    assert!(check_vault_address(&program, &state, vault_bump, &vault_acct));
    // A different bump never re-derives the same address.
    assert!(!check_state_address(&program, &owner, state_bump.wrapping_add(1), &state));
    assert!(!check_vault_address(&program, &state, vault_bump.wrapping_add(1), &vault_acct));
}

#[test]
fn initialize_records_rederivable_nonces() {
    let program = program_id();
    let owner = owner_a();
    let (ledger, state, vault_acct) = initialized_ledger(&owner, 0);
    let record = ledger.record_of(&state).expect("record exists");
    assert!(check_state_address(&program, &owner, record.state_bump, &state));
    assert!(check_vault_address(&program, &state, record.vault_bump, &vault_acct));
}

#[test]
fn initialize_twice_fails_and_preserves_nonces() {
    let program = program_id();
    let owner = owner_a();
    let (mut ledger, state, _) = initialized_ledger(&owner, 0);
    let first_record = ledger.record_of(&state).expect("record exists");
    let second = initialize(&mut ledger, &program, &Initialize { owner });
    assert_eq!(second, Err(ErrorCode::AlreadyInitialized));
    let record_after = ledger.record_of(&state).expect("record still exists");
    assert_eq!(record_after, first_record);
}

#[test]
fn deposit_then_withdraw_restores_balances() {
    let program = program_id();
    let owner = owner_a();
    let (mut ledger, state, vault_acct) = initialized_ledger(&owner, 500);
    let accounts = Deposit { signer: owner, vault_state: state, vault: vault_acct };
    deposit(&mut ledger, &program, &accounts, 300).expect("deposit");
    assert_eq!(ledger.balance_of(&owner), 200);
    assert_eq!(ledger.balance_of(&vault_acct), 300);
    let accounts = Withdraw { signer: owner, vault_state: state, vault: vault_acct };
    withdraw(&mut ledger, &program, &accounts, 300).expect("withdraw");
    assert_eq!(ledger.balance_of(&owner), 500);
    assert_eq!(ledger.balance_of(&vault_acct), 0);
}

#[test]
fn withdraw_boundary_exact_and_over() {
    let program = program_id();
    let owner = owner_a();
    let (mut ledger, state, vault_acct) = initialized_ledger(&owner, 100);
    let dep = Deposit { signer: owner, vault_state: state, vault: vault_acct };
    deposit(&mut ledger, &program, &dep, 100).expect("deposit");
    let wd = Withdraw { signer: owner, vault_state: state, vault: vault_acct };
    // One unit more than the balance is rejected and changes nothing.
    assert_eq!(withdraw(&mut ledger, &program, &wd, 101), Err(ErrorCode::InsufficientFunds));
    assert_eq!(ledger.balance_of(&vault_acct), 100);
    assert_eq!(ledger.balance_of(&owner), 0);
    // Exactly the balance drains the vault.
    withdraw(&mut ledger, &program, &wd, 100).expect("withdraw all");
    assert_eq!(ledger.balance_of(&vault_acct), 0);
    assert_eq!(ledger.balance_of(&owner), 100);
}

#[test]
fn scenario_million_deposit_partial_withdrawals() {
    let program = program_id();
    let owner = owner_a();
    let (mut ledger, state, vault_acct) = initialized_ledger(&owner, 1_000_000);
    let dep = Deposit { signer: owner, vault_state: state, vault: vault_acct };
    deposit(&mut ledger, &program, &dep, 1_000_000).expect("deposit");
    let wd = Withdraw { signer: owner, vault_state: state, vault: vault_acct };
    withdraw(&mut ledger, &program, &wd, 400_000).expect("withdraw part");
    assert_eq!(ledger.balance_of(&vault_acct), 600_000);
    assert_eq!(withdraw(&mut ledger, &program, &wd, 700_000), Err(ErrorCode::InsufficientFunds));
    assert_eq!(ledger.balance_of(&vault_acct), 600_000);
}

#[test]
fn owners_are_isolated() {
    let program = program_id();
    let a = owner_a();
    let b = owner_b();
    let mut ledger = Ledger::new();
    ledger.credit(&a, 1_000).expect("fund a");
    ledger.credit(&b, 1_000).expect("fund b");
    initialize(&mut ledger, &program, &Initialize { owner: a }).expect("initialize a");
    initialize(&mut ledger, &program, &Initialize { owner: b }).expect("initialize b");
    let (state_a, vault_a) = accounts_for(&a);
    let (state_b, vault_b) = accounts_for(&b);
    assert!(!state_a.equals(&state_b));
    assert!(!vault_a.equals(&vault_b));
    let record_b = ledger.record_of(&state_b).expect("b record");
    let dep = Deposit { signer: a, vault_state: state_a, vault: vault_a };
    deposit(&mut ledger, &program, &dep, 750).expect("deposit a");
    let wd = Withdraw { signer: a, vault_state: state_a, vault: vault_a };
    withdraw(&mut ledger, &program, &wd, 250).expect("withdraw a");
    // Nothing of owner B moved.
    assert_eq!(ledger.balance_of(&b), 1_000);
    assert_eq!(ledger.balance_of(&vault_b), 0);
    assert_eq!(ledger.record_of(&state_b).expect("b record kept"), record_b);
}

#[test]
fn deposit_rejects_mismatched_accounts() {
    let program = program_id();
    let a = owner_a();
    let b = owner_b();
    let mut ledger = Ledger::new();
    ledger.credit(&a, 1_000).expect("fund a");
    initialize(&mut ledger, &program, &Initialize { owner: a }).expect("initialize a");
    initialize(&mut ledger, &program, &Initialize { owner: b }).expect("initialize b");
    let (state_a, vault_a) = accounts_for(&a);
    let (state_b, vault_b) = accounts_for(&b);
    // A's signature over B's state record: the state re-derivation fails.
    let dep = Deposit { signer: a, vault_state: state_b, vault: vault_b };
    assert_eq!(deposit(&mut ledger, &program, &dep, 10), Err(ErrorCode::DerivationMismatch));
    // A's own state record but B's vault: the vault re-derivation fails.
    let dep = Deposit { signer: a, vault_state: state_a, vault: vault_b };
    assert_eq!(deposit(&mut ledger, &program, &dep, 10), Err(ErrorCode::DerivationMismatch));
    // A state address that holds no record at all.
    let dep = Deposit { signer: a, vault_state: vault_a, vault: vault_a };
    assert_eq!(deposit(&mut ledger, &program, &dep, 10), Err(ErrorCode::DerivationMismatch));
    assert_eq!(ledger.balance_of(&a), 1_000);
}

#[test]
fn deposit_propagates_transfer_failure() {
    let program = program_id();
    let owner = owner_a();
    let (mut ledger, state, vault_acct) = initialized_ledger(&owner, 10);
    let dep = Deposit { signer: owner, vault_state: state, vault: vault_acct };
    assert_eq!(
        deposit(&mut ledger, &program, &dep, 100),
        Err(ErrorCode::UnderlyingTransferFailure)
    );
    assert_eq!(ledger.balance_of(&owner), 10);
    assert_eq!(ledger.balance_of(&vault_acct), 0);
}

#[test]
fn credit_rejects_overflow() {
    let owner = owner_a();
    let mut ledger = Ledger::new();
    ledger.credit(&owner, u64::MAX).expect("fill up");
    assert_eq!(ledger.credit(&owner, 1), Err(ErrorCode::UnderlyingTransferFailure));
    assert_eq!(ledger.balance_of(&owner), u64::MAX);
}

#[test]
fn vault_transfer_requires_valid_seed_proof() {
    let program = program_id();
    let owner = owner_a();
    let (mut ledger, state, vault_acct) = initialized_ledger(&owner, 100);
    let dep = Deposit { signer: owner, vault_state: state, vault: vault_acct };
    deposit(&mut ledger, &program, &dep, 100).expect("deposit");
    let record = ledger.record_of(&state).expect("record");
    // A proof with a wrong bump does not re-derive the vault: rejected.
    let bad = SeedProof { state_address: state, vault_bump: record.vault_bump.wrapping_add(1) };
    assert_eq!(
        ledger.transfer_from_vault(&program, &bad, &vault_acct, &owner, 50),
        Err(ErrorCode::UnderlyingTransferFailure)
    );
    assert_eq!(ledger.balance_of(&vault_acct), 100);
    // The proof rebuilt from the recorded nonce is accepted.
    let good = reconstruct_signing_authority(&state, &record);
    ledger
        .transfer_from_vault(&program, &good, &vault_acct, &owner, 50)
        .expect("authorized transfer");
    assert_eq!(ledger.balance_of(&vault_acct), 50);
    assert_eq!(ledger.balance_of(&owner), 50);
}

#[test]
fn close_vault_is_a_stub() {
    let accounts = CloseVault { signer: owner_a() };
    assert_eq!(accounts.close_vault(), Ok(()));
}
