//! The laws of the vault, each proved from the operations' own
//! specifications.

use vstd::prelude::*;
use crate::errors::ErrorCode;
use crate::ledger::{LedgerView, total_ledger};
use crate::ops::{spec_accounts_valid, spec_deposit, spec_initialize, spec_withdraw};
use crate::pda;
use crate::pda::VaultState;

verus! {

/// Law: derivation is deterministic — within one derivation context (a
/// program id), two results of the state-record derivation for the same
/// owner are the same (address, nonce) pair, and likewise for the vault
/// derivation from the same state address.
pub proof fn lemma_derivation_deterministic(
    program: Seq<u8>,
    owner: Seq<u8>,
    state_address: Seq<u8>,
    r1: Option<(Seq<u8>, u8)>,
    r2: Option<(Seq<u8>, u8)>,
    v1: Option<(Seq<u8>, u8)>,
    v2: Option<(Seq<u8>, u8)>,
)
    requires
        r1 == pda::spec_state_derivation(program, owner),
        r2 == pda::spec_state_derivation(program, owner),
        v1 == pda::spec_vault_derivation(program, state_address),
        v2 == pda::spec_vault_derivation(program, state_address),
    ensures
        r1 == r2,
        v1 == v2,
{
}

/// Law: the nonces recorded at initialization reproduce both
/// derivations — the recorded `state_bump` re-derives the state
/// record's own address from the owner identity, and the recorded
/// `vault_bump` re-derives, from that address, exactly the vault
/// address the initialization found. In particular the initialized
/// accounts pass every later derivation check.
pub proof fn lemma_recorded_nonces_rederive(
    l: LedgerView,
    program: Seq<u8>,
    owner: Seq<u8>,
    l1: LedgerView,
)
    requires
        spec_initialize(l, program, owner) == Ok::<LedgerView, ErrorCode>(l1),
    ensures
        pda::spec_state_derivation(program, owner) is Some,
        ({
            let sd = pda::spec_state_derivation(program, owner)->Some_0;
            let vd = pda::spec_vault_derivation(program, sd.0)->Some_0;
            &&& pda::spec_vault_derivation(program, sd.0) is Some
            &&& l1[sd.0].record == Some(VaultState { vault_bump: vd.1, state_bump: sd.1 })
            &&& pda::pda_at(pda::state_seeds(owner), sd.1, program) == Some(sd.0)
            &&& pda::pda_at(pda::vault_seeds(sd.0), vd.1, program) == Some(vd.0)
            &&& spec_accounts_valid(l1, program, owner, sd.0, vd.0)
        }),
{
    let sd = pda::spec_state_derivation(program, owner)->Some_0;
    let vd = pda::spec_vault_derivation(program, sd.0)->Some_0;
    pda::lemma_derivation_sound(pda::state_seeds(owner), program, sd.0, sd.1);
    pda::lemma_derivation_sound(pda::vault_seeds(sd.0), program, vd.0, vd.1);
}

/// Law: initialization happens at most once — after a successful
/// `initialize`, a second one for the same owner fails with
/// `AlreadyInitialized`, and by the operations' contracts an error
/// alters no account, in particular not the recorded nonces.
pub proof fn lemma_initialize_at_most_once(
    l: LedgerView,
    program: Seq<u8>,
    owner: Seq<u8>,
    l1: LedgerView,
)
    requires
        spec_initialize(l, program, owner) == Ok::<LedgerView, ErrorCode>(l1),
    ensures
        spec_initialize(l1, program, owner) == Err::<LedgerView, ErrorCode>(
            ErrorCode::AlreadyInitialized,
        ),
{
}

/// Law: round trip — a deposit followed by a withdrawal of the same
/// amount through the same accounts succeeds and restores every
/// account, in particular the vault's and the owner's balances.
pub proof fn lemma_deposit_withdraw_round_trip(
    l: LedgerView,
    program: Seq<u8>,
    signer: Seq<u8>,
    state_address: Seq<u8>,
    vault_address: Seq<u8>,
    amount: u64,
    l1: LedgerView,
)
    requires
        total_ledger(l),
        spec_deposit(l, program, signer, state_address, vault_address, amount) == Ok::<
            LedgerView,
            ErrorCode,
        >(l1),
    ensures
        spec_withdraw(l1, program, signer, state_address, vault_address, amount) matches Ok(l2)
            && l2 =~= l,
{
    assert(spec_accounts_valid(l1, program, signer, state_address, vault_address));
    if signer == vault_address {
    } else {
        assert(l1[vault_address].balance == l[vault_address].balance + amount);
        assert(l1[signer].balance == l[signer].balance - amount);
        let r2 = spec_withdraw(l1, program, signer, state_address, vault_address, amount);
        assert(r2 is Ok);
        let l2 = r2->Ok_0;
        assert forall|x: Seq<u8>| #[trigger] l2[x] == l[x] by {
            if x == vault_address {
                assert(l2[x].balance == l[x].balance);
                assert(l2[x].record == l[x].record);
            } else if x == signer {
                assert(l2[x].balance == l[x].balance);
                assert(l2[x].record == l[x].record);
            }
        }
        assert(l2 =~= l);
    }
}

/// Law: boundary — withdrawing exactly the vault's balance succeeds and
/// leaves the vault at 0. Stated for distinct owner and vault addresses
/// (a self-custodial vault at the owner's own address keeps its balance)
/// and a refund that fits the owner's balance.
pub proof fn lemma_withdraw_exact_balance(
    l: LedgerView,
    program: Seq<u8>,
    signer: Seq<u8>,
    state_address: Seq<u8>,
    vault_address: Seq<u8>,
)
    requires
        spec_accounts_valid(l, program, signer, state_address, vault_address),
        signer != vault_address,
        l[signer].balance + l[vault_address].balance <= u64::MAX,
    ensures
        spec_withdraw(
            l,
            program,
            signer,
            state_address,
            vault_address,
            l[vault_address].balance,
        ) matches Ok(m) && m[vault_address].balance == 0,
{
}

/// Law: boundary — withdrawing more than the vault holds fails with
/// `InsufficientFunds`, and by the operations' contracts an error
/// alters no account.
pub proof fn lemma_withdraw_insufficient(
    l: LedgerView,
    program: Seq<u8>,
    signer: Seq<u8>,
    state_address: Seq<u8>,
    vault_address: Seq<u8>,
    amount: u64,
)
    requires
        spec_accounts_valid(l, program, signer, state_address, vault_address),
        l[vault_address].balance < amount,
    ensures
        spec_withdraw(l, program, signer, state_address, vault_address, amount) == Err::<
            LedgerView,
            ErrorCode,
        >(ErrorCode::InsufficientFunds),
{
}

/// Law: isolation — an initialization touches no address but the
/// owner's derived state record; any other address, in particular any
/// account of another owner, keeps its balance and record.
pub proof fn lemma_initialize_isolated(
    l: LedgerView,
    program: Seq<u8>,
    owner: Seq<u8>,
    l1: LedgerView,
    other: Seq<u8>,
)
    requires
        spec_initialize(l, program, owner) == Ok::<LedgerView, ErrorCode>(l1),
        pda::spec_state_derivation(program, owner) matches Some(sd) && other != sd.0,
    ensures
        l1[other] == l[other],
{
}

/// Law: isolation — a deposit touches no address but the signing
/// owner's and the supplied vault's; any other address, in particular
/// any account of another owner, keeps its balance and record.
pub proof fn lemma_deposit_isolated(
    l: LedgerView,
    program: Seq<u8>,
    signer: Seq<u8>,
    state_address: Seq<u8>,
    vault_address: Seq<u8>,
    amount: u64,
    l1: LedgerView,
    other: Seq<u8>,
)
    requires
        spec_deposit(l, program, signer, state_address, vault_address, amount) == Ok::<
            LedgerView,
            ErrorCode,
        >(l1),
        other != signer,
        other != vault_address,
    ensures
        l1[other] == l[other],
{
}

/// Law: isolation — a withdrawal touches no address but the signing
/// owner's and the supplied vault's; any other address, in particular
/// any account of another owner, keeps its balance and record.
pub proof fn lemma_withdraw_isolated(
    l: LedgerView,
    program: Seq<u8>,
    signer: Seq<u8>,
    state_address: Seq<u8>,
    vault_address: Seq<u8>,
    amount: u64,
    l1: LedgerView,
    other: Seq<u8>,
)
    requires
        spec_withdraw(l, program, signer, state_address, vault_address, amount) == Ok::<
            LedgerView,
            ErrorCode,
        >(l1),
        other != signer,
        other != vault_address,
    ensures
        l1[other] == l[other],
{
}

/// Law: balance movements never touch the recorded nonces — a deposit
/// or a withdrawal leaves every account's record, at every address,
/// unchanged.
pub proof fn lemma_transfers_preserve_records(
    l: LedgerView,
    program: Seq<u8>,
    signer: Seq<u8>,
    state_address: Seq<u8>,
    vault_address: Seq<u8>,
    amount: u64,
    l1: LedgerView,
    x: Seq<u8>,
)
    requires
        spec_deposit(l, program, signer, state_address, vault_address, amount) == Ok::<
            LedgerView,
            ErrorCode,
        >(l1) || spec_withdraw(l, program, signer, state_address, vault_address, amount) == Ok::<
            LedgerView,
            ErrorCode,
        >(l1),
    ensures
        l1[x].record == l[x].record,
{
}

} // verus!
