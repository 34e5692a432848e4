//! The three vault operations: initialize, deposit and withdraw.
//!
//! Each operation receives the accounts the runtime resolved for it and
//! defensively re-validates every address against the deterministic
//! derivation before any balance moves. Withdrawal proves the vault's
//! consent structurally, by rebuilding the seed proof from the recorded
//! nonce — no private key for the vault exists.

use vstd::prelude::*;
use crate::addr::Address;
use crate::errors::ErrorCode;
use crate::ledger::{Ledger, LedgerView, spec_record_nonces, spec_transfer};
use crate::pda;
use crate::pda::{VaultState, reconstruct_signing_authority};

verus! {

/// What `initialize` does to the ledger: both addresses are derived from
/// the owner identity, and the two nonces are recorded write-once at the
/// state record's address. A second initialization fails and overwrites
/// nothing.
pub open spec fn spec_initialize(l: LedgerView, program: Seq<u8>, owner: Seq<u8>) -> Result<
    LedgerView,
    ErrorCode,
> {
    match pda::spec_state_derivation(program, owner) {
        None => Err(ErrorCode::DerivationExhausted),
        Some(sd) => match pda::spec_vault_derivation(program, sd.0) {
            None => Err(ErrorCode::DerivationExhausted),
            Some(vd) => spec_record_nonces(
                l,
                sd.0,
                VaultState { vault_bump: vd.1, state_bump: sd.1 },
            ),
        },
    }
}

/// The two derivation checks every balance movement re-validates: the
/// supplied state record holds nonces under which the supplied addresses
/// are exactly what re-derivation from the owner identity produces.
pub open spec fn spec_accounts_valid(
    l: LedgerView,
    program: Seq<u8>,
    signer: Seq<u8>,
    state_address: Seq<u8>,
    vault_address: Seq<u8>,
) -> bool {
    &&& l[state_address].record is Some
    &&& pda::pda_at(
        pda::state_seeds(signer),
        l[state_address].record->Some_0.state_bump,
        program,
    ) == Some(state_address)
    &&& pda::pda_at(
        pda::vault_seeds(state_address),
        l[state_address].record->Some_0.vault_bump,
        program,
    ) == Some(vault_address)
}

/// What `deposit` does to the ledger: after the derivation checks,
/// `amount` moves from the owner to the vault; the primitive's own
/// failure is propagated unchanged.
pub open spec fn spec_deposit(
    l: LedgerView,
    program: Seq<u8>,
    signer: Seq<u8>,
    state_address: Seq<u8>,
    vault_address: Seq<u8>,
    amount: u64,
) -> Result<LedgerView, ErrorCode> {
    if !spec_accounts_valid(l, program, signer, state_address, vault_address) {
        Err(ErrorCode::DerivationMismatch)
    } else {
        spec_transfer(l, signer, vault_address, amount)
    }
}

/// What `withdraw` does to the ledger: after the derivation checks, a
/// vault holding less than `amount` is rejected as `InsufficientFunds`
/// before any transfer is attempted; otherwise `amount` moves from the
/// vault back to the owner under the reconstructed seed proof.
pub open spec fn spec_withdraw(
    l: LedgerView,
    program: Seq<u8>,
    signer: Seq<u8>,
    state_address: Seq<u8>,
    vault_address: Seq<u8>,
    amount: u64,
) -> Result<LedgerView, ErrorCode> {
    if !spec_accounts_valid(l, program, signer, state_address, vault_address) {
        Err(ErrorCode::DerivationMismatch)
    } else if l[vault_address].balance < amount {
        Err(ErrorCode::InsufficientFunds)
    } else {
        spec_transfer(l, vault_address, signer, amount)
    }
}

/// The accounts of an initialization: only the owner, who signs and
/// pays; the state record's and the vault's addresses are derived, not
/// supplied.
pub struct Initialize {
    pub owner: Address,
}

impl Initialize {
    /// Creates the owner's state record at its derived address and
    /// records both nonces, exactly as `spec_initialize` says.
    pub fn initialize(&self, ledger: &mut Ledger, program: &Address) -> (r: Result<(), ErrorCode>)
        requires
            old(ledger).wf(),
        ensures
            final(ledger).wf(),
            match spec_initialize(old(ledger)@, program@, self.owner@) {
                Ok(m) => r == Ok::<(), ErrorCode>(()) && final(ledger)@ =~= m,
                Err(e) => r == Err::<(), ErrorCode>(e) && final(ledger)@ =~= old(ledger)@,
            },
    {
        let sd = match pda::derive_state_address(program, &self.owner) {
            Some(p) => p,
            None => {
                return Err(ErrorCode::DerivationExhausted);
            },
        };
        let vd = match pda::derive_vault_address(program, &sd.0) {
            Some(p) => p,
            None => {
                return Err(ErrorCode::DerivationExhausted);
            },
        };
        ledger.record_nonces(&sd.0, VaultState { vault_bump: vd.1, state_bump: sd.1 })
    }
}

/// The accounts of a deposit, as the runtime resolved them: the signing
/// owner, the owner's state record and the vault.
pub struct Deposit {
    pub signer: Address,
    pub vault_state: Address,
    pub vault: Address,
}

impl Deposit {
    /// Moves `amount` from the owner into the vault, exactly as
    /// `spec_deposit` says: both supplied addresses are re-validated
    /// against the recorded nonces first.
    pub fn deposit(&self, ledger: &mut Ledger, program: &Address, amount: u64) -> (r: Result<
        (),
        ErrorCode,
    >)
        requires
            old(ledger).wf(),
        ensures
            final(ledger).wf(),
            match spec_deposit(
                old(ledger)@,
                program@,
                self.signer@,
                self.vault_state@,
                self.vault@,
                amount,
            ) {
                Ok(m) => r == Ok::<(), ErrorCode>(()) && final(ledger)@ =~= m,
                Err(e) => r == Err::<(), ErrorCode>(e) && final(ledger)@ =~= old(ledger)@,
            },
    {
        let rec = match ledger.record_of(&self.vault_state) {
            Some(rc) => rc,
            None => {
                return Err(ErrorCode::DerivationMismatch);
            },
        };
        if !pda::check_state_address(program, &self.signer, rec.state_bump, &self.vault_state) {
            return Err(ErrorCode::DerivationMismatch);
        }
        if !pda::check_vault_address(program, &self.vault_state, rec.vault_bump, &self.vault) {
            return Err(ErrorCode::DerivationMismatch);
        }
        ledger.transfer(&self.signer, &self.vault, amount)
    }
}

/// The accounts of a withdrawal, as the runtime resolved them: the
/// signing owner, the owner's state record and the vault.
pub struct Withdraw {
    pub signer: Address,
    pub vault_state: Address,
    pub vault: Address,
}

impl Withdraw {
    /// Moves `amount` from the vault back to the owner, exactly as
    /// `spec_withdraw` says: the supplied addresses are re-validated,
    /// an underfunded vault is rejected before any transfer is tried,
    /// and the transfer itself is authorized by the seed proof rebuilt
    /// from the recorded nonce.
    pub fn withdraw(&self, ledger: &mut Ledger, program: &Address, amount: u64) -> (r: Result<
        (),
        ErrorCode,
    >)
        requires
            old(ledger).wf(),
        ensures
            final(ledger).wf(),
            match spec_withdraw(
                old(ledger)@,
                program@,
                self.signer@,
                self.vault_state@,
                self.vault@,
                amount,
            ) {
                Ok(m) => r == Ok::<(), ErrorCode>(()) && final(ledger)@ =~= m,
                Err(e) => r == Err::<(), ErrorCode>(e) && final(ledger)@ =~= old(ledger)@,
            },
    {
        let rec = match ledger.record_of(&self.vault_state) {
            Some(rc) => rc,
            None => {
                return Err(ErrorCode::DerivationMismatch);
            },
        };
        if !pda::check_state_address(program, &self.signer, rec.state_bump, &self.vault_state) {
            return Err(ErrorCode::DerivationMismatch);
        }
        if !pda::check_vault_address(program, &self.vault_state, rec.vault_bump, &self.vault) {
            return Err(ErrorCode::DerivationMismatch);
        }
        if ledger.balance_of(&self.vault) < amount {
            return Err(ErrorCode::InsufficientFunds);
        }
        let authority = reconstruct_signing_authority(&self.vault_state, &rec);
        ledger.transfer_from_vault(program, &authority, &self.vault, &self.signer, amount)
    }
}

/// The accounts of the reserved close operation: only the signer.
pub struct CloseVault {
    pub signer: Address,
}

impl CloseVault {
    /// Reserved: performs no state change and always succeeds; fund
    /// reclamation and record deallocation are not specified yet.
    pub fn close_vault(&self) -> (r: Result<(), ErrorCode>)
        ensures
            r == Ok::<(), ErrorCode>(()),
    {
        Ok(())
    }
}

/// Entry point: initializes the vault for `accounts.owner`.
pub fn initialize(ledger: &mut Ledger, program: &Address, accounts: &Initialize) -> (r: Result<
    (),
    ErrorCode,
>)
    requires
        old(ledger).wf(),
    ensures
        final(ledger).wf(),
        match spec_initialize(old(ledger)@, program@, accounts.owner@) {
            Ok(m) => r == Ok::<(), ErrorCode>(()) && final(ledger)@ =~= m,
            Err(e) => r == Err::<(), ErrorCode>(e) && final(ledger)@ =~= old(ledger)@,
        },
{
    accounts.initialize(ledger, program)
}

/// Entry point: deposits `amount` into the vault of `accounts.signer`.
pub fn deposit(ledger: &mut Ledger, program: &Address, accounts: &Deposit, amount: u64) -> (r:
    Result<(), ErrorCode>)
    requires
        old(ledger).wf(),
    ensures
        final(ledger).wf(),
        match spec_deposit(
            old(ledger)@,
            program@,
            accounts.signer@,
            accounts.vault_state@,
            accounts.vault@,
            amount,
        ) {
            Ok(m) => r == Ok::<(), ErrorCode>(()) && final(ledger)@ =~= m,
            Err(e) => r == Err::<(), ErrorCode>(e) && final(ledger)@ =~= old(ledger)@,
        },
{
    accounts.deposit(ledger, program, amount)
}

/// Entry point: withdraws `amount` from the vault of `accounts.signer`.
pub fn withdraw(ledger: &mut Ledger, program: &Address, accounts: &Withdraw, amount: u64) -> (r:
    Result<(), ErrorCode>)
    requires
        old(ledger).wf(),
    ensures
        final(ledger).wf(),
        match spec_withdraw(
            old(ledger)@,
            program@,
            accounts.signer@,
            accounts.vault_state@,
            accounts.vault@,
            amount,
        ) {
            Ok(m) => r == Ok::<(), ErrorCode>(()) && final(ledger)@ =~= m,
            Err(e) => r == Err::<(), ErrorCode>(e) && final(ledger)@ =~= old(ledger)@,
        },
{
    accounts.withdraw(ledger, program, amount)
}

} // verus!
