//! The account-storage model: a ledger of accounts, each holding a
//! native-currency balance and, for a state record, its persisted data.
//!
//! This stands in for the external ledger runtime's account storage and
//! funds-transfer primitive, so the operations can be verified and
//! exercised against it. Every account implicitly exists with balance 0
//! and no record until something is written to it.

use vstd::prelude::*;
use crate::addr::Address;
use crate::errors::ErrorCode;
use crate::pda;
use crate::pda::{SeedProof, VaultState};

verus! {

/// The model of one account: its balance and its stored state record,
/// if it holds one.
pub struct AccountModel {
    pub balance: u64,
    pub record: Option<VaultState>,
}

/// The ledger's mathematical model: every address maps to an account,
/// untouched addresses to the empty one.
pub type LedgerView = Map<Seq<u8>, AccountModel>;

/// What an address holds before anything is written to it.
pub open spec fn empty_account() -> AccountModel {
    AccountModel { balance: 0, record: None }
}

/// A ledger view that assigns an account to every address, as the view
/// of every `Ledger` does.
pub open spec fn total_ledger(l: LedgerView) -> bool {
    forall|x: Seq<u8>| #[trigger] l.dom().contains(x)
}

#[derive(Clone, Copy)]
struct AccountEntry {
    address: Address,
    balance: u64,
    record: Option<VaultState>,
}

spec fn entry_model(e: AccountEntry) -> AccountModel {
    AccountModel { balance: e.balance, record: e.record }
}

spec fn distinct_addresses(s: Seq<AccountEntry>) -> bool {
    forall|i: int, j: int|
        #![trigger s[i].address, s[j].address]
        0 <= i < j < s.len() ==> s[i].address@ != s[j].address@
}

spec fn has_entry(s: Seq<AccountEntry>, a: Seq<u8>) -> bool {
    exists|i: int| 0 <= i < s.len() && (#[trigger] s[i].address)@ == a
}

spec fn lookup(s: Seq<AccountEntry>, a: Seq<u8>) -> AccountModel {
    if has_entry(s, a) {
        let i = choose|i: int| 0 <= i < s.len() && (#[trigger] s[i].address)@ == a;
        entry_model(s[i])
    } else {
        empty_account()
    }
}

proof fn lemma_lookup_at(s: Seq<AccountEntry>, a: Seq<u8>, i: int)
    requires
        distinct_addresses(s),
        0 <= i < s.len(),
        s[i].address@ == a,
    ensures
        lookup(s, a) == entry_model(s[i]),
{
    assert(has_entry(s, a));
    let j = choose|j: int| 0 <= j < s.len() && (#[trigger] s[j].address)@ == a;
    if i < j {
        assert(s[i].address@ != s[j].address@);
    } else if j < i {
        assert(s[j].address@ != s[i].address@);
    }
}

proof fn lemma_update_same_address(s: Seq<AccountEntry>, i: int, e: AccountEntry)
    requires
        distinct_addresses(s),
        0 <= i < s.len(),
        e.address@ == s[i].address@,
    ensures
        distinct_addresses(s.update(i, e)),
        forall|x: Seq<u8>| #[trigger] lookup(s.update(i, e), x) == (if x == e.address@ {
            entry_model(e)
        } else {
            lookup(s, x)
        }),
{
    let s2 = s.update(i, e);
    assert forall|i2: int, j2: int|
        #![trigger s2[i2].address, s2[j2].address]
        0 <= i2 < j2 < s2.len() implies s2[i2].address@ != s2[j2].address@ by {
        assert(s[i2].address@ != s[j2].address@);
    }
    assert forall|x: Seq<u8>| #[trigger] lookup(s2, x) == (if x == e.address@ {
        entry_model(e)
    } else {
        lookup(s, x)
    }) by {
        if x == e.address@ {
            lemma_lookup_at(s2, x, i);
        } else {
            if has_entry(s2, x) {
                let j = choose|j: int| 0 <= j < s2.len() && (#[trigger] s2[j].address)@ == x;
                assert(j != i);
                assert(s[j].address@ == x);
                lemma_lookup_at(s, x, j);
                lemma_lookup_at(s2, x, j);
            } else {
                if has_entry(s, x) {
                    let j = choose|j: int| 0 <= j < s.len() && (#[trigger] s[j].address)@ == x;
                    assert(j != i);
                    assert(s2[j].address@ == x);
                }
            }
        }
    }
}

proof fn lemma_push_new(s: Seq<AccountEntry>, e: AccountEntry)
    requires
        distinct_addresses(s),
        !has_entry(s, e.address@),
    ensures
        distinct_addresses(s.push(e)),
        forall|x: Seq<u8>| #[trigger] lookup(s.push(e), x) == (if x == e.address@ {
            entry_model(e)
        } else {
            lookup(s, x)
        }),
{
    let s2 = s.push(e);
    let n = s.len() as int;
    assert forall|i2: int, j2: int|
        #![trigger s2[i2].address, s2[j2].address]
        0 <= i2 < j2 < s2.len() implies s2[i2].address@ != s2[j2].address@ by {
        if j2 < n {
            assert(s[i2].address@ != s[j2].address@);
        } else {
            assert(s2[j2] == e);
            if s[i2].address@ == e.address@ {
                assert(has_entry(s, e.address@));
            }
        }
    }
    assert forall|x: Seq<u8>| #[trigger] lookup(s2, x) == (if x == e.address@ {
        entry_model(e)
    } else {
        lookup(s, x)
    }) by {
        if x == e.address@ {
            lemma_lookup_at(s2, x, n);
        } else {
            if has_entry(s2, x) {
                let j = choose|j: int| 0 <= j < s2.len() && (#[trigger] s2[j].address)@ == x;
                assert(j != n);
                assert(s[j].address@ == x);
                lemma_lookup_at(s, x, j);
                lemma_lookup_at(s2, x, j);
            } else {
                if has_entry(s, x) {
                    let j = choose|j: int| 0 <= j < s.len() && (#[trigger] s[j].address)@ == x;
                    assert(s2[j].address@ == x);
                }
            }
        }
    }
}

/// What the funds-transfer primitive does: `amount` moves from `from`
/// to `to`, failing if the sending side holds too little or the
/// receiving side would overflow; a transfer to oneself changes nothing.
pub open spec fn spec_transfer(l: LedgerView, from: Seq<u8>, to: Seq<u8>, amount: u64) -> Result<
    LedgerView,
    ErrorCode,
> {
    if l[from].balance < amount {
        Err(ErrorCode::UnderlyingTransferFailure)
    } else if from == to {
        Ok(l)
    } else if l[to].balance + amount > u64::MAX {
        Err(ErrorCode::UnderlyingTransferFailure)
    } else {
        Ok(
            l.insert(
                from,
                AccountModel { balance: (l[from].balance - amount) as u64, record: l[from].record },
            ).insert(
                to,
                AccountModel { balance: (l[to].balance + amount) as u64, record: l[to].record },
            ),
        )
    }
}

/// What the write-once nonce recording does: the record is created at
/// an address that holds none, and never overwritten.
pub open spec fn spec_record_nonces(l: LedgerView, a: Seq<u8>, st: VaultState) -> Result<
    LedgerView,
    ErrorCode,
> {
    if l[a].record is Some {
        Err(ErrorCode::AlreadyInitialized)
    } else {
        Ok(l.insert(a, AccountModel { balance: l[a].balance, record: Some(st) }))
    }
}

/// The ledger: account storage as the external runtime provides it,
/// with its funds-transfer primitive.
pub struct Ledger {
    entries: Vec<AccountEntry>,
}

impl View for Ledger {
    type V = LedgerView;

    closed spec fn view(&self) -> LedgerView {
        Map::new(|a: Seq<u8>| true, |a: Seq<u8>| lookup(self.entries@, a))
    }
}

impl Ledger {
    /// Every stored entry sits at its own address.
    pub closed spec fn wf(&self) -> bool {
        distinct_addresses(self.entries@)
    }

    /// The ledger's view is total: every address holds an account.
    pub proof fn lemma_view_total(&self)
        ensures
            total_ledger(self@),
    {
    }

    /// An empty ledger: every address holds the empty account.
    pub fn new() -> (r: Ledger)
        ensures
            r.wf(),
            forall|x: Seq<u8>| #[trigger] r@[x] == empty_account(),
    {
        let l = Ledger { entries: Vec::new() };
        proof {
            assert forall|x: Seq<u8>| #[trigger] l@[x] == empty_account() by {
                assert(!has_entry(l.entries@, x));
            }
        }
        l
    }

    fn find_index(&self, a: &Address) -> (r: Option<usize>)
        ensures
            match r {
                Some(i) => i < self.entries@.len() && self.entries@[i as int].address@ == a@,
                None => !has_entry(self.entries@, a@),
            },
    {
        let n = self.entries.len();
        let mut i: usize = 0;
        while i < n
            invariant
                n == self.entries@.len(),
                0 <= i <= n,
                forall|j: int| 0 <= j < i ==> (#[trigger] self.entries@[j].address)@ != a@,
            decreases n - i,
        {
            if self.entries[i].address.equals(a) {
                return Some(i);
            }
            i += 1;
        }
        None
    }

    /// The balance an address currently holds.
    pub fn balance_of(&self, a: &Address) -> (r: u64)
        requires
            self.wf(),
        ensures
            r == self@[a@].balance,
    {
        match self.find_index(a) {
            Some(i) => {
                proof {
                    lemma_lookup_at(self.entries@, a@, i as int);
                }
                self.entries[i].balance
            },
            None => 0,
        }
    }

    /// The state record an address currently holds, if any.
    pub fn record_of(&self, a: &Address) -> (r: Option<VaultState>)
        requires
            self.wf(),
        ensures
            r == self@[a@].record,
    {
        match self.find_index(a) {
            Some(i) => {
                proof {
                    lemma_lookup_at(self.entries@, a@, i as int);
                }
                self.entries[i].record
            },
            None => None,
        }
    }

    fn put(&mut self, a: &Address, balance: u64, record: Option<VaultState>)
        requires
            old(self).wf(),
        ensures
            final(self).wf(),
            final(self)@ =~= old(self)@.insert(a@, AccountModel { balance, record }),
    {
        let m = Ghost(AccountModel { balance, record });
        match self.find_index(a) {
            Some(i) => {
                let mut e = self.entries[i];
                e.balance = balance;
                e.record = record;
                self.entries[i] = e;
                proof {
                    lemma_update_same_address(old(self).entries@, i as int, e);
                    assert forall|x: Seq<u8>| #[trigger] self@[x] == old(self)@.insert(a@, m@)[x] by {
                        assert(lookup(self.entries@, x) == (if x == e.address@ {
                            entry_model(e)
                        } else {
                            lookup(old(self).entries@, x)
                        }));
                    }
                }
            },
            None => {
                let e = AccountEntry { address: *a, balance, record };
                self.entries.push(e);
                proof {
                    lemma_push_new(old(self).entries@, e);
                    assert forall|x: Seq<u8>| #[trigger] self@[x] == old(self)@.insert(a@, m@)[x] by {
                        assert(lookup(self.entries@, x) == (if x == e.address@ {
                            entry_model(e)
                        } else {
                            lookup(old(self).entries@, x)
                        }));
                    }
                }
            },
        }
    }

    /// Credits an address from outside the ledger: anyone may fund any
    /// account; only an overflowing balance is rejected.
    pub fn credit(&mut self, a: &Address, amount: u64) -> (r: Result<(), ErrorCode>)
        requires
            old(self).wf(),
        ensures
            final(self).wf(),
            match r {
                Ok(_) => old(self)@[a@].balance + amount <= u64::MAX && final(self)@ =~= old(
                    self,
                )@.insert(
                    a@,
                    AccountModel {
                        balance: (old(self)@[a@].balance + amount) as u64,
                        record: old(self)@[a@].record,
                    },
                ),
                Err(e) => e == ErrorCode::UnderlyingTransferFailure && old(self)@[a@].balance
                    + amount > u64::MAX && final(self)@ =~= old(self)@,
            },
    {
        let bal = self.balance_of(a);
        if amount > u64::MAX - bal {
            return Err(ErrorCode::UnderlyingTransferFailure);
        }
        let rec = self.record_of(a);
        self.put(a, bal + amount, rec);
        Ok(())
    }

    /// The funds-transfer primitive for a transfer the sender itself
    /// signs: behaves exactly as `spec_transfer` says, and on any error
    /// leaves every account unchanged.
    pub fn transfer(&mut self, from: &Address, to: &Address, amount: u64) -> (r: Result<
        (),
        ErrorCode,
    >)
        requires
            old(self).wf(),
        ensures
            final(self).wf(),
            match spec_transfer(old(self)@, from@, to@, amount) {
                Ok(m) => r == Ok::<(), ErrorCode>(()) && final(self)@ =~= m,
                Err(e) => r == Err::<(), ErrorCode>(e) && final(self)@ =~= old(self)@,
            },
    {
        let from_bal = self.balance_of(from);
        if from_bal < amount {
            return Err(ErrorCode::UnderlyingTransferFailure);
        }
        if from.equals(to) {
            return Ok(());
        }
        let to_bal = self.balance_of(to);
        if amount > u64::MAX - to_bal {
            return Err(ErrorCode::UnderlyingTransferFailure);
        }
        let from_rec = self.record_of(from);
        let to_rec = self.record_of(to);
        self.put(from, from_bal - amount, from_rec);
        self.put(to, to_bal + amount, to_rec);
        Ok(())
    }

    /// The funds-transfer primitive for a transfer out of a derived
    /// account: authorized by a seed proof instead of a signature, and
    /// rejected outright when the proof does not re-derive the sending
    /// address.
    pub fn transfer_from_vault(
        &mut self,
        program: &Address,
        authority: &SeedProof,
        from: &Address,
        to: &Address,
        amount: u64,
    ) -> (r: Result<(), ErrorCode>)
        requires
            old(self).wf(),
        ensures
            final(self).wf(),
            !authority.authorizes(program@, from@) ==> r == Err::<(), ErrorCode>(
                ErrorCode::UnderlyingTransferFailure,
            ) && final(self)@ =~= old(self)@,
            authority.authorizes(program@, from@) ==> match spec_transfer(
                old(self)@,
                from@,
                to@,
                amount,
            ) {
                Ok(m) => r == Ok::<(), ErrorCode>(()) && final(self)@ =~= m,
                Err(e) => r == Err::<(), ErrorCode>(e) && final(self)@ =~= old(self)@,
            },
    {
        let ok = pda::check_vault_address(
            program,
            &authority.state_address,
            authority.vault_bump,
            from,
        );
        if !ok {
            return Err(ErrorCode::UnderlyingTransferFailure);
        }
        self.transfer(from, to, amount)
    }

    /// Write-once nonce recording: creates the state record at `a`,
    /// failing with `AlreadyInitialized` if one is already there; the
    /// nonces written by a first creation are never overwritten.
    pub fn record_nonces(&mut self, a: &Address, st: VaultState) -> (r: Result<(), ErrorCode>)
        requires
            old(self).wf(),
        ensures
            final(self).wf(),
            match spec_record_nonces(old(self)@, a@, st) {
                Ok(m) => r == Ok::<(), ErrorCode>(()) && final(self)@ =~= m,
                Err(e) => r == Err::<(), ErrorCode>(e) && final(self)@ =~= old(self)@,
            },
    {
        let rec = self.record_of(a);
        match rec {
            Some(_) => Err(ErrorCode::AlreadyInitialized),
            None => {
                let bal = self.balance_of(a);
                self.put(a, bal, Some(st));
                Ok(())
            },
        }
    }
}

} // verus!
