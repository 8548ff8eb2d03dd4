//! The currency ledger: free balances by account, with an existential deposit
//! below which no account may be left by a transfer.
use std::collections::HashMap;
use vstd::prelude::*;

verus! {

broadcast use vstd::std_specs::hash::group_hash_axioms;

#[derive(Clone, Copy, Debug, PartialEq, Eq, Structural)]
pub enum CurrencyError {
    /// The sender holds less than the amount.
    InsufficientBalance,
    /// The transfer would take the sender below the existential deposit.
    KeepAlive,
    /// The receiver's balance would overflow.
    Overflow,
    /// The receiver would hold less than the existential deposit.
    ExistentialDeposit,
}

/// What the ledger holds: the free balance of each account that has one, and
/// the least balance that an account may keep.
pub struct BalancesView {
    pub free: Map<u64, u64>,
    pub existential_deposit: u64,
}

impl BalancesView {
    /// The free balance of `who`, zero for an account that has none.
    pub open spec fn balance(self, who: u64) -> u64 {
        if self.free.contains_key(who) {
            self.free[who]
        } else {
            0
        }
    }

    /// Why `from` cannot send `amount` to `to` while staying alive, if it cannot.
    /// A transfer of nothing, or to oneself, always succeeds.
    pub open spec fn transfer_error(self, from: u64, to: u64, amount: u64) -> Option<CurrencyError> {
        if amount == 0 || from == to {
            None
        } else if self.balance(from) < amount {
            Some(CurrencyError::InsufficientBalance)
        } else if self.balance(from) - amount < self.existential_deposit {
            Some(CurrencyError::KeepAlive)
        } else if self.balance(to) + amount > u64::MAX {
            Some(CurrencyError::Overflow)
        } else if self.balance(to) + amount < self.existential_deposit {
            Some(CurrencyError::ExistentialDeposit)
        } else {
            None
        }
    }

    /// The ledger once `amount` has moved from `from` to `to`.
    pub open spec fn transferred(self, from: u64, to: u64, amount: u64) -> BalancesView {
        if amount == 0 || from == to {
            self
        } else {
            BalancesView {
                free: self.free.insert(from, (self.balance(from) - amount) as u64).insert(
                    to,
                    (self.balance(to) + amount) as u64,
                ),
                existential_deposit: self.existential_deposit,
            }
        }
    }
}

pub struct Balances {
    free: HashMap<u64, u64>,
    existential_deposit: u64,
}

impl View for Balances {
    type V = BalancesView;

    closed spec fn view(&self) -> BalancesView {
        BalancesView { free: self.free@, existential_deposit: self.existential_deposit }
    }
}

impl Balances {
    pub fn new(existential_deposit: u64) -> (r: Balances)
        ensures
            r@.free.is_empty(),
            r@.existential_deposit == existential_deposit,
    {
        Balances { free: HashMap::new(), existential_deposit }
    }

    pub fn existential_deposit(&self) -> (r: u64)
        ensures
            r == self@.existential_deposit,
    {
        self.existential_deposit
    }

    pub fn free_balance(&self, who: u64) -> (r: u64)
        ensures
            r == self@.balance(who),
    {
        match self.free.get(&who) {
            Some(b) => *b,
            None => 0,
        }
    }

    /// Sets the free balance of `who` to `amount`.
    pub fn set_balance(&mut self, who: u64, amount: u64)
        ensures
            final(self)@ == (BalancesView {
                free: old(self)@.free.insert(who, amount),
                existential_deposit: old(self)@.existential_deposit,
            }),
    {
        self.free.insert(who, amount);
    }

    /// Moves `amount` from `from` to `to`, keeping `from` alive; fails,
    /// changing nothing, where `transfer_error` says so.
    pub fn transfer(&mut self, from: u64, to: u64, amount: u64) -> (r: Result<(), CurrencyError>)
        ensures
            r == (match old(self)@.transfer_error(from, to, amount) {
                Some(e) => Err(e),
                None => Ok(()),
            }),
            r is Err ==> final(self)@ == old(self)@,
            r is Ok ==> final(self)@ == old(self)@.transferred(from, to, amount),
    {
        if amount == 0 || from == to {
            return Ok(());
        }
        let from_balance = self.free_balance(from);
        let to_balance = self.free_balance(to);
        if from_balance < amount {
            return Err(CurrencyError::InsufficientBalance);
        }
        if from_balance - amount < self.existential_deposit {
            return Err(CurrencyError::KeepAlive);
        }
        if to_balance > u64::MAX - amount {
            return Err(CurrencyError::Overflow);
        }
        if to_balance + amount < self.existential_deposit {
            return Err(CurrencyError::ExistentialDeposit);
        }
        self.free.insert(from, from_balance - amount);
        self.free.insert(to, to_balance + amount);
        Ok(())
    }
}

} // verus!
