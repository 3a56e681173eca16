//! Account balances, with the atomic debit that settles a fee.
use std::collections::HashMap;
use vstd::prelude::*;

use crate::error::FeeError;

verus! {

broadcast use vstd::std_specs::hash::group_hash_axioms;

/// The balance of `who` in a ledger view; an account never credited holds zero.
pub open spec fn spec_balance_of(balances: Map<u64, u128>, who: u64) -> u128 {
    if balances.contains_key(who) {
        balances[who]
    } else {
        0
    }
}

/// The balances of accounts, keyed by account id.
pub struct Balances {
    accounts: HashMap<u64, u128>,
}

impl View for Balances {
    type V = Map<u64, u128>;

    closed spec fn view(&self) -> Map<u64, u128> {
        self.accounts@
    }
}

impl Balances {
    /// A ledger with no accounts.
    pub fn new() -> (r: Self)
        ensures
            r@ == Map::<u64, u128>::empty(),
    {
        Balances { accounts: HashMap::new() }
    }

    /// Sets the balance of `who`.
    pub fn set_balance(&mut self, who: u64, amount: u128)
        ensures
            final(self)@ == old(self)@.insert(who, amount),
    {
        self.accounts.insert(who, amount);
    }

    /// The balance of `who`.
    pub fn balance_of(&self, who: u64) -> (r: u128)
        ensures
            r == spec_balance_of(self@, who),
    {
        match self.accounts.get(&who) {
            Some(b) => *b,
            None => 0,
        }
    }

    /// Deducts `amount` from `who`, or fails with no change when the balance
    /// is below it.
    pub fn debit(&mut self, who: u64, amount: u128) -> (r: Result<(), FeeError>)
        ensures
            spec_balance_of(old(self)@, who) >= amount ==> r == Ok::<(), FeeError>(()) && final(self)@ == old(
                self,
            )@.insert(who, (spec_balance_of(old(self)@, who) - amount) as u128),
            spec_balance_of(old(self)@, who) < amount ==> r == Err::<(), FeeError>(
                FeeError::InsufficientBalance,
            ) && final(self)@ == old(self)@,
    {
        let balance = self.balance_of(who);
        if balance < amount {
            return Err(FeeError::InsufficientBalance);
        }
        self.accounts.insert(who, balance - amount);
        Ok(())
    }
}

} // verus!
