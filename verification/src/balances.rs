//! Free balances of the native token, and transfers between accounts.

use std::collections::HashMap;
use vstd::prelude::*;
use crate::dispatch::{AccountId, Balance};

verus! {

broadcast use vstd::std_specs::hash::group_hash_axioms;

/// The free balance of `who` in `m`; an account without an entry has none.
pub open spec fn free_of(m: Map<AccountId, Balance>, who: AccountId) -> Balance {
    if m.contains_key(who) { m[who] } else { 0 }
}

/// Why a transfer failed.
#[derive(Debug, Clone, Copy, PartialEq, Eq)]
pub enum TransferError {
    /// The payer's free balance is below the amount.
    InsufficientBalance,
    /// The payee's balance would exceed the largest representable amount.
    Overflow,
}

/// The balances after `from` pays `amount` to `to`, or why that fails.
/// Paying oneself changes nothing.
pub open spec fn transfer_result(m: Map<AccountId, Balance>, from: AccountId, to: AccountId, amount: Balance) -> Result<Map<AccountId, Balance>, TransferError> {
    if free_of(m, from) < amount {
        Err(TransferError::InsufficientBalance)
    } else if from == to {
        Ok(m)
    } else if free_of(m, to) + amount > Balance::MAX {
        Err(TransferError::Overflow)
    } else {
        Ok(m.insert(from, (free_of(m, from) - amount) as Balance).insert(to, (free_of(m, to) + amount) as Balance))
    }
}

/// Free balances by account.
#[derive(Debug)]
pub struct Balances {
    /// The free balance of each account that has one.
    pub free: HashMap<AccountId, Balance>,
}

impl View for Balances {
    type V = Map<AccountId, Balance>;

    open spec fn view(&self) -> Map<AccountId, Balance> {
        self.free@
    }
}

impl Balances {
    /// No account holds anything.
    pub fn new() -> (r: Balances)
        ensures
            r@.is_empty(),
    {
        Balances { free: HashMap::new() }
    }

    /// The free balance of `who`.
    pub fn free_balance(&self, who: AccountId) -> (r: Balance)
        ensures
            r == free_of(self@, who),
    {
        match self.free.get(&who) {
            Some(b) => *b,
            None => 0,
        }
    }

    /// Sets the free balance of `who` to `amount`, as a genesis
    /// configuration does.
    pub fn set_free_balance(&mut self, who: AccountId, amount: Balance)
        ensures
            final(self)@ == old(self)@.insert(who, amount),
    {
        self.free.insert(who, amount);
    }

    /// Moves `amount` from `from` to `to`; fails, changing nothing, when
    /// `from` holds less or `to` would overflow.
    pub fn transfer(&mut self, from: AccountId, to: AccountId, amount: Balance) -> (r: Result<(), TransferError>)
        ensures
            match transfer_result(old(self)@, from, to, amount) {
                Ok(m) => r is Ok && final(self)@ == m,
                Err(e) => r == Err::<(), TransferError>(e) && final(self)@ == old(self)@,
            },
    {
        let have = self.free_balance(from);
        if have < amount {
            return Err(TransferError::InsufficientBalance);
        }
        if from == to {
            return Ok(());
        }
        let theirs = self.free_balance(to);
        let credited = match theirs.checked_add(amount) {
            Some(c) => c,
            None => return Err(TransferError::Overflow),
        };
        self.free.insert(from, have - amount);
        self.free.insert(to, credited);
        Ok(())
    }
}

} // verus!
