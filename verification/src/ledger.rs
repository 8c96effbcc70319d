//! The balance ledger: one unsigned balance per account.

use crate::error::LedgerError;
use vstd::hash_map::StringHashMap;
use vstd::prelude::*;

verus! {

/// The balances of a ledger that no operation has touched: zero everywhere.
pub open spec fn no_balances() -> Map<Seq<char>, u128> {
    Map::total(|account: Seq<char>| 0u128)
}

/// Whether `amount` can be added to the balance of `account`.
pub open spec fn credit_fits(
    balances: Map<Seq<char>, u128>,
    account: Seq<char>,
    amount: u128,
) -> bool {
    balances[account] + amount <= u128::MAX
}

/// What a credit of `amount` to `account` answers.
pub open spec fn credit_result(
    balances: Map<Seq<char>, u128>,
    account: Seq<char>,
    amount: u128,
) -> Result<(), LedgerError> {
    if credit_fits(balances, account, amount) {
        Ok(())
    } else {
        Err(LedgerError::Overflow)
    }
}

/// The balances after a credit of `amount` to `account`: the account's
/// balance grows by `amount` where that fits, and nothing changes where it
/// does not.
pub open spec fn after_credit(
    balances: Map<Seq<char>, u128>,
    account: Seq<char>,
    amount: u128,
) -> Map<Seq<char>, u128> {
    if credit_fits(balances, account, amount) {
        balances.insert(account, (balances[account] + amount) as u128)
    } else {
        balances
    }
}

/// Whether `amount` can be taken from the balance of `account`.
pub open spec fn debit_covered(
    balances: Map<Seq<char>, u128>,
    account: Seq<char>,
    amount: u128,
) -> bool {
    amount <= balances[account]
}

/// What a debit of `amount` from `account` answers.
pub open spec fn debit_result(
    balances: Map<Seq<char>, u128>,
    account: Seq<char>,
    amount: u128,
) -> Result<(), LedgerError> {
    if debit_covered(balances, account, amount) {
        Ok(())
    } else {
        Err(LedgerError::InsufficientBalance)
    }
}

/// The balances after a debit of `amount` from `account`: the account's
/// balance shrinks by `amount` where it covers it, and nothing changes where
/// it does not.
pub open spec fn after_debit(
    balances: Map<Seq<char>, u128>,
    account: Seq<char>,
    amount: u128,
) -> Map<Seq<char>, u128> {
    if debit_covered(balances, account, amount) {
        balances.insert(account, (balances[account] - amount) as u128)
    } else {
        balances
    }
}

/// A mapping from account identifier to balance.
///
/// Only accounts that were credited or debited are stored. An account
/// without an entry reads as zero, and the contracts do not tell the two
/// apart: the view gives every account a balance.
pub struct Ledger {
    entries: StringHashMap<u128>,
}

impl Ledger {
    /// The balance of `account`: its entry, or zero where it has none.
    pub closed spec fn balance_of(&self, account: Seq<char>) -> u128 {
        if self.entries@.contains_key(account) {
            self.entries@[account]
        } else {
            0
        }
    }

    /// A ledger in which every account has balance zero.
    pub fn new() -> (ledger: Ledger)
        ensures
            ledger@ == no_balances(),
    {
        let ledger = Ledger { entries: StringHashMap::new() };
        assert(ledger@ =~= no_balances());
        ledger
    }

    /// The balance of `account`. Never fails: an unknown account has zero.
    pub fn get_balance(&self, account: &str) -> (balance: u128)
        ensures
            balance == self@[account@],
    {
        match self.entries.get(account) {
            Some(balance) => *balance,
            None => 0,
        }
    }

    /// Adds `amount` to the balance of `account`, or answers `Overflow` and
    /// changes nothing where the sum does not fit in 128 bits.
    pub fn credit(&mut self, account: &str, amount: u128) -> (result: Result<(), LedgerError>)
        ensures
            result == credit_result(old(self)@, account@, amount),
            final(self)@ == after_credit(old(self)@, account@, amount),
    {
        let balance = self.get_balance(account);
        match balance.checked_add(amount) {
            Some(sum) => {
                self.entries.insert(account.to_owned(), sum);
                assert(self@ =~= after_credit(old(self)@, account@, amount));
                Ok(())
            },
            None => Err(LedgerError::Overflow),
        }
    }

    /// Takes `amount` from the balance of `account`, or answers
    /// `InsufficientBalance` and changes nothing where the balance is smaller.
    pub fn debit(&mut self, account: &str, amount: u128) -> (result: Result<(), LedgerError>)
        ensures
            result == debit_result(old(self)@, account@, amount),
            final(self)@ == after_debit(old(self)@, account@, amount),
    {
        let balance = self.get_balance(account);
        match balance.checked_sub(amount) {
            Some(rest) => {
                self.entries.insert(account.to_owned(), rest);
                assert(self@ =~= after_debit(old(self)@, account@, amount));
                Ok(())
            },
            None => Err(LedgerError::InsufficientBalance),
        }
    }
}

impl View for Ledger {
    type V = Map<Seq<char>, u128>;

    /// Every account with its balance.
    open spec fn view(&self) -> Map<Seq<char>, u128> {
        Map::total(|account: Seq<char>| self.balance_of(account))
    }
}

} // verus!
