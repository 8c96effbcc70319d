//! The wager engine: a ledger, its owner, and the one game played on it.

use crate::error::LedgerError;
use crate::host::{is_valid_account_id, valid_account_id};
use crate::ledger::{after_credit, credit_result, no_balances, Ledger};
use vstd::prelude::*;

verus! {

/// The stake of one play.
pub const UNIT: u128 = 1_000_000_000_000_000_000_000_000;

/// A play wins on a random byte strictly below this value.
pub const WIN_THRESHOLD: u8 = 128;

/// A win pays this many times the stake.
pub const PAYOUT_MULTIPLE: u128 = 10;

/// Whether a play drawn with `random_byte` wins. The threshold itself loses.
pub open spec fn is_win(random_byte: u8) -> bool {
    random_byte < WIN_THRESHOLD
}

/// What a play drawn with `random_byte` pays out.
pub open spec fn payout(random_byte: u8) -> int {
    if is_win(random_byte) {
        UNIT * PAYOUT_MULTIPLE
    } else {
        0
    }
}

/// What a play by `account` drawn with `random_byte` answers: the byte
/// itself, unless the balance does not cover the stake, or the balance after
/// stake and payout would not fit in 128 bits.
pub open spec fn play_result(
    balances: Map<Seq<char>, u128>,
    account: Seq<char>,
    random_byte: u8,
) -> Result<u8, LedgerError> {
    if balances[account] < UNIT {
        Err(LedgerError::InsufficientBalance)
    } else if balances[account] - UNIT + payout(random_byte) > u128::MAX {
        Err(LedgerError::Overflow)
    } else {
        Ok(random_byte)
    }
}

/// The balances after a play by `account` drawn with `random_byte`: the
/// stake leaves the account's balance and the payout enters it. A refused
/// play changes nothing.
pub open spec fn after_play(
    balances: Map<Seq<char>, u128>,
    account: Seq<char>,
    random_byte: u8,
) -> Map<Seq<char>, u128> {
    if play_result(balances, account, random_byte) is Ok {
        balances.insert(account, (balances[account] - UNIT + payout(random_byte)) as u128)
    } else {
        balances
    }
}

/// A ledger of credits with its owner, on which accounts deposit and play.
pub struct SlotMachine {
    owner_id: String,
    credits: Ledger,
}

impl SlotMachine {
    /// The account that the machine was made for. No operation changes it.
    pub closed spec fn owner(&self) -> Seq<char> {
        self.owner_id@
    }

    /// Every account with its credits.
    pub closed spec fn balances(&self) -> Map<Seq<char>, u128> {
        self.credits@
    }

    /// A machine owned by `owner_id`, on which no account has credits yet.
    /// The owner must be a valid account identifier; `try_new` tests that.
    pub fn new(owner_id: String) -> (machine: SlotMachine)
        requires
            valid_account_id(owner_id@),
        ensures
            machine.owner() == owner_id@,
            machine.balances() == no_balances(),
    {
        SlotMachine { owner_id, credits: Ledger::new() }
    }

    /// A machine owned by `owner_id`, or `None` where `owner_id` is not a
    /// valid account identifier.
    pub fn try_new(owner_id: String) -> (made: Option<SlotMachine>)
        ensures
            (made is Some) == valid_account_id(owner_id@),
            made matches Some(machine) ==> {
                &&& machine.owner() == owner_id@
                &&& machine.balances() == no_balances()
                &&& 2 <= owner_id@.len() <= 64
            },
    {
        if is_valid_account_id(owner_id.as_str()) {
            Some(SlotMachine::new(owner_id))
        } else {
            None
        }
    }

    /// The owner's account identifier.
    pub fn owner_id(&self) -> (owner_id: &String)
        ensures
            owner_id@ == self.owner(),
    {
        &self.owner_id
    }

    /// Credits `amount` to `account_id`, or answers `Overflow` and changes
    /// nothing where the account's credits would not fit in 128 bits.
    pub fn deposit(&mut self, account_id: String, amount: u128) -> (result: Result<
        (),
        LedgerError,
    >)
        ensures
            result == credit_result(old(self).balances(), account_id@, amount),
            final(self).balances() == after_credit(old(self).balances(), account_id@, amount),
            final(self).owner() == old(self).owner(),
    {
        self.credits.credit(account_id.as_str(), amount)
    }

    /// Plays once for `account_id` with the byte that was drawn for it.
    ///
    /// The stake is `UNIT`. A byte below `WIN_THRESHOLD` wins
    /// `PAYOUT_MULTIPLE` times the stake; any other byte wins nothing. The
    /// answer is the byte itself. Where the account's credits do not cover
    /// the stake the answer is `InsufficientBalance`, where they would
    /// outgrow 128 bits it is `Overflow`, and either way nothing changes.
    pub fn play(&mut self, account_id: String, random_byte: u8) -> (result: Result<
        u8,
        LedgerError,
    >)
        ensures
            result == play_result(old(self).balances(), account_id@, random_byte),
            final(self).balances() == after_play(old(self).balances(), account_id@, random_byte),
            final(self).owner() == old(self).owner(),
    {
        let account = account_id.as_str();
        let credits: u128 = self.credits.get_balance(account);
        if credits < UNIT {
            return Err(LedgerError::InsufficientBalance);
        }
        let prize: u128 = if random_byte < WIN_THRESHOLD {
            UNIT * PAYOUT_MULTIPLE
        } else {
            0
        };
        if credits - UNIT > u128::MAX - prize {
            return Err(LedgerError::Overflow);
        }
        match self.credits.debit(account, UNIT) {
            Ok(()) => {},
            Err(refusal) => {
                return Err(refusal);
            },
        }
        match self.credits.credit(account, prize) {
            Ok(()) => {},
            Err(refusal) => {
                return Err(refusal);
            },
        }
        assert(self.credits@ =~= after_play(old(self).credits@, account_id@, random_byte));
        Ok(random_byte)
    }

    /// The credits of `account_id`: zero for an account that never
    /// deposited.
    pub fn get_credits(&self, account_id: String) -> (credits: u128)
        ensures
            credits == self.balances()[account_id@],
    {
        self.credits.get_balance(account_id.as_str())
    }
}

} // verus!
