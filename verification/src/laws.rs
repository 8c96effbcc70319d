//! What holds of the ledger and of the game on every input, proved from the
//! functions that the operations' contracts are stated with.

use crate::error::LedgerError;
use crate::ledger::{after_credit, after_debit, credit_fits, credit_result, no_balances};
use crate::machine::{after_play, is_win, payout, play_result, PAYOUT_MULTIPLE, UNIT, WIN_THRESHOLD};
use vstd::prelude::*;

verus! {

/// An account that no operation has touched has balance zero.
pub proof fn law_untouched_account_reads_zero(account: Seq<char>)
    ensures
        no_balances()[account] == 0,
{
}

/// A credit that fits is accepted and raises the account's balance by
/// exactly the amount.
pub proof fn law_credit_adds(balances: Map<Seq<char>, u128>, account: Seq<char>, amount: u128)
    requires
        credit_fits(balances, account, amount),
    ensures
        credit_result(balances, account, amount) is Ok,
        after_credit(balances, account, amount)[account] == balances[account] + amount,
{
}

/// A credit changes no balance but that of the account it names.
pub proof fn law_credit_is_local(
    balances: Map<Seq<char>, u128>,
    account: Seq<char>,
    amount: u128,
    other: Seq<char>,
)
    requires
        other != account,
    ensures
        after_credit(balances, account, amount)[other] == balances[other],
{
}

/// A play on a balance below the stake is refused with
/// `InsufficientBalance`, whatever byte was drawn, and changes no balance.
pub proof fn law_play_needs_stake(
    balances: Map<Seq<char>, u128>,
    account: Seq<char>,
    random_byte: u8,
)
    requires
        balances[account] < UNIT,
    ensures
        play_result(balances, account, random_byte) == Err::<u8, LedgerError>(
            LedgerError::InsufficientBalance,
        ),
        after_play(balances, account, random_byte) == balances,
{
}

/// A play on a balance that covers the stake, and that has room for the
/// payout, answers the byte drawn. On a byte below the threshold the balance
/// becomes the prior balance less the stake plus `PAYOUT_MULTIPLE` stakes; on
/// any other byte it becomes the prior balance less the stake.
pub proof fn law_play_settles(
    balances: Map<Seq<char>, u128>,
    account: Seq<char>,
    random_byte: u8,
)
    requires
        balances[account] >= UNIT,
        balances[account] - UNIT + payout(random_byte) <= u128::MAX,
    ensures
        play_result(balances, account, random_byte) == Ok::<u8, LedgerError>(random_byte),
        random_byte < WIN_THRESHOLD ==> after_play(balances, account, random_byte)[account]
            == balances[account] - UNIT + UNIT * PAYOUT_MULTIPLE,
        random_byte >= WIN_THRESHOLD ==> after_play(balances, account, random_byte)[account]
            == balances[account] - UNIT,
{
}

/// The threshold itself loses: a play drawn with it costs the stake and pays
/// nothing.
pub proof fn law_threshold_loses(balances: Map<Seq<char>, u128>, account: Seq<char>)
    requires
        balances[account] >= UNIT,
    ensures
        !is_win(WIN_THRESHOLD),
        play_result(balances, account, WIN_THRESHOLD) is Ok,
        after_play(balances, account, WIN_THRESHOLD)[account] == balances[account] - UNIT,
{
}

/// An accepted play is the stake debited and the payout credited, in that
/// order.
pub proof fn law_play_is_debit_then_credit(
    balances: Map<Seq<char>, u128>,
    account: Seq<char>,
    random_byte: u8,
)
    requires
        play_result(balances, account, random_byte) is Ok,
    ensures
        after_play(balances, account, random_byte) == after_credit(
            after_debit(balances, account, UNIT),
            account,
            payout(random_byte) as u128,
        ),
{
    assert(after_play(balances, account, random_byte) =~= after_credit(
        after_debit(balances, account, UNIT),
        account,
        payout(random_byte) as u128,
    ));
}

/// Two plays by the same account with the same byte, on ledgers that hold
/// the same balances, answer the same and leave the same balances.
pub proof fn law_play_is_deterministic(
    first: Map<Seq<char>, u128>,
    second: Map<Seq<char>, u128>,
    account: Seq<char>,
    random_byte: u8,
)
    requires
        first == second,
    ensures
        play_result(first, account, random_byte) == play_result(second, account, random_byte),
        after_play(first, account, random_byte) == after_play(second, account, random_byte),
{
}

/// An accepted play always moves the account's balance, so playing is not
/// idempotent.
pub proof fn law_play_moves_balance(
    balances: Map<Seq<char>, u128>,
    account: Seq<char>,
    random_byte: u8,
)
    requires
        play_result(balances, account, random_byte) is Ok,
    ensures
        after_play(balances, account, random_byte)[account] != balances[account],
{
}

} // verus!
