use vstd::prelude::*;

verus! {

/// Why the ledger refused an operation. A refused operation changes nothing.
#[derive(Clone, Copy, Debug, PartialEq, Eq, Structural)]
pub enum LedgerError {
    /// The account holds less than the operation takes from it.
    InsufficientBalance,
    /// The account's balance would no longer fit in 128 bits.
    Overflow,
}

} // verus!
