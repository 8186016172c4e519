use vstd::prelude::*;

use crate::errors::SolbombsError;

verus! {

/// A 32-byte account address, held as two unsigned halves so that equality
/// of identities is plain field equality.
#[derive(Clone, Copy, PartialEq, Eq, Structural, Debug)]
pub struct AccountKey {
    pub hi: u128,
    pub lo: u128,
}

impl AccountKey {
    /// The all-zero address: the joiner slot before any human joins.
    pub open spec fn zero_spec() -> AccountKey {
        AccountKey { hi: 0, lo: 0 }
    }

    pub fn zero() -> (r: AccountKey)
        ensures
            r == AccountKey::zero_spec(),
    {
        AccountKey { hi: 0, lo: 0 }
    }
}

/// The single pooled treasury: every wager flows in, every payout flows out.
/// The live balance is consulted by each operation; nothing is reserved in
/// advance, so each payout is checked against the balance at execution time.
#[derive(Clone, Copy, PartialEq, Eq, Structural, Debug)]
pub struct Treasury {
    pub balance: u64,
}

impl Treasury {
    /// Credit a stake into the pooled balance; the only failure is overflow
    /// of the balance's width, and on failure nothing changes.
    pub fn credit(&mut self, amount: u64) -> (r: Result<(), SolbombsError>)
        ensures
            old(self).balance + amount <= u64::MAX ==> (
                r == Ok::<(), SolbombsError>(())
                && final(self).balance == old(self).balance + amount
            ),
            old(self).balance + amount > u64::MAX ==> (
                r == Err::<(), SolbombsError>(SolbombsError::MathOverflow)
                && *final(self) == *old(self)
            ),
    {
        match self.balance.checked_add(amount) {
            Some(b) => {
                self.balance = b;
                Ok(())
            }
            None => Err(SolbombsError::MathOverflow),
        }
    }

    /// Debit a payout whose solvency the caller has already checked against
    /// the live balance; the balance never goes below zero.
    pub fn debit(&mut self, amount: u64)
        requires
            amount <= old(self).balance,
        ensures
            final(self).balance == old(self).balance - amount,
    {
        self.balance = self.balance - amount;
    }
}

} // verus!
