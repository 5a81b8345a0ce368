//! The player's spendable gold balance.

use crate::errors::BuildError;
use vstd::prelude::*;

verus! {

/// The amount of gold the player has, used to build towers.
/// The balance is a `u32`, so it is non-negative by construction; debits
/// are atomic check-then-subtract and never leave a partial effect.
#[derive(Clone, Copy, PartialEq, Eq, Structural, Debug)]
pub struct Gold(pub u32);

impl Default for Gold {
    /// A new player starts with 500 gold.
    fn default() -> (r: Self)
        ensures
            r.0 == 500,
    {
        Gold(500)
    }
}

impl Gold {
    /// Atomically subtract `amount` if and only if the balance covers
    /// it; on failure the balance is unchanged.
    pub fn try_debit(&mut self, amount: u32) -> (r: Result<(), BuildError>)
        ensures
            amount <= old(self).0 ==> r == Ok::<(), BuildError>(()) && final(self).0 == old(
                self,
            ).0 - amount,
            amount > old(self).0 ==> r == Err::<(), BuildError>(BuildError::InsufficientFunds)
                && *final(self) == *old(self),
    {
        if amount <= self.0 {
            self.0 = self.0 - amount;
            Ok(())
        } else {
            Err(BuildError::InsufficientFunds)
        }
    }

    /// Unconditional addition, for income sources.
    pub fn credit(&mut self, amount: u32)
        requires
            old(self).0 + amount <= u32::MAX,
        ensures
            final(self).0 == old(self).0 + amount,
    {
        self.0 = self.0 + amount;
    }
}

} // verus!
