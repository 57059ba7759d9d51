//! The pending/available balance state machine of one confidential account.
//!
//! On the ledger both balances exist only as ciphertexts.  This module is the
//! decrypted view the owner maintains: every settled ledger instruction maps
//! to exactly one of the transitions below, so the contracts here state what
//! each operation does to the value an owner would decrypt.
//!
//! Incoming value always lands in `pending` and is bounded by a credit
//! counter (at most `max_pending_credits` credits may mature before a
//! mandatory apply); an apply folds the whole pending balance into
//! `available` and resets pending to zero; only `available` can be spent.

use vstd::prelude::*;

use crate::error::OperationError;

verus! {

/// The owner's decrypted view of one confidential token account.
#[derive(Clone, Copy, Debug, PartialEq, Eq, Structural)]
pub struct BalanceState {
    /// Decrypted pending balance: credited, not yet spendable.
    pub pending: u64,
    /// Decrypted available balance: spendable.
    pub available: u64,
    /// Number of credits that landed in `pending` since the last apply.
    pub pending_credit_counter: u64,
    /// Largest number of pending credits before an apply is mandatory.
    pub max_pending_credits: u64,
}

impl BalanceState {
    /// Well-formedness: the two balances never together exceed the supply a
    /// 64-bit mint can issue (the ledger's homomorphic addition can then
    /// never overflow), and the credit counter respects its bound.
    pub open spec fn wf(self) -> bool {
        &&& self.pending + self.available <= u64::MAX
        &&& self.pending_credit_counter <= self.max_pending_credits
    }

    /// The total value the account holds, spendable or not.
    pub open spec fn total(self) -> int {
        self.pending + self.available
    }

    /// The state after an apply: pending folded into available, pending and
    /// its credit counter reset.  Available is never altered except by this
    /// addition.
    pub open spec fn apply_spec(self) -> BalanceState {
        BalanceState {
            pending: 0,
            available: (self.available + self.pending) as u64,
            pending_credit_counter: 0,
            max_pending_credits: self.max_pending_credits,
        }
    }

    /// A freshly configured account: both balances are encryptions of zero.
    pub fn new_account(max_pending_credits: u64) -> (r: BalanceState)
        ensures
            r.wf(),
            r.pending == 0,
            r.available == 0,
            r.pending_credit_counter == 0,
            r.max_pending_credits == max_pending_credits,
    {
        BalanceState {
            pending: 0,
            available: 0,
            pending_credit_counter: 0,
            max_pending_credits,
        }
    }

    /// Whether a credit of `amount` can land in `pending` right now: the
    /// credit counter has room and the mint's supply bound is respected.
    pub open spec fn can_credit(self, amount: u64) -> bool {
        &&& self.pending_credit_counter < self.max_pending_credits
        &&& self.pending + self.available + amount <= u64::MAX
    }

    /// A deposit or an incoming transfer landing in the pending balance.
    ///
    /// Fails as the ledger would: when the credit counter is exhausted or
    /// the supply bound would be exceeded, the crediting instruction is
    /// rejected and nothing changes.
    pub fn credit_pending(&mut self, amount: u64) -> (r: Result<(), OperationError>)
        requires
            old(self).wf(),
        ensures
            final(self).wf(),
            r is Ok <==> old(self).can_credit(amount),
            r is Ok ==> *final(self) == (BalanceState {
                pending: (old(self).pending + amount) as u64,
                pending_credit_counter: (old(self).pending_credit_counter + 1) as u64,
                ..*old(self)
            }),
            r is Err ==> *final(self) == *old(self) && r->Err_0 == OperationError::Submission,
    {
        if self.pending_credit_counter >= self.max_pending_credits {
            return Err(OperationError::Submission);
        }
        let headroom = u64::MAX - self.pending - self.available;
        if amount > headroom {
            return Err(OperationError::Submission);
        }
        self.pending = self.pending + amount;
        self.pending_credit_counter = self.pending_credit_counter + 1;
        Ok(())
    }

    /// Fold the whole pending balance into the available balance and reset
    /// pending to an encryption of zero.  Never fails: well-formedness rules
    /// out overflow.
    pub fn apply_pending(&mut self)
        requires
            old(self).wf(),
        ensures
            final(self).wf(),
            *final(self) == old(self).apply_spec(),
            final(self).available == old(self).available + old(self).pending,
            final(self).pending == 0,
            final(self).pending_credit_counter == 0,
            final(self).total() == old(self).total(),
    {
        self.available = self.available + self.pending;
        self.pending = 0;
        self.pending_credit_counter = 0;
    }

    /// An outgoing transfer or a withdrawal debiting the available balance.
    ///
    /// Succeeds exactly when the spendable balance covers the amount and
    /// then decreases it by exactly that amount; an uncovered amount fails
    /// at proof construction, before anything reaches the ledger.
    pub fn debit_available(&mut self, amount: u64) -> (r: Result<(), OperationError>)
        requires
            old(self).wf(),
        ensures
            final(self).wf(),
            r is Ok <==> amount <= old(self).available,
            r is Ok ==> *final(self) == (BalanceState {
                available: (old(self).available - amount) as u64,
                ..*old(self)
            }),
            r is Err ==> *final(self) == *old(self)
                && r->Err_0 == OperationError::ProofConstruction,
    {
        if amount > self.available {
            return Err(OperationError::ProofConstruction);
        }
        self.available = self.available - amount;
        Ok(())
    }
}

/// Applying the pending balance is idempotent: a second apply starts from a
/// pending balance of zero and leaves the available balance exactly where
/// the first apply put it.
pub proof fn lemma_apply_pending_idempotent(s: BalanceState)
    requires
        s.wf(),
    ensures
        s.apply_spec().apply_spec() == s.apply_spec(),
        s.pending == 0 ==> s.apply_spec().available == s.available,
{
}

} // verus!
