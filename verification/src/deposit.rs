//! The confidential deposit flow.
//!
//! A deposit moves publicly visible token balance into the confidential
//! pending balance; the amount is public, so no proof is needed — the
//! ledger itself folds the plaintext amount into the pending ciphertext by
//! homomorphic addition.  Depositing is a two-step process: the deposit
//! lands in pending, and a following apply makes it spendable.

use vstd::prelude::*;

use crate::balance::BalanceState;
use crate::error::OperationError;

verus! {

/// The next ledger-facing step of a deposit flow.
#[derive(Clone, Copy, Debug, PartialEq, Eq, Structural)]
pub enum DepositAction {
    /// Submit the deposit instruction crediting the pending balance.
    SubmitDeposit,
    /// Apply the pending balance into the available balance.
    SubmitApply,
    /// Nothing is left to do; the outcome is final.
    Finish,
}

/// One in-flight confidential deposit, including the following apply.
pub struct DepositFlow {
    /// The amount deposited, in base units.
    pub amount: u64,
    /// The owner's decrypted view of the account.
    pub account: BalanceState,
    /// The account state the flow started from.
    pub initial_account: Ghost<BalanceState>,
    /// The deposit instruction was confirmed by the ledger.
    pub deposited: bool,
    /// The apply instruction was confirmed by the ledger.
    pub applied: bool,
    /// The first error any step surfaced.
    pub failure: Option<OperationError>,
    /// The flow is finished.
    pub done: bool,
}

impl DepositFlow {
    /// The account's state once the deposit instruction settles.
    pub open spec fn credited_account(self) -> BalanceState {
        BalanceState {
            pending: (self.initial_account@.pending + self.amount) as u64,
            pending_credit_counter: (self.initial_account@.pending_credit_counter + 1) as u64,
            ..self.initial_account@
        }
    }

    /// Invariant of every reachable flow state.
    pub open spec fn wf(self) -> bool {
        &&& self.initial_account@.wf()
        &&& self.account.wf()
        &&& self.initial_account@.can_credit(self.amount)
        &&& (!self.deposited ==> self.account == self.initial_account@)
        &&& (self.deposited && !self.applied ==> self.account == self.credited_account())
        &&& (self.applied ==> self.deposited
            && self.account == self.credited_account().apply_spec())
        &&& (self.done && self.failure is None ==> self.deposited && self.applied)
    }

    /// The flow a fresh deposit starts from.
    pub open spec fn begin_spec(account: BalanceState, amount: u64) -> DepositFlow {
        DepositFlow {
            amount,
            account,
            initial_account: Ghost(account),
            deposited: false,
            applied: false,
            failure: None,
            done: false,
        }
    }

    /// Start a deposit of `amount` base units.  An account that cannot take
    /// another pending credit would have the deposit instruction rejected,
    /// so that flow is refused up front as a submission failure.
    pub fn begin(account: BalanceState, amount: u64) -> (r: Result<DepositFlow, OperationError>)
        requires
            account.wf(),
            account.pending + account.available + amount <= u64::MAX,
        ensures
            r is Ok <==> account.can_credit(amount),
            r is Err ==> r->Err_0 == OperationError::Submission,
            r is Ok ==> r->Ok_0 == Self::begin_spec(account, amount),
            r is Ok ==> r->Ok_0.wf() && !r->Ok_0.done,
    {
        if account.pending_credit_counter >= account.max_pending_credits {
            return Err(OperationError::Submission);
        }
        Ok(DepositFlow {
            amount,
            account,
            initial_account: Ghost(account),
            deposited: false,
            applied: false,
            failure: None,
            done: false,
        })
    }

    /// The step the flow asks for next: deposit, then apply, then finish;
    /// a failure skips straight to finish — a deposit holds no context
    /// accounts, so there is nothing to clean up.
    pub open spec fn next_spec(self) -> DepositAction {
        if self.failure is None && !self.deposited {
            DepositAction::SubmitDeposit
        } else if self.failure is None && !self.applied {
            DepositAction::SubmitApply
        } else {
            DepositAction::Finish
        }
    }

    /// The step the flow asks for next.
    pub fn next_action(&self) -> (r: DepositAction)
        requires
            self.wf(),
            !self.done,
        ensures
            r == self.next_spec(),
    {
        if self.failure.is_none() && !self.deposited {
            DepositAction::SubmitDeposit
        } else if self.failure.is_none() && !self.applied {
            DepositAction::SubmitApply
        } else {
            DepositAction::Finish
        }
    }

    /// The state after the pending action succeeded.
    pub open spec fn step_ok_spec(self) -> DepositFlow {
        match self.next_spec() {
            DepositAction::SubmitDeposit => DepositFlow {
                deposited: true,
                account: BalanceState {
                    pending: (self.account.pending + self.amount) as u64,
                    pending_credit_counter: (self.account.pending_credit_counter + 1) as u64,
                    ..self.account
                },
                ..self
            },
            DepositAction::SubmitApply => DepositFlow {
                applied: true,
                account: self.account.apply_spec(),
                ..self
            },
            DepositAction::Finish => DepositFlow { done: true, ..self },
        }
    }

    /// Record that the pending action succeeded.  A confirmed deposit
    /// credits pending by exactly the amount; a confirmed apply folds the
    /// whole pending balance into available.
    pub fn step_ok(&mut self)
        requires
            old(self).wf(),
            !old(self).done,
        ensures
            *final(self) == old(self).step_ok_spec(),
            final(self).wf(),
    {
        if self.failure.is_none() && !self.deposited {
            self.deposited = true;
            self.account.pending = self.account.pending + self.amount;
            self.account.pending_credit_counter = self.account.pending_credit_counter + 1;
        } else if self.failure.is_none() && !self.applied {
            self.applied = true;
            self.account.available = self.account.available + self.account.pending;
            self.account.pending = 0;
            self.account.pending_credit_counter = 0;
        } else {
            self.done = true;
        }
    }

    /// The errors the pending action may legitimately surface.
    pub open spec fn allowed_errors(self, err: OperationError) -> bool {
        match self.next_spec() {
            DepositAction::SubmitDeposit => err is Submission,
            DepositAction::SubmitApply => err is Submission || err is Decryption,
            DepositAction::Finish => false,
        }
    }

    /// Record that the pending action failed with `err`.  Failures never
    /// touch the balance: an unconfirmed instruction moved nothing.
    pub fn step_err(&mut self, err: OperationError)
        requires
            old(self).wf(),
            !old(self).done,
            old(self).allowed_errors(err),
        ensures
            *final(self) == (DepositFlow { failure: Some(err), ..*old(self) }),
            final(self).wf(),
            final(self).account == old(self).account,
    {
        self.failure = Some(err);
    }

    /// The flow's final outcome.
    pub fn outcome(&self) -> (r: Result<(), OperationError>)
        requires
            self.wf(),
            self.done,
        ensures
            r is Ok <==> self.failure is None,
            r is Ok ==> self.deposited && self.applied,
            r is Err ==> r->Err_0 == self.failure->0,
    {
        match self.failure {
            None => Ok(()),
            Some(e) => Err(e),
        }
    }
}

/// A deposit whose every step the ledger accepts settles: afterwards the
/// available balance has grown by the deposited amount plus whatever was
/// already pending, and the pending balance decrypts to zero.
pub proof fn lemma_deposit_all_success_settles(account: BalanceState, amount: u64)
    requires
        account.wf(),
        account.can_credit(amount),
    ensures
        ({
            let f = DepositFlow::begin_spec(account, amount)
                .step_ok_spec().step_ok_spec().step_ok_spec();
            &&& f.done
            &&& f.failure is None
            &&& f.account.available == account.available + account.pending + amount
            &&& f.account.pending == 0
        }),
{
}

} // verus!
