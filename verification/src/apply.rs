//! The apply-pending flow.
//!
//! Applying converts the whole pending balance into spendable available
//! balance: the owner decrypts pending with the account's keys, re-encrypts
//! the sum into available, and resets pending to an encryption of zero.
//! It is a single instruction and needs no proof; it is also safe to retry,
//! since applying an already-zero pending balance changes nothing.

use vstd::prelude::*;

use crate::balance::BalanceState;
use crate::error::OperationError;

verus! {

/// The next ledger-facing step of an apply flow.
#[derive(Clone, Copy, Debug, PartialEq, Eq, Structural)]
pub enum ApplyAction {
    /// Submit the apply-pending-balance instruction.
    SubmitApply,
    /// Nothing is left to do; the outcome is final.
    Finish,
}

/// One in-flight apply of a pending balance.
pub struct ApplyFlow {
    /// The owner's decrypted view of the account.
    pub account: BalanceState,
    /// The account state the flow started from.
    pub initial_account: Ghost<BalanceState>,
    /// The apply instruction was confirmed by the ledger.
    pub applied: bool,
    /// The first error any step surfaced.
    pub failure: Option<OperationError>,
    /// The flow is finished.
    pub done: bool,
}

impl ApplyFlow {
    /// Invariant of every reachable flow state.
    pub open spec fn wf(self) -> bool {
        &&& self.initial_account@.wf()
        &&& self.account.wf()
        &&& (!self.applied ==> self.account == self.initial_account@)
        &&& (self.applied ==> self.account == self.initial_account@.apply_spec())
        &&& (self.done && self.failure is None ==> self.applied)
    }

    /// The flow a fresh apply starts from.
    pub open spec fn begin_spec(account: BalanceState) -> ApplyFlow {
        ApplyFlow {
            account,
            initial_account: Ghost(account),
            applied: false,
            failure: None,
            done: false,
        }
    }

    /// Start an apply on an account whose decrypted view is `account`.
    /// Applying is always possible; there is nothing to reject.
    pub fn begin(account: BalanceState) -> (r: ApplyFlow)
        requires
            account.wf(),
        ensures
            r == Self::begin_spec(account),
            r.wf(),
            !r.done,
    {
        ApplyFlow {
            account,
            initial_account: Ghost(account),
            applied: false,
            failure: None,
            done: false,
        }
    }

    /// The step the flow asks for next.
    pub open spec fn next_spec(self) -> ApplyAction {
        if self.failure is None && !self.applied {
            ApplyAction::SubmitApply
        } else {
            ApplyAction::Finish
        }
    }

    /// The step the flow asks for next.
    pub fn next_action(&self) -> (r: ApplyAction)
        requires
            self.wf(),
            !self.done,
        ensures
            r == self.next_spec(),
    {
        if self.failure.is_none() && !self.applied {
            ApplyAction::SubmitApply
        } else {
            ApplyAction::Finish
        }
    }

    /// The state after the pending action succeeded.
    pub open spec fn step_ok_spec(self) -> ApplyFlow {
        match self.next_spec() {
            ApplyAction::SubmitApply => ApplyFlow {
                applied: true,
                account: self.account.apply_spec(),
                ..self
            },
            ApplyAction::Finish => ApplyFlow { done: true, ..self },
        }
    }

    /// Record that the pending action succeeded.
    pub fn step_ok(&mut self)
        requires
            old(self).wf(),
            !old(self).done,
        ensures
            *final(self) == old(self).step_ok_spec(),
            final(self).wf(),
    {
        if self.failure.is_none() && !self.applied {
            self.applied = true;
            self.account.available = self.account.available + self.account.pending;
            self.account.pending = 0;
            self.account.pending_credit_counter = 0;
        } else {
            self.done = true;
        }
    }

    /// The errors the pending action may legitimately surface: the apply
    /// submission can fail at the ledger, or the owner's keys can fail to
    /// decrypt the pending ciphertexts.
    pub open spec fn allowed_errors(self, err: OperationError) -> bool {
        match self.next_spec() {
            ApplyAction::SubmitApply => err is Submission || err is Decryption,
            ApplyAction::Finish => false,
        }
    }

    /// Record that the pending action failed with `err`.
    pub fn step_err(&mut self, err: OperationError)
        requires
            old(self).wf(),
            !old(self).done,
            old(self).allowed_errors(err),
        ensures
            *final(self) == (ApplyFlow { failure: Some(err), ..*old(self) }),
            final(self).wf(),
            final(self).account == old(self).account,
    {
        self.failure = Some(err);
    }

    /// The flow's final outcome.
    pub fn outcome(&self) -> (r: Result<(), OperationError>)
        requires
            self.wf(),
            self.done,
        ensures
            r is Ok <==> self.failure is None,
            r is Ok ==> self.applied,
            r is Err ==> r->Err_0 == self.failure->0,
    {
        match self.failure {
            None => Ok(()),
            Some(e) => Err(e),
        }
    }
}

/// Applying twice is the same as applying once: a second apply flow started
/// from the settled state of a first leaves the available balance unchanged.
pub proof fn lemma_apply_twice_is_apply_once(account: BalanceState)
    requires
        account.wf(),
    ensures
        ({
            let once = ApplyFlow::begin_spec(account).step_ok_spec().step_ok_spec();
            let twice = ApplyFlow::begin_spec(once.account).step_ok_spec().step_ok_spec();
            &&& once.done && once.failure is None
            &&& twice.done && twice.failure is None
            &&& twice.account == once.account
            &&& twice.account.available == once.account.available
        }),
{
}

} // verus!
