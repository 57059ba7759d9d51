//! The confidential withdraw flow.
//!
//! Withdrawing moves value from the encrypted available balance back to a
//! public token balance.  The flow generates an equality proof and a range
//! proof over a snapshot of the available balance, opens one context
//! account per proof, submits the withdraw instruction referencing both,
//! and closes the context accounts afterwards — also when any step fails.
//!
//! The state machine below decides every step; the caller performs each
//! returned action against the ledger and reports whether it succeeded.

use vstd::prelude::*;

use crate::balance::BalanceState;
use crate::context::ContextStatus;
use crate::error::OperationError;

verus! {

/// The next ledger-facing step of a withdraw flow.
#[derive(Clone, Copy, Debug, PartialEq, Eq, Structural)]
pub enum WithdrawAction {
    /// Generate the equality and range proofs over the current snapshot.
    GenerateProofs,
    /// Open the equality proof context account (no create/verify split).
    OpenEqualityContext,
    /// Open the range proof context account (with the create/verify split).
    OpenRangeContext,
    /// Submit the withdraw instruction referencing both context accounts.
    SubmitWithdraw,
    /// Close the equality proof context account, reclaiming its rent.
    CloseEqualityContext,
    /// Close the range proof context account, reclaiming its rent.
    CloseRangeContext,
    /// Nothing is left to do; the outcome is final.
    Finish,
}

/// One in-flight confidential withdraw.
pub struct WithdrawFlow {
    /// The amount withdrawn, in base units.
    pub amount: u64,
    /// The owner's decrypted view of the source account.
    pub source: BalanceState,
    /// The source state the flow started from.
    pub initial_source: Ghost<BalanceState>,
    /// Both proofs have been generated against the snapshot.
    pub proofs_ready: bool,
    /// The equality proof's context account.
    pub equality_ctx: ContextStatus,
    /// The range proof's context account.
    pub range_ctx: ContextStatus,
    /// The withdraw instruction was confirmed by the ledger.
    pub executed: bool,
    /// The first error any step surfaced.
    pub failure: Option<OperationError>,
    /// Every close attempted so far succeeded.
    pub cleanup_clean: bool,
    /// The flow is finished.
    pub done: bool,
}

impl WithdrawFlow {
    /// Invariant of every reachable flow state.
    pub open spec fn wf(self) -> bool {
        &&& self.initial_source@.wf()
        &&& self.source.wf()
        &&& self.amount <= self.initial_source@.available
        &&& (self.executed ==> self.proofs_ready)
        &&& (self.equality_ctx !is Unopened ==> self.proofs_ready)
        &&& (self.range_ctx !is Unopened ==> self.proofs_ready)
        &&& (self.range_ctx !is Unopened ==> self.equality_ctx !is Unopened)
        &&& (self.executed ==> self.equality_ctx !is Unopened
            && self.range_ctx !is Unopened)
        &&& (self.failure is None && !self.executed ==> self.equality_ctx !is Released
            && self.range_ctx !is Released)
        &&& (!self.executed ==> self.source == self.initial_source@)
        &&& (self.executed ==> self.source == BalanceState {
            available: (self.initial_source@.available - self.amount) as u64,
            ..self.initial_source@
        })
        &&& (self.done ==> self.equality_ctx !is Open && self.range_ctx !is Open)
        &&& (self.done && self.failure is None ==> self.executed)
        &&& (!self.cleanup_clean ==> self.failure is Some)
    }

    /// The flow a fresh withdraw starts from.
    pub open spec fn begin_spec(source: BalanceState, amount: u64) -> WithdrawFlow {
        WithdrawFlow {
            amount,
            source,
            initial_source: Ghost(source),
            proofs_ready: false,
            equality_ctx: ContextStatus::Unopened,
            range_ctx: ContextStatus::Unopened,
            executed: false,
            failure: None,
            cleanup_clean: true,
            done: false,
        }
    }

    /// Start a withdraw of `amount` base units from an account whose
    /// decrypted view is `source`.
    ///
    /// An amount above the available balance is rejected here, at proof
    /// construction, before anything is submitted to the ledger.
    pub fn begin(source: BalanceState, amount: u64) -> (r: Result<WithdrawFlow, OperationError>)
        requires
            source.wf(),
        ensures
            r is Ok <==> amount <= source.available,
            r is Err ==> r->Err_0 == OperationError::ProofConstruction,
            r is Ok ==> r->Ok_0 == Self::begin_spec(source, amount),
            r is Ok ==> r->Ok_0.wf() && !r->Ok_0.done,
    {
        if amount > source.available {
            return Err(OperationError::ProofConstruction);
        }
        Ok(WithdrawFlow {
            amount,
            source,
            initial_source: Ghost(source),
            proofs_ready: false,
            equality_ctx: ContextStatus::Unopened,
            range_ctx: ContextStatus::Unopened,
            executed: false,
            failure: None,
            cleanup_clean: true,
            done: false,
        })
    }

    /// The step the flow asks for next, as a function of its state: the
    /// proofs, then the two context accounts, then the withdraw itself;
    /// once anything has failed, only the cleanup of open context accounts
    /// remains, and it remains in every case.
    pub open spec fn next_spec(self) -> WithdrawAction {
        if self.failure is None && !self.proofs_ready {
            WithdrawAction::GenerateProofs
        } else if self.failure is None && self.equality_ctx is Unopened {
            WithdrawAction::OpenEqualityContext
        } else if self.failure is None && self.range_ctx is Unopened {
            WithdrawAction::OpenRangeContext
        } else if self.failure is None && !self.executed {
            WithdrawAction::SubmitWithdraw
        } else if self.equality_ctx is Open {
            WithdrawAction::CloseEqualityContext
        } else if self.range_ctx is Open {
            WithdrawAction::CloseRangeContext
        } else {
            WithdrawAction::Finish
        }
    }

    /// The step the flow asks for next.
    pub fn next_action(&self) -> (r: WithdrawAction)
        requires
            self.wf(),
            !self.done,
        ensures
            r == self.next_spec(),
            r is SubmitWithdraw ==> self.equality_ctx is Open && self.range_ctx is Open,
    {
        if self.failure.is_none() && !self.proofs_ready {
            WithdrawAction::GenerateProofs
        } else if self.failure.is_none() && matches!(self.equality_ctx, ContextStatus::Unopened) {
            WithdrawAction::OpenEqualityContext
        } else if self.failure.is_none() && matches!(self.range_ctx, ContextStatus::Unopened) {
            WithdrawAction::OpenRangeContext
        } else if self.failure.is_none() && !self.executed {
            WithdrawAction::SubmitWithdraw
        } else if matches!(self.equality_ctx, ContextStatus::Open) {
            WithdrawAction::CloseEqualityContext
        } else if matches!(self.range_ctx, ContextStatus::Open) {
            WithdrawAction::CloseRangeContext
        } else {
            WithdrawAction::Finish
        }
    }

    /// The state after the pending action succeeded.
    pub open spec fn step_ok_spec(self) -> WithdrawFlow {
        match self.next_spec() {
            WithdrawAction::GenerateProofs => WithdrawFlow { proofs_ready: true, ..self },
            WithdrawAction::OpenEqualityContext => WithdrawFlow {
                equality_ctx: ContextStatus::Open,
                ..self
            },
            WithdrawAction::OpenRangeContext => WithdrawFlow {
                range_ctx: ContextStatus::Open,
                ..self
            },
            WithdrawAction::SubmitWithdraw => WithdrawFlow {
                executed: true,
                source: BalanceState {
                    available: (self.source.available - self.amount) as u64,
                    ..self.source
                },
                ..self
            },
            WithdrawAction::CloseEqualityContext => WithdrawFlow {
                equality_ctx: ContextStatus::Released,
                ..self
            },
            WithdrawAction::CloseRangeContext => WithdrawFlow {
                range_ctx: ContextStatus::Released,
                ..self
            },
            WithdrawAction::Finish => WithdrawFlow { done: true, ..self },
        }
    }

    /// Record that the pending action succeeded.  A confirmed withdraw
    /// instruction decreases the available balance by exactly the amount.
    pub fn step_ok(&mut self)
        requires
            old(self).wf(),
            !old(self).done,
        ensures
            *final(self) == old(self).step_ok_spec(),
            final(self).wf(),
    {
        if self.failure.is_none() && !self.proofs_ready {
            self.proofs_ready = true;
        } else if self.failure.is_none() && matches!(self.equality_ctx, ContextStatus::Unopened) {
            self.equality_ctx = ContextStatus::Open;
        } else if self.failure.is_none() && matches!(self.range_ctx, ContextStatus::Unopened) {
            self.range_ctx = ContextStatus::Open;
        } else if self.failure.is_none() && !self.executed {
            self.executed = true;
            self.source.available = self.source.available - self.amount;
        } else if matches!(self.equality_ctx, ContextStatus::Open) {
            self.equality_ctx = ContextStatus::Released;
        } else if matches!(self.range_ctx, ContextStatus::Open) {
            self.range_ctx = ContextStatus::Released;
        } else {
            self.done = true;
        }
    }

    /// The errors the pending action may legitimately surface: proof
    /// generation fails on a bad range, key or stale snapshot; opening a
    /// context fails at creation; the withdraw itself fails at submission
    /// (or because the snapshot went stale); a close fails at closing.
    pub open spec fn allowed_errors(self, err: OperationError) -> bool {
        match self.next_spec() {
            WithdrawAction::GenerateProofs => err is ProofConstruction
                || err is Decryption
                || err is SnapshotStale,
            WithdrawAction::OpenEqualityContext => err is ContextCreation,
            WithdrawAction::OpenRangeContext => err is ContextCreation,
            WithdrawAction::SubmitWithdraw => err is Submission || err is SnapshotStale,
            WithdrawAction::CloseEqualityContext => err is ContextClose,
            WithdrawAction::CloseRangeContext => err is ContextClose,
            WithdrawAction::Finish => false,
        }
    }

    /// The state after the pending action failed with `err`.
    pub open spec fn step_err_spec(self, err: OperationError) -> WithdrawFlow {
        let failed = WithdrawFlow {
            failure: if self.failure is None {
                Some(err)
            } else {
                self.failure
            },
            ..self
        };
        match self.next_spec() {
            WithdrawAction::CloseEqualityContext => WithdrawFlow {
                equality_ctx: ContextStatus::Released,
                cleanup_clean: false,
                ..failed
            },
            WithdrawAction::CloseRangeContext => WithdrawFlow {
                range_ctx: ContextStatus::Released,
                cleanup_clean: false,
                ..failed
            },
            _ => failed,
        }
    }

    /// Record that the pending action failed with `err`.  Failures never
    /// touch the balance; a failed close still counts as attempted, so the
    /// flow never retries it and never leaks the account.
    pub fn step_err(&mut self, err: OperationError)
        requires
            old(self).wf(),
            !old(self).done,
            old(self).allowed_errors(err),
        ensures
            *final(self) == old(self).step_err_spec(err),
            final(self).wf(),
            final(self).source == old(self).source,
    {
        if self.failure.is_none() {
            self.failure = Some(err);
        }
        if self.failure.is_some() && matches!(self.equality_ctx, ContextStatus::Open)
            && err == OperationError::ContextClose {
            self.equality_ctx = ContextStatus::Released;
            self.cleanup_clean = false;
        } else if self.failure.is_some() && matches!(self.range_ctx, ContextStatus::Open)
            && err == OperationError::ContextClose {
            self.range_ctx = ContextStatus::Released;
            self.cleanup_clean = false;
        }
    }

    /// The flow's final outcome.
    pub fn outcome(&self) -> (r: Result<(), OperationError>)
        requires
            self.wf(),
            self.done,
        ensures
            r is Ok <==> self.failure is None,
            r is Ok ==> self.executed,
            r is Err ==> r->Err_0 == self.failure->0,
    {
        match self.failure {
            None => Ok(()),
            Some(e) => Err(e),
        }
    }
}

impl WithdrawFlow {
    /// An upper bound on the steps the flow can still take: one for each
    /// proof generation, opening, submission and close still owed (an
    /// unopened context may cost an open and a close), and one to finish.
    pub open spec fn steps_remaining(self) -> int {
        if self.done {
            0
        } else {
            1 + (if self.equality_ctx is Open { 1int } else { 0 })
                + (if self.range_ctx is Open { 1int } else { 0 })
                + (if self.failure is None {
                    (if !self.proofs_ready { 1int } else { 0 })
                        + (if !self.executed { 1int } else { 0 })
                        + (if self.equality_ctx is Unopened { 2int } else { 0 })
                        + (if self.range_ctx is Unopened { 2int } else { 0 })
                } else {
                    0
                })
        }
    }
}

/// A withdraw flow always finishes: every step — successful or failed —
/// strictly decreases the bounded number of steps left, so no run of the
/// flow can ask for ledger work forever.
pub proof fn lemma_withdraw_flow_progress(f: WithdrawFlow, err: OperationError)
    requires
        f.wf(),
        !f.done,
    ensures
        f.steps_remaining() > 0,
        f.step_ok_spec().steps_remaining() < f.steps_remaining(),
        f.allowed_errors(err) ==> f.step_err_spec(err).steps_remaining() < f.steps_remaining(),
        f.step_ok_spec().steps_remaining() >= 0,
{
}

/// A withdraw whose every step the ledger accepts settles: the flow finishes
/// without failure, the available balance has decreased by exactly the
/// amount, and both context accounts have been released.
pub proof fn lemma_withdraw_all_success_settles(source: BalanceState, amount: u64)
    requires
        source.wf(),
        amount <= source.available,
    ensures
        ({
            let f = WithdrawFlow::begin_spec(source, amount)
                .step_ok_spec().step_ok_spec().step_ok_spec().step_ok_spec()
                .step_ok_spec().step_ok_spec().step_ok_spec();
            &&& f.done
            &&& f.failure is None
            &&& f.executed
            &&& f.source.available == source.available - amount
            &&& f.source.pending == source.pending
            &&& f.equality_ctx is Released
            &&& f.range_ctx is Released
        }),
{
}

/// A finished withdraw flow holds no open context account: cleanup is a
/// guarantee, not best effort.
pub proof fn lemma_withdraw_no_context_leak(f: WithdrawFlow)
    requires
        f.wf(),
        f.done,
    ensures
        f.equality_ctx !is Open,
        f.range_ctx !is Open,
{
}

/// Until the withdraw instruction itself is confirmed, no failure has moved
/// any balance.
pub proof fn lemma_withdraw_no_mutation_before_execution(f: WithdrawFlow)
    requires
        f.wf(),
        !f.executed,
    ensures
        f.source == f.initial_source@,
{
}

} // verus!
