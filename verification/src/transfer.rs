//! The confidential transfer flow.
//!
//! A transfer moves value between two confidential accounts without ever
//! revealing the amount.  It needs three proofs — equality, ciphertext
//! validity and range — each in its own context account, then a single
//! transfer instruction that atomically debits the sender's available
//! balance and credits the recipient's pending balance.  The transferred
//! value always lands in the recipient's pending balance, so a mandatory
//! apply on the recipient follows, and all three context accounts are
//! closed — also when any step fails.

use vstd::prelude::*;

use crate::amount::TRANSFER_AMOUNT_BOUND;
use crate::balance::BalanceState;
use crate::context::ContextStatus;
use crate::error::OperationError;

verus! {

/// The next ledger-facing step of a transfer flow.
#[derive(Clone, Copy, Debug, PartialEq, Eq, Structural)]
pub enum TransferAction {
    /// Generate the three proofs over the sender's current snapshot.
    GenerateProofs,
    /// Open the equality proof context account (no create/verify split).
    OpenEqualityContext,
    /// Open the ciphertext validity proof context account (no split).
    OpenValidityContext,
    /// Open the range proof context account (with the create/verify split).
    OpenRangeContext,
    /// Submit the transfer instruction referencing all three contexts.
    SubmitTransfer,
    /// Apply the recipient's pending balance into their available balance.
    ApplyRecipientPending,
    /// Close the equality proof context account, reclaiming its rent.
    CloseEqualityContext,
    /// Close the ciphertext validity proof context account.
    CloseValidityContext,
    /// Close the range proof context account.
    CloseRangeContext,
    /// Nothing is left to do; the outcome is final.
    Finish,
}

/// One in-flight confidential transfer.
pub struct TransferFlow {
    /// The amount transferred, in base units.
    pub amount: u64,
    /// The sender's decrypted view of their account.
    pub source: BalanceState,
    /// The recipient's decrypted view of their account.
    pub dest: BalanceState,
    /// The sender state the flow started from.
    pub initial_source: Ghost<BalanceState>,
    /// The recipient state the flow started from.
    pub initial_dest: Ghost<BalanceState>,
    /// All three proofs have been generated against the snapshot.
    pub proofs_ready: bool,
    /// The equality proof's context account.
    pub equality_ctx: ContextStatus,
    /// The ciphertext validity proof's context account.
    pub validity_ctx: ContextStatus,
    /// The range proof's context account.
    pub range_ctx: ContextStatus,
    /// The transfer instruction was confirmed by the ledger.
    pub executed: bool,
    /// The recipient's pending balance was applied after the transfer.
    pub recipient_applied: bool,
    /// The first error any step surfaced.
    pub failure: Option<OperationError>,
    /// Every close attempted so far succeeded.
    pub cleanup_clean: bool,
    /// The flow is finished.
    pub done: bool,
}

impl TransferFlow {
    /// The recipient's state once the transfer instruction settles.
    pub open spec fn credited_dest(self) -> BalanceState {
        BalanceState {
            pending: (self.initial_dest@.pending + self.amount) as u64,
            pending_credit_counter: (self.initial_dest@.pending_credit_counter + 1) as u64,
            ..self.initial_dest@
        }
    }

    /// Invariant of every reachable flow state.
    pub open spec fn wf(self) -> bool {
        &&& self.initial_source@.wf()
        &&& self.initial_dest@.wf()
        &&& self.source.wf()
        &&& self.dest.wf()
        &&& self.amount <= self.initial_source@.available
        &&& self.amount < TRANSFER_AMOUNT_BOUND
        &&& self.initial_dest@.can_credit(self.amount)
        &&& (self.executed ==> self.proofs_ready)
        &&& (self.equality_ctx !is Unopened ==> self.proofs_ready)
        &&& (self.validity_ctx !is Unopened ==> self.equality_ctx !is Unopened)
        &&& (self.range_ctx !is Unopened ==> self.validity_ctx !is Unopened)
        &&& (self.executed ==> self.range_ctx !is Unopened)
        &&& (self.failure is None && !self.executed ==> self.equality_ctx !is Released
            && self.validity_ctx !is Released && self.range_ctx !is Released)
        &&& (!self.executed ==> self.source == self.initial_source@
            && self.dest == self.initial_dest@)
        &&& (self.executed ==> self.source == BalanceState {
            available: (self.initial_source@.available - self.amount) as u64,
            ..self.initial_source@
        })
        &&& (self.executed && !self.recipient_applied ==> self.dest == self.credited_dest())
        &&& (self.recipient_applied ==> self.executed
            && self.dest == self.credited_dest().apply_spec())
        &&& (self.done ==> self.equality_ctx !is Open && self.validity_ctx !is Open
            && self.range_ctx !is Open)
        &&& (self.done && self.failure is None ==> self.executed && self.recipient_applied)
        &&& (!self.cleanup_clean ==> self.failure is Some)
    }

    /// The flow a fresh transfer starts from.
    pub open spec fn begin_spec(source: BalanceState, dest: BalanceState, amount: u64)
        -> TransferFlow {
        TransferFlow {
            amount,
            source,
            dest,
            initial_source: Ghost(source),
            initial_dest: Ghost(dest),
            proofs_ready: false,
            equality_ctx: ContextStatus::Unopened,
            validity_ctx: ContextStatus::Unopened,
            range_ctx: ContextStatus::Unopened,
            executed: false,
            recipient_applied: false,
            failure: None,
            cleanup_clean: true,
            done: false,
        }
    }

    /// Start a transfer of `amount` base units between two accounts whose
    /// decrypted views are `source` and `dest`.
    ///
    /// An amount above the sender's available balance, or at or above the
    /// `2^48` range bound, is rejected here, at proof construction, before
    /// anything is submitted to the ledger.  A recipient that cannot take
    /// another pending credit would have the transfer instruction itself
    /// rejected, so that flow is refused up front as a submission failure.
    pub fn begin(source: BalanceState, dest: BalanceState, amount: u64)
        -> (r: Result<TransferFlow, OperationError>)
        requires
            source.wf(),
            dest.wf(),
            source.available + dest.pending + dest.available <= u64::MAX,
        ensures
            r is Ok <==> amount <= source.available && amount < TRANSFER_AMOUNT_BOUND
                && dest.can_credit(amount),
            r is Err && (amount > source.available || amount >= TRANSFER_AMOUNT_BOUND)
                ==> r->Err_0 == OperationError::ProofConstruction,
            r is Err && amount <= source.available && amount < TRANSFER_AMOUNT_BOUND
                ==> r->Err_0 == OperationError::Submission,
            r is Ok ==> r->Ok_0 == Self::begin_spec(source, dest, amount),
            r is Ok ==> r->Ok_0.wf() && !r->Ok_0.done,
    {
        if amount > source.available || amount >= TRANSFER_AMOUNT_BOUND {
            return Err(OperationError::ProofConstruction);
        }
        if dest.pending_credit_counter >= dest.max_pending_credits {
            return Err(OperationError::Submission);
        }
        Ok(TransferFlow {
            amount,
            source,
            dest,
            initial_source: Ghost(source),
            initial_dest: Ghost(dest),
            proofs_ready: false,
            equality_ctx: ContextStatus::Unopened,
            validity_ctx: ContextStatus::Unopened,
            range_ctx: ContextStatus::Unopened,
            executed: false,
            recipient_applied: false,
            failure: None,
            cleanup_clean: true,
            done: false,
        })
    }

    /// The step the flow asks for next, as a function of its state: the
    /// proofs, the three context accounts, the transfer, the mandatory
    /// recipient apply; once anything has failed, only the cleanup of open
    /// context accounts remains, and it remains in every case.
    pub open spec fn next_spec(self) -> TransferAction {
        if self.failure is None && !self.proofs_ready {
            TransferAction::GenerateProofs
        } else if self.failure is None && self.equality_ctx is Unopened {
            TransferAction::OpenEqualityContext
        } else if self.failure is None && self.validity_ctx is Unopened {
            TransferAction::OpenValidityContext
        } else if self.failure is None && self.range_ctx is Unopened {
            TransferAction::OpenRangeContext
        } else if self.failure is None && !self.executed {
            TransferAction::SubmitTransfer
        } else if self.failure is None && !self.recipient_applied {
            TransferAction::ApplyRecipientPending
        } else if self.equality_ctx is Open {
            TransferAction::CloseEqualityContext
        } else if self.validity_ctx is Open {
            TransferAction::CloseValidityContext
        } else if self.range_ctx is Open {
            TransferAction::CloseRangeContext
        } else {
            TransferAction::Finish
        }
    }

    /// The step the flow asks for next.
    pub fn next_action(&self) -> (r: TransferAction)
        requires
            self.wf(),
            !self.done,
        ensures
            r == self.next_spec(),
            r is SubmitTransfer ==> self.equality_ctx is Open && self.validity_ctx is Open
                && self.range_ctx is Open,
    {
        if self.failure.is_none() && !self.proofs_ready {
            TransferAction::GenerateProofs
        } else if self.failure.is_none() && matches!(self.equality_ctx, ContextStatus::Unopened) {
            TransferAction::OpenEqualityContext
        } else if self.failure.is_none() && matches!(self.validity_ctx, ContextStatus::Unopened) {
            TransferAction::OpenValidityContext
        } else if self.failure.is_none() && matches!(self.range_ctx, ContextStatus::Unopened) {
            TransferAction::OpenRangeContext
        } else if self.failure.is_none() && !self.executed {
            TransferAction::SubmitTransfer
        } else if self.failure.is_none() && !self.recipient_applied {
            TransferAction::ApplyRecipientPending
        } else if matches!(self.equality_ctx, ContextStatus::Open) {
            TransferAction::CloseEqualityContext
        } else if matches!(self.validity_ctx, ContextStatus::Open) {
            TransferAction::CloseValidityContext
        } else if matches!(self.range_ctx, ContextStatus::Open) {
            TransferAction::CloseRangeContext
        } else {
            TransferAction::Finish
        }
    }

    /// The state after the pending action succeeded.
    pub open spec fn step_ok_spec(self) -> TransferFlow {
        match self.next_spec() {
            TransferAction::GenerateProofs => TransferFlow { proofs_ready: true, ..self },
            TransferAction::OpenEqualityContext => TransferFlow {
                equality_ctx: ContextStatus::Open,
                ..self
            },
            TransferAction::OpenValidityContext => TransferFlow {
                validity_ctx: ContextStatus::Open,
                ..self
            },
            TransferAction::OpenRangeContext => TransferFlow {
                range_ctx: ContextStatus::Open,
                ..self
            },
            TransferAction::SubmitTransfer => TransferFlow {
                executed: true,
                source: BalanceState {
                    available: (self.source.available - self.amount) as u64,
                    ..self.source
                },
                dest: BalanceState {
                    pending: (self.dest.pending + self.amount) as u64,
                    pending_credit_counter: (self.dest.pending_credit_counter + 1) as u64,
                    ..self.dest
                },
                ..self
            },
            TransferAction::ApplyRecipientPending => TransferFlow {
                recipient_applied: true,
                dest: self.dest.apply_spec(),
                ..self
            },
            TransferAction::CloseEqualityContext => TransferFlow {
                equality_ctx: ContextStatus::Released,
                ..self
            },
            TransferAction::CloseValidityContext => TransferFlow {
                validity_ctx: ContextStatus::Released,
                ..self
            },
            TransferAction::CloseRangeContext => TransferFlow {
                range_ctx: ContextStatus::Released,
                ..self
            },
            TransferAction::Finish => TransferFlow { done: true, ..self },
        }
    }

    /// Record that the pending action succeeded.  A confirmed transfer
    /// instruction atomically debits the sender's available balance and
    /// credits the recipient's pending balance by exactly the amount; the
    /// recipient apply then folds that credit into their available balance.
    pub fn step_ok(&mut self)
        requires
            old(self).wf(),
            !old(self).done,
        ensures
            *final(self) == old(self).step_ok_spec(),
            final(self).wf(),
    {
        if self.failure.is_none() && !self.proofs_ready {
            self.proofs_ready = true;
        } else if self.failure.is_none() && matches!(self.equality_ctx, ContextStatus::Unopened) {
            self.equality_ctx = ContextStatus::Open;
        } else if self.failure.is_none() && matches!(self.validity_ctx, ContextStatus::Unopened) {
            self.validity_ctx = ContextStatus::Open;
        } else if self.failure.is_none() && matches!(self.range_ctx, ContextStatus::Unopened) {
            self.range_ctx = ContextStatus::Open;
        } else if self.failure.is_none() && !self.executed {
            self.executed = true;
            self.source.available = self.source.available - self.amount;
            self.dest.pending = self.dest.pending + self.amount;
            self.dest.pending_credit_counter = self.dest.pending_credit_counter + 1;
        } else if self.failure.is_none() && !self.recipient_applied {
            self.recipient_applied = true;
            self.dest.available = self.dest.available + self.dest.pending;
            self.dest.pending = 0;
            self.dest.pending_credit_counter = 0;
        } else if matches!(self.equality_ctx, ContextStatus::Open) {
            self.equality_ctx = ContextStatus::Released;
        } else if matches!(self.validity_ctx, ContextStatus::Open) {
            self.validity_ctx = ContextStatus::Released;
        } else if matches!(self.range_ctx, ContextStatus::Open) {
            self.range_ctx = ContextStatus::Released;
        } else {
            self.done = true;
        }
    }

    /// The errors the pending action may legitimately surface.
    pub open spec fn allowed_errors(self, err: OperationError) -> bool {
        match self.next_spec() {
            TransferAction::GenerateProofs => err is ProofConstruction
                || err is Decryption
                || err is SnapshotStale,
            TransferAction::OpenEqualityContext => err is ContextCreation,
            TransferAction::OpenValidityContext => err is ContextCreation,
            TransferAction::OpenRangeContext => err is ContextCreation,
            TransferAction::SubmitTransfer => err is Submission || err is SnapshotStale,
            TransferAction::ApplyRecipientPending => err is Submission,
            TransferAction::CloseEqualityContext => err is ContextClose,
            TransferAction::CloseValidityContext => err is ContextClose,
            TransferAction::CloseRangeContext => err is ContextClose,
            TransferAction::Finish => false,
        }
    }

    /// The state after the pending action failed with `err`.
    pub open spec fn step_err_spec(self, err: OperationError) -> TransferFlow {
        let failed = TransferFlow {
            failure: if self.failure is None {
                Some(err)
            } else {
                self.failure
            },
            ..self
        };
        match self.next_spec() {
            TransferAction::CloseEqualityContext => TransferFlow {
                equality_ctx: ContextStatus::Released,
                cleanup_clean: false,
                ..failed
            },
            TransferAction::CloseValidityContext => TransferFlow {
                validity_ctx: ContextStatus::Released,
                cleanup_clean: false,
                ..failed
            },
            TransferAction::CloseRangeContext => TransferFlow {
                range_ctx: ContextStatus::Released,
                cleanup_clean: false,
                ..failed
            },
            _ => failed,
        }
    }

    /// Record that the pending action failed with `err`.  Failures never
    /// touch a balance; a failed close still counts as attempted, so the
    /// flow never retries it and never leaks the account.
    pub fn step_err(&mut self, err: OperationError)
        requires
            old(self).wf(),
            !old(self).done,
            old(self).allowed_errors(err),
        ensures
            *final(self) == old(self).step_err_spec(err),
            final(self).wf(),
            final(self).source == old(self).source,
            final(self).dest == old(self).dest,
    {
        if self.failure.is_none() {
            self.failure = Some(err);
        }
        if err == OperationError::ContextClose
            && matches!(self.equality_ctx, ContextStatus::Open) {
            self.equality_ctx = ContextStatus::Released;
            self.cleanup_clean = false;
        } else if err == OperationError::ContextClose
            && matches!(self.validity_ctx, ContextStatus::Open) {
            self.validity_ctx = ContextStatus::Released;
            self.cleanup_clean = false;
        } else if err == OperationError::ContextClose
            && matches!(self.range_ctx, ContextStatus::Open) {
            self.range_ctx = ContextStatus::Released;
            self.cleanup_clean = false;
        }
    }

    /// The flow's final outcome.
    pub fn outcome(&self) -> (r: Result<(), OperationError>)
        requires
            self.wf(),
            self.done,
        ensures
            r is Ok <==> self.failure is None,
            r is Ok ==> self.executed && self.recipient_applied,
            r is Err ==> r->Err_0 == self.failure->0,
    {
        match self.failure {
            None => Ok(()),
            Some(e) => Err(e),
        }
    }
}

impl TransferFlow {
    /// An upper bound on the steps the flow can still take: one for each
    /// proof generation, opening, submission, apply and close still owed
    /// (an unopened context may cost an open and a close), and one to
    /// finish.
    pub open spec fn steps_remaining(self) -> int {
        if self.done {
            0
        } else {
            1 + (if self.equality_ctx is Open { 1int } else { 0 })
                + (if self.validity_ctx is Open { 1int } else { 0 })
                + (if self.range_ctx is Open { 1int } else { 0 })
                + (if self.failure is None {
                    (if !self.proofs_ready { 1int } else { 0 })
                        + (if !self.executed { 1int } else { 0 })
                        + (if !self.recipient_applied { 1int } else { 0 })
                        + (if self.equality_ctx is Unopened { 2int } else { 0 })
                        + (if self.validity_ctx is Unopened { 2int } else { 0 })
                        + (if self.range_ctx is Unopened { 2int } else { 0 })
                } else {
                    0
                })
        }
    }
}

/// A transfer flow always finishes: every step — successful or failed —
/// strictly decreases the bounded number of steps left, so no run of the
/// flow can ask for ledger work forever.
pub proof fn lemma_transfer_flow_progress(f: TransferFlow, err: OperationError)
    requires
        f.wf(),
        !f.done,
    ensures
        f.steps_remaining() > 0,
        f.step_ok_spec().steps_remaining() < f.steps_remaining(),
        f.allowed_errors(err) ==> f.step_err_spec(err).steps_remaining() < f.steps_remaining(),
        f.step_ok_spec().steps_remaining() >= 0,
{
}

/// A transfer whose every step the ledger accepts settles: the sender's
/// available balance decreases by exactly the amount, the recipient first
/// sees the amount in pending, and after the mandatory apply sees their
/// available balance grown by exactly the amount, with all three context
/// accounts released.
pub proof fn lemma_transfer_all_success_settles(
    source: BalanceState,
    dest: BalanceState,
    amount: u64,
)
    requires
        source.wf(),
        dest.wf(),
        amount <= source.available,
        amount < TRANSFER_AMOUNT_BOUND,
        dest.can_credit(amount),
    ensures
        ({
            let mid = TransferFlow::begin_spec(source, dest, amount)
                .step_ok_spec().step_ok_spec().step_ok_spec().step_ok_spec().step_ok_spec();
            let f = mid.step_ok_spec().step_ok_spec().step_ok_spec().step_ok_spec()
                .step_ok_spec();
            &&& mid.executed && !mid.recipient_applied
            &&& mid.source.available == source.available - amount
            &&& mid.dest.pending == dest.pending + amount
            &&& f.done
            &&& f.failure is None
            &&& f.source.available == source.available - amount
            &&& f.dest.available == dest.available + dest.pending + amount
            &&& f.dest.pending == 0
            &&& f.equality_ctx is Released
            &&& f.validity_ctx is Released
            &&& f.range_ctx is Released
        }),
{
}

/// A transfer conserves value: once executed, whatever left the sender's
/// account is exactly what entered the recipient's, applied or not.
pub proof fn lemma_transfer_conserves_value(f: TransferFlow)
    requires
        f.wf(),
        f.executed,
    ensures
        f.source.total() + f.dest.total()
            == f.initial_source@.total() + f.initial_dest@.total(),
        f.initial_source@.total() - f.source.total() == f.amount,
{
}

/// A finished transfer flow holds no open context account.
pub proof fn lemma_transfer_no_context_leak(f: TransferFlow)
    requires
        f.wf(),
        f.done,
    ensures
        f.equality_ctx !is Open,
        f.validity_ctx !is Open,
        f.range_ctx !is Open,
{
}

/// Until the transfer instruction itself is confirmed — in particular when
/// a tampered proof is rejected at context creation or at execution — no
/// balance of either account has moved.
pub proof fn lemma_transfer_no_mutation_before_execution(f: TransferFlow)
    requires
        f.wf(),
        !f.executed,
    ensures
        f.source == f.initial_source@,
        f.dest == f.initial_dest@,
{
}

} // verus!
