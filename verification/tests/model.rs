//! The balance model and the four operation flows, driven step by step.

use confidential_tokens::apply::{ApplyAction, ApplyFlow};
use confidential_tokens::balance::BalanceState;
use confidential_tokens::deposit::{DepositAction, DepositFlow};
use confidential_tokens::error::OperationError;
use confidential_tokens::proofs::{required_proofs, requires_split, Operation, ProofKind};
use confidential_tokens::transfer::{TransferAction, TransferFlow};
use confidential_tokens::withdraw::{WithdrawAction, WithdrawFlow};

#[test]
fn new_account_is_empty() {
    let account = BalanceState::new_account(65536);
    assert_eq!(account.pending, 0);
    assert_eq!(account.available, 0);
    assert_eq!(account.pending_credit_counter, 0);
    assert_eq!(account.max_pending_credits, 65536);
}

#[test]
fn credit_then_apply_moves_pending_to_available() {
    let mut account = BalanceState::new_account(8);
    assert!(account.credit_pending(250).is_ok());
    assert_eq!(account.pending, 250);
    assert_eq!(account.pending_credit_counter, 1);
    account.apply_pending();
    assert_eq!(account.pending, 0);
    assert_eq!(account.available, 250);
    assert_eq!(account.pending_credit_counter, 0);
}

#[test]
fn apply_pending_is_idempotent() {
    let mut account = BalanceState::new_account(8);
    assert!(account.credit_pending(77).is_ok());
    account.apply_pending();
    let after_first = account.available;
    account.apply_pending();
    assert_eq!(account.available, after_first);
    assert_eq!(account.pending, 0);
}

#[test]
fn credit_fails_when_counter_exhausted() {
    let mut account = BalanceState::new_account(1);
    assert!(account.credit_pending(10).is_ok());
    let err = account.credit_pending(10).unwrap_err();
    assert_eq!(err, OperationError::Submission);
    assert_eq!(account.pending, 10);
    assert_eq!(account.pending_credit_counter, 1);
}

#[test]
fn debit_more_than_available_fails_at_proof_construction() {
    let mut account = BalanceState::new_account(8);
    assert!(account.credit_pending(100).is_ok());
    account.apply_pending();
    let err = account.debit_available(101).unwrap_err();
    assert_eq!(err, OperationError::ProofConstruction);
    assert_eq!(account.available, 100);
}

#[test]
fn debit_decreases_available_by_exactly_the_amount() {
    let mut account = BalanceState::new_account(8);
    assert!(account.credit_pending(100).is_ok());
    account.apply_pending();
    assert!(account.debit_available(40).is_ok());
    assert_eq!(account.available, 60);
    assert!(account.debit_available(60).is_ok());
    assert_eq!(account.available, 0);
}

#[test]
fn proofs_required_per_operation() {
    assert_eq!(required_proofs(Operation::Deposit), vec![]);
    assert_eq!(required_proofs(Operation::ApplyPending), vec![]);
    assert_eq!(
        required_proofs(Operation::Transfer),
        vec![ProofKind::Equality, ProofKind::CiphertextValidity, ProofKind::Range]
    );
    assert_eq!(
        required_proofs(Operation::Withdraw),
        vec![ProofKind::Equality, ProofKind::Range]
    );
}

#[test]
fn only_range_proofs_need_the_split() {
    assert!(requires_split(ProofKind::Range));
    assert!(!requires_split(ProofKind::Equality));
    assert!(!requires_split(ProofKind::CiphertextValidity));
}

#[test]
fn deposit_then_apply_scenario() {
    // Deposit 100 units, apply pending: available decrypts to 100 and
    // pending decrypts to 0.
    let account = BalanceState::new_account(65536);
    let mut flow = DepositFlow::begin(account, 100).unwrap();
    assert!(matches!(flow.next_action(), DepositAction::SubmitDeposit));
    flow.step_ok();
    assert_eq!(flow.account.pending, 100);
    assert!(matches!(flow.next_action(), DepositAction::SubmitApply));
    flow.step_ok();
    assert!(matches!(flow.next_action(), DepositAction::Finish));
    flow.step_ok();
    assert!(flow.outcome().is_ok());
    assert_eq!(flow.account.available, 100);
    assert_eq!(flow.account.pending, 0);
}

#[test]
fn deposit_failure_leaves_balances_unchanged() {
    let account = BalanceState::new_account(65536);
    let mut flow = DepositFlow::begin(account, 100).unwrap();
    assert!(matches!(flow.next_action(), DepositAction::SubmitDeposit));
    flow.step_err(OperationError::Submission);
    assert!(matches!(flow.next_action(), DepositAction::Finish));
    flow.step_ok();
    assert_eq!(flow.outcome().unwrap_err(), OperationError::Submission);
    assert_eq!(flow.account.pending, 0);
    assert_eq!(flow.account.available, 0);
}

#[test]
fn apply_flow_twice_leaves_available_unchanged() {
    let mut account = BalanceState::new_account(65536);
    assert!(account.credit_pending(42).is_ok());
    let mut first = ApplyFlow::begin(account);
    assert!(matches!(first.next_action(), ApplyAction::SubmitApply));
    first.step_ok();
    first.step_ok();
    assert!(first.outcome().is_ok());
    assert_eq!(first.account.available, 42);
    // Pending is already an encryption of zero: a second apply is a no-op
    // on the available balance.
    let mut second = ApplyFlow::begin(first.account);
    second.step_ok();
    second.step_ok();
    assert!(second.outcome().is_ok());
    assert_eq!(second.account.available, 42);
    assert_eq!(second.account.pending, 0);
}

fn funded_account(amount: u64) -> BalanceState {
    let mut account = BalanceState::new_account(65536);
    account.credit_pending(amount).unwrap();
    account.apply_pending();
    account
}

#[test]
fn transfer_scenario_fifty_of_one_hundred() {
    // Transfer 50 of 100 from A to B: A's available decrypts to 50; B's
    // pending decrypts to 50 before the apply; after B applies, B's
    // available decrypts to 50.
    let a = funded_account(100);
    let b = BalanceState::new_account(65536);
    let mut flow = TransferFlow::begin(a, b, 50).unwrap();
    assert!(matches!(flow.next_action(), TransferAction::GenerateProofs));
    flow.step_ok();
    assert!(matches!(flow.next_action(), TransferAction::OpenEqualityContext));
    flow.step_ok();
    assert!(matches!(flow.next_action(), TransferAction::OpenValidityContext));
    flow.step_ok();
    assert!(matches!(flow.next_action(), TransferAction::OpenRangeContext));
    flow.step_ok();
    assert!(matches!(flow.next_action(), TransferAction::SubmitTransfer));
    flow.step_ok();
    assert_eq!(flow.source.available, 50);
    assert_eq!(flow.dest.pending, 50);
    assert_eq!(flow.dest.available, 0);
    assert!(matches!(flow.next_action(), TransferAction::ApplyRecipientPending));
    flow.step_ok();
    assert_eq!(flow.dest.available, 50);
    assert_eq!(flow.dest.pending, 0);
    assert!(matches!(flow.next_action(), TransferAction::CloseEqualityContext));
    flow.step_ok();
    assert!(matches!(flow.next_action(), TransferAction::CloseValidityContext));
    flow.step_ok();
    assert!(matches!(flow.next_action(), TransferAction::CloseRangeContext));
    flow.step_ok();
    assert!(matches!(flow.next_action(), TransferAction::Finish));
    flow.step_ok();
    assert!(flow.outcome().is_ok());
    assert_eq!(flow.source.available, 50);
    assert_eq!(flow.dest.available, 50);
}

#[test]
fn transfer_more_than_available_is_refused_up_front() {
    let a = funded_account(100);
    let b = BalanceState::new_account(65536);
    let err = TransferFlow::begin(a, b, 101).err().unwrap();
    assert_eq!(err, OperationError::ProofConstruction);
}

#[test]
fn transfer_at_range_bound_is_refused_up_front() {
    let a = funded_account(u64::MAX / 2);
    let b = BalanceState::new_account(65536);
    let err = TransferFlow::begin(a, b, 1u64 << 48).err().unwrap();
    assert_eq!(err, OperationError::ProofConstruction);
    // Just below the bound the flow is accepted.
    assert!(TransferFlow::begin(a, b, (1u64 << 48) - 1).is_ok());
}

#[test]
fn rejected_transfer_mutates_no_balance_and_leaks_no_context() {
    // A transfer whose equality proof is rejected at context creation
    // reports the failure without moving any balance.
    let a = funded_account(100);
    let b = BalanceState::new_account(65536);
    let mut flow = TransferFlow::begin(a, b, 50).unwrap();
    flow.step_ok(); // proofs generated
    assert!(matches!(flow.next_action(), TransferAction::OpenEqualityContext));
    flow.step_err(OperationError::ContextCreation);
    // Nothing was opened, so nothing needs cleanup.
    assert!(matches!(flow.next_action(), TransferAction::Finish));
    flow.step_ok();
    assert_eq!(flow.outcome().unwrap_err(), OperationError::ContextCreation);
    assert_eq!(flow.source.available, 100);
    assert_eq!(flow.dest.pending, 0);
    assert_eq!(flow.dest.available, 0);
}

#[test]
fn failed_transfer_execution_still_closes_all_contexts() {
    let a = funded_account(100);
    let b = BalanceState::new_account(65536);
    let mut flow = TransferFlow::begin(a, b, 50).unwrap();
    flow.step_ok(); // proofs
    flow.step_ok(); // equality context open
    flow.step_ok(); // validity context open
    flow.step_ok(); // range context open
    assert!(matches!(flow.next_action(), TransferAction::SubmitTransfer));
    flow.step_err(OperationError::Submission);
    // All three context accounts were open: each must still be closed.
    assert!(matches!(flow.next_action(), TransferAction::CloseEqualityContext));
    flow.step_ok();
    assert!(matches!(flow.next_action(), TransferAction::CloseValidityContext));
    flow.step_ok();
    assert!(matches!(flow.next_action(), TransferAction::CloseRangeContext));
    flow.step_ok();
    assert!(matches!(flow.next_action(), TransferAction::Finish));
    flow.step_ok();
    assert_eq!(flow.outcome().unwrap_err(), OperationError::Submission);
    assert_eq!(flow.source.available, 100);
    assert_eq!(flow.dest.pending, 0);
    assert!(!flow.equality_ctx.is_open());
    assert!(!flow.validity_ctx.is_open());
    assert!(!flow.range_ctx.is_open());
}

#[test]
fn failed_close_is_attempted_once_and_reported() {
    let a = funded_account(100);
    let b = BalanceState::new_account(65536);
    let mut flow = TransferFlow::begin(a, b, 50).unwrap();
    flow.step_ok(); // proofs
    flow.step_ok(); // equality open
    flow.step_ok(); // validity open
    flow.step_ok(); // range open
    flow.step_ok(); // transfer executed
    flow.step_ok(); // recipient applied
    assert!(matches!(flow.next_action(), TransferAction::CloseEqualityContext));
    flow.step_err(OperationError::ContextClose);
    // The failed close is not retried; the other contexts still close.
    assert!(matches!(flow.next_action(), TransferAction::CloseValidityContext));
    flow.step_ok();
    assert!(matches!(flow.next_action(), TransferAction::CloseRangeContext));
    flow.step_ok();
    flow.step_ok(); // finish
    assert_eq!(flow.outcome().unwrap_err(), OperationError::ContextClose);
    // The settled balances stand: the value moved even though cleanup
    // reported a failure.
    assert_eq!(flow.source.available, 50);
    assert_eq!(flow.dest.available, 50);
}

#[test]
fn withdraw_scenario_all_steps_succeed() {
    let account = funded_account(100);
    let mut flow = WithdrawFlow::begin(account, 60).unwrap();
    assert!(matches!(flow.next_action(), WithdrawAction::GenerateProofs));
    flow.step_ok();
    assert!(matches!(flow.next_action(), WithdrawAction::OpenEqualityContext));
    flow.step_ok();
    assert!(matches!(flow.next_action(), WithdrawAction::OpenRangeContext));
    flow.step_ok();
    assert!(matches!(flow.next_action(), WithdrawAction::SubmitWithdraw));
    flow.step_ok();
    assert_eq!(flow.source.available, 40);
    assert!(matches!(flow.next_action(), WithdrawAction::CloseEqualityContext));
    flow.step_ok();
    assert!(matches!(flow.next_action(), WithdrawAction::CloseRangeContext));
    flow.step_ok();
    assert!(matches!(flow.next_action(), WithdrawAction::Finish));
    flow.step_ok();
    assert!(flow.outcome().is_ok());
    assert_eq!(flow.source.available, 40);
}

#[test]
fn withdraw_more_than_available_fails_before_any_submission() {
    // Withdrawing more than the available balance fails at proof
    // construction; no flow exists, so no ledger step can ever be asked
    // for.
    let account = funded_account(100);
    let err = WithdrawFlow::begin(account, 101).err().unwrap();
    assert_eq!(err, OperationError::ProofConstruction);
}

#[test]
fn withdraw_failure_before_execution_keeps_balance() {
    let account = funded_account(100);
    let mut flow = WithdrawFlow::begin(account, 60).unwrap();
    flow.step_ok(); // proofs
    flow.step_ok(); // equality open
    assert!(matches!(flow.next_action(), WithdrawAction::OpenRangeContext));
    flow.step_err(OperationError::ContextCreation);
    assert!(matches!(flow.next_action(), WithdrawAction::CloseEqualityContext));
    flow.step_ok();
    assert!(matches!(flow.next_action(), WithdrawAction::Finish));
    flow.step_ok();
    assert_eq!(flow.outcome().unwrap_err(), OperationError::ContextCreation);
    assert_eq!(flow.source.available, 100);
}

#[test]
fn retryable_errors() {
    assert!(OperationError::SnapshotStale.is_retryable());
    assert!(OperationError::Submission.is_retryable());
    assert!(OperationError::ContextCreation.is_retryable());
    assert!(OperationError::ContextClose.is_retryable());
    assert!(!OperationError::ProofConstruction.is_retryable());
    assert!(!OperationError::Decryption.is_retryable());
}
