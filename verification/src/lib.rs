//! Confidential token transfer protocol core.
//!
//! Balances of a confidential token account live on a public ledger only as
//! ciphertexts: incoming value lands in an encrypted *pending* balance and
//! must be applied into the encrypted *available* balance before it can be
//! spent.  Every operation that moves value (deposit, transfer, withdraw)
//! must be accompanied by zero-knowledge proofs, which are too large to embed
//! in a single ledger instruction and therefore travel in ephemeral proof
//! context accounts that are opened before the operation and closed after it.
//!
//! This crate verifies the protocol around that machinery: the numeric
//! scaling policy, the pending/available balance state machine, the proof
//! requirements of each operation, and the sequencing and cleanup discipline
//! of the proof context accounts.  The cryptography itself (authenticated
//! encryption, ElGamal encryption, proof construction) is performed by the
//! ledger SDK behind a small set of trusted wrappers.

pub mod amount;
pub mod apply;
pub mod balance;
pub mod context;
pub mod deposit;
pub mod error;
pub mod proofgen;
pub mod proofs;
pub mod setup;
pub mod snapshot;
pub mod transfer;
pub mod withdraw;
pub mod zk;
