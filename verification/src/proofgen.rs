//! The proof generator: exact gatekeeping around proof construction.
//!
//! Proofs are generated against a snapshot of the source account's
//! ciphertext state.  The functions here decide — with proved contracts —
//! exactly which requests reach the cryptographic backend: the decryptable
//! balance must decrypt under the owner's key, the amount must fit the
//! proved range, and the amount must not exceed the decrypted balance.
//! Everything the backend then returns is carried through opaquely.

use vstd::prelude::*;

use crate::amount::TRANSFER_AMOUNT_BOUND;
use crate::error::OperationError;
use crate::zk::{ae_decrypt, ae_decrypt_of, generate_transfer_proofs, generate_withdraw_proofs};
use spl_token_confidential_transfer_proof_generation::transfer::TransferProofData;
use spl_token_confidential_transfer_proof_generation::withdraw::WithdrawProofData;

verus! {

/// Generate the equality and range proofs for a withdraw of `amount` base
/// units, against the snapshot ciphertexts of the source account.
///
/// Fails with `Decryption` exactly when the decryptable balance does not
/// decrypt under the owner's key, and with `ProofConstruction` when the
/// amount exceeds the decrypted balance — in both cases before anything is
/// handed to the proof backend.
pub fn withdraw_proof_artifacts(
    available_ciphertext: &[u8; 64],
    decryptable_ciphertext: &[u8; 36],
    ae_key: &[u8; 16],
    elgamal_keypair: &[u8; 64],
    amount: u64,
) -> (r: Result<WithdrawProofData, OperationError>)
    ensures
        ae_decrypt_of(decryptable_ciphertext@, ae_key@) is None
            ==> r is Err && r->Err_0 == OperationError::Decryption,
        (ae_decrypt_of(decryptable_ciphertext@, ae_key@) matches Some(b) && amount > b)
            ==> r is Err && r->Err_0 == OperationError::ProofConstruction,
        r is Ok ==> (ae_decrypt_of(decryptable_ciphertext@, ae_key@) matches Some(b)
            && amount <= b),
        r is Err ==> r->Err_0 == OperationError::ProofConstruction
            || r->Err_0 == OperationError::Decryption,
{
    let balance = match ae_decrypt(ae_key, decryptable_ciphertext) {
        Some(b) => b,
        None => {
            return Err(OperationError::Decryption);
        },
    };
    if amount > balance {
        return Err(OperationError::ProofConstruction);
    }
    generate_withdraw_proofs(available_ciphertext, balance, amount, elgamal_keypair)
}

/// Generate the equality, ciphertext validity and range proofs for a
/// transfer of `amount` base units, against the snapshot ciphertexts of
/// the sender's account.
///
/// Fails with `Decryption` exactly when the decryptable balance does not
/// decrypt under the sender's key, and with `ProofConstruction` when the
/// amount reaches the `2^48` range bound or exceeds the decrypted balance
/// — in all three cases before anything is handed to the proof backend.
pub fn transfer_proof_artifacts(
    available_ciphertext: &[u8; 64],
    decryptable_ciphertext: &[u8; 36],
    ae_key: &[u8; 16],
    source_elgamal_keypair: &[u8; 64],
    destination_elgamal_pubkey: &[u8; 32],
    amount: u64,
) -> (r: Result<TransferProofData, OperationError>)
    ensures
        ae_decrypt_of(decryptable_ciphertext@, ae_key@) is None
            ==> r is Err && r->Err_0 == OperationError::Decryption,
        (ae_decrypt_of(decryptable_ciphertext@, ae_key@) is Some
            && amount >= TRANSFER_AMOUNT_BOUND)
            ==> r is Err && r->Err_0 == OperationError::ProofConstruction,
        (ae_decrypt_of(decryptable_ciphertext@, ae_key@) matches Some(b)
            && amount < TRANSFER_AMOUNT_BOUND && amount > b)
            ==> r is Err && r->Err_0 == OperationError::ProofConstruction,
        r is Ok ==> (ae_decrypt_of(decryptable_ciphertext@, ae_key@) matches Some(b)
            && amount <= b && amount < TRANSFER_AMOUNT_BOUND),
        r is Err ==> r->Err_0 == OperationError::ProofConstruction
            || r->Err_0 == OperationError::Decryption,
{
    let balance = match ae_decrypt(ae_key, decryptable_ciphertext) {
        Some(b) => b,
        None => {
            return Err(OperationError::Decryption);
        },
    };
    if amount >= TRANSFER_AMOUNT_BOUND {
        return Err(OperationError::ProofConstruction);
    }
    if amount > balance {
        return Err(OperationError::ProofConstruction);
    }
    generate_transfer_proofs(
        available_ciphertext,
        decryptable_ciphertext,
        amount,
        source_elgamal_keypair,
        ae_key,
        destination_elgamal_pubkey,
    )
}

} // verus!
