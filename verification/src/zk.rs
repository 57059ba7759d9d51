//! Trusted wrappers around the ledger SDK's encryption and proof machinery.
//!
//! Keys and ciphertexts cross this boundary as plain byte arrays, so every
//! contract here is stated over byte sequences.  The owner-side symmetric
//! scheme (authenticated encryption of the decryptable available balance)
//! is what the protocol itself decrypts; the ElGamal side is carried
//! through opaquely for the ledger and the proof constructions.

use vstd::prelude::*;

use crate::error::OperationError;
use solana_sdk::signature::Keypair;
use spl_token_2022::solana_zk_sdk::encryption::auth_encryption::{AeCiphertext, AeKey};
use spl_token_2022::solana_zk_sdk::encryption::elgamal::{
    ElGamalCiphertext, ElGamalKeypair, ElGamalPubkey,
};
use spl_token_confidential_transfer_proof_generation::transfer::{
    transfer_split_proof_data, TransferProofData,
};
use spl_token_confidential_transfer_proof_generation::withdraw::{
    withdraw_proof_data, WithdrawProofData,
};

verus! {

#[verifier::external_type_specification]
#[verifier::external_body]
pub struct ExTransferProofData(TransferProofData);

#[verifier::external_type_specification]
#[verifier::external_body]
pub struct ExWithdrawProofData(WithdrawProofData);

/// What decrypting an authenticated-encryption ciphertext (36 bytes of
/// nonce and ciphertext) under a 16-byte key yields.  Decryption is a
/// function of the two byte strings alone; `None` stands for bytes that do
/// not authenticate under the key.
pub uninterp spec fn ae_decrypt_of(ciphertext: Seq<u8>, key: Seq<u8>) -> Option<u64>;

/// The authenticated-encryption key deterministically derived from a
/// signing keypair and a public seed, or `None` where derivation fails.
pub uninterp spec fn ae_key_of(signer: Seq<u8>, seed: Seq<u8>) -> Option<Seq<u8>>;

/// The ElGamal keypair deterministically derived from a signing keypair and
/// a public seed, or `None` where derivation fails.
pub uninterp spec fn elgamal_keypair_of(signer: Seq<u8>, seed: Seq<u8>) -> Option<Seq<u8>>;

/// Relies on `AeKey::new_from_signer`: the key is derived by hashing the
/// signer's (deterministic) signature over the seed, so equal inputs give
/// equal keys in every process.
#[verifier::external_body]
pub(crate) fn derive_ae_key(signer: &[u8; 64], seed: &[u8; 32]) -> (r: Option<[u8; 16]>)
    ensures
        r is Some ==> ae_key_of(signer@, seed@) == Some(r->0@),
        r is None ==> ae_key_of(signer@, seed@) is None,
{
    let keypair = Keypair::try_from(signer.as_slice()).ok()?;
    let key = AeKey::new_from_signer(&keypair, seed).ok()?;
    Some(<[u8; 16]>::from(key))
}

/// Relies on `ElGamalKeypair::new_from_signer`: the keypair is derived by
/// hashing the signer's (deterministic) signature over the seed, so equal
/// inputs give equal keypairs in every process.  The 64-byte encoding is
/// the 32-byte public key followed by the 32-byte secret key, so the
/// public half handed back is exactly the encoding's first 32 bytes.
#[verifier::external_body]
pub(crate) fn derive_elgamal_keypair(signer: &[u8; 64], seed: &[u8; 32])
    -> (r: Option<([u8; 64], [u8; 32])>)
    ensures
        r is Some ==> elgamal_keypair_of(signer@, seed@) == Some((r->0).0@),
        r is Some ==> (r->0).1@ == (r->0).0@.subrange(0, 32),
        r is None ==> elgamal_keypair_of(signer@, seed@) is None,
{
    let keypair = Keypair::try_from(signer.as_slice()).ok()?;
    let elgamal = ElGamalKeypair::new_from_signer(&keypair, seed).ok()?;
    Some((<[u8; 64]>::from(&elgamal), <[u8; 32]>::from(*elgamal.pubkey())))
}

/// Relies on `AeKey::encrypt` and `AeCiphertext::decrypt`: authenticated
/// encryption under a key produces a ciphertext that decrypts under the
/// same key to exactly the encrypted amount.  The nonce inside the result
/// is random, so nothing else is stated of the bytes.
#[verifier::external_body]
pub fn ae_encrypt(key: &[u8; 16], amount: u64) -> (r: [u8; 36])
    ensures
        ae_decrypt_of(r@, key@) == Some(amount),
{
    AeKey::from(*key).encrypt(amount).to_bytes()
}

/// Relies on `AeCiphertext::decrypt` (after `AeCiphertext::from_bytes`):
/// decryption of the 36 ciphertext bytes under the 16 key bytes.
#[verifier::external_body]
pub fn ae_decrypt(key: &[u8; 16], ciphertext: &[u8; 36]) -> (r: Option<u64>)
    ensures
        r == ae_decrypt_of(ciphertext@, key@),
{
    let parsed = AeCiphertext::from_bytes(ciphertext.as_slice())?;
    parsed.decrypt(&AeKey::from(*key))
}

/// Relies on `withdraw_proof_data`: a withdraw amount above the supplied
/// current balance fails the remaining-balance subtraction and no proof is
/// generated; malformed ciphertext or keypair bytes fail parsing.
#[verifier::external_body]
pub(crate) fn generate_withdraw_proofs(
    available_ciphertext: &[u8; 64],
    current_balance: u64,
    amount: u64,
    elgamal_keypair: &[u8; 64],
) -> (r: Result<WithdrawProofData, OperationError>)
    ensures
        amount > current_balance ==> r is Err,
        r is Err ==> r->Err_0 == OperationError::ProofConstruction
            || r->Err_0 == OperationError::Decryption,
{
    let ciphertext = ElGamalCiphertext::from_bytes(available_ciphertext.as_slice());
    let keypair = ElGamalKeypair::try_from(elgamal_keypair.as_slice()).ok();
    match (ciphertext, keypair) {
        (Some(ct), Some(kp)) => withdraw_proof_data(&ct, current_balance, amount, &kp)
            .map_err(|_| OperationError::ProofConstruction),
        _ => Err(OperationError::Decryption),
    }
}

/// Relies on `transfer_split_proof_data`: the source's decryptable balance
/// is decrypted with the symmetric key — failure to decrypt, or a transfer
/// amount above the decrypted balance, generates no proof.
#[verifier::external_body]
pub(crate) fn generate_transfer_proofs(
    available_ciphertext: &[u8; 64],
    decryptable_ciphertext: &[u8; 36],
    amount: u64,
    source_elgamal_keypair: &[u8; 64],
    ae_key: &[u8; 16],
    destination_elgamal_pubkey: &[u8; 32],
) -> (r: Result<TransferProofData, OperationError>)
    ensures
        r is Ok ==> (ae_decrypt_of(decryptable_ciphertext@, ae_key@) matches Some(b)
            && amount <= b),
        ae_decrypt_of(decryptable_ciphertext@, ae_key@) is None ==> r is Err,
        r is Err ==> r->Err_0 == OperationError::ProofConstruction
            || r->Err_0 == OperationError::Decryption,
{
    let available = ElGamalCiphertext::from_bytes(available_ciphertext.as_slice());
    let decryptable = AeCiphertext::from_bytes(decryptable_ciphertext.as_slice());
    let keypair = ElGamalKeypair::try_from(source_elgamal_keypair.as_slice()).ok();
    let dest = ElGamalPubkey::try_from(destination_elgamal_pubkey.as_slice()).ok();
    match (available, decryptable, keypair, dest) {
        (Some(av), Some(de), Some(kp), Some(dp)) => transfer_split_proof_data(
            &av, &de, amount, &kp, &AeKey::from(*ae_key), &dp, None,
        ).map_err(|_| OperationError::ProofConstruction),
        _ => Err(OperationError::Decryption),
    }
}

/// The encryption keys of one confidential account, deterministically
/// derived from the owner's signing key and the account's address: losing
/// neither is possible while the derivation inputs are held.
pub struct AccountKeys {
    /// The symmetric key for owner-only decryption of the available balance.
    pub ae_key: [u8; 16],
    /// The ElGamal keypair for the homomorphic, proof-compatible scheme.
    pub elgamal_keypair: [u8; 64],
    /// The public half of the ElGamal keypair, as the ledger stores it.
    pub elgamal_pubkey: [u8; 32],
}

/// Derive both of an account's encryption keys from the owner's signing
/// keypair and the account's address.  Derivation is deterministic: the
/// same signer and address always yield the same keys, so the keys need
/// never be stored — and it succeeds exactly when both derivations do.
pub fn derive_account_keys(signer: &[u8; 64], account_address: &[u8; 32])
    -> (r: Option<AccountKeys>)
    ensures
        r is Some ==> ae_key_of(signer@, account_address@) == Some(r->0.ae_key@),
        r is Some ==> elgamal_keypair_of(signer@, account_address@)
            == Some(r->0.elgamal_keypair@),
        r is Some ==> r->0.elgamal_pubkey@ == r->0.elgamal_keypair@.subrange(0, 32),
        r is None <==> (ae_key_of(signer@, account_address@) is None
            || elgamal_keypair_of(signer@, account_address@) is None),
{
    let ae_key = match derive_ae_key(signer, account_address) {
        Some(k) => k,
        None => {
            return None;
        },
    };
    let (elgamal_keypair, elgamal_pubkey) = match derive_elgamal_keypair(signer, account_address) {
        Some(k) => k,
        None => {
            return None;
        },
    };
    Some(AccountKeys { ae_key, elgamal_keypair, elgamal_pubkey })
}

} // verus!
