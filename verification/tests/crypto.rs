//! The trusted cryptographic boundary, exercised against the real backend.

use confidential_tokens::error::OperationError;
use confidential_tokens::proofgen::{transfer_proof_artifacts, withdraw_proof_artifacts};
use confidential_tokens::setup::{confidential_account_space, plan_account_creation};
use confidential_tokens::setup::read_mint_config;
use confidential_tokens::snapshot::{parse_account_snapshot, read_account, AccountSnapshot};
use confidential_tokens::zk::{ae_decrypt, ae_encrypt, derive_account_keys};

use solana_sdk::program_option::COption;
use solana_sdk::pubkey::Pubkey;
use solana_sdk::signature::Keypair;
use solana_sdk::signer::Signer;
use spl_token_2022::extension::confidential_transfer::{
    ConfidentialTransferAccount, ConfidentialTransferMint,
};
use spl_token_2022::extension::{BaseStateWithExtensionsMut, ExtensionType, StateWithExtensionsMut};
use spl_token_2022::solana_zk_sdk::encryption::elgamal::ElGamalKeypair;
use spl_token_2022::solana_zk_sdk::encryption::pod::auth_encryption::PodAeCiphertext;
use spl_token_2022::solana_zk_sdk::encryption::pod::elgamal::PodElGamalCiphertext;
use spl_token_2022::solana_zk_sdk::zk_elgamal_proof_program::proof_data::ZkProofData;
use spl_token_2022::state::{Account, AccountState, Mint};

fn signer_bytes() -> [u8; 64] {
    Keypair::new().to_bytes()
}

fn account_seed() -> [u8; 32] {
    Keypair::new().pubkey().to_bytes()
}

/// Derive an account's two encryption keys the way the protocol does.
fn derived_keys(signer: &[u8; 64], seed: &[u8; 32]) -> ([u8; 16], [u8; 64]) {
    let keys = derive_account_keys(signer, seed).expect("key derivation");
    (keys.ae_key, keys.elgamal_keypair)
}

/// An ElGamal encryption of `amount` under the keypair's public key.
fn elgamal_encrypt(keypair_bytes: &[u8; 64], amount: u64) -> [u8; 64] {
    let keypair = ElGamalKeypair::try_from(keypair_bytes.as_slice()).expect("keypair bytes");
    keypair.pubkey().encrypt_u64(amount).to_bytes()
}

#[test]
fn ae_round_trip_for_generated_keys() {
    let (ae_key, _) = derived_keys(&signer_bytes(), &account_seed());
    for amount in [0u64, 1, 55, 1_000_000, u64::MAX] {
        let ciphertext = ae_encrypt(&ae_key, amount);
        assert_eq!(ae_decrypt(&ae_key, &ciphertext), Some(amount));
    }
}

#[test]
fn ae_decrypt_with_wrong_key_fails() {
    let (key_a, _) = derived_keys(&signer_bytes(), &account_seed());
    let (key_b, _) = derived_keys(&signer_bytes(), &account_seed());
    let ciphertext = ae_encrypt(&key_a, 123);
    assert_eq!(ae_decrypt(&key_b, &ciphertext), None);
}

#[test]
fn key_derivation_is_deterministic() {
    let signer = signer_bytes();
    let seed = account_seed();
    let first = derive_account_keys(&signer, &seed).expect("key derivation");
    let second = derive_account_keys(&signer, &seed).expect("key derivation");
    assert_eq!(first.ae_key, second.ae_key);
    assert_eq!(first.elgamal_keypair, second.elgamal_keypair);
    assert_eq!(first.elgamal_pubkey, second.elgamal_pubkey);
}

#[test]
fn elgamal_pubkey_is_keypair_prefix() {
    let keys = derive_account_keys(&signer_bytes(), &account_seed()).expect("key derivation");
    assert_eq!(&keys.elgamal_pubkey[..], &keys.elgamal_keypair[..32]);
}

#[test]
fn withdraw_proofs_generate_for_covered_amount() {
    let (ae_key, elgamal) = derived_keys(&signer_bytes(), &account_seed());
    let available = elgamal_encrypt(&elgamal, 100);
    let decryptable = ae_encrypt(&ae_key, 100);
    let artifacts = withdraw_proof_artifacts(&available, &decryptable, &ae_key, &elgamal, 40)
        .expect("proof generation");
    assert!(artifacts.equality_proof_data.verify_proof().is_ok());
    assert!(artifacts.range_proof_data.verify_proof().is_ok());
}

#[test]
fn withdraw_above_balance_fails_at_proof_construction() {
    // No proof can be constructed for a withdraw that would leave a
    // negative balance; the failure comes before any ledger interaction.
    let (ae_key, elgamal) = derived_keys(&signer_bytes(), &account_seed());
    let available = elgamal_encrypt(&elgamal, 100);
    let decryptable = ae_encrypt(&ae_key, 100);
    let err = withdraw_proof_artifacts(&available, &decryptable, &ae_key, &elgamal, 101)
        .err().unwrap();
    assert_eq!(err, OperationError::ProofConstruction);
}

#[test]
fn withdraw_with_wrong_key_fails_as_decryption() {
    let (ae_key, elgamal) = derived_keys(&signer_bytes(), &account_seed());
    let (other_key, _) = derived_keys(&signer_bytes(), &account_seed());
    let available = elgamal_encrypt(&elgamal, 100);
    let decryptable = ae_encrypt(&ae_key, 100);
    let err = withdraw_proof_artifacts(&available, &decryptable, &other_key, &elgamal, 10)
        .err().unwrap();
    assert_eq!(err, OperationError::Decryption);
}

#[test]
fn transfer_proofs_generate_for_covered_amount() {
    let (ae_key, elgamal) = derived_keys(&signer_bytes(), &account_seed());
    let recipient_keys = derive_account_keys(&signer_bytes(), &account_seed()).unwrap();
    let recipient_pubkey = recipient_keys.elgamal_pubkey;
    let available = elgamal_encrypt(&elgamal, 100);
    let decryptable = ae_encrypt(&ae_key, 100);
    let artifacts = transfer_proof_artifacts(
        &available, &decryptable, &ae_key, &elgamal, &recipient_pubkey, 50,
    ).expect("proof generation");
    assert!(artifacts.equality_proof_data.verify_proof().is_ok());
    assert!(artifacts
        .ciphertext_validity_proof_data_with_ciphertext
        .proof_data
        .verify_proof()
        .is_ok());
    assert!(artifacts.range_proof_data.verify_proof().is_ok());
}

#[test]
fn transfer_above_balance_fails_at_proof_construction() {
    let (ae_key, elgamal) = derived_keys(&signer_bytes(), &account_seed());
    let recipient_keys = derive_account_keys(&signer_bytes(), &account_seed()).unwrap();
    let recipient_pubkey = recipient_keys.elgamal_pubkey;
    let available = elgamal_encrypt(&elgamal, 100);
    let decryptable = ae_encrypt(&ae_key, 100);
    let err = transfer_proof_artifacts(
        &available, &decryptable, &ae_key, &elgamal, &recipient_pubkey, 101,
    ).err().unwrap();
    assert_eq!(err, OperationError::ProofConstruction);
}

#[test]
fn transfer_at_range_bound_fails_at_proof_construction() {
    // Amounts at or above 2^48 cannot be proved in range.
    let (ae_key, elgamal) = derived_keys(&signer_bytes(), &account_seed());
    let recipient_keys = derive_account_keys(&signer_bytes(), &account_seed()).unwrap();
    let recipient_pubkey = recipient_keys.elgamal_pubkey;
    let available = elgamal_encrypt(&elgamal, u64::MAX);
    let decryptable = ae_encrypt(&ae_key, u64::MAX);
    let err = transfer_proof_artifacts(
        &available, &decryptable, &ae_key, &elgamal, &recipient_pubkey, 1u64 << 48,
    ).err().unwrap();
    assert_eq!(err, OperationError::ProofConstruction);
}

#[test]
fn tampered_equality_proof_fails_verification() {
    // A context account creation verifies the proof it is handed; a
    // payload with one flipped byte never verifies.
    let (ae_key, elgamal) = derived_keys(&signer_bytes(), &account_seed());
    let available = elgamal_encrypt(&elgamal, 100);
    let decryptable = ae_encrypt(&ae_key, 100);
    let artifacts = withdraw_proof_artifacts(&available, &decryptable, &ae_key, &elgamal, 40)
        .expect("proof generation");
    assert!(artifacts.equality_proof_data.verify_proof().is_ok());
    let mut bytes = bytemuck::bytes_of(&artifacts.equality_proof_data).to_vec();
    let last = bytes.len() - 1;
    bytes[last] ^= 0x01;
    let tampered: spl_token_2022::solana_zk_sdk::zk_elgamal_proof_program::proof_data::CiphertextCommitmentEqualityProofData =
        bytemuck::pod_read_unaligned(&bytes);
    assert!(tampered.verify_proof().is_err());
}

#[test]
fn snapshot_parse_rejects_foreign_bytes() {
    assert!(parse_account_snapshot(&vec![]).is_none());
    assert!(parse_account_snapshot(&vec![0u8; 64]).is_none());
    assert!(read_mint_config(&vec![]).is_none());
    assert!(read_mint_config(&vec![1u8; 100]).is_none());
    let (ae_key, _) = derived_keys(&signer_bytes(), &account_seed());
    let err = read_account(&vec![0u8; 200], &ae_key).err().unwrap();
    assert_eq!(err, OperationError::Decryption);
}

#[test]
fn snapshot_staleness_check() {
    let (ae_key, elgamal) = derived_keys(&signer_bytes(), &account_seed());
    let snapshot = AccountSnapshot {
        available_ciphertext: elgamal_encrypt(&elgamal, 100),
        decryptable_ciphertext: ae_encrypt(&ae_key, 100),
        pending_credit_counter: 0,
        maximum_pending_credits: 65536,
    };
    let same = AccountSnapshot {
        available_ciphertext: snapshot.available_ciphertext,
        decryptable_ciphertext: snapshot.decryptable_ciphertext,
        pending_credit_counter: 0,
        maximum_pending_credits: 65536,
    };
    assert!(snapshot.check_matches(&same).is_ok());
    assert_eq!(snapshot.decrypt_available(&ae_key), Some(100));
    // A changed ciphertext means the proofs no longer bind.
    let moved = AccountSnapshot {
        available_ciphertext: elgamal_encrypt(&elgamal, 60),
        decryptable_ciphertext: ae_encrypt(&ae_key, 60),
        pending_credit_counter: 0,
        maximum_pending_credits: 65536,
    };
    assert_eq!(
        snapshot.check_matches(&moved).unwrap_err(),
        OperationError::SnapshotStale
    );
}

#[test]
fn account_creation_plan_has_zero_initial_balance() {
    let funder = account_seed();
    let new_account = account_seed();
    let mint = account_seed();
    let (ae_key, elgamal) = derived_keys(&signer_bytes(), &new_account);
    let space = confidential_account_space().expect("account space");
    assert!(space > 0);
    let plan = plan_account_creation(
        &funder,
        &new_account,
        &mint,
        2_000_000,
        &elgamal,
        &ae_key,
        65536,
    ).expect("plan");
    assert_eq!(plan.instructions.len(), 4);
    assert_eq!(ae_decrypt(&ae_key, &plan.decryptable_zero), Some(0));
}

/// A packed mint account blob with the confidential transfer extension.
fn mint_blob(authority: Pubkey, auto_approve: bool) -> Vec<u8> {
    let len = ExtensionType::try_calculate_account_len::<Mint>(&[
        ExtensionType::ConfidentialTransferMint,
    ])
    .unwrap();
    let mut data = vec![0u8; len];
    let mut mint = StateWithExtensionsMut::<Mint>::unpack_uninitialized(&mut data).unwrap();
    let ext = mint
        .init_extension::<ConfidentialTransferMint>(true)
        .unwrap();
    ext.authority = Some(authority).try_into().unwrap();
    ext.auto_approve_new_accounts = auto_approve.into();
    mint.base.mint_authority = COption::Some(authority);
    mint.base.decimals = 6;
    mint.base.is_initialized = true;
    mint.base.freeze_authority = COption::None;
    mint.pack_base();
    mint.init_account_type().unwrap();
    data
}

/// A packed token account blob with the confidential transfer extension
/// holding the given ciphertexts and credit counters.
fn account_blob(
    available_ct: [u8; 64],
    decryptable_ct: [u8; 36],
    counter: u64,
    max_counter: u64,
) -> Vec<u8> {
    let len = ExtensionType::try_calculate_account_len::<Account>(&[
        ExtensionType::ConfidentialTransferAccount,
    ])
    .unwrap();
    let mut data = vec![0u8; len];
    let mut account = StateWithExtensionsMut::<Account>::unpack_uninitialized(&mut data).unwrap();
    let ext = account
        .init_extension::<ConfidentialTransferAccount>(true)
        .unwrap();
    ext.approved = true.into();
    ext.available_balance = PodElGamalCiphertext::from(available_ct);
    ext.decryptable_available_balance = PodAeCiphertext::from(decryptable_ct);
    ext.allow_confidential_credits = true.into();
    ext.pending_balance_credit_counter = counter.into();
    ext.maximum_pending_balance_credit_counter = max_counter.into();
    account.base.mint = Pubkey::new_unique();
    account.base.owner = Pubkey::new_unique();
    account.base.state = AccountState::Initialized;
    account.pack_base();
    account.init_account_type().unwrap();
    data
}

#[test]
fn read_mint_config_returns_the_planted_configuration() {
    let authority = Pubkey::new_unique();
    let blob = mint_blob(authority, true);
    let config = read_mint_config(&blob).expect("confidential mint");
    assert_eq!(config.authority, authority.to_bytes());
    assert!(config.auto_approve_new_accounts);
    assert!(!config.has_auditor);
    let opted_out = mint_blob(authority, false);
    let config = read_mint_config(&opted_out).expect("confidential mint");
    assert!(!config.auto_approve_new_accounts);
}

#[test]
fn read_account_returns_the_planted_state() {
    let (ae_key, elgamal) = derived_keys(&signer_bytes(), &account_seed());
    let available = elgamal_encrypt(&elgamal, 250);
    let decryptable = ae_encrypt(&ae_key, 250);
    let blob = account_blob(available, decryptable, 3, 65536);
    let reading = read_account(&blob, &ae_key).expect("confidential account");
    assert_eq!(reading.snapshot.available_ciphertext, available);
    assert_eq!(reading.snapshot.decryptable_ciphertext, decryptable);
    assert_eq!(reading.snapshot.pending_credit_counter, 3);
    assert_eq!(reading.snapshot.maximum_pending_credits, 65536);
    assert_eq!(reading.state.available, 250);
    assert_eq!(reading.state.pending, 0);
    assert_eq!(reading.state.pending_credit_counter, 3);
    let snapshot = parse_account_snapshot(&blob).expect("confidential account");
    assert_eq!(snapshot.available_ciphertext, available);
    assert_eq!(snapshot.decryptable_ciphertext, decryptable);
}

#[test]
fn read_account_rejects_wrong_key_and_broken_counter() {
    let (ae_key, elgamal) = derived_keys(&signer_bytes(), &account_seed());
    let (other_key, _) = derived_keys(&signer_bytes(), &account_seed());
    let available = elgamal_encrypt(&elgamal, 10);
    let decryptable = ae_encrypt(&ae_key, 10);
    let blob = account_blob(available, decryptable, 0, 65536);
    let err = read_account(&blob, &other_key).err().unwrap();
    assert_eq!(err, OperationError::Decryption);
    let corrupted = account_blob(available, decryptable, 7, 5);
    let err = read_account(&corrupted, &ae_key).err().unwrap();
    assert_eq!(err, OperationError::Decryption);
}
