//! Planning the creation of confidential mints and token accounts.
//!
//! A confidential token account is created in one transaction holding four
//! instructions: fund and allocate the account, initialize it for the mint,
//! configure the confidential transfer extension (whose initial decryptable
//! balance must be an encryption of zero), and verify the ElGamal pubkey
//! validity proof appended right behind the configuration instruction.

use vstd::prelude::*;

use crate::snapshot::{mint_extension_of, parse_mint_extension};
use crate::zk::{ae_decrypt_of, ae_encrypt};
use solana_sdk::instruction::Instruction;
use solana_sdk::pubkey::Pubkey;
use solana_sdk::system_instruction;
use spl_token_2022::extension::confidential_transfer::instruction::{
    configure_account, PubkeyValidityProofData,
};
use spl_token_2022::instruction::initialize_account3;
use spl_token_2022::solana_zk_sdk::encryption::elgamal::ElGamalKeypair;
use spl_token_confidential_transfer_proof_extraction::instruction::{ProofData, ProofLocation};

verus! {

#[verifier::external_type_specification]
#[verifier::external_body]
pub struct ExInstruction(Instruction);

#[verifier::external_type_specification]
#[verifier::external_body]
pub struct ExPubkeyValidityProofData(PubkeyValidityProofData);

/// The most pending credits a newly configured account accepts before an
/// apply becomes mandatory.
pub const DEFAULT_MAX_PENDING_CREDITS: u64 = 65536;

/// How a confidential mint is configured: who administers it, whether new
/// accounts are approved automatically, and whether an auditor key exists.
#[derive(Clone, Copy, Debug)]
pub struct MintConfig {
    /// The authority allowed to reconfigure the mint, as a ledger address.
    pub authority: [u8; 32],
    /// Whether newly configured accounts may be used without approval.
    pub auto_approve_new_accounts: bool,
    /// Whether a global auditor may decrypt transferred amounts.
    pub has_auditor: bool,
}

/// The configuration this protocol gives a new confidential mint: the
/// creator administers it, new accounts are auto-approved, and no auditor
/// key is registered.
pub fn default_mint_config(authority: &[u8; 32]) -> (r: MintConfig)
    ensures
        r.authority == *authority,
        r.auto_approve_new_accounts,
        !r.has_auditor,
{
    MintConfig {
        authority: *authority,
        auto_approve_new_accounts: true,
        has_auditor: false,
    }
}

/// Read a mint account blob's confidential transfer configuration.
///
/// Returns `Some` exactly when the blob parses as a confidential mint,
/// and then hands back exactly the parsed authority, auto-approval flag
/// and auditor presence.
pub fn read_mint_config(data: &Vec<u8>) -> (r: Option<MintConfig>)
    ensures
        r is Some <==> mint_extension_of(data@) is Some,
        r matches Some(c) ==> mint_extension_of(data@)
            == Some((c.authority, c.auto_approve_new_accounts, c.has_auditor)),
{
    let (authority, auto_approve_new_accounts, has_auditor) = match parse_mint_extension(data) {
        Some(t) => t,
        None => {
            return None;
        },
    };
    Some(MintConfig { authority, auto_approve_new_accounts, has_auditor })
}

/// Whether 64 bytes parse as an ElGamal keypair: a valid compressed
/// public key followed by a canonical secret scalar.  A function of the
/// bytes alone.
pub uninterp spec fn elgamal_keypair_parses(keypair: Seq<u8>) -> bool;

/// Relies on `PubkeyValidityProofData::new`: proves that the account's
/// ElGamal public key is well formed.  The constructor itself has no
/// failure path, so the proof exists exactly when the keypair bytes
/// parse; the proof is randomized, so nothing is stated of its bytes.
#[verifier::external_body]
pub(crate) fn pubkey_validity_proof(elgamal_keypair: &[u8; 64]) -> (r: Option<PubkeyValidityProofData>)
    ensures
        r is Some <==> elgamal_keypair_parses(elgamal_keypair@),
{
    let keypair = ElGamalKeypair::try_from(elgamal_keypair.as_slice()).ok()?;
    PubkeyValidityProofData::new(&keypair).ok()
}

/// Relies on `system_instruction::create_account`: funds and allocates the
/// new token account, owned by the confidential token program.
#[verifier::external_body]
pub(crate) fn create_account_instruction(
    funder: &[u8; 32],
    new_account: &[u8; 32],
    lamports: u64,
    space: u64,
) -> (r: Instruction)
{
    system_instruction::create_account(
        &Pubkey::new_from_array(*funder),
        &Pubkey::new_from_array(*new_account),
        lamports,
        space,
        &spl_token_2022::id(),
    )
}

/// Relies on `initialize_account3`: initializes the allocated account as
/// a token account of the given mint and owner.  The builder fails only
/// on a foreign program id, and this wrapper always passes the
/// confidential token program's own, so it always succeeds.
#[verifier::external_body]
pub(crate) fn initialize_account_instruction(
    account: &[u8; 32],
    mint: &[u8; 32],
    owner: &[u8; 32],
) -> (r: Option<Instruction>)
    ensures
        r is Some,
{
    initialize_account3(
        &spl_token_2022::id(),
        &Pubkey::new_from_array(*account),
        &Pubkey::new_from_array(*mint),
        &Pubkey::new_from_array(*owner),
    ).ok()
}

/// Relies on `configure_account`: configures the confidential transfer
/// extension with the given initial decryptable balance and credit bound,
/// with the pubkey validity proof appended right behind it.  For the
/// fixed program id and proof offset this wrapper passes, the builder
/// always succeeds, returning exactly the configuration instruction plus
/// the proof-verification instruction.
#[verifier::external_body]
pub(crate) fn configure_account_instructions(
    account: &[u8; 32],
    mint: &[u8; 32],
    decryptable_zero: &[u8; 36],
    maximum_pending_credits: u64,
    authority: &[u8; 32],
    proof: &PubkeyValidityProofData,
) -> (r: Option<Vec<Instruction>>)
    ensures
        r is Some,
        r->0@.len() == 2,
{
    configure_account(
        &spl_token_2022::id(),
        &Pubkey::new_from_array(*account),
        &Pubkey::new_from_array(*mint),
        &decryptable_zero.clone().into(),
        maximum_pending_credits,
        &Pubkey::new_from_array(*authority),
        &[],
        ProofLocation::InstructionOffset(1.try_into().unwrap(), ProofData::InstructionData(proof)),
    ).ok()
}

/// Everything one transaction needs to create and configure a confidential
/// token account.
pub struct AccountCreationPlan {
    /// The four instructions, in submission order: create, initialize,
    /// configure, verify pubkey validity proof.
    pub instructions: Vec<Instruction>,
    /// The initial decryptable balance: an encryption of zero.
    pub decryptable_zero: [u8; 36],
}

/// Plan the creation of a confidential token account: derive nothing, own
/// nothing — from the addresses, the rent quote and the account's keys,
/// produce the instruction sequence and the initial decryptable balance.
///
/// The plan exists exactly when the keypair bytes parse — everything
/// else about it (the account sizing, the three instruction builders) is
/// total — and its initial decryptable balance always decrypts to zero
/// under the account's symmetric key.
pub fn plan_account_creation(
    funder: &[u8; 32],
    new_account: &[u8; 32],
    mint: &[u8; 32],
    rent_lamports: u64,
    elgamal_keypair: &[u8; 64],
    ae_key: &[u8; 16],
    maximum_pending_credits: u64,
) -> (r: Option<AccountCreationPlan>)
    ensures
        r is Some <==> elgamal_keypair_parses(elgamal_keypair@),
        r is Some ==> r->0.instructions@.len() == 4,
        r is Some ==> ae_decrypt_of(r->0.decryptable_zero@, ae_key@) == Some(0u64),
{
    let space_bytes = match confidential_account_space() {
        Some(s) => s,
        None => {
            return None;
        },
    };
    let space = space_bytes as u64;
    let decryptable_zero = ae_encrypt(ae_key, 0);
    let proof = match pubkey_validity_proof(elgamal_keypair) {
        Some(p) => p,
        None => {
            return None;
        },
    };
    let create = create_account_instruction(funder, new_account, rent_lamports, space);
    let initialize = match initialize_account_instruction(new_account, mint, funder) {
        Some(ix) => ix,
        None => {
            return None;
        },
    };
    let configure = match configure_account_instructions(
        new_account,
        mint,
        &decryptable_zero,
        maximum_pending_credits,
        funder,
        &proof,
    ) {
        Some(ixs) => ixs,
        None => {
            return None;
        },
    };
    let mut instructions: Vec<Instruction> = Vec::new();
    instructions.push(create);
    instructions.push(initialize);
    let mut rest = configure;
    let second = rest.remove(1);
    let first = rest.remove(0);
    instructions.push(first);
    instructions.push(second);
    Some(AccountCreationPlan { instructions, decryptable_zero })
}

/// Relies on `ExtensionType::try_calculate_account_len`: the byte size a
/// token account with the confidential transfer extension needs.  The
/// extension is fixed-size, so the computation always succeeds and the
/// size covers at least the base account.
#[verifier::external_body]
pub fn confidential_account_space() -> (r: Option<usize>)
    ensures
        r is Some,
        r->0 > 0,
{
    spl_token_2022::extension::ExtensionType::try_calculate_account_len::<
        spl_token_2022::state::Account,
    >(&[spl_token_2022::extension::ExtensionType::ConfidentialTransferAccount]).ok()
}

} // verus!
