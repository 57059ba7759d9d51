//! Snapshots of on-ledger confidential account state.
//!
//! Proofs are generated against the ciphertext state of the source account
//! as it stood at snapshot time.  The ledger rejects proofs whose snapshot
//! went stale, so a flow re-reads the account before the consuming
//! instruction and compares; a mismatch surfaces as `SnapshotStale` and the
//! caller retries from a fresh snapshot.

use vstd::prelude::*;

use crate::balance::BalanceState;
use crate::error::OperationError;
use crate::zk::{ae_decrypt, ae_decrypt_of};
use spl_token_2022::extension::confidential_transfer::{
    ConfidentialTransferAccount, ConfidentialTransferMint,
};
use spl_token_2022::extension::BaseStateWithExtensions;
use spl_token_2022::extension::StateWithExtensionsOwned;
use spl_token_2022::solana_zk_sdk::encryption::auth_encryption::AeCiphertext;
use spl_token_2022::solana_zk_sdk::encryption::elgamal::ElGamalCiphertext;
use spl_token_2022::state::{Account, Mint};

verus! {

/// The ciphertext state of one confidential account, as read from the
/// ledger at one point in time.
pub struct AccountSnapshot {
    /// The ElGamal-encrypted available balance.
    pub available_ciphertext: [u8; 64],
    /// The symmetrically encrypted available balance the owner decrypts.
    pub decryptable_ciphertext: [u8; 36],
    /// How many credits landed in pending since the last apply.
    pub pending_credit_counter: u64,
    /// The most pending credits allowed before an apply is mandatory.
    pub maximum_pending_credits: u64,
}

/// What parsing a raw token account blob yields: the confidential
/// transfer extension's ciphertexts and counters, or `None` for bytes
/// that are no such account.  Parsing is a function of the bytes alone.
pub uninterp spec fn account_snapshot_of(data: Seq<u8>) -> Option<AccountSnapshot>;

/// What parsing a raw mint account blob yields: the confidential
/// transfer configuration (authority address — all zero where none is
/// set —, auto-approval, auditor presence), or `None` for bytes that are
/// no such mint.  Parsing is a function of the bytes alone.
pub uninterp spec fn mint_extension_of(data: Seq<u8>) -> Option<([u8; 32], bool, bool)>;

/// Relies on `StateWithExtensionsOwned::unpack` and `get_extension`: parses
/// a raw token account blob and extracts its confidential transfer
/// extension; `None` for a blob that is no such account.
#[verifier::external_body]
pub fn parse_account_snapshot(data: &Vec<u8>) -> (r: Option<AccountSnapshot>)
    ensures
        r == account_snapshot_of(data@),
{
    let state = StateWithExtensionsOwned::<Account>::unpack(data.clone()).ok()?;
    let ext = state.get_extension::<ConfidentialTransferAccount>().ok()?;
    let available = ElGamalCiphertext::try_from(ext.available_balance).ok()?.to_bytes();
    let decryptable = AeCiphertext::try_from(ext.decryptable_available_balance).ok()?.to_bytes();
    Some(AccountSnapshot {
        available_ciphertext: available,
        decryptable_ciphertext: decryptable,
        pending_credit_counter: u64::from(ext.pending_balance_credit_counter),
        maximum_pending_credits: u64::from(ext.maximum_pending_balance_credit_counter),
    })
}

/// Relies on `StateWithExtensionsOwned::unpack` and `get_extension`: parses
/// a raw mint account blob into its confidential transfer configuration —
/// the authority's address (all zero where none is set), whether new
/// accounts are auto-approved, and whether an auditor key is registered;
/// `None` for a blob that is no such mint.
#[verifier::external_body]
pub(crate) fn parse_mint_extension(data: &Vec<u8>) -> (r: Option<([u8; 32], bool, bool)>)
    ensures
        r == mint_extension_of(data@),
{
    let state = StateWithExtensionsOwned::<Mint>::unpack(data.clone()).ok()?;
    let ext = state.get_extension::<ConfidentialTransferMint>().ok()?;
    let authority = Option::<solana_sdk::pubkey::Pubkey>::from(ext.authority)
        .map_or([0u8; 32], |p| p.to_bytes());
    let has_auditor =
        Option::<spl_token_2022::solana_zk_sdk::encryption::pod::elgamal::PodElGamalPubkey>::from(
            ext.auditor_elgamal_pubkey,
        ).is_some();
    Some((authority, bool::from(ext.auto_approve_new_accounts), has_auditor))
}

/// Byte-for-byte equality of two 64-byte ciphertexts.
fn ciphertext64_equal(a: &[u8; 64], b: &[u8; 64]) -> (r: bool)
    ensures
        r <==> a@ == b@,
{
    let mut i: usize = 0;
    while i < 64
        invariant
            i <= 64,
            forall|j: int| 0 <= j < i ==> a@[j] == b@[j],
        decreases 64 - i,
    {
        if a[i] != b[i] {
            return false;
        }
        i = i + 1;
    }
    proof {
        assert(a@ =~= b@);
    }
    true
}

/// Byte-for-byte equality of two 36-byte ciphertexts.
fn ciphertext36_equal(a: &[u8; 36], b: &[u8; 36]) -> (r: bool)
    ensures
        r <==> a@ == b@,
{
    let mut i: usize = 0;
    while i < 36
        invariant
            i <= 36,
            forall|j: int| 0 <= j < i ==> a@[j] == b@[j],
        decreases 36 - i,
    {
        if a[i] != b[i] {
            return false;
        }
        i = i + 1;
    }
    proof {
        assert(a@ =~= b@);
    }
    true
}

impl AccountSnapshot {
    /// Decrypt the owner-readable available balance with the account's
    /// symmetric key.
    pub fn decrypt_available(&self, ae_key: &[u8; 16]) -> (r: Option<u64>)
        ensures
            r == ae_decrypt_of(self.decryptable_ciphertext@, ae_key@),
    {
        ae_decrypt(ae_key, &self.decryptable_ciphertext)
    }

    /// Check that the account's ciphertext state still matches the snapshot
    /// proofs were generated against.  Fails with `SnapshotStale` exactly
    /// when either ciphertext changed in between; a stale snapshot must be
    /// retaken before the consuming instruction is submitted.
    pub fn check_matches(&self, current: &AccountSnapshot) -> (r: Result<(), OperationError>)
        ensures
            r is Ok <==> (self.available_ciphertext@ == current.available_ciphertext@
                && self.decryptable_ciphertext@ == current.decryptable_ciphertext@),
            r is Err ==> r->Err_0 == OperationError::SnapshotStale,
    {
        if !ciphertext64_equal(&self.available_ciphertext, &current.available_ciphertext) {
            return Err(OperationError::SnapshotStale);
        }
        if !ciphertext36_equal(&self.decryptable_ciphertext, &current.decryptable_ciphertext) {
            return Err(OperationError::SnapshotStale);
        }
        Ok(())
    }
}

/// One account read: the raw ciphertext snapshot together with the owner's
/// decrypted view of it, ready to start a flow from.
pub struct AccountReading {
    /// The ciphertext state the proofs will bind to.
    pub snapshot: AccountSnapshot,
    /// The owner's decrypted view: the available balance and the public
    /// credit counters.  The pending balance stays opaque (it is encrypted
    /// under the ElGamal scheme only), so it reads as zero and the state
    /// tracks deltas from here on.
    pub state: BalanceState,
}

/// Parse a raw token account blob and decrypt the owner-readable balance.
///
/// Succeeds exactly when the blob parses as a confidential token account,
/// its decryptable balance decrypts under the key, and its stored credit
/// counter respects its own bound; the snapshot handed back is exactly
/// the parse of the bytes.  Each failure is fatal and reads as
/// `Decryption`: account and key do not belong together.
pub fn read_account(data: &Vec<u8>, ae_key: &[u8; 16])
    -> (r: Result<AccountReading, OperationError>)
    ensures
        r is Ok <==> (account_snapshot_of(data@) matches Some(s)
            && ae_decrypt_of(s.decryptable_ciphertext@, ae_key@) is Some
            && s.pending_credit_counter <= s.maximum_pending_credits),
        r is Ok ==> Some(r->Ok_0.snapshot) == account_snapshot_of(data@),
        r is Ok ==> ae_decrypt_of(r->Ok_0.snapshot.decryptable_ciphertext@, ae_key@)
            == Some(r->Ok_0.state.available),
        r is Ok ==> r->Ok_0.state == (BalanceState {
            pending: 0,
            available: r->Ok_0.state.available,
            pending_credit_counter: r->Ok_0.snapshot.pending_credit_counter,
            max_pending_credits: r->Ok_0.snapshot.maximum_pending_credits,
        }),
        r is Ok ==> r->Ok_0.state.wf(),
        r is Err ==> r->Err_0 == OperationError::Decryption,
{
    let snapshot = match parse_account_snapshot(data) {
        Some(s) => s,
        None => {
            return Err(OperationError::Decryption);
        },
    };
    let available = match snapshot.decrypt_available(ae_key) {
        Some(b) => b,
        None => {
            return Err(OperationError::Decryption);
        },
    };
    if snapshot.pending_credit_counter > snapshot.maximum_pending_credits {
        return Err(OperationError::Decryption);
    }
    let state = BalanceState {
        pending: 0,
        available,
        pending_credit_counter: snapshot.pending_credit_counter,
        max_pending_credits: snapshot.maximum_pending_credits,
    };
    Ok(AccountReading { snapshot, state })
}

} // verus!
