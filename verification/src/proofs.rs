//! Which zero-knowledge proofs each confidential operation must present,
//! and how each proof travels to the ledger.
//!
//! A transfer needs an equality proof (the amount encrypted for the
//! recipient equals the amount subtracted from the sender), a ciphertext
//! validity proof (both new ciphertexts are well-formed encryptions under
//! the right keys) and a range proof (the amount and the resulting balance
//! stay in bounds).  A withdrawal needs equality and range only; deposits
//! and applies move publicly known or owner-decrypted values and need none.
//!
//! Range proofs are too large for the single-instruction proof embedding
//! the ledger offers, so their context account is created and verified in
//! two instructions (the create/verify split); the other proofs fit in one.

use vstd::prelude::*;

verus! {

/// The three kinds of zero-knowledge proof a confidential operation can need.
#[derive(Clone, Copy, Debug, PartialEq, Eq, Structural)]
pub enum ProofKind {
    Equality,
    CiphertextValidity,
    Range,
}

/// The operations of the confidential balance lifecycle.
#[derive(Clone, Copy, Debug, PartialEq, Eq, Structural)]
pub enum Operation {
    Deposit,
    ApplyPending,
    Transfer,
    Withdraw,
}

/// The proofs `op` must present, in the order their context accounts are
/// opened.
pub open spec fn spec_required_proofs(op: Operation) -> Seq<ProofKind> {
    match op {
        Operation::Deposit => seq![],
        Operation::ApplyPending => seq![],
        Operation::Transfer => seq![
            ProofKind::Equality,
            ProofKind::CiphertextValidity,
            ProofKind::Range,
        ],
        Operation::Withdraw => seq![ProofKind::Equality, ProofKind::Range],
    }
}

/// The proofs `op` must present, in the order their context accounts are
/// opened.
pub fn required_proofs(op: Operation) -> (r: Vec<ProofKind>)
    ensures
        r@ == spec_required_proofs(op),
{
    match op {
        Operation::Deposit => vec![],
        Operation::ApplyPending => vec![],
        Operation::Transfer => {
            let r = vec![
                ProofKind::Equality,
                ProofKind::CiphertextValidity,
                ProofKind::Range,
            ];
            proof {
                assert(r@ =~= spec_required_proofs(Operation::Transfer));
            }
            r
        },
        Operation::Withdraw => {
            let r = vec![ProofKind::Equality, ProofKind::Range];
            proof {
                assert(r@ =~= spec_required_proofs(Operation::Withdraw));
            }
            r
        },
    }
}

/// Whether a proof's context account needs the create/verify split: only
/// range proofs exceed what one instruction can embed.
pub fn requires_split(kind: ProofKind) -> (r: bool)
    ensures
        r <==> kind is Range,
{
    match kind {
        ProofKind::Range => true,
        ProofKind::Equality => false,
        ProofKind::CiphertextValidity => false,
    }
}

} // verus!
