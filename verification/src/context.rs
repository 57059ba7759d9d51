//! Proof context accounts: ephemeral ledger-side storage for one proof.
//!
//! A proof too large to embed in the consuming instruction is placed in a
//! context account that the instruction references by identity.  Every
//! context account an operation opens must be closed again — whether the
//! operation settles or fails — to reclaim its rent deposit; a leaked
//! context account is a resource leak the protocol never accepts.

use vstd::prelude::*;

verus! {

/// Where one proof's context account stands in its lifecycle.
#[derive(Clone, Copy, Debug, PartialEq, Eq, Structural)]
pub enum ContextStatus {
    /// No creation instruction has been submitted.
    Unopened,
    /// Created and verified on the ledger; its rent deposit is bound.
    Open,
    /// A close was attempted; the protocol never touches it again.
    Released,
}

impl ContextStatus {
    /// An account still holding a rent deposit the flow must reclaim.
    pub fn is_open(&self) -> (r: bool)
        ensures
            r <==> *self is Open,
    {
        match self {
            ContextStatus::Open => true,
            _ => false,
        }
    }
}

} // verus!
