//! Identities and the deployer allow-list.
//!
//! The host environment authenticates signers and addresses accounts by
//! opaque keys; this crate only ever compares those keys for equality, so
//! it carries them as a plain integer handle. Pool deployment is restricted
//! to an injected allow-list of identities rather than a compiled-in
//! constant, so a deployment configures who may administer pools.

use vstd::prelude::*;

verus! {

/// An authenticated identity: a signer, a mint, or a token account,
/// as the host environment names them.
#[derive(Clone, Copy, Debug, PartialEq, Eq, Structural)]
pub struct Identity {
    pub key: u64,
}

/// The set of identities permitted to deploy and administer pools.
#[derive(Debug)]
pub struct DeployerPolicy {
    pub allowed: Vec<Identity>,
}

impl DeployerPolicy {
    /// Whether `id` is on the allow-list.
    pub open spec fn permits(self, id: Identity) -> bool {
        self.allowed@.contains(id)
    }

    /// Decides membership of the allow-list.
    pub fn is_allowed(&self, id: &Identity) -> (r: bool)
        ensures
            r == self.permits(*id),
    {
        let mut i: usize = 0;
        while i < self.allowed.len()
            invariant
                i <= self.allowed.len(),
                forall|k: int| 0 <= k < i ==> self.allowed@[k] != *id,
            decreases self.allowed.len() - i,
        {
            if self.allowed[i] == *id {
                return true;
            }
            i += 1;
        }
        false
    }
}

} // verus!
