//! A verifier that accepts every proof. It exists for tests of the pool's
//! state machine and must never back a pool that holds real value.

use vstd::prelude::*;
use crate::uint::U256;
use crate::proof_verifier::ProofVerifier;

verus! {

pub struct Verifier;

impl ProofVerifier for Verifier {
    open spec fn accepts(&self, proof: Seq<u8>, root: U256, nullifier_hash: U256, recipient: U256) -> bool {
        true
    }

    fn verify(&self, proof: &Vec<u8>, root: U256, nullifier_hash: U256, recipient: U256) -> (r: bool) {
        true
    }
}

} // verus!
