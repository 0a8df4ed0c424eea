//! Proof verification: the interface the pool checks withdrawals through, and
//! the production variant, which runs Groth16 over BN254 against a verifying
//! key fixed when the pool is deployed.

use vstd::prelude::*;
use crate::uint::U256;
use ark_bn254::{Bn254, Fr};
use ark_ff::PrimeField;
use ark_groth16::{prepare_verifying_key, Groth16, Proof, VerifyingKey};
use ark_serialize::CanonicalDeserialize;

verus! {

/// A side-effect-free predicate binding a proof to its public inputs
/// `(root, nullifier_hash, recipient)`.
pub trait ProofVerifier {
    /// Whether `proof` is accepted for these public inputs.
    spec fn accepts(&self, proof: Seq<u8>, root: U256, nullifier_hash: U256, recipient: U256) -> bool;

    fn verify(&self, proof: &Vec<u8>, root: U256, nullifier_hash: U256, recipient: U256) -> (r: bool)
        ensures
            r == self.accepts(proof@, root, nullifier_hash, recipient),
    ;
}

/// Whether Groth16 over BN254 accepts the compressed proof `proof` for the
/// compressed verifying key `vk` and the public inputs `inputs`.
pub uninterp spec fn groth16_accepts(vk: Seq<u8>, proof: Seq<u8>, inputs: Seq<nat>) -> bool;

/// The public inputs in the order the circuit fixes.
pub open spec fn public_inputs(root: U256, nullifier_hash: U256, recipient: U256) -> Seq<nat> {
    seq![root.value(), nullifier_hash.value(), recipient.value()]
}

/// Relies on `ark_serialize::CanonicalDeserialize::deserialize_compressed` for
/// `ark_groth16::VerifyingKey<Bn254>` and `ark_groth16::Proof<Bn254>`,
/// `ark_ff::PrimeField::from_le_bytes_mod_order` for the inputs, and
/// `ark_groth16::Groth16::verify_proof`: the answer is a function of the bytes
/// and the inputs alone, and a key or proof that does not decode is rejected.
#[verifier::external_body]
fn groth16_verify(vk: &Vec<u8>, proof: &Vec<u8>, inputs: &Vec<U256>) -> (r: bool)
    ensures
        r == groth16_accepts(vk@, proof@, inputs@.map_values(|x: U256| x.value())),
{
    let (Ok(vk), Ok(proof)) = (
        VerifyingKey::<Bn254>::deserialize_compressed(&vk[..]),
        Proof::<Bn254>::deserialize_compressed(&proof[..]),
    ) else {
        return false;
    };
    let inputs: Vec<Fr> = inputs.iter().map(|x| {
        Fr::from_le_bytes_mod_order(&[x.lo.to_le_bytes(), x.hi.to_le_bytes()].concat())
    }).collect();
    Groth16::<Bn254>::verify_proof(&prepare_verifying_key(&vk), &proof, &inputs).unwrap_or(false)
}

/// The production verifier, holding the compressed Groth16 verifying key.
pub struct Verifier {
    pub verifying_key: Vec<u8>,
}

impl Verifier {
    pub fn new(verifying_key: Vec<u8>) -> (r: Verifier)
        ensures
            r.verifying_key@ == verifying_key@,
    {
        Verifier { verifying_key }
    }
}

impl ProofVerifier for Verifier {
    open spec fn accepts(&self, proof: Seq<u8>, root: U256, nullifier_hash: U256, recipient: U256) -> bool {
        groth16_accepts(self.verifying_key@, proof, public_inputs(root, nullifier_hash, recipient))
    }

    fn verify(&self, proof: &Vec<u8>, root: U256, nullifier_hash: U256, recipient: U256) -> (r: bool) {
        let inputs = vec![root, nullifier_hash, recipient];
        assert(inputs@.map_values(|x: U256| x.value()) =~= public_inputs(root, nullifier_hash, recipient));
        groth16_verify(&self.verifying_key, proof, &inputs)
    }
}

} // verus!
