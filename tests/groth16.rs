use ark_bn254::{Bn254, Fr};
use ark_ff::{BigInteger, PrimeField};
use ark_groth16::Groth16;
use ark_relations::r1cs::{ConstraintSynthesizer, ConstraintSystemRef, LinearCombination, SynthesisError};
use ark_serialize::CanonicalSerialize;
use shroud_protocol::mimc::MimcSponge;
use shroud_protocol::proof_verifier::{ProofVerifier, Verifier};
use shroud_protocol::shroud_protocol::{Error, ShroudProtocol, Withdrawal, DENOMINATION};
use shroud_protocol::uint::{U256, U512};

/// Public inputs `(root, nullifier_hash, recipient)` with `root * nullifier_hash == recipient`.
struct ProductCircuit {
    root: Fr,
    nullifier_hash: Fr,
    recipient: Fr,
}

impl ConstraintSynthesizer<Fr> for ProductCircuit {
    fn generate_constraints(self, cs: ConstraintSystemRef<Fr>) -> Result<(), SynthesisError> {
        let a = cs.new_input_variable(|| Ok(self.root))?;
        let b = cs.new_input_variable(|| Ok(self.nullifier_hash))?;
        let c = cs.new_input_variable(|| Ok(self.recipient))?;
        cs.enforce_constraint(
            LinearCombination::from(a),
            LinearCombination::from(b),
            LinearCombination::from(c),
        )
    }
}

fn fr_of(x: U256) -> Fr {
    Fr::from_le_bytes_mod_order(&[x.lo.to_le_bytes(), x.hi.to_le_bytes()].concat())
}

fn u256_of(x: Fr) -> U256 {
    let b = x.into_bigint().to_bytes_le();
    U256 {
        lo: u128::from_le_bytes(b[0..16].try_into().unwrap()),
        hi: u128::from_le_bytes(b[16..32].try_into().unwrap()),
    }
}

fn key_and_proof(root: Fr, nullifier_hash: Fr, recipient: Fr) -> (Vec<u8>, Vec<u8>) {
    let mut rng = ark_std::test_rng();
    let one = Fr::from(1u64);
    let setup = ProductCircuit { root: one, nullifier_hash: one, recipient: one };
    let pk = Groth16::<Bn254>::generate_random_parameters_with_reduction(setup, &mut rng).unwrap();
    let circuit = ProductCircuit { root, nullifier_hash, recipient };
    let proof = Groth16::<Bn254>::create_random_proof_with_reduction(circuit, &pk, &mut rng).unwrap();
    let mut vk_bytes = Vec::new();
    pk.vk.serialize_compressed(&mut vk_bytes).unwrap();
    let mut proof_bytes = Vec::new();
    proof.serialize_compressed(&mut proof_bytes).unwrap();
    (vk_bytes, proof_bytes)
}

#[test]
fn production_verifier_binds_public_inputs() {
    let (vk, proof) = key_and_proof(Fr::from(3u64), Fr::from(5u64), Fr::from(15u64));
    let v = Verifier::new(vk);
    assert!(v.verify(&proof, U256::from_u64(3), U256::from_u64(5), U256::from_u64(15)));
    assert!(!v.verify(&proof, U256::from_u64(3), U256::from_u64(5), U256::from_u64(16)));
    assert!(!v.verify(&proof, U256::from_u64(3), U256::from_u64(15), U256::from_u64(5)));
    assert!(!v.verify(&vec![0u8; 3], U256::from_u64(3), U256::from_u64(5), U256::from_u64(15)));
}

#[test]
fn pool_with_production_verifier() {
    let hasher = MimcSponge::new((0..8u64).map(U256::from_u64).collect());
    let mut pool = ShroudProtocol::init(hasher, Verifier::new(vec![]));
    pool.deposit(U512::from_u64(DENOMINATION), U256::from_u64(5)).unwrap();
    let root = pool.merkle_tree.get_last_root();
    let nullifier_hash = U256::from_u64(2);
    let recipient = u256_of(fr_of(root) * fr_of(nullifier_hash));
    let (vk, proof) = key_and_proof(fr_of(root), fr_of(nullifier_hash), fr_of(recipient));
    pool.verifier = Verifier::new(vk);
    let other = U256::from_u64(9);
    assert_eq!(pool.withdraw(&proof, root, nullifier_hash, other), Err(Error::InvalidProof));
    assert!(!pool.spent_nullifiers.contains(nullifier_hash));
    assert_eq!(
        pool.withdraw(&proof, root, nullifier_hash, recipient),
        Ok(Withdrawal { nullifier_hash, recipient })
    );
    assert_eq!(pool.withdraw(&proof, root, nullifier_hash, recipient), Err(Error::AlreadySpent));
}
