use shroud_protocol::merkle_tree::MAX_LEAVES;
use shroud_protocol::mimc::MimcSponge;
use shroud_protocol::mock_verifier;
use shroud_protocol::proof_verifier::{self, ProofVerifier};
use shroud_protocol::shroud_protocol::{Deposit, Error, ShroudProtocol, Withdrawal, DENOMINATION};
use shroud_protocol::uint::{U256, U512};

fn sponge() -> MimcSponge {
    MimcSponge::new((0..12u64).map(|i| U256::from_u64(i * 31 + 5)).collect())
}

fn mock_pool() -> ShroudProtocol<mock_verifier::Verifier> {
    ShroudProtocol::init(sponge(), mock_verifier::Verifier)
}

#[test]
fn test_deploy() {
    let pool = mock_pool();
    assert_eq!(pool.merkle_tree.next_index, 0);
    assert_eq!(pool.commitments.len(), 0);
    assert_eq!(pool.spent_nullifiers.len(), 0);
}

#[test]
fn test_deposit() {
    let mut pool = mock_pool();
    let commitment = U256::from_u64(12345);
    let amount = U512::from_u64(DENOMINATION);
    assert_eq!(pool.deposit(amount, commitment), Ok(Deposit { commitment, leaf_index: 0 }));
    assert!(pool.deposit(amount, commitment).is_err());
}

#[test]
fn test_deposit_invalid_amount() {
    let mut pool = mock_pool();
    let commitment = U256::from_u64(67890);
    let wrong_amount = U512::from_u64(DENOMINATION - 1);
    assert!(pool.deposit(wrong_amount, commitment).is_err());
}

#[test]
fn test_withdraw_with_mock_proof() {
    let mut pool = mock_pool();
    let commitment = U256::from_u64(12345);
    pool.deposit(U512::from_u64(DENOMINATION), commitment).unwrap();
    let proof = vec![1, 2, 3];
    let root = commitment;
    let nullifier_hash = U256::from_u64(999);
    let recipient = U256::from_u64(1);
    let result = pool.withdraw(&proof, root, nullifier_hash, recipient);
    assert!(result.is_err());
}

#[test]
fn test_double_spend_prevention() {
    let mut pool = mock_pool();
    let commitment = U256::from_u64(111);
    pool.deposit(U512::from_u64(DENOMINATION), commitment).unwrap();
    let root = pool.merkle_tree.get_last_root();
    let nullifier_hash = U256::from_u64(777);
    let recipient = U256::from_u64(2);
    assert_eq!(
        pool.withdraw(&vec![9], root, nullifier_hash, recipient),
        Ok(Withdrawal { nullifier_hash, recipient })
    );
    assert_eq!(pool.withdraw(&vec![9], root, nullifier_hash, recipient), Err(Error::AlreadySpent));
    assert_eq!(pool.spent_nullifiers.len(), 1);
}

#[test]
fn duplicate_deposit_leaves_tree_unchanged() {
    let mut pool = mock_pool();
    let amount = U512::from_u64(DENOMINATION);
    let commitment = U256::from_u64(4242);
    pool.deposit(amount, commitment).unwrap();
    let roots = pool.merkle_tree.roots.clone();
    assert_eq!(pool.deposit(amount, commitment), Err(Error::DuplicateCommitment));
    assert_eq!(pool.merkle_tree.next_index, 1);
    assert_eq!(pool.merkle_tree.roots, roots);
    assert_eq!(pool.commitments.len(), 1);
}

#[test]
fn wrong_amount_leaves_pool_unchanged() {
    let mut pool = mock_pool();
    pool.deposit(U512::from_u64(DENOMINATION), U256::from_u64(1)).unwrap();
    let roots = pool.merkle_tree.roots.clone();
    let entries = pool.commitments.entries.clone();
    assert_eq!(
        pool.deposit(U512::from_u64(DENOMINATION - 1), U256::from_u64(2)),
        Err(Error::InvalidAmount)
    );
    assert_eq!(pool.merkle_tree.next_index, 1);
    assert_eq!(pool.merkle_tree.roots, roots);
    assert_eq!(pool.commitments.entries, entries);
}

#[test]
fn amount_with_high_half_set_is_rejected() {
    let mut pool = mock_pool();
    let mut amount = U512::from_u64(DENOMINATION);
    amount.hi = U256::from_u64(1);
    assert_eq!(pool.deposit(amount, U256::from_u64(5)), Err(Error::InvalidAmount));
}

#[test]
fn deposits_take_consecutive_leaf_indices() {
    let mut pool = mock_pool();
    let amount = U512::from_u64(DENOMINATION);
    for i in 0..3u32 {
        let c = U256::from_u64(100 + i as u64);
        assert_eq!(pool.deposit(amount, c), Ok(Deposit { commitment: c, leaf_index: i }));
    }
    assert_eq!(pool.merkle_tree.next_index, 3);
}

#[test]
fn withdraw_unknown_root_rejected() {
    let mut pool = mock_pool();
    pool.deposit(U512::from_u64(DENOMINATION), U256::from_u64(8)).unwrap();
    assert_eq!(
        pool.withdraw(&vec![], U256::from_u64(8), U256::from_u64(1), U256::from_u64(2)),
        Err(Error::UnknownRoot)
    );
    assert_eq!(
        pool.withdraw(&vec![], U256::zero(), U256::from_u64(1), U256::from_u64(2)),
        Err(Error::UnknownRoot)
    );
}

#[test]
fn failed_verification_then_valid_proof() {
    let mut pool = ShroudProtocol::init(sponge(), proof_verifier::Verifier::new(vec![]));
    pool.deposit(U512::from_u64(DENOMINATION), U256::from_u64(77)).unwrap();
    let root = pool.merkle_tree.get_last_root();
    let nullifier_hash = U256::from_u64(31337);
    let recipient = U256::from_u64(3);
    assert_eq!(
        pool.withdraw(&vec![1, 2, 3], root, nullifier_hash, recipient),
        Err(Error::InvalidProof)
    );
    assert!(!pool.spent_nullifiers.contains(nullifier_hash));
    // The same pool state, now checked by a verifier that accepts the proof.
    let mut retry = ShroudProtocol {
        merkle_tree: pool.merkle_tree,
        commitments: pool.commitments,
        spent_nullifiers: pool.spent_nullifiers,
        hasher: pool.hasher,
        verifier: mock_verifier::Verifier,
    };
    assert_eq!(
        retry.withdraw(&vec![1, 2, 3], root, nullifier_hash, recipient),
        Ok(Withdrawal { nullifier_hash, recipient })
    );
    assert!(retry.spent_nullifiers.contains(nullifier_hash));
}

#[test]
fn production_verifier_rejects_undecodable_input() {
    let v = proof_verifier::Verifier::new(vec![0u8; 8]);
    assert!(!v.verify(&vec![0u8; 4], U256::from_u64(1), U256::from_u64(2), U256::from_u64(3)));
}

#[test]
fn full_tree_rejects_deposit() {
    let mut pool = mock_pool();
    // Stand in for 2^20 earlier deposits.
    pool.merkle_tree.next_index = MAX_LEAVES;
    assert_eq!(pool.deposit(U512::from_u64(DENOMINATION), U256::from_u64(1)), Err(Error::TreeFull));
}

#[test]
fn error_codes_are_distinct_and_stable() {
    let all = [
        Error::InvalidAmount,
        Error::DuplicateCommitment,
        Error::AlreadySpent,
        Error::UnknownRoot,
        Error::InvalidProof,
        Error::TreeFull,
    ];
    let codes: Vec<u16> = all.iter().map(|e| e.code()).collect();
    assert_eq!(codes, vec![1, 2, 3, 4, 5, 6]);
}
