//! The pool controller: the only mutator of the tree and the two registries.
//! Each call is one atomic transition; a rejected call leaves the pool as it
//! was.

use vstd::prelude::*;
use crate::merkle_tree::{insert_walk, push_window, MerkleTree, MAX_LEAVES};
use crate::mimc::MimcSponge;
use crate::proof_verifier::ProofVerifier;
use crate::registry::Registry;
use crate::uint::{lemma_u512_value_injective, U256, U512};

verus! {

/// The fixed value accepted per deposit and paid per withdrawal.
pub const DENOMINATION: u64 = 100_000_000_000;

#[derive(Clone, Copy, Debug, PartialEq, Eq, Structural)]
pub enum Error {
    InvalidAmount,
    DuplicateCommitment,
    AlreadySpent,
    UnknownRoot,
    InvalidProof,
    TreeFull,
}

impl Error {
    /// The stable numeric code of each error.
    pub open spec fn spec_code(self) -> u16 {
        match self {
            Error::InvalidAmount => 1,
            Error::DuplicateCommitment => 2,
            Error::AlreadySpent => 3,
            Error::UnknownRoot => 4,
            Error::InvalidProof => 5,
            Error::TreeFull => 6,
        }
    }

    pub fn code(&self) -> (r: u16)
        ensures
            r == self.spec_code(),
    {
        match self {
            Error::InvalidAmount => 1,
            Error::DuplicateCommitment => 2,
            Error::AlreadySpent => 3,
            Error::UnknownRoot => 4,
            Error::InvalidProof => 5,
            Error::TreeFull => 6,
        }
    }
}

/// Emitted by an accepted deposit.
#[derive(Clone, Copy, Debug, PartialEq, Eq, Structural)]
pub struct Deposit {
    pub commitment: U256,
    pub leaf_index: u32,
}

/// Emitted by an accepted withdrawal; the caller then transfers
/// `DENOMINATION` to `recipient`.
#[derive(Clone, Copy, Debug, PartialEq, Eq, Structural)]
pub struct Withdrawal {
    pub nullifier_hash: U256,
    pub recipient: U256,
}

/// `after` is `before` with `leaf` appended, its new root being `root`.
pub open spec fn tree_appended(before: MerkleTree, after: MerkleTree, leaf: U256, c: Seq<nat>, root: U256) -> bool {
    &&& after.next_index == before.next_index + 1
    &&& (after.filled_subtrees@, root) == insert_walk(c, before.filled_subtrees@, before.next_index as nat, leaf, 0)
    &&& after.roots@ == push_window(before.roots@, root)
    &&& after.history@ == before.history@.push(root)
}

/// Ends a call that cannot complete: its working copy of the pool is
/// dropped, and the state loaded at the start of the call is what persists.
pub fn panic<V>(loaded: ShroudProtocol<V>, working: ShroudProtocol<V>) -> (r: ShroudProtocol<V>)
    ensures
        r == loaded,
{
    loaded
}

/// The pool: the tree of commitments, the commitment and nullifier
/// registries, the tree's pair hash and the proof verifier.
pub struct ShroudProtocol<V> {
    pub merkle_tree: MerkleTree,
    pub commitments: Registry,
    pub spent_nullifiers: Registry,
    pub hasher: MimcSponge,
    pub verifier: V,
}

impl<V: ProofVerifier> ShroudProtocol<V> {
    pub open spec fn wf(&self) -> bool {
        &&& self.merkle_tree.wf()
        &&& self.commitments.wf()
        &&& self.spent_nullifiers.wf()
    }

    /// Why `deposit(amount, commitment)` is rejected, if it is.
    pub open spec fn deposit_error(&self, amount: U512, commitment: U256) -> Option<Error> {
        if amount.value() != DENOMINATION as nat {
            Some(Error::InvalidAmount)
        } else if self.commitments@.contains(commitment) {
            Some(Error::DuplicateCommitment)
        } else if self.merkle_tree.next_index >= MAX_LEAVES {
            Some(Error::TreeFull)
        } else {
            None
        }
    }

    /// `self` is `prev` after accepting a deposit of `commitment`.
    pub open spec fn deposit_applied(&self, prev: &Self, commitment: U256) -> bool {
        &&& exists|root: U256|
            tree_appended(prev.merkle_tree, self.merkle_tree, commitment, prev.hasher.round_constants(), root)
        &&& self.commitments@ == prev.commitments@.insert(commitment)
        &&& self.spent_nullifiers == prev.spent_nullifiers
        &&& self.hasher == prev.hasher
        &&& self.verifier == prev.verifier
    }

    /// Why `withdraw` is rejected, if it is, given whether the proof is accepted.
    pub open spec fn withdraw_error(&self, root: U256, nullifier_hash: U256, proof_accepted: bool) -> Option<Error> {
        if self.spent_nullifiers@.contains(nullifier_hash) {
            Some(Error::AlreadySpent)
        } else if !self.merkle_tree.knows_root(root) {
            Some(Error::UnknownRoot)
        } else if !proof_accepted {
            Some(Error::InvalidProof)
        } else {
            None
        }
    }

    /// `self` is `prev` after accepting a withdrawal that spends `nullifier_hash`.
    pub open spec fn withdraw_applied(&self, prev: &Self, nullifier_hash: U256) -> bool {
        &&& self.spent_nullifiers@ == prev.spent_nullifiers@.insert(nullifier_hash)
        &&& self.merkle_tree == prev.merkle_tree
        &&& self.commitments == prev.commitments
        &&& self.hasher == prev.hasher
        &&& self.verifier == prev.verifier
    }

    /// A pool with an empty tree and empty registries.
    pub fn init(hasher: MimcSponge, verifier: V) -> (r: ShroudProtocol<V>)
        ensures
            r.wf(),
            r.merkle_tree.next_index == 0,
            r.merkle_tree.roots@.len() == 0,
            r.commitments@ == Set::<U256>::empty(),
            r.spent_nullifiers@ == Set::<U256>::empty(),
            r.hasher == hasher,
            r.verifier == verifier,
    {
        ShroudProtocol {
            merkle_tree: MerkleTree::new(),
            commitments: Registry::new(),
            spent_nullifiers: Registry::new(),
            hasher,
            verifier,
        }
    }

    /// Accepts `amount` against `commitment`: the commitment becomes the next
    /// leaf of the tree and a member of the commitment registry.
    pub fn deposit(&mut self, amount: U512, commitment: U256) -> (r: Result<Deposit, Error>)
        requires
            old(self).wf(),
        ensures
            final(self).wf(),
            match old(self).deposit_error(amount, commitment) {
                Some(e) => r == Err::<Deposit, Error>(e) && *final(self) == *old(self),
                None => {
                    &&& r == Ok::<Deposit, Error>(
                        (Deposit { commitment, leaf_index: old(self).merkle_tree.next_index }),
                    )
                    &&& final(self).deposit_applied(&*old(self), commitment)
                },
            },
    {
        let denomination = U512::from_u64(DENOMINATION);
        if amount != denomination {
            proof {
                if amount.value() == DENOMINATION as nat {
                    lemma_u512_value_injective(amount, denomination);
                }
            }
            return Err(Error::InvalidAmount);
        }
        if self.commitments.contains(commitment) {
            return Err(Error::DuplicateCommitment);
        }
        if self.merkle_tree.next_index >= MAX_LEAVES {
            return Err(Error::TreeFull);
        }
        let ghost before = *self;
        let leaf_index = self.merkle_tree.next_index;
        let root = self.merkle_tree.insert(commitment, &self.hasher);
        self.commitments.add(commitment);
        assert(tree_appended(
            before.merkle_tree,
            self.merkle_tree,
            commitment,
            before.hasher.round_constants(),
            root,
        ));
        Ok(Deposit { commitment, leaf_index })
    }

    /// Pays out one deposit to `recipient` against `proof`: the nullifier hash
    /// is recorded as spent before the caller transfers `DENOMINATION`.
    /// `recipient` is the payout account's 32-byte hash read as a
    /// little-endian integer, the proof's third public input.
    pub fn withdraw(&mut self, proof: &Vec<u8>, root: U256, nullifier_hash: U256, recipient: U256) -> (r:
        Result<Withdrawal, Error>)
        requires
            old(self).wf(),
        ensures
            final(self).wf(),
            match old(self).withdraw_error(
                root,
                nullifier_hash,
                old(self).verifier.accepts(proof@, root, nullifier_hash, recipient),
            ) {
                Some(e) => r == Err::<Withdrawal, Error>(e) && *final(self) == *old(self),
                None => {
                    &&& r == Ok::<Withdrawal, Error>((Withdrawal { nullifier_hash, recipient }))
                    &&& final(self).withdraw_applied(&*old(self), nullifier_hash)
                },
            },
    {
        if self.spent_nullifiers.contains(nullifier_hash) {
            return Err(Error::AlreadySpent);
        }
        if !self.merkle_tree.is_known_root(root) {
            return Err(Error::UnknownRoot);
        }
        if !self.verifier.verify(proof, root, nullifier_hash, recipient) {
            return Err(Error::InvalidProof);
        }
        self.spent_nullifiers.add(nullifier_hash);
        Ok(Withdrawal { nullifier_hash, recipient })
    }

    /// Once a deposit of `commitment` has been accepted, a second deposit of
    /// it is rejected as a duplicate, even with the right amount.
    pub proof fn lemma_duplicate_rejected(before: Self, after: Self, commitment: U256, amount: U512)
        requires
            after.deposit_applied(&before, commitment),
            amount.value() == DENOMINATION as nat,
        ensures
            after.deposit_error(amount, commitment) == Some(Error::DuplicateCommitment),
    {
    }

    /// Once a withdrawal spending `nullifier_hash` has been accepted, every
    /// later withdrawal with that nullifier hash is rejected as already spent,
    /// whatever its root and however its proof fares.
    pub proof fn lemma_double_spend_rejected(
        before: Self,
        after: Self,
        nullifier_hash: U256,
        root: U256,
        proof_accepted: bool,
    )
        requires
            after.withdraw_applied(&before, nullifier_hash),
        ensures
            after.withdraw_error(root, nullifier_hash, proof_accepted) == Some(Error::AlreadySpent),
    {
    }

    /// A deposit of any amount but the denomination is rejected for its
    /// amount (and so, by `deposit`'s contract, leaves the pool unchanged).
    pub proof fn lemma_wrong_amount_rejected(pool: Self, amount: U512, commitment: U256)
        requires
            amount.value() != DENOMINATION as nat,
        ensures
            pool.deposit_error(amount, commitment) == Some(Error::InvalidAmount),
    {
    }

    /// A withdrawal rejected only for its proof did not spend the nullifier
    /// hash (the pool is unchanged), and the same withdrawal with a proof
    /// that verifies is accepted.
    pub proof fn lemma_failed_proof_retryable(pool: Self, root: U256, nullifier_hash: U256)
        requires
            pool.withdraw_error(root, nullifier_hash, false) == Some(Error::InvalidProof),
        ensures
            !pool.spent_nullifiers@.contains(nullifier_hash),
            pool.withdraw_error(root, nullifier_hash, true) == None::<Error>,
    {
    }
}

} // verus!
