//! A shielded-value pool: fixed-denomination deposits against public
//! commitments, accumulated in an incremental Merkle tree, and withdrawals
//! gated by a zero-knowledge proof and a nullifier registry.

pub mod uint;
pub mod field;
pub mod mimc;
pub mod merkle_tree;
pub mod registry;
pub mod proof_verifier;
pub mod mock_verifier;
pub mod shroud_protocol;
