//! Arithmetic in the scalar field of the BN254 curve, the field in which the
//! pool's commitments, roots and nullifier hashes live.

use vstd::prelude::*;
use crate::uint::{half_base, U256};
use ark_bn254::Fr;
use ark_ff::{BigInteger, PrimeField};

verus! {

/// The order of BN254's scalar field.
pub open spec fn fr_modulus() -> nat {
    0x30644e72e131a029b85045b68181585d * half_base() + 0x2833e84879b9709143e1f593f0000001
}

/// Relies on `ark_ff::PrimeField::from_le_bytes_mod_order` for `ark_bn254::Fr`
/// (reads the operands modulo the field order), `Fr`'s addition, and
/// `into_bigint().to_bytes_le()` (the canonical representative, below the order,
/// as 32 little-endian bytes).
#[verifier::external_body]
pub(crate) fn fr_add(a: U256, b: U256) -> (r: U256)
    ensures
        r.value() == (a.value() + b.value()) % fr_modulus(),
{
    let x = Fr::from_le_bytes_mod_order(&[a.lo.to_le_bytes(), a.hi.to_le_bytes()].concat());
    let y = Fr::from_le_bytes_mod_order(&[b.lo.to_le_bytes(), b.hi.to_le_bytes()].concat());
    let out = (x + y).into_bigint().to_bytes_le();
    U256 {
        lo: u128::from_le_bytes(out[0..16].try_into().unwrap()),
        hi: u128::from_le_bytes(out[16..32].try_into().unwrap()),
    }
}

/// Relies on `ark_ff::PrimeField::from_le_bytes_mod_order` for `ark_bn254::Fr`
/// (reads the operands modulo the field order), `Fr`'s multiplication, and
/// `into_bigint().to_bytes_le()` (the canonical representative, below the order,
/// as 32 little-endian bytes).
#[verifier::external_body]
pub(crate) fn fr_mul(a: U256, b: U256) -> (r: U256)
    ensures
        r.value() == (a.value() * b.value()) % fr_modulus(),
{
    let x = Fr::from_le_bytes_mod_order(&[a.lo.to_le_bytes(), a.hi.to_le_bytes()].concat());
    let y = Fr::from_le_bytes_mod_order(&[b.lo.to_le_bytes(), b.hi.to_le_bytes()].concat());
    let out = (x * y).into_bigint().to_bytes_le();
    U256 {
        lo: u128::from_le_bytes(out[0..16].try_into().unwrap()),
        hi: u128::from_le_bytes(out[16..32].try_into().unwrap()),
    }
}

} // verus!
