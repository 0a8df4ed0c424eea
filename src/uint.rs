//! Fixed-width unsigned integers used for field elements, roots and amounts.

use vstd::prelude::*;

verus! {

/// `2^128`, the weight of the high half of a [`U256`].
pub open spec fn half_base() -> nat {
    0x1_0000_0000_0000_0000 * 0x1_0000_0000_0000_0000
}

/// `2^256`, the weight of the high half of a [`U512`].
pub open spec fn u256_base() -> nat {
    half_base() * half_base()
}

/// A 256-bit unsigned integer, held as two 128-bit halves.
#[derive(Clone, Copy, Debug, PartialEq, Eq, Structural)]
pub struct U256 {
    pub hi: u128,
    pub lo: u128,
}

/// A 512-bit unsigned integer, held as two 256-bit halves.
#[derive(Clone, Copy, Debug, PartialEq, Eq, Structural)]
pub struct U512 {
    pub hi: U256,
    pub lo: U256,
}

/// The 256-bit integer whose value is `n` (reduced modulo `2^256`).
pub open spec fn u256_of(n: nat) -> U256 {
    U256 { hi: ((n / half_base()) % half_base()) as u128, lo: (n % half_base()) as u128 }
}

impl U256 {
    /// The number this integer stands for.
    pub open spec fn value(self) -> nat {
        self.hi as nat * half_base() + self.lo as nat
    }

    pub fn zero() -> (r: U256)
        ensures
            r.value() == 0,
    {
        U256 { hi: 0, lo: 0 }
    }

    pub fn from_u64(v: u64) -> (r: U256)
        ensures
            r.value() == v as nat,
    {
        U256 { hi: 0, lo: v as u128 }
    }

    pub fn from_u128(v: u128) -> (r: U256)
        ensures
            r.value() == v as nat,
    {
        U256 { hi: 0, lo: v }
    }

    pub fn is_zero(&self) -> (r: bool)
        ensures
            r == (self.value() == 0),
    {
        proof {
            let b = half_base();
            assert((self.hi as nat) * b + (self.lo as nat) == 0 <==> self.hi == 0 && self.lo == 0)
                by (nonlinear_arith)
                requires
                    b > 0,
            ;
        }
        self.hi == 0 && self.lo == 0
    }
}

impl U512 {
    /// The number this integer stands for.
    pub open spec fn value(self) -> nat {
        self.hi.value() * u256_base() + self.lo.value()
    }

    pub fn from_u64(v: u64) -> (r: U512)
        ensures
            r.value() == v as nat,
    {
        let r = U512 { hi: U256::zero(), lo: U256::from_u64(v) };
        assert(r.hi.value() * u256_base() == 0);
        r
    }
}

/// A value below `2^256` has exactly one representation.
pub proof fn lemma_u256_value_bounds(x: U256)
    ensures
        x.value() < u256_base(),
{
    let b = half_base();
    assert((x.hi as nat) * b + (x.lo as nat) < b * b) by (nonlinear_arith)
        requires
            x.hi < b,
            x.lo < b,
    ;
}

/// Two integers with the same value are the same integer.
pub proof fn lemma_u256_value_injective(x: U256, y: U256)
    requires
        x.value() == y.value(),
    ensures
        x == y,
{
    let b = half_base();
    assert(x.hi == y.hi) by (nonlinear_arith)
        requires
            x.hi as nat * b + x.lo as nat == y.hi as nat * b + y.lo as nat,
            x.lo < b,
            y.lo < b,
            b > 0,
    ;
}

/// Two 512-bit integers with the same value are the same integer.
pub proof fn lemma_u512_value_injective(x: U512, y: U512)
    requires
        x.value() == y.value(),
    ensures
        x == y,
{
    let b = u256_base();
    lemma_u256_value_bounds(x.lo);
    lemma_u256_value_bounds(y.lo);
    assert(x.hi.value() == y.hi.value()) by (nonlinear_arith)
        requires
            x.hi.value() * b + x.lo.value() == y.hi.value() * b + y.lo.value(),
            x.lo.value() < b,
            y.lo.value() < b,
    ;
    lemma_u256_value_injective(x.hi, y.hi);
    lemma_u256_value_injective(x.lo, y.lo);
}

/// Building an integer from the value of another gives that integer back.
pub proof fn lemma_u256_of_value(x: U256)
    ensures
        u256_of(x.value()) == x,
{
    let b = half_base();
    let n = x.value();
    vstd::arithmetic::div_mod::lemma_fundamental_div_mod_converse(
        n as int,
        b as int,
        x.hi as int,
        x.lo as int,
    );
    vstd::arithmetic::div_mod::lemma_small_mod(x.hi as nat, b);
}

/// The value of `u256_of(n)` is `n` for every `n` below `2^256`.
pub proof fn lemma_value_of_u256(n: nat)
    requires
        n < u256_base(),
    ensures
        u256_of(n).value() == n,
{
    let b = half_base();
    vstd::arithmetic::div_mod::lemma_fundamental_div_mod(n as int, b as int);
    vstd::arithmetic::div_mod::lemma_multiply_divide_lt(n as int, b as int, b as int);
    vstd::arithmetic::div_mod::lemma_small_mod(n / b, b);
}

} // verus!
