//! The MiMC sponge over BN254's scalar field, used as the pair hash of the
//! Merkle tree. It is the Feistel construction with exponent 5: each round adds
//! a round constant to the left branch, raises it to the fifth power and adds
//! the result to the right branch, swapping the branches on every round but the
//! last. The round constants are fixed when the sponge is built and must be the
//! ones that the off-chain proving circuit embeds.

use vstd::prelude::*;
use crate::field::{fr_add, fr_modulus, fr_mul};
use crate::uint::{lemma_u256_of_value, u256_of, U256};

verus! {

/// `t^5` in the field, computed as `((t^2)^2) * t`.
pub open spec fn pow5(t: nat) -> nat {
    let t2 = (t * t) % fr_modulus();
    let t4 = (t2 * t2) % fr_modulus();
    (t4 * t) % fr_modulus()
}

/// The two branches after the first `n` rounds of the Feistel permutation
/// with round constants `c`, started from `(xl, xr)`.
pub open spec fn feistel(c: Seq<nat>, xl: nat, xr: nat, n: nat) -> (nat, nat)
    decreases n,
{
    if n == 0 {
        (xl, xr)
    } else {
        let prev = feistel(c, xl, xr, (n - 1) as nat);
        let t5 = pow5((prev.0 + c[n - 1]) % fr_modulus());
        if n < c.len() {
            ((prev.1 + t5) % fr_modulus(), prev.0)
        } else {
            (prev.0, (prev.1 + t5) % fr_modulus())
        }
    }
}

/// The sponge's output on the two inputs `l` and `r`: each input is added to
/// the left branch, which is then permuted; the left branch is the result.
pub open spec fn mimc_pair(c: Seq<nat>, l: nat, r: nat) -> nat {
    let s1 = feistel(c, l % fr_modulus(), 0, c.len());
    let s2 = feistel(c, (s1.0 + r) % fr_modulus(), s1.1, c.len());
    s2.0
}

/// The pair hash `H(l, r)` of the Merkle tree, as a 256-bit integer.
pub open spec fn pair_hash(c: Seq<nat>, l: U256, r: U256) -> U256 {
    u256_of(mimc_pair(c, l.value(), r.value()))
}

/// A MiMC sponge with its round constants.
pub struct MimcSponge {
    pub constants: Vec<U256>,
}

impl MimcSponge {
    /// The round constants as field values.
    pub open spec fn round_constants(&self) -> Seq<nat> {
        self.constants@.map_values(|c: U256| c.value())
    }

    pub fn new(constants: Vec<U256>) -> (r: MimcSponge)
        ensures
            r.constants@ == constants@,
    {
        MimcSponge { constants }
    }

    fn permute(&self, xl: U256, xr: U256) -> (r: (U256, U256))
        ensures
            (r.0.value(), r.1.value()) == feistel(
                self.round_constants(),
                xl.value(),
                xr.value(),
                self.constants@.len(),
            ),
    {
        let ghost c = self.round_constants();
        let n = self.constants.len();
        let mut l = xl;
        let mut r = xr;
        let mut i: usize = 0;
        while i < n
            invariant
                i <= n,
                n == self.constants@.len(),
                c == self.round_constants(),
                (l.value(), r.value()) == feistel(c, xl.value(), xr.value(), i as nat),
            decreases n - i,
        {
            let t = fr_add(l, self.constants[i]);
            let t2 = fr_mul(t, t);
            let t4 = fr_mul(t2, t2);
            let t5 = fr_mul(t4, t);
            if i + 1 < n {
                let nl = fr_add(r, t5);
                r = l;
                l = nl;
            } else {
                r = fr_add(r, t5);
            }
            i = i + 1;
        }
        (l, r)
    }

    /// `H(left, right)`.
    pub fn hash_pair(&self, left: U256, right: U256) -> (r: U256)
        ensures
            r == pair_hash(self.round_constants(), left, right),
    {
        let zero = U256::zero();
        let s1 = self.permute(fr_add(zero, left), zero);
        let s2 = self.permute(fr_add(s1.0, right), s1.1);
        proof {
            lemma_u256_of_value(s2.0);
        }
        s2.0
    }
}

} // verus!
