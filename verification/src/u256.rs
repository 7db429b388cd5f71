//! 256-bit words: unsigned values (balances, storage slot keys and values) and
//! hashes (code hashes), each held as two 128-bit limbs.

use vstd::prelude::*;

verus! {

/// Number of values a single 128-bit limb can take, i.e. 2^128.
pub open spec fn u128_bound() -> nat {
    0x1_0000_0000_0000_0000_0000_0000_0000_0000nat
}

/// Number of values a 256-bit word can take, i.e. 2^256.
pub open spec fn u256_bound() -> nat {
    0x1_0000_0000_0000_0000_0000_0000_0000_0000_0000_0000_0000_0000_0000_0000_0000_0000nat
}

/// An unsigned 256-bit integer: `lo + hi * 2^128`. The representation is
/// canonical — each mathematical value has exactly one `(lo, hi)` pair — so
/// structural equality coincides with value equality.
#[derive(Clone, Copy, Debug, PartialEq, Eq, Structural, Hash)]
pub struct U256 {
    pub lo: u128,
    pub hi: u128,
}

impl U256 {
    /// The mathematical value of this word.
    pub open spec fn as_nat(self) -> nat {
        (self.lo + self.hi * u128_bound()) as nat
    }

    pub open spec fn spec_zero() -> U256 {
        U256 { lo: 0, hi: 0 }
    }

    #[verifier::when_used_as_spec(spec_zero)]
    pub fn zero() -> (r: U256)
        ensures
            r == U256::spec_zero(),
    {
        U256 { lo: 0, hi: 0 }
    }

    pub fn from_u128(x: u128) -> (r: U256)
        ensures
            r.as_nat() == x,
    {
        U256 { lo: x, hi: 0 }
    }

    pub fn is_zero(&self) -> (b: bool)
        ensures
            b == (self.as_nat() == 0),
    {
        self.lo == 0 && self.hi == 0
    }

    /// Addition; the caller guarantees the mathematical sum stays below 2^256.
    pub fn plus(self, other: U256) -> (r: U256)
        requires
            self.as_nat() + other.as_nat() < u256_bound(),
        ensures
            r.as_nat() == self.as_nat() + other.as_nat(),
    {
        let (lo, carry): (u128, u128) = if self.lo <= u128::MAX - other.lo {
            (self.lo + other.lo, 0)
        } else {
            (self.lo - (u128::MAX - other.lo) - 1, 1)
        };
        assert(lo + carry * u128_bound() == self.lo + other.lo);
        let hi = self.hi + other.hi + carry;
        U256 { lo, hi }
    }

    /// Narrowing to 128 bits; the caller guarantees the value fits.
    pub fn to_u128(&self) -> (r: u128)
        requires
            self.as_nat() < u128_bound(),
        ensures
            r == self.as_nat(),
    {
        proof {
            assert(self.hi == 0) by {
                if self.hi >= 1 {
                    assert(self.hi * u128_bound() >= u128_bound());
                }
            }
        }
        self.lo
    }
}

/// A 256-bit hash, compared only for equality.
#[derive(Clone, Copy, Debug, PartialEq, Eq, Structural, Hash)]
pub struct B256 {
    pub lo: u128,
    pub hi: u128,
}

/// High limb of the hash of the empty byte string under the chain's hash
/// function, the canonical "no code" marker.
pub const KECCAK_EMPTY_HI: u128 = 0xc5d2460186f7233c927e7db2dcc703c0;

/// Low limb of the hash of the empty byte string.
pub const KECCAK_EMPTY_LO: u128 = 0xe500b653ca82273b7bfad8045d85a470;

/// The canonical empty-code hash; an account whose code hash equals it holds
/// no code.
pub open spec fn spec_keccak_empty() -> B256 {
    B256 { lo: KECCAK_EMPTY_LO, hi: KECCAK_EMPTY_HI }
}

#[verifier::when_used_as_spec(spec_keccak_empty)]
pub fn keccak_empty() -> (r: B256)
    ensures
        r == spec_keccak_empty(),
{
    B256 { lo: KECCAK_EMPTY_LO, hi: KECCAK_EMPTY_HI }
}

} // verus!
