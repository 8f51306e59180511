//! The fixed-width values of the chain, as plain data: addresses, 32-byte
//! hashes and 256-bit unsigned integers.

use vstd::prelude::*;

verus! {

/// A 20-byte account address.
#[derive(Clone, Copy, Debug, PartialEq, Eq)]
pub struct Address(pub [u8; 20]);

/// A 32-byte hash.
#[derive(Clone, Copy, Debug, PartialEq, Eq)]
pub struct B256(pub [u8; 32]);

/// A 256-bit unsigned integer, held as four 64-bit limbs, least significant
/// limb first.
#[derive(Clone, Copy, Debug, PartialEq, Eq)]
pub struct U256 {
    pub limbs: [u64; 4],
}

impl U256 {
    /// The number that the limbs stand for.
    pub open spec fn value(self) -> nat {
        (self.limbs[0] + self.limbs[1] * 0x1_0000_0000_0000_0000
            + self.limbs[2] * 0x1_0000_0000_0000_0000_0000_0000_0000_0000
            + self.limbs[3] * 0x1_0000_0000_0000_0000_0000_0000_0000_0000_0000_0000_0000_0000) as nat
    }

    /// Zero.
    pub fn zero() -> (r: Self)
        ensures
            r.value() == 0,
            r.limbs@ == seq![0u64, 0u64, 0u64, 0u64],
    {
        U256 { limbs: [0, 0, 0, 0] }
    }

    /// The 256-bit integer with the value of `v`.
    pub fn from_u64(v: u64) -> (r: Self)
        ensures
            r.value() == v,
            r.limbs@ == seq![v, 0u64, 0u64, 0u64],
    {
        U256 { limbs: [v, 0, 0, 0] }
    }
}

/// Thirty-two zero bytes.
pub open spec fn zero_hash_bytes() -> Seq<u8> {
    Seq::new(32, |i: int| 0u8)
}

/// Byte `index` of the 32-byte big-endian encoding of `value`; byte 0 is the
/// most significant one.
pub open spec fn be_byte(value: nat, index: int) -> int {
    (value / vstd::arithmetic::power::pow(256, (31 - index) as nat) as nat) as int % 256
}

} // verus!
