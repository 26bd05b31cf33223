//! Plain value types shared by the whole library: hashes, addresses and
//! 256-bit unsigned integers.

use vstd::prelude::*;

verus! {

/// A 32-byte hash.
pub type B256 = [u8; 32];

/// A 20-byte account address.
pub type Address = [u8; 20];

/// The all-zero address.
pub fn zero_address() -> (r: Address)
    ensures
        forall|i: int| 0 <= i < 20 ==> r@[i] == 0u8,
{
    [0u8; 20]
}

/// Whether two hashes hold the same bytes.
pub fn hash_eq(a: &B256, b: &B256) -> (r: bool)
    ensures
        r == (a@ == b@),
{
    let mut i: usize = 0;
    while i < 32
        invariant
            i <= 32,
            forall|j: int| 0 <= j < i ==> a@[j] == b@[j],
        decreases 32 - i,
    {
        if a[i] != b[i] {
            return false;
        }
        i += 1;
    }
    assert(a@ =~= b@);
    true
}

/// Two to the power 64.
pub open spec fn pow2_64() -> nat {
    0x1_0000_0000_0000_0000nat
}

/// Two to the power 128.
pub open spec fn pow2_128() -> nat {
    0x1_0000_0000_0000_0000_0000_0000_0000_0000nat
}

/// Two to the power 192.
pub open spec fn pow2_192() -> nat {
    0x1_0000_0000_0000_0000_0000_0000_0000_0000_0000_0000_0000_0000nat
}

/// Two to the power 256.
pub open spec fn pow2_256() -> nat {
    0x1_0000_0000_0000_0000_0000_0000_0000_0000_0000_0000_0000_0000_0000_0000_0000_0000nat
}

/// The number that four little-endian 64-bit limbs stand for.
pub open spec fn limbs_value(limbs: Seq<u64>) -> nat
    recommends
        limbs.len() == 4,
{
    (limbs[0] as nat) + (limbs[1] as nat) * pow2_64() + (limbs[2] as nat) * pow2_128() + (
    limbs[3] as nat) * pow2_192()
}

/// Sum of two 256-bit integers given by their limbs, through
/// `alloy_primitives::U256::checked_add`: `None` exactly when the sum does
/// not fit in 256 bits, otherwise the limbs of the exact sum.
#[verifier::external_body]
fn limbs_checked_add(a: [u64; 4], b: [u64; 4]) -> (r: Option<[u64; 4]>)
    ensures
        r is Some <==> limbs_value(a@) + limbs_value(b@) < pow2_256(),
        r matches Some(s) ==> limbs_value(s@) == limbs_value(a@) + limbs_value(b@),
{
    let x = alloy_primitives::U256::from_limbs(a);
    let y = alloy_primitives::U256::from_limbs(b);
    x.checked_add(y).map(|s| s.into_limbs())
}

/// Product of a 128-bit and a 64-bit integer as a 256-bit integer, through
/// the multiplication of `alloy_primitives::U256`. The product is below
/// 2^192, so the wrapping multiplication is exact.
#[verifier::external_body]
fn limbs_mul_u128_u64(a: u128, b: u64) -> (r: [u64; 4])
    ensures
        limbs_value(r@) == (a as nat) * (b as nat),
{
    let x = alloy_primitives::U256::from(a);
    let y = alloy_primitives::U256::from(b);
    (x * y).into_limbs()
}

/// Strict order of two 256-bit integers given by their limbs, through the
/// `<` of `alloy_primitives::U256`.
#[verifier::external_body]
fn limbs_lt(a: [u64; 4], b: [u64; 4]) -> (r: bool)
    ensures
        r == (limbs_value(a@) < limbs_value(b@)),
{
    alloy_primitives::U256::from_limbs(a) < alloy_primitives::U256::from_limbs(b)
}

/// A 256-bit unsigned integer, held as four 64-bit limbs, least significant
/// first.
#[derive(Clone, Copy, Debug, PartialEq, Eq)]
pub struct U256 {
    pub limbs: [u64; 4],
}

impl U256 {
    /// The number this value stands for.
    pub open spec fn value(self) -> nat {
        limbs_value(self.limbs@)
    }

    /// Zero.
    pub fn zero() -> (r: U256)
        ensures
            r.value() == 0,
            r.limbs@ == seq![0u64, 0u64, 0u64, 0u64],
    {
        let r = U256 { limbs: [0u64, 0u64, 0u64, 0u64] };
        assert(r.limbs@ =~= seq![0u64, 0u64, 0u64, 0u64]);
        r
    }

    /// The 256-bit integer equal to `v`.
    pub fn from_u64(v: u64) -> (r: U256)
        ensures
            r.value() == v,
    {
        U256 { limbs: [v, 0u64, 0u64, 0u64] }
    }

    /// Whether the value is zero.
    pub fn is_zero(&self) -> (r: bool)
        ensures
            r == (self.value() == 0),
    {
        self.limbs[0] == 0 && self.limbs[1] == 0 && self.limbs[2] == 0 && self.limbs[3] == 0
    }

    /// Whether two values stand for the same number.
    pub fn same(&self, other: &U256) -> (r: bool)
        ensures
            r == (self.value() == other.value()),
            r == (self.limbs@ == other.limbs@),
    {
        let r = self.limbs[0] == other.limbs[0] && self.limbs[1] == other.limbs[1]
            && self.limbs[2] == other.limbs[2] && self.limbs[3] == other.limbs[3];
        proof {
            if r {
                assert(self.limbs@ =~= other.limbs@);
            }
            lemma_limbs_injective(self.limbs@, other.limbs@);
        }
        r
    }

    /// `self + rhs`, or `None` when the sum needs more than 256 bits.
    pub fn checked_add(self, rhs: U256) -> (r: Option<U256>)
        ensures
            r is Some <==> self.value() + rhs.value() < pow2_256(),
            r matches Some(s) ==> s.value() == self.value() + rhs.value(),
    {
        match limbs_checked_add(self.limbs, rhs.limbs) {
            Some(limbs) => Some(U256 { limbs }),
            None => None,
        }
    }

    /// The exact product `a * b`, which always fits.
    pub fn mul_u128_u64(a: u128, b: u64) -> (r: U256)
        ensures
            r.value() == (a as nat) * (b as nat),
    {
        U256 { limbs: limbs_mul_u128_u64(a, b) }
    }

    /// Whether `self` is strictly below `other`.
    pub fn lt(&self, other: &U256) -> (r: bool)
        ensures
            r == (self.value() < other.value()),
    {
        limbs_lt(self.limbs, other.limbs)
    }
}

/// A number below 2^64 and a multiple of 2^64 add up in one way only.
proof fn lemma_split_at_limb(low: nat, high: nat, other_low: nat, other_high: nat)
    requires
        low < pow2_64(),
        other_low < pow2_64(),
        low + high * pow2_64() == other_low + other_high * pow2_64(),
    ensures
        low == other_low,
        high == other_high,
{
    assert(high == other_high) by (nonlinear_arith)
        requires
            low < 0x1_0000_0000_0000_0000nat,
            other_low < 0x1_0000_0000_0000_0000nat,
            low + high * 0x1_0000_0000_0000_0000nat == other_low + other_high
                * 0x1_0000_0000_0000_0000nat,
    ;
}

/// Two limb sequences stand for the same number only if they are equal.
pub proof fn lemma_limbs_injective(a: Seq<u64>, b: Seq<u64>)
    requires
        a.len() == 4,
        b.len() == 4,
    ensures
        limbs_value(a) == limbs_value(b) <==> a == b,
{
    if limbs_value(a) == limbs_value(b) {
        let a_1 = (a[1] as nat) + (a[2] as nat) * pow2_64() + (a[3] as nat) * pow2_128();
        let b_1 = (b[1] as nat) + (b[2] as nat) * pow2_64() + (b[3] as nat) * pow2_128();
        let a_2 = (a[2] as nat) + (a[3] as nat) * pow2_64();
        let b_2 = (b[2] as nat) + (b[3] as nat) * pow2_64();
        assert(limbs_value(a) == (a[0] as nat) + a_1 * pow2_64());
        assert(limbs_value(b) == (b[0] as nat) + b_1 * pow2_64());
        lemma_split_at_limb(a[0] as nat, a_1, b[0] as nat, b_1);
        assert(a_1 == (a[1] as nat) + a_2 * pow2_64());
        assert(b_1 == (b[1] as nat) + b_2 * pow2_64());
        lemma_split_at_limb(a[1] as nat, a_2, b[1] as nat, b_2);
        lemma_split_at_limb(a[2] as nat, a[3] as nat, b[2] as nat, b[3] as nat);
        assert(a =~= b);
    }
}

} // verus!
