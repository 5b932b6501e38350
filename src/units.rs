//! Chain values: 20-byte addresses and unsigned 256-bit amounts.
use vstd::prelude::*;

verus! {

/// Two to the 64th: the weight of one limb of a [`Wei`] over the previous one.
pub open spec fn limb_base() -> nat {
    0x1_0000_0000_0000_0000
}

/// Ten to the `n`th.
pub open spec fn pow10(n: nat) -> nat
    decreases n,
{
    if n == 0 {
        1
    } else {
        10 * pow10((n - 1) as nat)
    }
}

/// The exclusive upper bound of a 256-bit amount.
pub open spec fn wei_bound() -> nat {
    limb_base() * limb_base() * limb_base() * limb_base()
}

/// A 20-byte chain address.
#[derive(Clone, Copy, Debug, PartialEq, Eq)]
pub struct Address {
    pub bytes: [u8; 20],
}

/// An unsigned 256-bit amount of native base units (or of gas), held as four
/// 64-bit limbs, least significant first.
#[derive(Clone, Copy, Debug, PartialEq, Eq)]
pub struct Wei {
    pub limbs: [u64; 4],
}

impl Wei {
    /// The number that the limbs stand for.
    pub open spec fn value(self) -> nat {
        self.limbs[0] as nat + limb_base() * (self.limbs[1] as nat + limb_base() * (
        self.limbs[2] as nat + limb_base() * (self.limbs[3] as nat)))
    }

    /// The amount `v`.
    pub fn from_u64(v: u64) -> (r: Wei)
        ensures
            r.value() == v,
    {
        Wei { limbs: [v, 0, 0, 0] }
    }

    /// The amount `v`.
    pub fn from_u128(v: u128) -> (r: Wei)
        ensures
            r.value() == v,
    {
        let lo: u64 = (v % 0x1_0000_0000_0000_0000) as u64;
        let hi: u64 = (v / 0x1_0000_0000_0000_0000) as u64;
        let r = Wei { limbs: [lo, hi, 0, 0] };
        assert(r.value() == lo as nat + limb_base() * (hi as nat));
        r
    }
}

/// Base units in one whole native-token unit: ten to the 18th.
pub const DECIMALS: usize = 18;

/// Relies on web3's `U256::exp10` (from the `uint` crate): ten to the `n`th,
/// which panics past the 256-bit range, so `n` stays at 77 or below.
#[verifier::external_body]
pub(crate) fn u256_exp10(n: usize) -> (r: Wei)
    requires
        n <= 77,
    ensures
        r.value() == pow10(n as nat),
{
    Wei { limbs: web3::types::U256::exp10(n).0 }
}

/// Relies on web3's `U256::checked_div` (from the `uint` crate): the quotient
/// rounded down, and `None` for a zero divisor.
#[verifier::external_body]
pub(crate) fn u256_checked_div(a: Wei, b: Wei) -> (r: Option<Wei>)
    ensures
        r is None <==> b.value() == 0,
        r matches Some(q) ==> q.value() == a.value() / b.value(),
{
    match web3::types::U256(a.limbs).checked_div(web3::types::U256(b.limbs)) {
        Some(q) => Some(Wei { limbs: q.0 }),
        None => None,
    }
}

/// The whole native-token units in `balance`, the fraction dropped.
pub fn whole_units(balance: Wei) -> (r: Wei)
    ensures
        r.value() == balance.value() / pow10(DECIMALS as nat),
{
    let unit = u256_exp10(DECIMALS);
    proof {
        reveal_with_fuel(pow10, 19);
    }
    u256_checked_div(balance, unit).unwrap()
}

} // verus!
