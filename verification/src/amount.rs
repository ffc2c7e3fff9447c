use vstd::prelude::*;

verus! {

/// 2^64, the weight of the second limb.
pub open spec fn limb_base() -> nat {
    0x1_0000_0000_0000_0000
}

/// 2^256, the first value that no amount can hold.
pub open spec fn amount_limit() -> nat {
    limb_base() * limb_base() * limb_base() * limb_base()
}

/// The number that four little-endian 64-bit limbs stand for.
pub open spec fn limbs_value(limbs: [u64; 4]) -> nat {
    (limbs[0] as nat) + (limbs[1] as nat) * limb_base() + (limbs[2] as nat) * limb_base()
        * limb_base() + (limbs[3] as nat) * limb_base() * limb_base() * limb_base()
}

/// An unsigned 256-bit token amount, held as four little-endian limbs:
/// the layout of `sails_rs::U256`.
#[derive(Clone, Copy, Debug, PartialEq, Eq)]
pub struct Amount {
    pub limbs: [u64; 4],
}

impl View for Amount {
    type V = nat;

    open spec fn view(&self) -> nat {
        limbs_value(self.limbs)
    }
}

/// Calls `sails_rs::U256::checked_add` on two numbers given by their
/// limbs. Trusted: the result is the limbs of the exact sum when the
/// sum is below 2^256, and `None` when it is not.
#[verifier::external_body]
fn u256_checked_add(a: [u64; 4], b: [u64; 4]) -> (sum: Option<[u64; 4]>)
    ensures
        limbs_value(a) + limbs_value(b) < amount_limit() ==> sum.is_some() && limbs_value(
            sum.unwrap(),
        ) == limbs_value(a) + limbs_value(b),
        limbs_value(a) + limbs_value(b) >= amount_limit() ==> sum.is_none(),
{
    match sails_rs::U256(a).checked_add(sails_rs::U256(b)) {
        Some(s) => Some(s.0),
        None => None,
    }
}

impl Amount {
    /// The amount zero.
    pub fn zero() -> (z: Amount)
        ensures
            z@ == 0,
    {
        Amount { limbs: [0u64, 0u64, 0u64, 0u64] }
    }

    /// The exact sum of two amounts, or `None` when it does not fit in
    /// 256 bits. Never wraps.
    pub fn checked_add(self, other: Amount) -> (sum: Option<Amount>)
        ensures
            self@ + other@ < amount_limit() ==> sum.is_some() && sum.unwrap()@ == self@ + other@,
            self@ + other@ >= amount_limit() ==> sum.is_none(),
    {
        match u256_checked_add(self.limbs, other.limbs) {
            Some(limbs) => Some(Amount { limbs }),
            None => None,
        }
    }
}

/// Every amount is below 2^256.
pub proof fn lemma_amount_bounded(a: Amount)
    ensures
        a@ < amount_limit(),
{
    let b = limb_base();
    let l0 = a.limbs[0] as nat;
    let l1 = a.limbs[1] as nat;
    let l2 = a.limbs[2] as nat;
    let l3 = a.limbs[3] as nat;
    assert(l0 <= b - 1 && l1 <= b - 1 && l2 <= b - 1 && l3 <= b - 1);
    assert(l0 + l1 * b + l2 * b * b + l3 * b * b * b < b * b * b * b) by (nonlinear_arith)
        requires
            l0 <= b - 1,
            l1 <= b - 1,
            l2 <= b - 1,
            l3 <= b - 1,
            b > 0,
    ;
}

} // verus!
