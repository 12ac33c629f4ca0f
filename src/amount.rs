use vstd::prelude::*;

verus! {

/// 2^64, the weight of one limb.
pub open spec fn limb_base() -> nat {
    0x1_0000_0000_0000_0000nat
}

/// 2^256, one past the largest amount.
pub open spec fn amount_bound() -> nat {
    limb_base() * limb_base() * limb_base() * limb_base()
}

/// An unsigned 256-bit quantity of asset units or share units, held as four
/// 64-bit limbs, least significant first.
#[derive(Debug, Clone, Copy, PartialEq, Eq)]
pub struct Amount {
    pub limbs: [u64; 4],
}

impl View for Amount {
    type V = nat;

    open spec fn view(&self) -> nat {
        self.limbs@[0] as nat + self.limbs@[1] as nat * limb_base() + self.limbs@[2] as nat
            * limb_base() * limb_base() + self.limbs@[3] as nat * limb_base() * limb_base()
            * limb_base()
    }
}

impl Amount {
    /// The amount whose limbs, least significant first, are `limbs`.
    pub fn from_limbs(limbs: [u64; 4]) -> (r: Amount)
        ensures
            r.limbs@ == limbs@,
    {
        Amount { limbs }
    }

    /// The limbs of this amount, least significant first.
    pub fn limbs(&self) -> (r: [u64; 4])
        ensures
            r@ == self.limbs@,
    {
        self.limbs
    }

    /// The amount `x`.
    pub fn from_u64(x: u64) -> (r: Amount)
        ensures
            r@ == x as nat,
    {
        Amount { limbs: [x, 0, 0, 0] }
    }

    pub fn zero() -> (r: Amount)
        ensures
            r@ == 0,
    {
        Amount::from_u64(0)
    }

    pub fn is_zero(&self) -> (r: bool)
        ensures
            r == (self@ == 0),
    {
        self.limbs[0] == 0 && self.limbs[1] == 0 && self.limbs[2] == 0 && self.limbs[3] == 0
    }

    /// The product of two amounts, or `None` where it does not fit in 256 bits.
    pub fn checked_mul(&self, other: &Amount) -> (r: Option<Amount>)
        ensures
            r is Some <==> self@ * other@ < amount_bound(),
            r is Some ==> r->Some_0@ == self@ * other@,
    {
        mul_u256(*self, *other)
    }

    /// The quotient of two amounts rounded down, or `None` where `other` is zero.
    pub fn checked_div(&self, other: &Amount) -> (r: Option<Amount>)
        ensures
            r is None <==> other@ == 0,
            r is Some ==> r->Some_0@ == self@ / other@,
    {
        div_u256(*self, *other)
    }
}

/// Relies on ruint's `Uint::checked_mul` on `U256`: the product, or `None`
/// where it overflows 256 bits.
#[verifier::external_body]
fn mul_u256(a: Amount, b: Amount) -> (r: Option<Amount>)
    ensures
        r is Some <==> a@ * b@ < amount_bound(),
        r is Some ==> r->Some_0@ == a@ * b@,
{
    let x = alloy_primitives::U256::from_limbs(a.limbs);
    let y = alloy_primitives::U256::from_limbs(b.limbs);
    match x.checked_mul(y) {
        Some(p) => Some(Amount { limbs: p.into_limbs() }),
        None => None,
    }
}

/// Relies on ruint's `Uint::checked_div` on `U256`: the quotient rounded
/// down, or `None` where the divisor is zero.
#[verifier::external_body]
fn div_u256(a: Amount, b: Amount) -> (r: Option<Amount>)
    ensures
        r is None <==> b@ == 0,
        r is Some ==> r->Some_0@ == a@ / b@,
{
    let x = alloy_primitives::U256::from_limbs(a.limbs);
    let y = alloy_primitives::U256::from_limbs(b.limbs);
    match x.checked_div(y) {
        Some(q) => Some(Amount { limbs: q.into_limbs() }),
        None => None,
    }
}

} // verus!
