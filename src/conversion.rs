use vstd::prelude::*;
use crate::amount::{Amount, amount_bound};

verus! {

/// Why a conversion between assets and shares has no result.
#[derive(Debug, Clone, Copy, PartialEq, Eq)]
pub enum ConversionError {
    /// The total of assets is zero, so no exchange rate exists.
    DivisionByZero,
    /// `assets * total_shares` does not fit in 256 bits.
    ArithmeticOverflow,
}

/// What converting `assets` to shares yields, given the vault's totals:
/// `floor(assets * total_shares / total_assets)` where that is defined and
/// the product fits in 256 bits.
pub open spec fn shares_for(assets: nat, total_shares: nat, total_assets: nat) -> Result<
    nat,
    ConversionError,
> {
    if total_assets == 0 {
        Err(ConversionError::DivisionByZero)
    } else if assets * total_shares >= amount_bound() {
        Err(ConversionError::ArithmeticOverflow)
    } else {
        Ok(assets * total_shares / total_assets)
    }
}

/// Whether `r` is the outcome that `shares_for` gives.
pub open spec fn converts_to(r: Result<Amount, ConversionError>, expected: Result<nat, ConversionError>) -> bool {
    match expected {
        Ok(v) => r is Ok && r->Ok_0@ == v,
        Err(e) => r == Err::<Amount, ConversionError>(e),
    }
}

/// Converts an amount of assets to shares at the rate
/// `total_shares / total_assets`, rounding down so that no more shares are
/// issued than the exact proportional entitlement.
pub fn to_shares(assets: Amount, total_shares: Amount, total_assets: Amount) -> (r: Result<
    Amount,
    ConversionError,
>)
    ensures
        converts_to(r, shares_for(assets@, total_shares@, total_assets@)),
        total_assets@ == 0 ==> r == Err::<Amount, ConversionError>(ConversionError::DivisionByZero),
        r is Ok ==> r->Ok_0@ * total_assets@ <= assets@ * total_shares@ < (r->Ok_0@ + 1)
            * total_assets@,
{
    if total_assets.is_zero() {
        return Err(ConversionError::DivisionByZero);
    }
    match assets.checked_mul(&total_shares) {
        None => Err(ConversionError::ArithmeticOverflow),
        Some(product) => match product.checked_div(&total_assets) {
            None => Err(ConversionError::DivisionByZero),
            Some(q) => {
                proof {
                    lemma_floor_bounds(product@, total_assets@);
                }
                Ok(q)
            },
        },
    }
}

/// The quotient rounded down times the divisor lies within one divisor of
/// the dividend.
pub proof fn lemma_floor_bounds(n: nat, d: nat)
    requires
        d > 0,
    ensures
        (n / d) * d <= n < (n / d + 1) * d,
{
    let q = n / d;
    let m = n % d;
    vstd::arithmetic::div_mod::lemma_fundamental_div_mod(n as int, d as int);
    vstd::arithmetic::div_mod::lemma_mod_pos_bound(n as int, d as int);
    assert(n == d * q + m);
    assert(d * q == q * d) by (nonlinear_arith);
    assert((q + 1) * d == q * d + d) by (nonlinear_arith);
}

/// For all amounts with a non-zero total of assets and a product that fits
/// in 256 bits, the conversion succeeds with exactly
/// `floor(assets * total_shares / total_assets)`, which never exceeds the
/// product itself.
pub proof fn lemma_conversion_floor(assets: nat, total_shares: nat, total_assets: nat)
    requires
        total_assets > 0,
        assets * total_shares < amount_bound(),
    ensures
        shares_for(assets, total_shares, total_assets) == Ok::<nat, ConversionError>(
            assets * total_shares / total_assets,
        ),
        assets * total_shares / total_assets <= assets * total_shares,
        (assets * total_shares / total_assets) * total_assets <= assets * total_shares,
{
    let p = assets * total_shares;
    lemma_floor_bounds(p, total_assets);
    vstd::arithmetic::div_mod::lemma_div_is_ordered_by_denominator(p as int, 1, total_assets as int);
    vstd::arithmetic::div_mod::lemma_div_basics(p as int);
}

/// For all assets and total shares, a zero total of assets gives
/// `DivisionByZero` and no value.
pub proof fn lemma_division_by_zero_guard(assets: nat, total_shares: nat)
    ensures
        shares_for(assets, total_shares, 0) == Err::<nat, ConversionError>(
            ConversionError::DivisionByZero,
        ),
{
}

} // verus!
