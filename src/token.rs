use vstd::prelude::*;
use crate::amount::Amount;

verus! {

/// Whole tokens minted to the deployer of the fund token.
pub const INITIAL_TOKENS: u64 = 100_000;

/// Base units in one whole token: the token has 18 decimals.
pub const UNITS_PER_TOKEN: u64 = 1_000_000_000_000_000_000;

/// The supply minted to the deployer when the fund token is created:
/// 100 000 tokens of 10^18 base units each.
pub fn initial_supply() -> (r: Amount)
    ensures
        r@ == INITIAL_TOKENS as nat * UNITS_PER_TOKEN as nat,
        r@ == 100_000_000_000_000_000_000_000nat,
{
    let tokens = Amount::from_u64(INITIAL_TOKENS);
    let units = Amount::from_u64(UNITS_PER_TOKEN);
    assert(tokens@ * units@ == 100_000_000_000_000_000_000_000nat) by (nonlinear_arith)
        requires
            tokens@ == 100_000,
            units@ == 1_000_000_000_000_000_000,
    ;
    tokens.checked_mul(&units).unwrap()
}

} // verus!
