//! The fee engine: a share of a price, given in basis points.

use vstd::prelude::*;
use crate::error::DeSerHubError;

verus! {

/// One hundred percent, in basis points.
pub const BPS_DENOMINATOR: u64 = 10_000;

/// The share `bps / 10_000` of `price`, rounded down.
pub open spec fn fee_of(price: int, bps: int) -> int {
    (price * bps) / 10_000
}

/// At the rate zero the fee is zero, and at a rate of no more than one
/// hundred percent the fee is no more than the price.
pub proof fn lemma_fee_within_price(price: int, bps: int)
    requires
        0 <= price,
        0 <= bps,
    ensures
        fee_of(price, 0) == 0,
        0 <= fee_of(price, bps),
        bps <= 10_000 ==> fee_of(price, bps) <= price,
{
    assert(price * 0 == 0);
    assert(0 <= price * bps) by (nonlinear_arith)
        requires
            0 <= price,
            0 <= bps,
    ;
    if bps <= 10_000 {
        assert(price * bps <= price * 10_000) by (nonlinear_arith)
            requires
                0 <= price,
                0 <= bps <= 10_000,
        ;
    }
}

/// The fee is the floor of the share: the one whole amount `f` with
/// `f * 10_000 <= price * bps < (f + 1) * 10_000`.
pub proof fn lemma_fee_is_the_floor(price: int, bps: int)
    ensures
        fee_of(price, bps) * 10_000 <= price * bps < (fee_of(price, bps) + 1) * 10_000,
{
    let product = price * bps;
    assert(product == 10_000 * (product / 10_000) + product % 10_000) by {
        vstd::arithmetic::div_mod::lemma_fundamental_div_mod(product, 10_000);
    }
    assert(0 <= product % 10_000 < 10_000);
}

/// Computes the fee on `price` at the rate `bps`.
///
/// The product is formed in 128 bits, so it is always exact. The only
/// failure left is a quotient that does not fit in 64 bits, which takes a
/// rate above one hundred percent.
pub fn fee(price: u64, bps: u16) -> (r: Result<u64, DeSerHubError>)
    ensures
        fee_of(price as int, bps as int) <= u64::MAX ==> r == Ok::<u64, DeSerHubError>(
            fee_of(price as int, bps as int) as u64,
        ),
        fee_of(price as int, bps as int) > u64::MAX ==> r == Err::<u64, DeSerHubError>(
            DeSerHubError::ArithmeticOverflow,
        ),
        bps == 0 ==> r == Ok::<u64, DeSerHubError>(0),
        bps <= BPS_DENOMINATOR ==> r is Ok,
        r matches Ok(f) ==> f * 10_000 <= price * bps < (f + 1) * 10_000,
{
    proof {
        lemma_fee_within_price(price as int, bps as int);
        lemma_fee_is_the_floor(price as int, bps as int);
    }
    let wide_price: u128 = price as u128;
    let wide_bps: u128 = bps as u128;
    assert(wide_price * wide_bps <= 0xffff_ffff_ffff_ffff * 0xffff) by (nonlinear_arith)
        requires
            wide_price <= 0xffff_ffff_ffff_ffff,
            wide_bps <= 0xffff,
    ;
    let product: u128 = wide_price * wide_bps;
    let quotient: u128 = product / (BPS_DENOMINATOR as u128);
    if quotient > u64::MAX as u128 {
        Err(DeSerHubError::ArithmeticOverflow)
    } else {
        Ok(quotient as u64)
    }
}

} // verus!
