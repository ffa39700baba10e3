//! The constant-product curve with a proportional fee on the input.

use vstd::prelude::*;
use crate::shared::BPS_DENOMINATOR;

verus! {

/// The fee a pool keeps on every swap, in basis points of the input.
pub const SWAP_FEE_BPS: u64 = 30;

/// The share of the input that trades, in basis points: the whole less the
/// fee.
pub const SWAP_NET_BPS: u64 = 9970;

/// The input after the fee, scaled by the basis-point denominator.
pub open spec fn net_amount_in(amount_in: int) -> int {
    amount_in * (BPS_DENOMINATOR - SWAP_FEE_BPS)
}

/// The numerator of the output quotient.
pub open spec fn quote_numerator(reserve_out: int, amount_in: int) -> int {
    net_amount_in(amount_in) * reserve_out
}

/// The denominator of the output quotient.
pub open spec fn quote_denominator(reserve_in: int, amount_in: int) -> int {
    reserve_in * BPS_DENOMINATOR + net_amount_in(amount_in)
}

/// What a pool pays out for `amount_in`: the floor of
/// `amount_in * 9970 * reserve_out / (reserve_in * 10000 + amount_in * 9970)`.
pub open spec fn amount_out(reserve_in: int, reserve_out: int, amount_in: int) -> int {
    quote_numerator(reserve_out, amount_in) / quote_denominator(reserve_in, amount_in)
}

/// Whether every intermediate value of the quotient fits in 64 bits.
pub open spec fn quote_fits(reserve_in: int, reserve_out: int, amount_in: int) -> bool {
    &&& net_amount_in(amount_in) <= u64::MAX
    &&& quote_numerator(reserve_out, amount_in) <= u64::MAX
    &&& reserve_in * 10000 <= u64::MAX
    &&& quote_denominator(reserve_in, amount_in) <= u64::MAX
}

/// The marginal price of the output asset, in basis points of the input
/// asset; zero when there is no input reserve.
pub open spec fn price_bps(reserve_in: int, reserve_out: int) -> int {
    if reserve_in > 0 {
        (reserve_out * 10000) / reserve_in
    } else {
        0
    }
}

/// How far the marginal price moved, in basis points of the price before.
pub open spec fn price_impact_bps(before: int, after: int) -> int {
    if before > 0 {
        let gap = if before >= after {
            before - after
        } else {
            after - before
        };
        (gap * 10000) / before
    } else {
        0
    }
}

/// The output is never negative and never reaches the output reserve, so a
/// pool with positive reserves keeps them positive.
pub proof fn lemma_amount_out_below_reserve(reserve_in: int, reserve_out: int, amount_in: int)
    requires
        reserve_in > 0,
        reserve_out > 0,
        amount_in >= 0,
    ensures
        0 <= amount_out(reserve_in, reserve_out, amount_in) < reserve_out,
{
    let n = quote_numerator(reserve_out, amount_in);
    let d = quote_denominator(reserve_in, amount_in);
    let net = net_amount_in(amount_in);
    assert(net >= 0 && d > net);
    assert(0 <= n < d * reserve_out) by (nonlinear_arith)
        requires
            n == net * reserve_out,
            0 <= net < d,
            reserve_out > 0,
    ;
    assert(0 <= n / d < reserve_out) by (nonlinear_arith)
        requires
            0 <= n < d * reserve_out,
            d > 0,
    ;
}

/// A swap never lowers the product of the reserves: the fee stays in the
/// pool, and the quotient is rounded down.
pub proof fn lemma_product_grows(reserve_in: int, reserve_out: int, amount_in: int)
    requires
        reserve_in > 0,
        reserve_out > 0,
        amount_in >= 0,
    ensures
        (reserve_in + amount_in) * (reserve_out - amount_out(reserve_in, reserve_out, amount_in))
            >= reserve_in * reserve_out,
{
    let out = amount_out(reserve_in, reserve_out, amount_in);
    let n = quote_numerator(reserve_out, amount_in);
    let d = quote_denominator(reserve_in, amount_in);
    lemma_amount_out_below_reserve(reserve_in, reserve_out, amount_in);
    assert(out * d <= n) by (nonlinear_arith)
        requires
            out == n / d,
            d > 0,
            n >= 0,
    ;
    let a = out * reserve_in;
    let b = out * amount_in;
    let c = amount_in * reserve_out;
    assert(a >= 0) by (nonlinear_arith)
        requires
            a == out * reserve_in,
            out >= 0,
            reserve_in > 0,
    ;
    assert(out * d == 10000 * a + 9970 * b) by (nonlinear_arith)
        requires
            d == reserve_in * 10000 + amount_in * 9970,
            a == out * reserve_in,
            b == out * amount_in,
    ;
    assert(n == 9970 * c) by (nonlinear_arith)
        requires
            n == (amount_in * 9970) * reserve_out,
            c == amount_in * reserve_out,
    ;
    assert(a + b <= c);
    assert((reserve_in + amount_in) * (reserve_out - out) == reserve_in * reserve_out + c - a - b)
        by (nonlinear_arith)
        requires
            a == out * reserve_in,
            b == out * amount_in,
            c == amount_in * reserve_out,
    ;
}

/// After a swap the marginal price of the output asset is no higher than
/// before, so the price impact is at most the whole price.
pub proof fn lemma_price_impact_bounded(reserve_in: int, reserve_out: int, amount_in: int, paid: int)
    requires
        reserve_in > 0,
        reserve_out > 0,
        amount_in >= 0,
        0 <= paid <= reserve_out,
    ensures
        0 <= price_bps(reserve_in + amount_in, reserve_out - paid) <= price_bps(reserve_in, reserve_out),
        0 <= price_impact_bps(
            price_bps(reserve_in, reserve_out),
            price_bps(reserve_in + amount_in, reserve_out - paid),
        ) <= 10000,
{
    let before = price_bps(reserve_in, reserve_out);
    let after = price_bps(reserve_in + amount_in, reserve_out - paid);
    let n0 = reserve_out * 10000;
    let n1 = (reserve_out - paid) * 10000;
    let d0 = reserve_in;
    let d1 = reserve_in + amount_in;
    assert(0 <= n1 / d1 <= n0 / d0) by (nonlinear_arith)
        requires
            0 <= n1 <= n0,
            0 < d0 <= d1,
    ;
    if before > 0 {
        let gap = before - after;
        assert(0 <= (gap * 10000) / before <= 10000) by (nonlinear_arith)
            requires
                0 <= gap <= before,
                before > 0,
        ;
    }
}

} // verus!
