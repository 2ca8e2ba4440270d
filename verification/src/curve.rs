use vstd::arithmetic::div_mod::{
    lemma_div_is_ordered, lemma_div_multiples_vanish, lemma_div_pos_is_pos,
    lemma_fundamental_div_mod, lemma_mod_division_less_than_divisor, lemma_multiply_divide_lt,
};
use vstd::arithmetic::mul::lemma_mul_upper_bound;
use vstd::prelude::*;

use crate::error::SwapError;

verus! {

/// The output a constant-product trade yields: the floor of
/// `reserve_out * amount_in / (reserve_in + amount_in)`.
pub open spec fn cp_amount_out(amount_in: int, reserve_in: int, reserve_out: int) -> int {
    reserve_out * amount_in / (reserve_in + amount_in)
}

/// Dividing by a positive number keeps a lower bound that holds of the
/// dividend: if `d * k <= x` then `k <= x / d`.
proof fn lemma_div_at_least(k: int, x: int, d: int)
    requires
        d > 0,
        d * k <= x,
    ensures
        k <= x / d,
{
    lemma_div_multiples_vanish(k, d);
    lemma_div_is_ordered(d * k, x, d);
}

/// The pool is never drained: with positive reserves the curve's output is
/// strictly below the output reserve, whatever the input amount.
pub proof fn lemma_cp_out_lt_reserve_out(amount_in: int, reserve_in: int, reserve_out: int)
    requires
        amount_in >= 0,
        reserve_in >= 1,
        reserve_out >= 1,
    ensures
        0 <= cp_amount_out(amount_in, reserve_in, reserve_out) < reserve_out,
{
    let s = reserve_in + amount_in;
    assert(reserve_out * amount_in >= 0) by (nonlinear_arith)
        requires
            reserve_out >= 1,
            amount_in >= 0,
    ;
    lemma_div_pos_is_pos(reserve_out * amount_in, s);
    assert(reserve_out * amount_in < s * reserve_out) by (nonlinear_arith)
        requires
            s == reserve_in + amount_in,
            amount_in >= 0,
            reserve_in >= 1,
            reserve_out >= 1,
    ;
    lemma_multiply_divide_lt(reserve_out * amount_in, s, reserve_out);
}

/// The product of the reserves never shrinks across a trade: moving the
/// input amount in and the curve's output out keeps
/// `reserve_in * reserve_out` at least what it was.
pub proof fn lemma_cp_product_monotone(amount_in: int, reserve_in: int, reserve_out: int)
    requires
        amount_in >= 0,
        reserve_in >= 1,
        reserve_out >= 1,
    ensures
        (reserve_in + amount_in) * (reserve_out - cp_amount_out(amount_in, reserve_in, reserve_out))
            >= reserve_in * reserve_out,
{
    let s = reserve_in + amount_in;
    let q = cp_amount_out(amount_in, reserve_in, reserve_out);
    lemma_fundamental_div_mod(reserve_out * amount_in, s);
    lemma_mod_division_less_than_divisor(reserve_out * amount_in, s);
    assert(s * q <= reserve_out * amount_in);
    assert(s * (reserve_out - q) >= reserve_in * reserve_out) by (nonlinear_arith)
        requires
            s == reserve_in + amount_in,
            s * q <= reserve_out * amount_in,
            amount_in >= 0,
            reserve_in >= 1,
            reserve_out >= 1,
    ;
}

/// A larger input never yields a smaller output on the same reserves.
pub proof fn lemma_cp_out_monotone(a1: int, a2: int, reserve_in: int, reserve_out: int)
    requires
        0 <= a1 <= a2,
        reserve_in >= 1,
        reserve_out >= 1,
    ensures
        cp_amount_out(a1, reserve_in, reserve_out) <= cp_amount_out(a2, reserve_in, reserve_out),
{
    let q1 = cp_amount_out(a1, reserve_in, reserve_out);
    lemma_cp_out_lt_reserve_out(a1, reserve_in, reserve_out);
    lemma_fundamental_div_mod(reserve_out * a1, reserve_in + a1);
    lemma_mod_division_less_than_divisor(reserve_out * a1, reserve_in + a1);
    assert((reserve_in + a1) * q1 <= reserve_out * a1);
    assert((reserve_in + a2) * q1 <= reserve_out * a2) by (nonlinear_arith)
        requires
            (reserve_in + a1) * q1 <= reserve_out * a1,
            0 <= q1 <= reserve_out,
            0 <= a1 <= a2,
            reserve_in >= 1,
            reserve_out >= 1,
    ;
    lemma_div_at_least(q1, reserve_out * a2, reserve_in + a2);
}

/// Round trip: trade some net amount one way, then trade any part of the
/// proceeds back on the updated reserves; the second output cannot exceed
/// the original input. Fees only shrink the amounts the curve sees, so
/// a round trip never creates value.
pub proof fn lemma_cp_round_trip(
    original_in: int,
    net1: int,
    reserve_x: int,
    reserve_y: int,
    net2: int,
)
    requires
        reserve_x >= 1,
        reserve_y >= 1,
        0 <= net1 <= original_in,
        0 <= net2 <= cp_amount_out(net1, reserve_x, reserve_y),
    ensures
        cp_amount_out(
            net2,
            reserve_y - cp_amount_out(net1, reserve_x, reserve_y),
            reserve_x + net1,
        ) <= original_in,
{
    let ao1 = cp_amount_out(net1, reserve_x, reserve_y);
    let rx1 = reserve_x + net1;
    let ry1 = reserve_y - ao1;
    lemma_cp_out_lt_reserve_out(net1, reserve_x, reserve_y);
    let ao2 = cp_amount_out(net2, ry1, rx1);
    lemma_cp_out_monotone(net2, ao1, ry1, rx1);
    // The second denominator closes the circle: ry1 + ao1 == reserve_y.
    assert(cp_amount_out(ao1, ry1, rx1) == rx1 * ao1 / reserve_y);
    // The first trade's floor division bounds what the pool paid out.
    lemma_fundamental_div_mod(reserve_y * net1, reserve_x + net1);
    lemma_mod_division_less_than_divisor(reserve_y * net1, reserve_x + net1);
    assert(rx1 * ao1 <= reserve_y * net1);
    assert(reserve_y * net1 == net1 * reserve_y) by (nonlinear_arith);
    lemma_div_is_ordered(rx1 * ao1, reserve_y * net1, reserve_y);
    lemma_div_multiples_vanish(net1, reserve_y);
    assert(rx1 * ao1 / reserve_y <= net1);
}

/// The amount a constant-product trade yields for `amount_in` units of the
/// input token, against positive reserves. Fails with
/// `InsufficientLiquidity` when a reserve is empty or the trade would
/// drain the output reserve; with positive reserves the drain can in fact
/// never happen, and the output is owed.
pub open spec fn spec_swap_output(amount_in: u64, reserve_in: u64, reserve_out: u64) -> Result<
    u64,
    SwapError,
> {
    if reserve_in == 0 || reserve_out == 0 {
        Err(SwapError::InsufficientLiquidity)
    } else {
        let out = cp_amount_out(amount_in as int, reserve_in as int, reserve_out as int);
        if out >= reserve_out {
            Err(SwapError::InsufficientLiquidity)
        } else {
            Ok(out as u64)
        }
    }
}

/// Prices a trade on the constant-product curve, with the multiplication
/// done in 128-bit precision and the result truncated (floored) so that
/// rounding always favours the pool.
pub fn swap_output(amount_in: u64, reserve_in: u64, reserve_out: u64) -> (r: Result<
    u64,
    SwapError,
>)
    ensures
        r == spec_swap_output(amount_in, reserve_in, reserve_out),
        reserve_in > 0 && reserve_out > 0 ==> (r matches Ok(out) && out == cp_amount_out(
            amount_in as int,
            reserve_in as int,
            reserve_out as int,
        ) && out < reserve_out),
        r matches Err(e) ==> (e == SwapError::InsufficientLiquidity && (reserve_in == 0
            || reserve_out == 0)),
{
    if reserve_in == 0 || reserve_out == 0 {
        return Err(SwapError::InsufficientLiquidity);
    }
    proof {
        lemma_mul_upper_bound(
            reserve_out as int,
            u64::MAX as int,
            amount_in as int,
            u64::MAX as int,
        );
        lemma_cp_out_lt_reserve_out(amount_in as int, reserve_in as int, reserve_out as int);
    }
    let num: u128 = (reserve_out as u128) * (amount_in as u128);
    let den: u128 = (reserve_in as u128) + (amount_in as u128);
    let out: u64 = (num / den) as u64;
    if out >= reserve_out {
        return Err(SwapError::InsufficientLiquidity);
    }
    Ok(out)
}

} // verus!
