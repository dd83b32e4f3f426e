use vstd::prelude::*;

use crate::errors::SwapError;
use vstd::arithmetic::div_mod::lemma_div_is_ordered;
use vstd::arithmetic::div_mod::lemma_div_multiples_vanish;
use vstd::arithmetic::div_mod::lemma_div_pos_is_pos;
use vstd::arithmetic::div_mod::lemma_fundamental_div_mod;
use vstd::arithmetic::div_mod::lemma_hoist_over_denominator;
use vstd::arithmetic::div_mod::lemma_mod_division_less_than_divisor;
use vstd::arithmetic::div_mod::lemma_multiply_divide_lt;

verus! {

/// The fee retained from an input of `amount_in` at `fee_rate` basis
/// points: `floor(amount_in * fee_rate / 10000)`.
pub open spec fn spec_fee_amount(amount_in: int, fee_rate: int) -> int {
    amount_in * fee_rate / 10000
}

/// The part of the input that is actually priced: the input less its fee.
/// The fee stays in the pool's vault, which is what makes the constant
/// product grow.
pub open spec fn spec_effective_in(amount_in: int, fee_rate: int) -> int {
    amount_in - spec_fee_amount(amount_in, fee_rate)
}

/// The output the constant-product curve owes for `amount_in`: the
/// largest `amount_out` with
/// `(reserve_in + effective_in) * (reserve_out - amount_out) >= reserve_in * reserve_out`,
/// namely `floor(reserve_out * effective_in / (reserve_in + effective_in))`.
pub open spec fn spec_amount_out(
    amount_in: int,
    reserve_in: int,
    reserve_out: int,
    fee_rate: int,
) -> int {
    reserve_out * spec_effective_in(amount_in, fee_rate) / (reserve_in + spec_effective_in(
        amount_in,
        fee_rate,
    ))
}

/// At a fee rate of at most the whole (10000 basis points), the fee never
/// exceeds the input it is taken from.
pub proof fn lemma_fee_le_amount_in(amount_in: int, fee_rate: int)
    requires
        amount_in >= 0,
        0 <= fee_rate <= 10000,
    ensures
        0 <= spec_fee_amount(amount_in, fee_rate) <= amount_in,
{
    assert(0 <= amount_in * fee_rate && amount_in * fee_rate <= amount_in * 10000)
        by (nonlinear_arith)
        requires
            amount_in >= 0,
            0 <= fee_rate <= 10000,
    ;
    lemma_div_pos_is_pos(amount_in * fee_rate, 10000);
    lemma_div_is_ordered(amount_in * fee_rate, amount_in * 10000, 10000);
    assert(amount_in * 10000 == 10000 * amount_in) by (nonlinear_arith);
    lemma_div_multiples_vanish(amount_in, 10000);
}

/// The pool can never pay out more than it holds: against positive
/// reserves the priced output is strictly below the outgoing reserve.
pub proof fn lemma_no_overdraw(amount_in: int, reserve_in: int, reserve_out: int, fee_rate: int)
    requires
        amount_in >= 0,
        reserve_in >= 1,
        reserve_out >= 1,
        0 <= fee_rate <= 10000,
    ensures
        spec_amount_out(amount_in, reserve_in, reserve_out, fee_rate) < reserve_out,
{
    lemma_fee_le_amount_in(amount_in, fee_rate);
    let e = spec_effective_in(amount_in, fee_rate);
    assert(reserve_out * e < (reserve_in + e) * reserve_out) by (nonlinear_arith)
        requires
            reserve_in >= 1,
            reserve_out >= 1,
            e >= 0,
    ;
    lemma_multiply_divide_lt(reserve_out * e, reserve_in + e, reserve_out);
}

/// A completed swap never shrinks the constant product. With the whole
/// input added to one reserve and the priced output taken from the other,
/// `(reserve_in + amount_in) * (reserve_out - amount_out)` is at least
/// `reserve_in * reserve_out`; it strictly exceeds it whenever a fee of
/// at least one unit is actually retained. At a zero fee rate the product
/// is preserved up to the rounding slack of the floored output: one
/// output unit is worth at most `reserve_in + amount_in` in product
/// terms, so the excess stays below that.
pub proof fn lemma_product_growth(amount_in: int, reserve_in: int, reserve_out: int, fee_rate: int)
    requires
        amount_in >= 0,
        reserve_in >= 1,
        reserve_out >= 1,
        0 <= fee_rate <= 10000,
    ensures
        (reserve_in + amount_in) * (reserve_out - spec_amount_out(
            amount_in,
            reserve_in,
            reserve_out,
            fee_rate,
        )) >= reserve_in * reserve_out,
        spec_fee_amount(amount_in, fee_rate) >= 1 ==> (reserve_in + amount_in) * (reserve_out
            - spec_amount_out(amount_in, reserve_in, reserve_out, fee_rate)) > reserve_in
            * reserve_out,
        fee_rate == 0 ==> (reserve_in + amount_in) * (reserve_out - spec_amount_out(
            amount_in,
            reserve_in,
            reserve_out,
            fee_rate,
        )) < reserve_in * reserve_out + reserve_in + amount_in,
{
    let x = reserve_in;
    let y = reserve_out;
    let fee = spec_fee_amount(amount_in, fee_rate);
    let e = spec_effective_in(amount_in, fee_rate);
    let out = spec_amount_out(amount_in, reserve_in, reserve_out, fee_rate);
    lemma_fee_le_amount_in(amount_in, fee_rate);
    lemma_no_overdraw(amount_in, reserve_in, reserve_out, fee_rate);
    lemma_fundamental_div_mod(y * e, x + e);
    lemma_mod_division_less_than_divisor(y * e, x + e);
    let r = (y * e) % (x + e);
    assert((x + e) * (y - out) == x * y + r) by (nonlinear_arith)
        requires
            y * e == (x + e) * out + r,
    ;
    assert((x + amount_in) * (y - out) == (x + e) * (y - out) + (amount_in - e) * (y - out))
        by (nonlinear_arith);
    assert((amount_in - e) * (y - out) >= 0) by (nonlinear_arith)
        requires
            amount_in >= e,
            y > out,
    ;
    if fee >= 1 {
        assert((amount_in - e) * (y - out) >= 1) by (nonlinear_arith)
            requires
                amount_in - e >= 1,
                y - out >= 1,
        ;
    }
    if fee_rate == 0 {
        assert(amount_in * 0 == 0) by (nonlinear_arith);
        assert(fee == 0) by {
            lemma_div_pos_is_pos(0, 10000);
            lemma_div_is_ordered(0, 0, 10000);
        };
    }
}

/// For one fixed fee rate the effective (priced) part of the input is
/// non-decreasing in the input itself: raising the input by some amount
/// raises the fee by at most that amount.
proof fn lemma_effective_in_monotone(amount_1: int, amount_2: int, fee_rate: int)
    requires
        0 <= amount_1 <= amount_2,
        0 <= fee_rate <= 10000,
    ensures
        spec_effective_in(amount_1, fee_rate) <= spec_effective_in(amount_2, fee_rate),
{
    let d = amount_2 - amount_1;
    assert(amount_2 * fee_rate <= amount_1 * fee_rate + d * 10000) by (nonlinear_arith)
        requires
            fee_rate <= 10000,
            d == amount_2 - amount_1,
            d >= 0,
    ;
    lemma_div_is_ordered(amount_2 * fee_rate, amount_1 * fee_rate + d * 10000, 10000);
    lemma_hoist_over_denominator(amount_1 * fee_rate, d, 10000nat);
}

/// Floored division preserves order across different positive
/// denominators: if `a / b <= c / d` holds of the exact fractions
/// (cross-multiplied, `a * d <= c * b`), it holds of the floored
/// quotients too.
proof fn lemma_div_cross_ordered(a: int, b: int, c: int, d: int)
    requires
        a >= 0,
        c >= 0,
        b >= 1,
        d >= 1,
        a * d <= c * b,
    ensures
        a / b <= c / d,
{
    lemma_fundamental_div_mod(a, b);
    lemma_mod_division_less_than_divisor(a, b);
    lemma_fundamental_div_mod(c, d);
    lemma_mod_division_less_than_divisor(c, d);
    lemma_div_pos_is_pos(a, b);
    lemma_div_pos_is_pos(c, d);
    let q1 = a / b;
    let r1 = a % b;
    let q2 = c / d;
    let r2 = c % d;
    assert(q1 <= q2) by (nonlinear_arith)
        requires
            a == b * q1 + r1,
            0 <= r1 < b,
            c == d * q2 + r2,
            0 <= r2 < d,
            a * d <= c * b,
            b >= 1,
            d >= 1,
            q1 >= 0,
            q2 >= 0,
    ;
}

/// For fixed reserves and fee rate the priced output is non-decreasing
/// in the input amount.
pub proof fn lemma_amount_out_monotone(
    amount_1: int,
    amount_2: int,
    reserve_in: int,
    reserve_out: int,
    fee_rate: int,
)
    requires
        0 <= amount_1 <= amount_2,
        reserve_in >= 1,
        reserve_out >= 1,
        0 <= fee_rate <= 10000,
    ensures
        spec_amount_out(amount_1, reserve_in, reserve_out, fee_rate) <= spec_amount_out(
            amount_2,
            reserve_in,
            reserve_out,
            fee_rate,
        ),
{
    let x = reserve_in;
    let y = reserve_out;
    lemma_fee_le_amount_in(amount_1, fee_rate);
    lemma_effective_in_monotone(amount_1, amount_2, fee_rate);
    let e1 = spec_effective_in(amount_1, fee_rate);
    let e2 = spec_effective_in(amount_2, fee_rate);
    assert((y * e1) * (x + e2) <= (y * e2) * (x + e1)) by (nonlinear_arith)
        requires
            0 <= e1 <= e2,
            x >= 1,
            y >= 1,
    ;
    assert(y * e1 >= 0 && y * e2 >= 0) by (nonlinear_arith)
        requires
            0 <= e1 <= e2,
            y >= 1,
    ;
    lemma_div_cross_ordered(y * e1, x + e1, y * e2, x + e2);
}

/// Price one swap against the constant-product curve.
///
/// The fee is `floor(amount_in * fee_rate / 10000)` and is deducted before
/// pricing; the output is what keeps `reserve_in * reserve_out` from
/// shrinking, rounded down, so the pool always rounds in its own favor.
/// The whole computation is carried out in 128-bit width, so for any fee
/// rate within basis-point range (at most 10000) it succeeds on every
/// input; `ArithmeticOverflow` is reserved for an out-of-range fee rate
/// whose fee would exceed the input itself.
pub fn calculate_swap_amounts(amount_in: u64, reserve_in: u64, reserve_out: u64, fee_rate: u64) -> (r:
    Result<(u64, u64), SwapError>)
    ensures
        r is Ok <==> (reserve_in > 0 && reserve_out > 0 && spec_fee_amount(
            amount_in as int,
            fee_rate as int,
        ) <= amount_in),
        reserve_in == 0 || reserve_out == 0 ==> r == Err::<(u64, u64), SwapError>(
            SwapError::InsufficientLiquidity,
        ),
        reserve_in > 0 && reserve_out > 0 && spec_fee_amount(amount_in as int, fee_rate as int)
            > amount_in ==> r == Err::<(u64, u64), SwapError>(SwapError::ArithmeticOverflow),
        r is Ok ==> r->Ok_0.0 == spec_amount_out(
            amount_in as int,
            reserve_in as int,
            reserve_out as int,
            fee_rate as int,
        ),
        r is Ok ==> r->Ok_0.1 == spec_fee_amount(amount_in as int, fee_rate as int),
        r is Ok ==> r->Ok_0.0 < reserve_out,
        reserve_in > 0 && reserve_out > 0 && fee_rate <= 10000 ==> r is Ok,
{
    if reserve_in == 0 || reserve_out == 0 {
        return Err(SwapError::InsufficientLiquidity);
    }
    proof {
        assert((amount_in as u128) * (fee_rate as u128) <= u128::MAX) by (nonlinear_arith)
            requires
                amount_in <= u64::MAX,
                fee_rate <= u64::MAX,
        ;
    }
    let fee_wide: u128 = (amount_in as u128) * (fee_rate as u128) / 10000;
    if fee_wide > amount_in as u128 {
        proof {
            if fee_rate <= 10000 {
                lemma_fee_le_amount_in(amount_in as int, fee_rate as int);
            }
        }
        return Err(SwapError::ArithmeticOverflow);
    }
    let fee_amount: u64 = fee_wide as u64;
    let effective_in: u64 = amount_in - fee_amount;
    proof {
        assert((reserve_out as u128) * (effective_in as u128) <= u128::MAX) by (nonlinear_arith)
            requires
                reserve_out <= u64::MAX,
                effective_in <= u64::MAX,
        ;
    }
    let numerator: u128 = (reserve_out as u128) * (effective_in as u128);
    let denominator: u128 = (reserve_in as u128) + (effective_in as u128);
    let amount_out_wide: u128 = numerator / denominator;
    proof {
        let x = reserve_in as int;
        let y = reserve_out as int;
        let e = effective_in as int;
        assert(y * e < (x + e) * y) by (nonlinear_arith)
            requires
                x >= 1,
                y >= 1,
                e >= 0,
        ;
        lemma_multiply_divide_lt(y * e, x + e, y);
    }
    let amount_out: u64 = amount_out_wide as u64;
    Ok((amount_out, fee_amount))
}

} // verus!
